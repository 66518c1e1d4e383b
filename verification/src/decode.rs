//! Pixel-level comparison of two encoded images.
//!
//! Decoding is delegated to the `image` crate; this module only compares the
//! decoded pixel content. Two files count as identical when both decode and
//! their dimensions and RGBA pixel data agree exactly — container-format
//! differences are allowed, visual differences are not.

use vstd::prelude::*;

verus! {

/// What the external decoder returns for a given byte sequence: `None` when
/// the bytes are not a decodable image, otherwise the width, height and raw
/// 8-bit RGBA pixel data. Decoding is a function of the bytes alone.
pub uninterp spec fn decode_of(b: Seq<u8>) -> Option<(u32, u32, Seq<u8>)>;

/// Relies on image::load_from_memory and DynamicImage::to_rgba8: decoding a
/// byte buffer to dimensions plus raw 8-bit RGBA pixel data is deterministic
/// in the buffer's bytes, and fails exactly when the bytes are not a
/// decodable image.
#[verifier::external_body]
fn decode_rgba(bytes: &Vec<u8>) -> (r: Option<(u32, u32, Vec<u8>)>)
    ensures
        match r {
            Some((w, h, p)) => decode_of(bytes@) == Some((w, h, p@)),
            None => decode_of(bytes@) is None,
        },
{
    match image::load_from_memory(bytes) {
        Ok(img) => {
            let (w, h) = (img.width(), img.height());
            Some((w, h, img.to_rgba8().into_raw()))
        }
        Err(_) => None,
    }
}

/// Two byte sequences hold the same picture: both decode, to the same
/// dimensions and the same pixel data.
pub open spec fn pixels_equal(a: Seq<u8>, b: Seq<u8>) -> bool {
    decode_of(a) is Some && decode_of(a) == decode_of(b)
}

/// Exact equality of two byte vectors.
pub fn bytes_equal(a: &Vec<u8>, b: &Vec<u8>) -> (r: bool)
    ensures
        r == (a@ == b@),
{
    if a.len() != b.len() {
        return false;
    }
    let mut i: usize = 0;
    while i < a.len()
        invariant
            0 <= i <= a.len(),
            a.len() == b.len(),
            forall|j: int| 0 <= j < i ==> a@[j] == b@[j],
        decreases a.len() - i,
    {
        if a[i] != b[i] {
            return false;
        }
        i += 1;
    }
    proof {
        assert(a@ =~= b@);
    }
    true
}

/// Whether the bytes decode as an image at all.
pub fn is_decodable(b: &Vec<u8>) -> (r: bool)
    ensures
        r == (decode_of(b@) is Some),
{
    decode_rgba(b).is_some()
}

/// Decode both inputs and compare their pixel content for exact equality.
/// Undecodable input on either side counts as not identical.
pub fn images_are_identical(a: &Vec<u8>, b: &Vec<u8>) -> (r: bool)
    ensures
        r == pixels_equal(a@, b@),
{
    let da = decode_rgba(a);
    let db = decode_rgba(b);
    match (da, db) {
        (Some((wa, ha, pa)), Some((wb, hb, pb))) => {
            wa == wb && ha == hb && bytes_equal(&pa, &pb)
        }
        _ => false,
    }
}

} // verus!
