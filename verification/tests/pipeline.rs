use image::codecs::png::{CompressionType, FilterType, PngEncoder};
use image::{ExtendedColorType, ImageEncoder};
use rayon::iter::{IntoParallelRefIterator, ParallelIterator};

use pngopt::decode::{images_are_identical, is_decodable};
use pngopt::engines::{engine_order, EngineInvocation, EngineRunner};
use pngopt::outcome::VerificationOutcome;
use pngopt::schedule::aggregate;
use pngopt::task::{optimize, TaskStatus};

fn encode_png(pixels: &[u8], w: u32, h: u32, c: CompressionType) -> Vec<u8> {
    let mut out: Vec<u8> = Vec::new();
    let enc = PngEncoder::new_with_quality(&mut out, c, FilterType::NoFilter);
    enc.write_image(pixels, w, h, ExtendedColorType::Rgba8).unwrap();
    out
}

/// A smooth RGBA gradient with a non-trivial alpha channel; compresses well.
fn gradient_pixels(w: u32, h: u32, seed: u8) -> Vec<u8> {
    let mut pixels = Vec::with_capacity((w * h * 4) as usize);
    for y in 0..h {
        for x in 0..w {
            pixels.push((x as u8).wrapping_add(seed));
            pixels.push((y as u8).wrapping_mul(3));
            pixels.push(((x + y) as u8).wrapping_add(seed));
            pixels.push(128u8.wrapping_add(x as u8));
        }
    }
    pixels
}

fn decoded(bytes: &[u8]) -> (u32, u32, Vec<u8>) {
    let img = image::load_from_memory(bytes).unwrap();
    (img.width(), img.height(), img.to_rgba8().into_raw())
}

/// A wastefully encoded image, and a smaller encoding of the same pixels.
fn bloated_and_tight() -> (Vec<u8>, Vec<u8>) {
    let pixels = gradient_pixels(32, 32, 0);
    let bloated = encode_png(&pixels, 32, 32, CompressionType::Uncompressed);
    let tight = encode_png(&pixels, 32, 32, CompressionType::Best);
    assert!(tight.len() < bloated.len());
    (bloated, tight)
}

/// Returns the input unchanged and reports success: an engine that can no
/// longer improve the file.
struct NoOpEngine;

impl EngineRunner for NoOpEngine {
    fn invoke(&mut self, _invocation: &EngineInvocation, input: Vec<u8>) -> (bool, Vec<u8>) {
        (true, input)
    }
}

/// Returns the input unchanged but reports failure.
struct FailingNoOpEngine;

impl EngineRunner for FailingNoOpEngine {
    fn invoke(&mut self, _invocation: &EngineInvocation, input: Vec<u8>) -> (bool, Vec<u8>) {
        (false, input)
    }
}

/// Always hands back the same fixed bytes, whatever the input.
struct FixedOutputEngine {
    output: Vec<u8>,
}

impl EngineRunner for FixedOutputEngine {
    fn invoke(&mut self, _invocation: &EngineInvocation, _input: Vec<u8>) -> (bool, Vec<u8>) {
        (true, self.output.clone())
    }
}

/// Decodes the input and re-encodes it at the best compression level: a
/// deterministic, lossless simulated engine.
struct ReencodeBestEngine;

impl EngineRunner for ReencodeBestEngine {
    fn invoke(&mut self, _invocation: &EngineInvocation, input: Vec<u8>) -> (bool, Vec<u8>) {
        match image::load_from_memory(&input) {
            Ok(img) => {
                let (w, h) = (img.width(), img.height());
                let raw = img.to_rgba8().into_raw();
                (true, encode_png(&raw, w, h, CompressionType::Best))
            }
            Err(_) => (false, input),
        }
    }
}

#[test]
fn pixel_comparison_sees_through_the_container_format() {
    let (bloated, tight) = bloated_and_tight();
    // same picture, different encodings: identical
    assert!(images_are_identical(&bloated, &tight));
    // a different picture: not identical
    let other = encode_png(&gradient_pixels(32, 32, 5), 32, 32, CompressionType::Best);
    assert!(!images_are_identical(&bloated, &other));
    // undecodable bytes are never identical to anything
    assert!(!images_are_identical(&vec![0u8, 0, 0, 0], &vec![0u8, 0, 0, 0]));
    assert!(is_decodable(&tight));
    assert!(!is_decodable(&vec![9u8, 9, 9]));
}

#[test]
fn already_minimal_file_converges_after_one_iteration() {
    let (_, tight) = bloated_and_tight();
    let mut engine = NoOpEngine;
    let r = optimize(tight.clone(), &mut engine);
    assert_eq!(r.report.status, TaskStatus::Converged);
    assert_eq!(r.report.iterations, 1);
    assert_eq!(r.report.original_size, tight.len() as u64);
    assert_eq!(r.report.final_size, tight.len() as u64);
    assert_eq!(r.report.size_delta, 0);
    assert_eq!(r.report.percent_delta, 0);
    assert_eq!(r.bytes, tight);
    let order = engine_order();
    assert_eq!(r.events.len(), 4);
    for (k, ev) in r.events.iter().enumerate() {
        assert_eq!(ev.engine, order[k]);
        assert!(ev.invocation_succeeded);
        assert_eq!(ev.outcome, VerificationOutcome::NoGain);
    }
}

#[test]
fn bloated_file_shrinks_losslessly_and_converges() {
    let (bloated, tight) = bloated_and_tight();
    let mut engine = ReencodeBestEngine;
    let r = optimize(bloated.clone(), &mut engine);
    assert_eq!(r.report.status, TaskStatus::Converged);
    // all improvement happens in the first iteration; the second only confirms
    assert_eq!(r.report.iterations, 2);
    assert_eq!(r.bytes, tight);
    assert!(r.report.final_size < r.report.original_size);
    assert!(r.report.size_delta < 0);
    assert!(r.report.percent_delta < 0);
    assert_eq!(r.events[0].outcome, VerificationOutcome::Improved);
    for ev in r.events.iter().skip(1) {
        assert_eq!(ev.outcome, VerificationOutcome::NoGain);
    }
    // losslessness, checked by full decode-compare
    assert_eq!(decoded(&r.bytes), decoded(&bloated));
}

#[test]
fn rerunning_a_converged_file_is_idempotent() {
    let (bloated, _) = bloated_and_tight();
    let mut engine = ReencodeBestEngine;
    let first = optimize(bloated, &mut engine);
    let second = optimize(first.bytes.clone(), &mut engine);
    assert_eq!(second.report.status, TaskStatus::Converged);
    assert_eq!(second.report.iterations, 1);
    assert_eq!(second.report.size_delta, 0);
    assert_eq!(second.report.percent_delta, 0);
    assert_eq!(second.bytes, first.bytes);
    assert_eq!(second.events.len(), 4);
    for ev in second.events.iter() {
        assert_eq!(ev.outcome, VerificationOutcome::NoGain);
    }
}

#[test]
fn pixel_altering_but_smaller_candidate_is_rolled_back() {
    let (bloated, _) = bloated_and_tight();
    // different pixels, much smaller file
    let corrupt = encode_png(&gradient_pixels(8, 8, 99), 8, 8, CompressionType::Best);
    assert!(corrupt.len() < bloated.len());
    let mut engine = FixedOutputEngine { output: corrupt };
    let r = optimize(bloated.clone(), &mut engine);
    assert_eq!(r.report.status, TaskStatus::Converged);
    assert_eq!(r.report.iterations, 1);
    assert_eq!(r.report.size_delta, 0);
    // the baseline's exact bytes survive every rollback
    assert_eq!(r.bytes, bloated);
    assert_eq!(r.events.len(), 4);
    for ev in r.events.iter() {
        assert_eq!(ev.outcome, VerificationOutcome::Corrupted);
    }
}

#[test]
fn pixel_altering_and_larger_candidate_aborts_the_task() {
    let (bloated, _) = bloated_and_tight();
    // different pixels and a larger file: an engine defect
    let bogus = encode_png(&gradient_pixels(48, 48, 7), 48, 48, CompressionType::Uncompressed);
    assert!(bogus.len() > bloated.len());
    let mut engine = FixedOutputEngine { output: bogus };
    let r = optimize(bloated.clone(), &mut engine);
    assert_eq!(r.report.status, TaskStatus::Aborted);
    assert_ne!(r.report.status, TaskStatus::Converged);
    assert_eq!(r.report.iterations, 1);
    assert_eq!(r.events.len(), 1);
    assert_eq!(r.events[0].outcome, VerificationOutcome::Invalid);
    // the baseline is untouched
    assert_eq!(r.bytes, bloated);
    assert_eq!(r.report.final_size, r.report.original_size);
}

#[test]
fn undecodable_input_is_left_untouched() {
    let junk = vec![1u8, 2, 3, 4, 5];
    let mut engine = NoOpEngine;
    let r = optimize(junk.clone(), &mut engine);
    assert_eq!(r.report.status, TaskStatus::Undecodable);
    assert_eq!(r.report.iterations, 0);
    assert_eq!(r.report.size_delta, 0);
    assert_eq!(r.bytes, junk);
    assert!(r.events.is_empty());
}

#[test]
fn engine_invocation_failure_is_tolerated_but_logged() {
    let (_, tight) = bloated_and_tight();
    let mut engine = FailingNoOpEngine;
    let r = optimize(tight.clone(), &mut engine);
    // verification still ran against the unchanged working copy
    assert_eq!(r.report.status, TaskStatus::Converged);
    assert_eq!(r.report.size_delta, 0);
    assert_eq!(r.bytes, tight);
    for ev in r.events.iter() {
        assert!(!ev.invocation_succeeded);
        assert_eq!(ev.outcome, VerificationOutcome::NoGain);
    }
}

#[test]
fn worker_pool_size_does_not_change_any_result() {
    let files: Vec<Vec<u8>> = (0..6u8)
        .map(|seed| {
            let pixels = gradient_pixels(24 + seed as u32, 24, seed);
            encode_png(&pixels, 24 + seed as u32, 24, CompressionType::Uncompressed)
        })
        .collect();
    // pool of one: strictly sequential
    let sequential: Vec<_> = files
        .iter()
        .map(|f| {
            let mut engine = ReencodeBestEngine;
            optimize(f.clone(), &mut engine)
        })
        .collect();
    // one worker per file
    let parallel: Vec<_> = files
        .par_iter()
        .map(|f| {
            let mut engine = ReencodeBestEngine;
            optimize(f.clone(), &mut engine)
        })
        .collect();
    for (s, p) in sequential.iter().zip(parallel.iter()) {
        assert_eq!(s.report, p.report);
        assert_eq!(s.bytes, p.bytes);
    }
    let seq_reports: Vec<_> = sequential.iter().map(|r| r.report).collect();
    let par_reports: Vec<_> = parallel.iter().map(|r| r.report).collect();
    assert_eq!(aggregate(&seq_reports), aggregate(&par_reports));
    // completion order does not change the totals either
    let mut reversed = seq_reports.clone();
    reversed.reverse();
    assert_eq!(aggregate(&seq_reports), aggregate(&reversed));
}
