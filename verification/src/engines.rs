//! The fixed pipeline of external compression engines: which programs are
//! run, with which arguments, in which order, and whether a step wants the
//! working copy freshly re-copied from the baseline first.

use vstd::prelude::*;

verus! {

/// The four engines of the pipeline, in their fixed execution order.
#[derive(Clone, Copy, Debug, PartialEq, Eq, Structural)]
pub enum EngineId {
    /// Metadata strip and forced 8-bit RGBA recolor pass.
    Imagemagick,
    /// General-purpose PNG optimizer pass.
    Optipng,
    /// Multi-level deflate-retry pass over increasing effort levels.
    Advpng,
    /// Dedicated PNG re-packer pass.
    Oxipng,
}

/// One external command of an engine step: the program to invoke and its
/// fixed flags. The caller appends the file paths the command operates on.
pub struct EngineInvocation {
    pub program: &'static str,
    pub args: Vec<&'static str>,
}

/// The engines in the order one iteration runs them.
pub fn engine_order() -> (r: Vec<EngineId>)
    ensures
        r@ == seq![
            EngineId::Imagemagick,
            EngineId::Optipng,
            EngineId::Advpng,
            EngineId::Oxipng,
        ],
{
    let mut v: Vec<EngineId> = Vec::new();
    v.push(EngineId::Imagemagick);
    v.push(EngineId::Optipng);
    v.push(EngineId::Advpng);
    v.push(EngineId::Oxipng);
    proof {
        assert(v@ =~= seq![
            EngineId::Imagemagick,
            EngineId::Optipng,
            EngineId::Advpng,
            EngineId::Oxipng,
        ]);
    }
    v
}

/// The program name an engine's commands invoke.
pub open spec fn program_spec(e: EngineId) -> Seq<char> {
    match e {
        EngineId::Imagemagick => "convert"@,
        EngineId::Optipng => "optipng"@,
        EngineId::Advpng => "advpng"@,
        EngineId::Oxipng => "oxipng"@,
    }
}

/// The program name an engine's commands invoke.
pub fn engine_program(e: EngineId) -> (r: &'static str)
    ensures
        r@ == program_spec(e),
{
    match e {
        EngineId::Imagemagick => "convert",
        EngineId::Optipng => "optipng",
        EngineId::Advpng => "advpng",
        EngineId::Oxipng => "oxipng",
    }
}

/// Whether the engine wants the working copy re-copied fresh from the
/// baseline before it runs. The deflate-retry pass instead chains on
/// whatever the previous engine left in the working copy.
pub open spec fn fresh_copy_spec(e: EngineId) -> bool {
    match e {
        EngineId::Advpng => false,
        _ => true,
    }
}

/// Whether the engine wants the working copy re-copied fresh from the
/// baseline before it runs.
pub fn needs_fresh_copy(e: EngineId) -> (r: bool)
    ensures
        r == fresh_copy_spec(e),
{
    match e {
        EngineId::Advpng => false,
        _ => true,
    }
}

/// The flag lists of an engine step's commands, one entry per external
/// command the step issues. Only the deflate-retry pass issues more than one
/// command: one per effort level, low to high.
pub open spec fn invocation_args_spec(e: EngineId) -> Seq<Seq<Seq<char>>> {
    match e {
        EngineId::Imagemagick => seq![seq!["-strip"@, "-define"@, "png:color-type=6"@]],
        EngineId::Optipng => seq![seq!["-q"@, "-o5"@, "-nb"@, "-nc"@, "-np"@]],
        EngineId::Advpng => seq![
            seq!["-z"@, "-1"@],
            seq!["-z"@, "-2"@],
            seq!["-z"@, "-3"@],
            seq!["-z"@, "-4"@],
        ],
        EngineId::Oxipng => seq![seq!["--nc"@, "--np"@, "-o6"@, "--quiet"@]],
    }
}

/// The views of a flag vector, for stating what a built `Vec<&str>` holds.
pub open spec fn args_view(v: Seq<&'static str>) -> Seq<Seq<char>> {
    v.map_values(|s: &'static str| s@)
}

/// The commands one engine step issues, in order. Every command names the
/// same program; overall step success requires every command to succeed.
pub fn engine_invocations(e: EngineId) -> (r: Vec<EngineInvocation>)
    ensures
        r@.len() == invocation_args_spec(e).len(),
        forall|i: int|
            0 <= i < r@.len() ==> #[trigger] r@[i].program@ == program_spec(e)
                && args_view(r@[i].args@) == invocation_args_spec(e)[i],
{
    let program = engine_program(e);
    let mut r: Vec<EngineInvocation> = Vec::new();
    match e {
        EngineId::Imagemagick => {
            let mut args: Vec<&'static str> = Vec::new();
            args.push("-strip");
            args.push("-define");
            args.push("png:color-type=6");
            proof {
                assert(args_view(args@) =~= invocation_args_spec(e)[0]);
            }
            r.push(EngineInvocation { program, args });
        }
        EngineId::Optipng => {
            let mut args: Vec<&'static str> = Vec::new();
            args.push("-q");
            args.push("-o5");
            args.push("-nb");
            args.push("-nc");
            args.push("-np");
            proof {
                assert(args_view(args@) =~= invocation_args_spec(e)[0]);
            }
            r.push(EngineInvocation { program, args });
        }
        EngineId::Advpng => {
            let mut a1: Vec<&'static str> = Vec::new();
            a1.push("-z");
            a1.push("-1");
            let mut a2: Vec<&'static str> = Vec::new();
            a2.push("-z");
            a2.push("-2");
            let mut a3: Vec<&'static str> = Vec::new();
            a3.push("-z");
            a3.push("-3");
            let mut a4: Vec<&'static str> = Vec::new();
            a4.push("-z");
            a4.push("-4");
            proof {
                assert(args_view(a1@) =~= invocation_args_spec(e)[0]);
                assert(args_view(a2@) =~= invocation_args_spec(e)[1]);
                assert(args_view(a3@) =~= invocation_args_spec(e)[2]);
                assert(args_view(a4@) =~= invocation_args_spec(e)[3]);
            }
            r.push(EngineInvocation { program, args: a1 });
            r.push(EngineInvocation { program, args: a2 });
            r.push(EngineInvocation { program, args: a3 });
            r.push(EngineInvocation { program, args: a4 });
        }
        EngineId::Oxipng => {
            let mut args: Vec<&'static str> = Vec::new();
            args.push("--nc");
            args.push("--np");
            args.push("-o6");
            args.push("--quiet");
            proof {
                assert(args_view(args@) =~= invocation_args_spec(e)[0]);
            }
            r.push(EngineInvocation { program, args });
        }
    }
    r
}

/// The harmless probe argument the availability gate passes to each engine.
pub fn probe_arg() -> (r: &'static str)
    ensures
        r@ == "--help"@,
{
    "--help"
}

/// All entries of a vector of success flags are true.
pub fn all_true(v: &Vec<bool>) -> (r: bool)
    ensures
        r == (forall|i: int| 0 <= i < v@.len() ==> v@[i]),
{
    let mut i: usize = 0;
    while i < v.len()
        invariant
            0 <= i <= v@.len(),
            forall|j: int| 0 <= j < i ==> v@[j],
        decreases v@.len() - i,
    {
        if !v[i] {
            return false;
        }
        i += 1;
    }
    true
}

/// Given one probe-success flag per required engine, the index of the first
/// engine whose probe failed, or `None` when every engine responded.
pub fn first_unavailable(probe_ok: &Vec<bool>) -> (r: Option<usize>)
    ensures
        match r {
            Some(i) => i < probe_ok@.len() && !probe_ok@[i as int] && forall|j: int|
                0 <= j < i ==> probe_ok@[j],
            None => forall|i: int| 0 <= i < probe_ok@.len() ==> probe_ok@[i],
        },
{
    let mut i: usize = 0;
    while i < probe_ok.len()
        invariant
            0 <= i <= probe_ok@.len(),
            forall|j: int| 0 <= j < i ==> probe_ok@[j],
        decreases probe_ok@.len() - i,
    {
        if !probe_ok[i] {
            return Some(i);
        }
        i += 1;
    }
    None
}

/// The executor of one external engine command: it is handed the command and
/// the working copy's current bytes, and reports the command's success
/// together with the bytes the working copy holds afterwards. Implementors
/// perform the process and file I/O; the optimizer trusts nothing about the
/// result and verifies every candidate itself.
pub trait EngineRunner {
    fn invoke(&mut self, invocation: &EngineInvocation, input: Vec<u8>) -> (bool, Vec<u8>);
}

} // verus!
