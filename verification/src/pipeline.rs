//! The fixed sequence of external toolchain passes a build runs, and how the
//! outcome of each pass is judged.
//!
//! The plan is computed once from the two feature flags; the passes run in
//! order and the first unsuccessful one aborts everything after it.

use vstd::prelude::*;

use crate::ascii::{ascii_bytes, bytes_of, wrap_bytes};
use crate::config::{
    main_file_name, main_tex_file, output_directory, spec_main_file_name, spec_main_tex_file,
    spec_output_directory,
};
use crate::logs::Log;

verus! {

/// One external toolchain invocation.
#[derive(Clone, Copy, PartialEq, Eq, Structural, Debug)]
pub enum Pass {
    /// The typesetting tool, producing the output document.
    Typeset,
    /// The glossary-compilation tool.
    Glossary,
    /// The bibliography-compilation tool.
    Bibliography,
}

/// A program to spawn together with its arguments.
pub struct ShellCommand {
    pub program: Vec<u8>,
    pub args: Vec<Vec<u8>>,
}

/// The name of the executable a pass runs.
pub open spec fn spec_pass_program(p: Pass) -> Seq<u8> {
    match p {
        Pass::Typeset => ascii_bytes("pdflatex"@),
        Pass::Glossary => ascii_bytes("makeglossaries"@),
        Pass::Bibliography => ascii_bytes("biber"@),
    }
}

/// The arguments a pass runs with. They are relative to the project root,
/// which is the working directory of every pass.
pub open spec fn spec_pass_args(p: Pass) -> Seq<Seq<u8>> {
    match p {
        Pass::Typeset => seq![
            ascii_bytes("-halt-on-error"@),
            ascii_bytes("-output-directory"@),
            spec_output_directory(),
            spec_main_tex_file(),
        ],
        Pass::Glossary => seq![
            ascii_bytes("-d"@),
            spec_output_directory(),
            spec_main_file_name(),
        ],
        Pass::Bibliography => seq![
            ascii_bytes("--input-directory"@),
            spec_output_directory(),
            ascii_bytes("--output-directory"@),
            spec_output_directory(),
            spec_main_file_name(),
        ],
    }
}

/// The executable name of a pass, as bytes.
pub fn pass_program(p: Pass) -> (r: Vec<u8>)
    ensures
        r@ == spec_pass_program(p),
{
    proof {
        reveal_strlit("pdflatex");
        reveal_strlit("makeglossaries");
        reveal_strlit("biber");
    }
    match p {
        Pass::Typeset => bytes_of("pdflatex"),
        Pass::Glossary => bytes_of("makeglossaries"),
        Pass::Bibliography => bytes_of("biber"),
    }
}

/// The whole command line of a pass.
pub fn pass_command(p: Pass) -> (r: ShellCommand)
    ensures
        r.program@ == spec_pass_program(p),
        r.args@.map_values(|a: Vec<u8>| a@) == spec_pass_args(p),
{
    proof {
        reveal_strlit("-halt-on-error");
        reveal_strlit("-output-directory");
        reveal_strlit("-d");
        reveal_strlit("--input-directory");
        reveal_strlit("--output-directory");
    }
    let program = pass_program(p);
    let mut args: Vec<Vec<u8>> = Vec::new();
    match p {
        Pass::Typeset => {
            args.push(bytes_of("-halt-on-error"));
            args.push(bytes_of("-output-directory"));
            args.push(output_directory());
            args.push(main_tex_file());
        },
        Pass::Glossary => {
            args.push(bytes_of("-d"));
            args.push(output_directory());
            args.push(main_file_name());
        },
        Pass::Bibliography => {
            args.push(bytes_of("--input-directory"));
            args.push(output_directory());
            args.push(bytes_of("--output-directory"));
            args.push(output_directory());
            args.push(main_file_name());
        },
    }
    proof {
        assert(args@.map_values(|a: Vec<u8>| a@) =~= spec_pass_args(p));
    }
    ShellCommand { program, args }
}

/// The passes a build runs, in order: one typesetting pass always; the
/// glossary and bibliography passes as the flags ask; a second typesetting
/// pass exactly when one of the two ran in between.
pub open spec fn spec_plan(has_glossary: bool, has_bibliography: bool) -> Seq<Pass> {
    seq![Pass::Typeset] + (if has_glossary {
        seq![Pass::Glossary]
    } else {
        Seq::empty()
    }) + (if has_bibliography {
        seq![Pass::Bibliography]
    } else {
        Seq::empty()
    }) + (if has_glossary || has_bibliography {
        seq![Pass::Typeset]
    } else {
        Seq::empty()
    })
}

/// Computes the sequence of passes for the given feature flags.
pub fn plan_passes(has_glossary: bool, has_bibliography: bool) -> (r: Vec<Pass>)
    ensures
        r@ == spec_plan(has_glossary, has_bibliography),
{
    let mut r: Vec<Pass> = Vec::new();
    r.push(Pass::Typeset);
    if has_glossary {
        r.push(Pass::Glossary);
    }
    if has_bibliography {
        r.push(Pass::Bibliography);
    }
    if has_glossary || has_bibliography {
        r.push(Pass::Typeset);
    }
    proof {
        assert(r@ =~= spec_plan(has_glossary, has_bibliography));
    }
    r
}

/// What one spawned process ended with: whether it succeeded, its exit code
/// if it had one, and its captured output.
pub struct ShellOutcome {
    pub success: bool,
    pub code: Option<i32>,
    pub stdout: Vec<u8>,
    pub stderr: Vec<u8>,
}

/// Decimal digits of a natural number.
pub open spec fn spec_dec_nat(n: nat) -> Seq<u8>
    decreases n,
{
    if n < 10 {
        seq![(48 + n) as u8]
    } else {
        spec_dec_nat(n / 10).push((48 + n % 10) as u8)
    }
}

/// The exit code shown in a failure report: the code itself, or -1 when the
/// process ended without one.
pub open spec fn spec_exit_code_bytes(code: Option<i32>) -> Seq<u8> {
    let v: int = match code {
        Some(c) => c as int,
        None => -1,
    };
    if v < 0 {
        seq![45u8] + spec_dec_nat((-v) as nat)
    } else {
        spec_dec_nat(v as nat)
    }
}

/// Decimal digits of `n`, most significant first.
fn dec_u64(n: u64) -> (r: Vec<u8>)
    ensures
        r@ == spec_dec_nat(n as nat),
{
    let mut out: Vec<u8> = Vec::new();
    let mut cur = n;
    while cur >= 10
        invariant
            spec_dec_nat(n as nat) == spec_dec_nat(cur as nat) + out@,
        decreases cur,
    {
        let d: u8 = 48 + (cur % 10) as u8;
        proof {
            let prev = cur as nat;
            assert(spec_dec_nat(prev) == spec_dec_nat(prev / 10).push(d));
            assert(spec_dec_nat(prev / 10).push(d) + out@ =~= spec_dec_nat(prev / 10) + (seq![d]
                + out@));
        }
        out.insert(0, d);
        cur = cur / 10;
    }
    let d: u8 = 48 + cur as u8;
    proof {
        assert(spec_dec_nat(cur as nat) == seq![d]);
        assert(seq![d] + out@ =~= spec_dec_nat(cur as nat) + out@);
    }
    out.insert(0, d);
    out
}

/// The bytes an exit code is reported as.
pub fn exit_code_bytes(code: Option<i32>) -> (r: Vec<u8>)
    ensures
        r@ == spec_exit_code_bytes(code),
{
    let v: i64 = match code {
        Some(c) => c as i64,
        None => -1,
    };
    if v < 0 {
        let mut r: Vec<u8> = Vec::new();
        r.push(45);
        let digits = dec_u64((-v) as u64);
        r.extend_from_slice(digits.as_slice());
        proof {
            assert(r@ =~= spec_exit_code_bytes(code));
        }
        r
    } else {
        dec_u64(v as u64)
    }
}

/// The report for a pass that ran and ended unsuccessfully: the executable's
/// name, the exit code, and the captured output, verbatim.
pub open spec fn msg_command_failed(
    prog: Seq<u8>,
    code: Option<i32>,
    out: Seq<u8>,
    err: Seq<u8>,
) -> Seq<u8> {
    ascii_bytes("Command `"@) + prog + ascii_bytes("` failed with exit code "@)
        + spec_exit_code_bytes(code) + ascii_bytes(".\n"@) + out + ascii_bytes("\n"@) + err
}

/// The report for a pass whose process could not be started at all.
pub open spec fn msg_spawn_failed(prog: Seq<u8>, detail: Seq<u8>) -> Seq<u8> {
    ascii_bytes("Failed to spawn command `"@) + prog + ascii_bytes("`:\n"@) + detail
}

/// The error for a process that could not be started.
pub fn spawn_error(program: &Vec<u8>, detail: &Vec<u8>) -> (r: Log)
    ensures
        r matches Log::ShellCommandError(m) && m@ == msg_spawn_failed(program@, detail@),
{
    proof {
        reveal_strlit("Failed to spawn command `");
        reveal_strlit("`:\n");
    }
    let mut m = wrap_bytes("Failed to spawn command `", program, "`:\n");
    m.extend_from_slice(detail.as_slice());
    proof {
        assert(m@ =~= msg_spawn_failed(program@, detail@));
    }
    Log::ShellCommandError(m)
}

/// Judges what one pass ended with: success passes through, anything else
/// becomes the fatal report with name, code and captured output.
pub fn check_command_outcome(program: &Vec<u8>, outcome: &ShellOutcome) -> (r: Result<(), Log>)
    ensures
        outcome.success ==> r is Ok,
        !outcome.success ==> (r matches Err(Log::ShellCommandError(m)) && m@ == msg_command_failed(
            program@,
            outcome.code,
            outcome.stdout@,
            outcome.stderr@,
        )),
{
    if outcome.success {
        return Ok(());
    }
    proof {
        reveal_strlit("Command `");
        reveal_strlit("` failed with exit code ");
        reveal_strlit(".\n");
        reveal_strlit("\n");
    }
    let mut m = wrap_bytes("Command `", program, "` failed with exit code ");
    let code = exit_code_bytes(outcome.code);
    m.extend_from_slice(code.as_slice());
    let dot = bytes_of(".\n");
    m.extend_from_slice(dot.as_slice());
    m.extend_from_slice(outcome.stdout.as_slice());
    let nl = bytes_of("\n");
    m.extend_from_slice(nl.as_slice());
    m.extend_from_slice(outcome.stderr.as_slice());
    proof {
        assert(m@ =~= msg_command_failed(program@, outcome.code, outcome.stdout@, outcome.stderr@));
    }
    Err(Log::ShellCommandError(m))
}

/// A failure report names the failing executable and carries both captured
/// output streams, each as one contiguous run of the message.
pub proof fn lemma_failure_report_is_complete(
    prog: Seq<u8>,
    code: Option<i32>,
    out: Seq<u8>,
    err: Seq<u8>,
)
    ensures
        crate::ascii::contains_bytes(msg_command_failed(prog, code, out, err), prog),
        crate::ascii::contains_bytes(msg_command_failed(prog, code, out, err), out),
        crate::ascii::contains_bytes(msg_command_failed(prog, code, out, err), err),
{
    let m = msg_command_failed(prog, code, out, err);
    let a = ascii_bytes("Command `"@);
    let b = ascii_bytes("` failed with exit code "@) + spec_exit_code_bytes(code) + ascii_bytes(
        ".\n"@,
    );
    let c = ascii_bytes("\n"@);
    assert(m.subrange(a.len() as int, a.len() + prog.len() as int) =~= prog);
    assert(m.subrange(
        a.len() + prog.len() + b.len() as int,
        a.len() + prog.len() + b.len() + out.len() as int,
    ) =~= out);
    assert(m.subrange(m.len() - err.len() as int, m.len() as int) =~= err);
}

/// Index of the first pass whose outcome was unsuccessful, or -1 when every
/// outcome succeeded.
pub open spec fn first_fail(outs: Seq<ShellOutcome>) -> int
    decreases outs.len(),
{
    if outs.len() == 0 {
        -1
    } else if !outs[0].success {
        0
    } else {
        let t = first_fail(outs.drop_first());
        if t == -1 {
            -1
        } else {
            t + 1
        }
    }
}

/// What `first_fail` returns: -1 exactly when every outcome succeeded, and
/// otherwise the first unsuccessful position.
pub proof fn lemma_first_fail(outs: Seq<ShellOutcome>)
    ensures
        -1 <= first_fail(outs) < outs.len(),
        first_fail(outs) == -1 ==> forall|j: int| 0 <= j < outs.len() ==> outs[j].success,
        first_fail(outs) >= 0 ==> first_fail(outs) < outs.len() && !outs[first_fail(
            outs,
        )].success && forall|j: int| 0 <= j < first_fail(outs) ==> outs[j].success,
        (exists|j: int| 0 <= j < outs.len() && !outs[j].success) ==> first_fail(outs) >= 0,
    decreases outs.len(),
{
    if outs.len() == 0 {
    } else if !outs[0].success {
    } else {
        let tail = outs.drop_first();
        lemma_first_fail(tail);
        assert(forall|j: int| 0 <= j < tail.len() ==> tail[j] == outs[j + 1]);
        let t = first_fail(tail);
        if t == -1 {
            assert forall|j: int| 0 <= j < outs.len() implies outs[j].success by {
                if j >= 1 {
                    assert(tail[j - 1].success);
                }
            }
        } else {
            assert(first_fail(outs) == t + 1);
            assert(!outs[t + 1].success) by {
                assert(!tail[t].success);
            }
            assert forall|j: int| 0 <= j < first_fail(outs) implies outs[j].success by {
                if j >= 1 {
                    assert(tail[j - 1].success);
                }
            }
        }
        if exists|j: int| 0 <= j < outs.len() && !outs[j].success {
            let j0 = choose|j: int| 0 <= j < outs.len() && !outs[j].success;
            assert(j0 >= 1);
            assert(!tail[j0 - 1].success);
        }
    }
}

/// Runs a plan against the recorded outcome of each pass: passes are taken
/// in order, and the first unsuccessful one ends the run with its report,
/// before any later pass is reached. Returns how many passes ran and the
/// overall result.
pub fn run_planned(plan: &Vec<Pass>, outcomes: &Vec<ShellOutcome>) -> (r: (usize, Result<
    (),
    Log,
>))
    requires
        outcomes@.len() == plan@.len(),
    ensures
        first_fail(outcomes@) == -1 ==> r.0 == plan@.len() && r.1 is Ok,
        first_fail(outcomes@) >= 0 ==> ({
            let k = first_fail(outcomes@);
            &&& r.0 == k + 1
            &&& r.1 matches Err(Log::ShellCommandError(m)) && m@ == msg_command_failed(
                spec_pass_program(plan@[k]),
                outcomes@[k].code,
                outcomes@[k].stdout@,
                outcomes@[k].stderr@,
            )
        }),
{
    let mut i: usize = 0;
    while i < plan.len()
        invariant
            0 <= i <= plan@.len(),
            outcomes@.len() == plan@.len(),
            forall|j: int| 0 <= j < i ==> outcomes@[j].success,
        decreases plan@.len() - i,
    {
        if !outcomes[i].success {
            let program = pass_program(plan[i]);
            let res = check_command_outcome(&program, &outcomes[i]);
            proof {
                lemma_first_fail(outcomes@);
                assert(first_fail(outcomes@) >= 0) by {
                    assert(!outcomes@[i as int].success);
                }
                let k = first_fail(outcomes@);
                assert(k == i) by {
                    if k < i {
                        assert(outcomes@[k].success);
                    }
                    if k > i {
                        assert(outcomes@[i as int].success);
                    }
                }
            }
            match res {
                Err(e) => {
                    return (i + 1, Err(e));
                },
                Ok(_) => {
                    proof {
                        assert(false);
                    }
                    return (i + 1, Ok(()));
                },
            }
        }
        i = i + 1;
    }
    proof {
        lemma_first_fail(outcomes@);
        assert(first_fail(outcomes@) == -1) by {
            if first_fail(outcomes@) >= 0 {
                assert(outcomes@[first_fail(outcomes@)].success);
            }
        }
    }
    (plan.len(), Ok(()))
}

} // verus!
