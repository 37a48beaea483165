//! The execution service: interprets the result of a remote run or lint of
//! the current workspace's code, and the early-abort policy of batch
//! linting.

use vstd::prelude::*;

use crate::errors::Error;
use crate::render::render_all;
use crate::script::{Diagnostic, ExecutionResult, HomescriptData};
use crate::text::{dec_digits_signed, trim_end_spec};

verus! {

/// What a successful run reports: the exit code, and the output (trimmed of
/// trailing whitespace) when there is any.
pub open spec fn run_success_message(result: ExecutionResult) -> Seq<char> {
    "program completed with exit-code "@ + dec_digits_signed(result.exit_code as int) + "."@ + (
    if result.output@.len() > 0 {
        "\n"@ + trim_end_spec(result.output@)
    } else {
        Seq::<char>::empty()
    })
}

/// What a successful lint reports: that nothing is wrong, plus any
/// non-fatal findings rendered against the submitted code.
pub open spec fn lint_success_message(code: Seq<char>, result: ExecutionResult) -> Seq<char> {
    "linting discovered no problems."@ + "\n"@ + render_all(
        result.diagnostics@,
        code,
        result.file_contents@,
        "\n\n"@,
    )
}

/// Interprets one execution result. A success yields the report to print; a
/// failure yields `LintErrors` when the request was a lint (the code is
/// merely unclean, never fatal) and `RunErrors` when the script itself
/// faulted, both carrying everything needed to render the diagnostics.
pub fn classify_execution(code: &String, result: ExecutionResult, lint: bool) -> (r: Result<
    String,
    Error,
>)
    ensures
        match r {
            Ok(msg) => result.success && msg@ == if lint {
                lint_success_message(code@, result)
            } else {
                run_success_message(result)
            },
            Err(e) => !result.success && match e {
                Error::LintErrors { diagnostics, code: ecode, file_contents } => lint
                    && diagnostics == result.diagnostics && ecode == *code && file_contents
                    == result.file_contents,
                Error::RunErrors { diagnostics, code: ecode, file_contents } => !lint
                    && diagnostics == result.diagnostics && ecode == *code && file_contents
                    == result.file_contents,
                _ => false,
            },
        },
{
    if result.success {
        if lint {
            let mut msg = String::new();
            msg.append("linting discovered no problems.");
            msg.append("\n");
            msg.append(
                crate::render::render(&result.diagnostics, code, &result.file_contents, "\n\n")
                    .as_str(),
            );
            proof {
                assert(msg@ =~= lint_success_message(code@, result));
            }
            Ok(msg)
        } else {
            let mut msg = String::new();
            msg.append("program completed with exit-code ");
            msg.append(crate::text::i32_to_string(result.exit_code).as_str());
            msg.append(".");
            if !result.output.as_str().is_empty() {
                msg.append("\n");
                msg.append(crate::text::trim_end(result.output.as_str()).as_str());
            }
            proof {
                assert(msg@ =~= run_success_message(result));
            }
            Ok(msg)
        }
    } else if lint {
        Err(
            Error::LintErrors {
                diagnostics: result.diagnostics,
                code: code.clone(),
                file_contents: result.file_contents,
            },
        )
    } else {
        Err(
            Error::RunErrors {
                diagnostics: result.diagnostics,
                code: code.clone(),
                file_contents: result.file_contents,
            },
        )
    }
}

/// Whether a batch lint stops after this script: it does as soon as one
/// diagnostic is severe (a syntax error, or a finding at or above
/// [`crate::script::ERROR_LEVEL`]), to avoid flooding the output when the
/// underlying issue is systemic. Stopping early is a policy choice, not a
/// requirement of the sync model; continuing would merely print more
/// reports.
pub fn should_abort(diagnostics: &Vec<Diagnostic>) -> (r: bool)
    ensures
        r == exists|i: int|
            0 <= i < diagnostics@.len() && (#[trigger] diagnostics@[i].severity).is_severe_spec(),
{
    let n = diagnostics.len();
    let mut i: usize = 0;
    while i < n
        invariant
            i <= n,
            n == diagnostics@.len(),
            forall|j: int|
                0 <= j < i ==> !(#[trigger] diagnostics@[j].severity).is_severe_spec(),
        decreases n - i,
    {
        if diagnostics[i].severity.is_severe() {
            return true;
        }
        i = i + 1;
    }
    false
}

/// The report of one script in a batch lint: a header naming the script,
/// then its findings rendered against its own remote code.
pub open spec fn lint_report_spec(script: HomescriptData, result: ExecutionResult) -> Seq<char> {
    "\x1b[1;32m=== "@ + script.id@ + " / "@ + script.name@ + " === \x1b[0m \n"@ + render_all(
        result.diagnostics@,
        script.code@,
        result.file_contents@,
        "\n\n"@,
    )
}

/// Renders one script's entry of a batch lint.
pub fn lint_report(script: &HomescriptData, result: &ExecutionResult) -> (r: String)
    ensures
        r@ == lint_report_spec(*script, *result),
{
    let mut msg = String::new();
    msg.append("\x1b[1;32m=== ");
    msg.append(script.id.as_str());
    msg.append(" / ");
    msg.append(script.name.as_str());
    msg.append(" === \x1b[0m \n");
    msg.append(
        crate::render::render(&result.diagnostics, &script.code, &result.file_contents, "\n\n")
            .as_str(),
    );
    proof {
        assert(msg@ =~= lint_report_spec(*script, *result));
    }
    msg
}

} // verus!
