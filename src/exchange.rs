use vstd::prelude::*;
use vstd::utf8::{decode_utf8, valid_utf8};

use crate::error::{text_result_view, unit_result_view, ExchangeError, ExchangeErrorView};

verus! {

/// Relies on `String::from_utf8`: it succeeds exactly when the bytes are
/// valid UTF-8, and the string then holds those bytes.
#[verifier::external_body]
fn utf8_text(bytes: Vec<u8>) -> (r: Option<String>)
    ensures
        r is Some <==> valid_utf8(bytes@),
        r is Some ==> r->Some_0@ == decode_utf8(bytes@),
{
    String::from_utf8(bytes).ok()
}

/// What reading one output stream of `program` gives: its text when the
/// bytes are valid UTF-8, else an encoding error that carries the bytes.
pub open spec fn read_spec(program: Seq<char>, bytes: Seq<u8>) -> Result<Seq<char>, ExchangeErrorView> {
    if valid_utf8(bytes) {
        Ok(decode_utf8(bytes))
    } else {
        Err(ExchangeErrorView::Encoding { program, bytes })
    }
}

/// Decodes one output stream of `program` as UTF-8 text.
pub fn read(program: &str, stream: Vec<u8>) -> (r: Result<String, ExchangeError>)
    ensures
        text_result_view(r) == read_spec(program@, stream@),
{
    let kept = stream.clone();
    match utf8_text(stream) {
        Some(text) => Ok(text),
        None => Err(ExchangeError::Encoding { program: program.to_owned(), bytes: kept }),
    }
}

} // verus!

verus! {

/// The hint carried by a [`ExchangeError::Failed`] from applying a ruleset.
pub const APPLY_HINT: &'static str = "applying ruleset";

/// The hint carried by a [`ExchangeError::Failed`] from reading the ruleset.
pub const RETRIEVE_HINT: &'static str = "getting the current ruleset";

/// How a finished process ended: whether it exited successfully, and the
/// bytes it wrote to its standard output and standard error.
pub struct ProcessOutcome {
    pub success: bool,
    pub stdout: Vec<u8>,
    pub stderr: Vec<u8>,
}

/// The result of applying a ruleset once the tool has run to completion.
/// A successful exit is success whatever the tool printed; otherwise both
/// streams are read, standard output first, and the failure carries them.
pub open spec fn apply_outcome_spec(program: Seq<char>, outcome: ProcessOutcome) -> Result<(), ExchangeErrorView> {
    if outcome.success {
        Ok(())
    } else {
        match read_spec(program, outcome.stdout@) {
            Err(e) => Err(e),
            Ok(stdout) => match read_spec(program, outcome.stderr@) {
                Err(e) => Err(e),
                Ok(stderr) => Err(ExchangeErrorView::Failed {
                    program,
                    hint: APPLY_HINT@,
                    stdout,
                    stderr,
                }),
            },
        }
    }
}

/// The result of reading the ruleset once the tool has run to completion.
/// Standard output is read first, whatever the exit; an unsuccessful exit
/// then also reads standard error and fails with both texts.
pub open spec fn retrieve_outcome_spec(program: Seq<char>, outcome: ProcessOutcome) -> Result<Seq<char>, ExchangeErrorView> {
    match read_spec(program, outcome.stdout@) {
        Err(e) => Err(e),
        Ok(stdout) => if outcome.success {
            Ok(stdout)
        } else {
            match read_spec(program, outcome.stderr@) {
                Err(e) => Err(e),
                Ok(stderr) => Err(ExchangeErrorView::Failed {
                    program,
                    hint: RETRIEVE_HINT@,
                    stdout,
                    stderr,
                }),
            }
        },
    }
}

/// Turns the outcome of the `nft` process that was given a ruleset into the
/// result of applying it.
pub fn apply_outcome(program: &str, outcome: ProcessOutcome) -> (r: Result<(), ExchangeError>)
    ensures
        unit_result_view(r) == apply_outcome_spec(program@, outcome),
{
    if outcome.success {
        return Ok(());
    }
    let stdout = match read(program, outcome.stdout) {
        Ok(text) => text,
        Err(e) => return Err(e),
    };
    let stderr = match read(program, outcome.stderr) {
        Ok(text) => text,
        Err(e) => return Err(e),
    };
    Err(ExchangeError::Failed {
        program: program.to_owned(),
        hint: APPLY_HINT.to_owned(),
        stdout,
        stderr,
    })
}

/// Turns the outcome of the `nft` process that listed the ruleset into the
/// ruleset's text.
pub fn retrieve_outcome(program: &str, outcome: ProcessOutcome) -> (r: Result<String, ExchangeError>)
    ensures
        text_result_view(r) == retrieve_outcome_spec(program@, outcome),
{
    let stdout = match read(program, outcome.stdout) {
        Ok(text) => text,
        Err(e) => return Err(e),
    };
    if outcome.success {
        return Ok(stdout);
    }
    let stderr = match read(program, outcome.stderr) {
        Ok(text) => text,
        Err(e) => return Err(e),
    };
    Err(ExchangeError::Failed {
        program: program.to_owned(),
        hint: RETRIEVE_HINT.to_owned(),
        stdout,
        stderr,
    })
}

} // verus!
