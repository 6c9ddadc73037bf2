use vstd::prelude::*;

verus! {

#[verifier::external_type_specification]
#[verifier::external_body]
pub struct ExIoError(std::io::Error);

#[verifier::external_type_specification]
#[verifier::external_body]
pub struct ExJsonError(serde_json::Error);

/// Why an exchange with the tool failed. Every variant names the program
/// that was run.
#[derive(Debug)]
pub enum ExchangeError {
    /// Spawning the process, writing to it, closing its input or waiting for
    /// it failed at the level of the operating system.
    Execution { program: String, inner: std::io::Error },
    /// The tool ran to completion and exited unsuccessfully.
    Failed { program: String, hint: String, stdout: String, stderr: String },
    /// One of the tool's output streams was not valid UTF-8.
    Encoding { program: String, bytes: Vec<u8> },
    /// A ruleset could not be written as, or read from, a JSON document.
    InvalidJson(serde_json::Error),
}

/// The mathematical value of an [`ExchangeError`]: texts as character
/// sequences, bytes as a byte sequence.
pub enum ExchangeErrorView {
    Execution { program: Seq<char>, inner: std::io::Error },
    Failed { program: Seq<char>, hint: Seq<char>, stdout: Seq<char>, stderr: Seq<char> },
    Encoding { program: Seq<char>, bytes: Seq<u8> },
    InvalidJson(serde_json::Error),
}

impl View for ExchangeError {
    type V = ExchangeErrorView;

    open spec fn view(&self) -> ExchangeErrorView {
        match self {
            ExchangeError::Execution { program, inner } => ExchangeErrorView::Execution {
                program: program@,
                inner: *inner,
            },
            ExchangeError::Failed { program, hint, stdout, stderr } => ExchangeErrorView::Failed {
                program: program@,
                hint: hint@,
                stdout: stdout@,
                stderr: stderr@,
            },
            ExchangeError::Encoding { program, bytes } => ExchangeErrorView::Encoding {
                program: program@,
                bytes: bytes@,
            },
            ExchangeError::InvalidJson(inner) => ExchangeErrorView::InvalidJson(*inner),
        }
    }
}

/// The value of a result that holds nothing or is an [`ExchangeError`].
pub open spec fn unit_result_view(r: Result<(), ExchangeError>) -> Result<(), ExchangeErrorView> {
    match r {
        Ok(()) => Ok(()),
        Err(e) => Err(e@),
    }
}

/// The value of a result that holds text or an [`ExchangeError`].
pub open spec fn text_result_view(r: Result<String, ExchangeError>) -> Result<Seq<char>, ExchangeErrorView> {
    match r {
        Ok(text) => Ok(text@),
        Err(e) => Err(e@),
    }
}

} // verus!
