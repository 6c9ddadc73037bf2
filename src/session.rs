use vstd::prelude::*;

use crate::command::{
    apply_args, apply_command, extra_texts, program_or_default, retrieve_args, retrieve_command,
    texts, NFT_DEFAULT_PROGRAM,
};
use crate::error::{text_result_view, unit_result_view, ExchangeError, ExchangeErrorView};
use crate::exchange::{
    apply_outcome, apply_outcome_spec, retrieve_outcome, retrieve_outcome_spec, ProcessOutcome,
};

verus! {

/// Where an exchange that applies a ruleset stands, that is, which report
/// of the caller's runtime it waits for.
pub enum ApplyStage {
    /// The process is being spawned with its standard streams piped.
    Spawning,
    /// The payload is being written to the process's standard input.
    Writing,
    /// Standard input is being closed; `failure` is what went wrong while
    /// writing, if anything did.
    Closing { failure: Option<std::io::Error> },
    /// The process is being waited for.
    Awaiting,
    /// The exchange has handed out its result.
    Done,
}

/// What the caller's runtime reports after carrying out an action.
pub enum ApplyEvent {
    /// The process was spawned, or could not be.
    Spawned(Result<(), std::io::Error>),
    /// The whole payload was written, or writing failed.
    Written(Result<(), std::io::Error>),
    /// Standard input was closed, or closing it failed.
    Closed(Result<(), std::io::Error>),
    /// The process finished, or waiting for it failed.
    Completed(Result<ProcessOutcome, std::io::Error>),
}

/// What the caller's runtime is to do next.
pub enum ApplyAction {
    /// Write the whole payload to the process's standard input.
    WriteInput,
    /// Close the process's standard input.
    CloseInput,
    /// Wait for the process to finish and collect its output.
    AwaitCompletion,
    /// Stop: the exchange is over, with this result.
    Finish(Result<(), ExchangeError>),
}

/// The mathematical value of an [`ApplyAction`].
pub enum ApplyActionView {
    WriteInput,
    CloseInput,
    AwaitCompletion,
    Finish(Result<(), ExchangeErrorView>),
}

impl View for ApplyAction {
    type V = ApplyActionView;

    open spec fn view(&self) -> ApplyActionView {
        match self {
            ApplyAction::WriteInput => ApplyActionView::WriteInput,
            ApplyAction::CloseInput => ApplyActionView::CloseInput,
            ApplyAction::AwaitCompletion => ApplyActionView::AwaitCompletion,
            ApplyAction::Finish(r) => ApplyActionView::Finish(unit_result_view(*r)),
        }
    }
}

/// Whether an exchange at `stage` waits for `event`: each stage waits for
/// the report of the one action it handed out.
pub open spec fn accepts(stage: ApplyStage, event: ApplyEvent) -> bool {
    match (stage, event) {
        (ApplyStage::Spawning, ApplyEvent::Spawned(_)) => true,
        (ApplyStage::Writing, ApplyEvent::Written(_)) => true,
        (ApplyStage::Closing { .. }, ApplyEvent::Closed(_)) => true,
        (ApplyStage::Awaiting, ApplyEvent::Completed(_)) => true,
        _ => false,
    }
}

/// An operating-system failure of `program`, as the exchange reports it.
pub open spec fn execution(program: Seq<char>, inner: std::io::Error) -> ApplyActionView {
    ApplyActionView::Finish(Err(ExchangeErrorView::Execution { program, inner }))
}

/// One step of applying a ruleset with `program`: the next stage and the
/// action that goes with it. Input is closed after writing whether or not
/// the write succeeded, and the process is waited for only once input is
/// closed; the first failure is the one reported.
pub open spec fn apply_next(program: Seq<char>, stage: ApplyStage, event: ApplyEvent) -> (ApplyStage, ApplyActionView)
    recommends
        accepts(stage, event),
{
    match (stage, event) {
        (ApplyStage::Spawning, ApplyEvent::Spawned(Ok(()))) => (ApplyStage::Writing, ApplyActionView::WriteInput),
        (ApplyStage::Spawning, ApplyEvent::Spawned(Err(e))) => (ApplyStage::Done, execution(program, e)),
        (ApplyStage::Writing, ApplyEvent::Written(Ok(()))) => (
            ApplyStage::Closing { failure: None },
            ApplyActionView::CloseInput,
        ),
        (ApplyStage::Writing, ApplyEvent::Written(Err(e))) => (
            ApplyStage::Closing { failure: Some(e) },
            ApplyActionView::CloseInput,
        ),
        (ApplyStage::Closing { failure: Some(e) }, ApplyEvent::Closed(_)) => (
            ApplyStage::Done,
            execution(program, e),
        ),
        (ApplyStage::Closing { failure: None }, ApplyEvent::Closed(Err(e))) => (
            ApplyStage::Done,
            execution(program, e),
        ),
        (ApplyStage::Closing { failure: None }, ApplyEvent::Closed(Ok(()))) => (
            ApplyStage::Awaiting,
            ApplyActionView::AwaitCompletion,
        ),
        (ApplyStage::Awaiting, ApplyEvent::Completed(Err(e))) => (ApplyStage::Done, execution(program, e)),
        (ApplyStage::Awaiting, ApplyEvent::Completed(Ok(outcome))) => (
            ApplyStage::Done,
            ApplyActionView::Finish(apply_outcome_spec(program, outcome)),
        ),
        _ => (stage, ApplyActionView::Finish(Ok(()))),
    }
}

/// An exchange that applies a ruleset: `nft -j -f -` and the caller's extra
/// arguments, with the ruleset written to its standard input.
///
/// The caller's runtime spawns [`Self::program`] with [`Self::args`] and
/// its standard streams piped, reports that as [`ApplyEvent::Spawned`] to
/// [`Self::step`], and then carries out each action that `step` returns and
/// reports it, until the action is [`ApplyAction::Finish`].
pub struct ApplyExchange<'a> {
    program: &'a str,
    args: Vec<&'a str>,
    stage: ApplyStage,
}

impl<'a> ApplyExchange<'a> {
    /// The program that is run.
    pub closed spec fn program_spec(&self) -> Seq<char> {
        self.program@
    }

    /// The texts of the arguments that the program is given.
    pub closed spec fn args_spec(&self) -> Seq<Seq<char>> {
        texts(self.args@)
    }

    /// The stage the exchange is at.
    pub closed spec fn stage(&self) -> ApplyStage {
        self.stage
    }

    /// Starts an exchange with `program` (by default [`NFT_DEFAULT_PROGRAM`])
    /// and the extra arguments `args`; it waits for the process to be
    /// spawned.
    pub fn new(program: Option<&'a str>, args: Option<Vec<&'a str>>) -> (r: Self)
        ensures
            r.program_spec() == match program {
                Some(p) => p@,
                None => NFT_DEFAULT_PROGRAM@,
            },
            r.args_spec() == apply_command(extra_texts(args)),
            r.stage() == ApplyStage::Spawning,
    {
        ApplyExchange { program: program_or_default(program), args: apply_args(args), stage: ApplyStage::Spawning }
    }

    /// The program to spawn.
    pub fn program(&self) -> (r: &'a str)
        ensures
            r@ == self.program_spec(),
    {
        self.program
    }

    /// The arguments to spawn the program with.
    pub fn args(&self) -> (r: &Vec<&'a str>)
        ensures
            texts(r@) == self.args_spec(),
    {
        &self.args
    }

    /// Whether the exchange waits for `event`.
    pub fn accepts(&self, event: &ApplyEvent) -> (r: bool)
        ensures
            r == accepts(self.stage(), *event),
    {
        match (&self.stage, event) {
            (ApplyStage::Spawning, ApplyEvent::Spawned(_)) => true,
            (ApplyStage::Writing, ApplyEvent::Written(_)) => true,
            (ApplyStage::Closing { .. }, ApplyEvent::Closed(_)) => true,
            (ApplyStage::Awaiting, ApplyEvent::Completed(_)) => true,
            _ => false,
        }
    }

    /// Takes in the report of the last action and returns the next one.
    pub fn step(&mut self, event: ApplyEvent) -> (action: ApplyAction)
        requires
            accepts(old(self).stage(), event),
        ensures
            (final(self).stage(), action@) == apply_next(old(self).program_spec(), old(self).stage(), event),
            final(self).program_spec() == old(self).program_spec(),
            final(self).args_spec() == old(self).args_spec(),
    {
        let mut stage = ApplyStage::Done;
        std::mem::swap(&mut self.stage, &mut stage);
        match (stage, event) {
            (ApplyStage::Spawning, ApplyEvent::Spawned(Ok(()))) => {
                self.stage = ApplyStage::Writing;
                ApplyAction::WriteInput
            },
            (ApplyStage::Writing, ApplyEvent::Written(Ok(()))) => {
                self.stage = ApplyStage::Closing { failure: None };
                ApplyAction::CloseInput
            },
            (ApplyStage::Writing, ApplyEvent::Written(Err(e))) => {
                self.stage = ApplyStage::Closing { failure: Some(e) };
                ApplyAction::CloseInput
            },
            (ApplyStage::Closing { failure: Some(e) }, ApplyEvent::Closed(_)) => self.fail(e),
            (ApplyStage::Closing { failure: None }, ApplyEvent::Closed(Ok(()))) => {
                self.stage = ApplyStage::Awaiting;
                ApplyAction::AwaitCompletion
            },
            (ApplyStage::Spawning, ApplyEvent::Spawned(Err(e)))
            | (ApplyStage::Closing { failure: None }, ApplyEvent::Closed(Err(e)))
            | (ApplyStage::Awaiting, ApplyEvent::Completed(Err(e))) => self.fail(e),
            (ApplyStage::Awaiting, ApplyEvent::Completed(Ok(outcome))) => {
                ApplyAction::Finish(apply_outcome(self.program, outcome))
            },
            (other, _) => {
                self.stage = other;
                ApplyAction::Finish(Ok(()))
            },
        }
    }

    /// Ends the exchange with an operating-system failure.
    fn fail(&mut self, inner: std::io::Error) -> (action: ApplyAction)
        ensures
            final(self).stage() == ApplyStage::Done,
            action@ == execution(old(self).program_spec(), inner),
            final(self).program_spec() == old(self).program_spec(),
            final(self).args_spec() == old(self).args_spec(),
    {
        self.stage = ApplyStage::Done;
        ApplyAction::Finish(Err(ExchangeError::Execution { program: self.program.to_owned(), inner }))
    }
}

/// The result of reading the ruleset with `program`, once the runtime has
/// run it: an operating-system failure, or what the outcome gives.
pub open spec fn retrieve_completion(program: Seq<char>, output: Result<ProcessOutcome, std::io::Error>) -> Result<Seq<char>, ExchangeErrorView> {
    match output {
        Err(inner) => Err(ExchangeErrorView::Execution { program, inner }),
        Ok(outcome) => retrieve_outcome_spec(program, outcome),
    }
}

/// An exchange that reads the current ruleset: `nft -j list ruleset` and
/// the caller's extra arguments, with nothing written to the process.
///
/// The caller's runtime runs [`Self::program`] with [`Self::args`], collects
/// its output, and hands that to [`Self::complete`].
pub struct RetrieveExchange<'a> {
    program: &'a str,
    args: Vec<&'a str>,
}

impl<'a> RetrieveExchange<'a> {
    /// The program that is run.
    pub closed spec fn program_spec(&self) -> Seq<char> {
        self.program@
    }

    /// The texts of the arguments that the program is given.
    pub closed spec fn args_spec(&self) -> Seq<Seq<char>> {
        texts(self.args@)
    }

    /// Starts an exchange with `program` (by default [`NFT_DEFAULT_PROGRAM`])
    /// and the extra arguments `args`.
    pub fn new(program: Option<&'a str>, args: Option<Vec<&'a str>>) -> (r: Self)
        ensures
            r.program_spec() == match program {
                Some(p) => p@,
                None => NFT_DEFAULT_PROGRAM@,
            },
            r.args_spec() == retrieve_command(extra_texts(args)),
    {
        RetrieveExchange { program: program_or_default(program), args: retrieve_args(args) }
    }

    /// The program to run.
    pub fn program(&self) -> (r: &'a str)
        ensures
            r@ == self.program_spec(),
    {
        self.program
    }

    /// The arguments to run the program with.
    pub fn args(&self) -> (r: &Vec<&'a str>)
        ensures
            texts(r@) == self.args_spec(),
    {
        &self.args
    }

    /// Ends the exchange with what running the program gave: the text of
    /// the ruleset, or why there is none.
    pub fn complete(self, output: Result<ProcessOutcome, std::io::Error>) -> (r: Result<String, ExchangeError>)
        ensures
            text_result_view(r) == retrieve_completion(self.program_spec(), output),
    {
        match output {
            Ok(outcome) => retrieve_outcome(self.program, outcome),
            Err(inner) => Err(ExchangeError::Execution { program: self.program.to_owned(), inner }),
        }
    }
}

} // verus!
