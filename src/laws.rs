//! What holds of every exchange, whatever the tool and the operating system
//! report.
use vstd::prelude::*;

use vstd::utf8::{decode_utf8, decode_utf8_encode_utf8, encode_utf8, valid_utf8};

use crate::error::ExchangeErrorView;
use crate::exchange::{apply_outcome_spec, retrieve_outcome_spec, ProcessOutcome, APPLY_HINT, RETRIEVE_HINT};
use crate::session::{
    accepts, apply_next, execution, retrieve_completion, ApplyActionView, ApplyEvent, ApplyStage,
};

verus! {

/// The stage reached and the actions handed out when an exchange at `stage`
/// is given `events` in turn; none when some event was not the one waited
/// for.
pub open spec fn apply_run(program: Seq<char>, stage: ApplyStage, events: Seq<ApplyEvent>) -> Option<(ApplyStage, Seq<ApplyActionView>)>
    decreases events.len(),
{
    if events.len() == 0 {
        Some((stage, Seq::empty()))
    } else if !accepts(stage, events[0]) {
        None
    } else {
        let (next, action) = apply_next(program, stage, events[0]);
        match apply_run(program, next, events.drop_first()) {
            Some((last, actions)) => Some((last, seq![action] + actions)),
            None => None,
        }
    }
}

/// How many steps an exchange at `stage` has taken since it was started.
spec fn position(stage: ApplyStage) -> int {
    match stage {
        ApplyStage::Spawning => 0,
        ApplyStage::Writing => 1,
        ApplyStage::Closing { .. } => 2,
        ApplyStage::Awaiting => 3,
        ApplyStage::Done => 4,
    }
}

/// The action handed out at step `k` of an exchange that has not failed.
spec fn regular_action(k: int) -> ApplyActionView {
    if k == 0 {
        ApplyActionView::WriteInput
    } else if k == 1 {
        ApplyActionView::CloseInput
    } else {
        ApplyActionView::AwaitCompletion
    }
}

/// From any stage, the actions are the regular ones in order, but for a
/// final `Finish`, which never comes right after the payload was written.
proof fn lemma_run_shape(program: Seq<char>, stage: ApplyStage, events: Seq<ApplyEvent>)
    requires
        apply_run(program, stage, events) is Some,
    ensures
        ({
            let (last, actions) = apply_run(program, stage, events)->Some_0;
            &&& actions.len() == events.len()
            &&& events.len() <= 4 - position(stage)
            &&& events.len() > 0 ==> position(stage) < 4
            &&& (last is Done <==> (stage is Done || (actions.len() > 0 && actions.last() is Finish)))
            &&& forall|i: int|
                0 <= i < actions.len() ==> if actions[i] is Finish {
                    i == actions.len() - 1 && position(stage) + i != 1
                } else {
                    actions[i] == regular_action(position(stage) + i) && position(stage) + i < 3
                }
        }),
    decreases events.len(),
{
    if events.len() > 0 {
        let (next, action) = apply_next(program, stage, events[0]);
        lemma_run_shape(program, next, events.drop_first());
        let (last, rest) = apply_run(program, next, events.drop_first())->Some_0;
        let actions = seq![action] + rest;
        assert forall|i: int| 0 < i < actions.len() implies actions[i] == rest[i - 1] by {}
        if action is Finish {
            assert(next is Done);
        }
    }
}

/// Applying a ruleset ends after at most four reports of the runtime, and
/// every run of it follows the protocol of the tool's standard input: the
/// input is closed at most once, always before the process is waited for,
/// and on every path that wrote to it before the exchange ends; the result
/// is handed out once, as the last action, and exactly when the exchange is
/// done.
pub proof fn lemma_apply_protocol(program: Seq<char>, events: Seq<ApplyEvent>)
    requires
        apply_run(program, ApplyStage::Spawning, events) is Some,
    ensures
        ({
            let (last, actions) = apply_run(program, ApplyStage::Spawning, events)->Some_0;
            &&& events.len() <= 4
            &&& actions.len() == events.len()
            &&& forall|i: int, j: int|
                0 <= i < actions.len() && 0 <= j < actions.len() && actions[i] is CloseInput
                    && actions[j] is CloseInput ==> i == j
            &&& forall|i: int|
                0 <= i < actions.len() && actions[i] is AwaitCompletion ==> exists|j: int|
                    0 <= j < i && actions[j] is CloseInput
            &&& forall|i: int|
                0 <= i < actions.len() && actions[i] is WriteInput && last is Done ==> exists|j: int|
                    i < j < actions.len() && actions[j] is CloseInput
            &&& forall|i: int| 0 <= i < actions.len() && actions[i] is Finish ==> i == actions.len() - 1
            &&& (last is Done <==> (actions.len() > 0 && actions.last() is Finish))
        }),
{
    lemma_run_shape(program, ApplyStage::Spawning, events);
    let (last, actions) = apply_run(program, ApplyStage::Spawning, events)->Some_0;
    assert forall|i: int|
        0 <= i < actions.len() && actions[i] is AwaitCompletion implies exists|j: int|
            0 <= j < i && actions[j] is CloseInput by {
        assert(actions[1] is CloseInput);
    }
    assert forall|i: int|
        0 <= i < actions.len() && actions[i] is WriteInput && last is Done implies exists|j: int|
            i < j < actions.len() && actions[j] is CloseInput by {
        assert(actions[1] is CloseInput);
    }
}

/// An exchange that is not done always waits for a report, and one that is
/// done waits for none.
pub proof fn lemma_apply_waits_until_done(stage: ApplyStage)
    ensures
        stage is Done <==> forall|event: ApplyEvent| !accepts(stage, event),
{
    if !(stage is Done) {
        let event = match stage {
            ApplyStage::Spawning => ApplyEvent::Spawned(Ok(())),
            ApplyStage::Writing => ApplyEvent::Written(Ok(())),
            ApplyStage::Closing { .. } => ApplyEvent::Closed(Ok(())),
            _ => ApplyEvent::Completed(arbitrary()),
        };
        assert(accepts(stage, event));
    }
}

/// When the process cannot be spawned (the program does not exist, or the
/// operating system refuses it), applying and reading both end with an
/// execution error that carries the operating system's error.
pub proof fn lemma_spawn_failure_is_execution(program: Seq<char>, inner: std::io::Error)
    ensures
        apply_next(program, ApplyStage::Spawning, ApplyEvent::Spawned(Err(inner)))
            == (ApplyStage::Done, execution(program, inner)),
        retrieve_completion(program, Err(inner)) == Err::<Seq<char>, ExchangeErrorView>(
            ExchangeErrorView::Execution { program, inner },
        ),
{
}

/// When the tool exits unsuccessfully with readable output, applying and
/// reading both fail with the texts it wrote, under their own hint; what it
/// wrote to standard error is never lost, so a non-empty standard error
/// gives a non-empty diagnostic.
pub proof fn lemma_unsuccessful_exit_is_failed(program: Seq<char>, outcome: ProcessOutcome)
    requires
        !outcome.success,
        valid_utf8(outcome.stdout@),
        valid_utf8(outcome.stderr@),
    ensures
        apply_next(program, ApplyStage::Awaiting, ApplyEvent::Completed(Ok(outcome))) == (
            ApplyStage::Done,
            ApplyActionView::Finish(Err(ExchangeErrorView::Failed {
                program,
                hint: APPLY_HINT@,
                stdout: decode_utf8(outcome.stdout@),
                stderr: decode_utf8(outcome.stderr@),
            })),
        ),
        retrieve_completion(program, Ok(outcome)) == Err::<Seq<char>, ExchangeErrorView>(
            ExchangeErrorView::Failed {
                program,
                hint: RETRIEVE_HINT@,
                stdout: decode_utf8(outcome.stdout@),
                stderr: decode_utf8(outcome.stderr@),
            },
        ),
        outcome.stderr@.len() > 0 ==> decode_utf8(outcome.stderr@).len() > 0,
{
}

/// When the tool's standard output is not valid UTF-8, reading the ruleset
/// fails with an encoding error that carries those bytes, whatever the
/// exit; no text is handed on to be parsed.
pub proof fn lemma_invalid_output_is_encoding(program: Seq<char>, outcome: ProcessOutcome)
    requires
        !valid_utf8(outcome.stdout@),
    ensures
        retrieve_completion(program, Ok(outcome)) == Err::<Seq<char>, ExchangeErrorView>(
            ExchangeErrorView::Encoding { program, bytes: outcome.stdout@ },
        ),
{
}

/// Reading the ruleset hands back exactly the bytes that the tool wrote to
/// standard output when it succeeds with valid text, so two readings whose
/// tool printed the same bytes give the same text.
pub proof fn lemma_retrieve_returns_output(program: Seq<char>, first: ProcessOutcome, second: ProcessOutcome)
    requires
        first.success,
        second.success,
        valid_utf8(first.stdout@),
        first.stdout@ == second.stdout@,
    ensures
        retrieve_completion(program, Ok(first)) == Ok::<Seq<char>, ExchangeErrorView>(decode_utf8(first.stdout@)),
        encode_utf8(decode_utf8(first.stdout@)) == first.stdout@,
        retrieve_completion(program, Ok(first)) == retrieve_completion(program, Ok(second)),
{
    decode_utf8_encode_utf8(first.stdout@);
}

} // verus!
