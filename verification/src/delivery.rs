//! The delivery of a greeting, step by step: the rename goes out first, the
//! reply only once the rename went through, and a failure ends it.

use crate::error::ReactError;
use crate::message::{Greeting, RenameRequest, Reply};
use vstd::prelude::*;

verus! {

/// How far the delivery of a greeting has come.
#[derive(Clone, Copy, Debug, PartialEq, Eq, Structural)]
pub enum Stage {
    /// The greeting is decided and nothing was sent.
    Matched,
    /// The rename is with the service.
    RenameIssued,
    /// The reply is with the service.
    ReplySent,
    /// Both went through.
    Done,
    /// A call failed, and the rest was given up.
    Dropped(ReactError),
}

/// What to send next.
#[derive(Clone, Copy, Debug)]
pub enum Action<'a> {
    Rename(&'a RenameRequest),
    Reply(&'a Reply),
    /// Nothing: the delivery is over.
    Nothing,
}

/// The kinds of call that a delivery makes.
pub ghost enum Call {
    Rename,
    Reply,
}

/// The stage that follows `stage` when the call made on entering `stage`
/// ended as `succeeded` says. Nothing was called on entering `Matched`, so
/// there the flag is not looked at.
pub open spec fn next_stage(stage: Stage, succeeded: bool) -> Stage {
    match stage {
        Stage::Matched => Stage::RenameIssued,
        Stage::RenameIssued => if succeeded {
            Stage::ReplySent
        } else {
            Stage::Dropped(ReactError::RenameFailed)
        },
        Stage::ReplySent => if succeeded {
            Stage::Done
        } else {
            Stage::Dropped(ReactError::ReplyFailed)
        },
        Stage::Done => Stage::Done,
        Stage::Dropped(e) => Stage::Dropped(e),
    }
}

/// The call that is made on entering `stage`.
pub open spec fn call_on_entering(stage: Stage) -> Option<Call> {
    match stage {
        Stage::RenameIssued => Some(Call::Rename),
        Stage::ReplySent => Some(Call::Reply),
        _ => None,
    }
}

/// The calls made from `stage` on, in order, when the calls end as
/// `outcomes` says, one flag for each step.
pub open spec fn calls_made(stage: Stage, outcomes: Seq<bool>) -> Seq<Call>
    decreases outcomes.len(),
{
    if outcomes.len() == 0 {
        Seq::empty()
    } else {
        let next = next_stage(stage, outcomes[0]);
        let rest = calls_made(next, outcomes.drop_first());
        match call_on_entering(next) {
            Some(call) => seq![call] + rest,
            None => rest,
        }
    }
}

impl Stage {
    /// How the delivery ended, once it has.
    pub open spec fn spec_outcome(self) -> Option<Result<(), ReactError>> {
        match self {
            Stage::Done => Some(Ok(())),
            Stage::Dropped(e) => Some(Err(e)),
            _ => None,
        }
    }

    /// How the delivery ended; `None` while it is under way.
    pub fn outcome(&self) -> (r: Option<Result<(), ReactError>>)
        ensures
            r == self.spec_outcome(),
    {
        match self {
            Stage::Done => Some(Ok(())),
            Stage::Dropped(e) => Some(Err(*e)),
            _ => None,
        }
    }
}

/// Takes the delivery of `greeting` one step on. `succeeded` says how the
/// call ended that the step before asked for. The result is the new stage
/// and the call to make now.
pub fn advance<'a>(greeting: &'a Greeting, stage: Stage, succeeded: bool) -> (r: (
    Stage,
    Action<'a>,
))
    ensures
        r.0 == next_stage(stage, succeeded),
        match call_on_entering(r.0) {
            Some(Call::Rename) => r.1 matches Action::Rename(req) && *req == greeting.rename,
            Some(Call::Reply) => r.1 matches Action::Reply(reply) && *reply == greeting.reply,
            None => r.1 is Nothing,
        },
{
    match stage {
        Stage::Matched => (Stage::RenameIssued, Action::Rename(&greeting.rename)),
        Stage::RenameIssued => if succeeded {
            (Stage::ReplySent, Action::Reply(&greeting.reply))
        } else {
            (Stage::Dropped(ReactError::RenameFailed), Action::Nothing)
        },
        Stage::ReplySent => if succeeded {
            (Stage::Done, Action::Nothing)
        } else {
            (Stage::Dropped(ReactError::ReplyFailed), Action::Nothing)
        },
        Stage::Done => (Stage::Done, Action::Nothing),
        Stage::Dropped(e) => (Stage::Dropped(e), Action::Nothing),
    }
}

/// A delivery that begins makes its calls in order and none of them twice:
/// the rename, and then, if the rename went through, the reply. A failed
/// rename is the only call of its delivery.
pub proof fn lemma_calls_in_order(outcomes: Seq<bool>)
    ensures
        calls_made(Stage::Matched, outcomes) == if outcomes.len() == 0 {
            Seq::<Call>::empty()
        } else if outcomes.len() == 1 || !outcomes[1] {
            seq![Call::Rename]
        } else {
            seq![Call::Rename, Call::Reply]
        },
{
    if outcomes.len() > 0 {
        let after_rename = outcomes.drop_first();
        if after_rename.len() == 0 {
            assert(calls_made(Stage::RenameIssued, after_rename) =~= Seq::<Call>::empty());
        } else {
            let after_reply = after_rename.drop_first();
            assert(after_rename[0] == outcomes[1]);
            if outcomes[1] {
                lemma_quiet_after_reply(after_reply);
                assert(calls_made(Stage::RenameIssued, after_rename) =~= seq![Call::Reply]);
            } else {
                lemma_quiet_when_over(Stage::Dropped(ReactError::RenameFailed), after_reply);
            }
        }
        assert(calls_made(Stage::Matched, outcomes) =~= seq![Call::Rename] + calls_made(
            Stage::RenameIssued,
            after_rename,
        ));
    }
}

/// Once the reply is with the service, no further call is made.
pub proof fn lemma_quiet_after_reply(outcomes: Seq<bool>)
    ensures
        calls_made(Stage::ReplySent, outcomes) == Seq::<Call>::empty(),
{
    if outcomes.len() > 0 {
        lemma_quiet_when_over(next_stage(Stage::ReplySent, outcomes[0]), outcomes.drop_first());
    }
}

/// A delivery that is over makes no call and stays as it ended.
pub proof fn lemma_quiet_when_over(stage: Stage, outcomes: Seq<bool>)
    requires
        stage.spec_outcome() is Some,
    ensures
        calls_made(stage, outcomes) == Seq::<Call>::empty(),
    decreases outcomes.len(),
{
    if outcomes.len() > 0 {
        lemma_quiet_when_over(stage, outcomes.drop_first());
    }
}

} // verus!
