//! The per-event decision core of the event dispatcher.
//!
//! The unverified shell pulls `(shard id, event)` pairs from the
//! session layer, hands every event to the state mirror first, and then
//! runs one independent handling task per event.  All that such a task
//! decides before touching the network is computed here, by `decide`.

use vstd::prelude::*;
use crate::classify::MemberJoinRecord;
use crate::classify::classify;
use crate::classify::spec_is_spam;
use crate::classify::spam_reason;

verus! {

/// Days of prior messages purged by every ban the policy issues.
pub const PURGE_DAYS: u8 = 7;

/// One inbound platform event.  Only two variants carry meaning for
/// this core; every other kind of event is inert and arrives as
/// `Other`.
pub enum Event {
    MemberJoined(MemberJoinRecord),
    ShardReady,
    Other,
}

/// What a handling task must do before it awaits anything: request a
/// ban, look up the authenticated identity, or nothing at all.
pub enum HandlerAction {
    Ban { guild_id: u64, user_id: u64, purge_days: u8, reason: String },
    LookupIdentity { shard_id: u64 },
    Nothing,
}

/// The mathematical shape of a handler action, with the reason line as
/// a character sequence.
pub enum ActionModel {
    Ban { guild_id: u64, user_id: u64, purge_days: u8, reason: Seq<char> },
    LookupIdentity { shard_id: u64 },
    Nothing,
}

/// The model of an executable action.
pub open spec fn action_view(a: HandlerAction) -> ActionModel {
    match a {
        HandlerAction::Ban { guild_id, user_id, purge_days, reason } => ActionModel::Ban {
            guild_id,
            user_id,
            purge_days,
            reason: reason@,
        },
        HandlerAction::LookupIdentity { shard_id } => ActionModel::LookupIdentity { shard_id },
        HandlerAction::Nothing => ActionModel::Nothing,
    }
}

/// The action the policy owes one event: a ban request exactly for a
/// spam-classified join, an identity lookup exactly for a shard-ready
/// notice, and nothing otherwise.
pub open spec fn action_model(shard_id: u64, event: Event, elapsed_millis: u64) -> ActionModel {
    match event {
        Event::MemberJoined(record) => if spec_is_spam(
            record.display_name@,
            record.user_id,
            elapsed_millis,
        ) {
            ActionModel::Ban {
                guild_id: record.guild_id,
                user_id: record.user_id,
                purge_days: PURGE_DAYS,
                reason: spam_reason(),
            }
        } else {
            ActionModel::Nothing
        },
        Event::ShardReady => ActionModel::LookupIdentity { shard_id },
        Event::Other => ActionModel::Nothing,
    }
}

/// Decides what one event's handling task must do.  At most one ban is
/// ever requested per join record: the record is owned by its single
/// task and judged exactly once, here.
pub fn decide(shard_id: u64, event: &Event, elapsed_millis: u64) -> (a: HandlerAction)
    ensures
        action_view(a) == action_model(shard_id, *event, elapsed_millis),
{
    match event {
        Event::MemberJoined(record) => {
            let verdict = classify(record, elapsed_millis);
            if verdict.is_spam {
                HandlerAction::Ban {
                    guild_id: record.guild_id,
                    user_id: record.user_id,
                    purge_days: PURGE_DAYS,
                    reason: verdict.reason,
                }
            } else {
                HandlerAction::Nothing
            }
        },
        Event::ShardReady => HandlerAction::LookupIdentity { shard_id },
        Event::Other => HandlerAction::Nothing,
    }
}

/// The actions a whole stream of events is owed, one per event.
pub open spec fn plan_model(stream: Seq<(u64, Event)>, elapsed_millis: u64) -> Seq<ActionModel> {
    Seq::new(stream.len(), |i: int| action_model(stream[i].0, stream[i].1, elapsed_millis))
}

/// The sequence of events the state mirror is owed, in arrival order.
pub open spec fn mirror_trace(stream: Seq<(u64, Event)>) -> Seq<Event> {
    Seq::new(stream.len(), |i: int| stream[i].1)
}

/// Decides a whole finite prefix of the event stream at once: one
/// action per event, in arrival order.  No action waits on any other
/// event's outcome — each is computed from its own event alone.
pub fn decide_prefix(stream: &Vec<(u64, Event)>, elapsed_millis: u64) -> (actions: Vec<
    HandlerAction,
>)
    ensures
        actions@.len() == stream@.len(),
        forall|i: int|
            0 <= i < stream@.len() ==> action_view(actions@[i]) == plan_model(
                stream@,
                elapsed_millis,
            )[i],
{
    let mut actions: Vec<HandlerAction> = Vec::new();
    let mut k: usize = 0;
    while k < stream.len()
        invariant
            k <= stream@.len(),
            actions@.len() == k,
            forall|i: int|
                0 <= i < k ==> action_view(actions@[i]) == plan_model(stream@, elapsed_millis)[i],
        decreases stream@.len() - k,
    {
        let pair = &stream[k];
        let action = decide(pair.0, &pair.1, elapsed_millis);
        actions.push(action);
        k += 1;
    }
    actions
}

/// Law: no head-of-line dependence.  The action owed an event is a
/// function of that event alone: two streams that agree at a position
/// are owed the same action there, whatever stands before or after
/// it — in particular, whatever any earlier event's enforcement call
/// does or fails to do.
pub proof fn lemma_no_cross_event_dependence(
    s1: Seq<(u64, Event)>,
    s2: Seq<(u64, Event)>,
    elapsed_millis: u64,
    i: int,
)
    requires
        0 <= i < s1.len(),
        0 <= i < s2.len(),
        s1[i] == s2[i],
    ensures
        plan_model(s1, elapsed_millis)[i] == plan_model(s2, elapsed_millis)[i],
{
}

/// Law: the state mirror sees every event of the stream, in arrival
/// order, with none skipped — also the inert ones that no handler
/// acts on.
pub proof fn lemma_mirror_complete(stream: Seq<(u64, Event)>)
    ensures
        mirror_trace(stream).len() == stream.len(),
        forall|i: int| 0 <= i < stream.len() ==> mirror_trace(stream)[i] == stream[i].1,
{
}

} // verus!
