//! Enforcement outcomes and the report lines they owe.
//!
//! The ban decision runs a short state machine: once a ban is
//! requested it either succeeds or fails, both terminal — a failure is
//! reported, never retried.  The remote calls themselves are made by
//! the unverified shell, which hands their results back as plain
//! values; every report line is computed here.

use vstd::prelude::*;
use vstd::string::*;
use crate::classify::MemberJoinRecord;
use crate::text::dec_str;
use crate::text::u64_to_dec;

verus! {

/// The terminal state of one ban request.
pub enum EnforcementOutcome {
    Banned,
    Failed(String),
}

/// Folds the result of the remote ban call into the state machine:
/// success is terminal `Banned`, any error is terminal `Failed` with
/// its detail kept verbatim.  Nothing maps `Failed` back to a retry.
pub fn enforcement_outcome(ban_result: Result<(), String>) -> (o: EnforcementOutcome)
    ensures
        ban_result is Ok ==> o == EnforcementOutcome::Banned,
        ban_result matches Err(detail) ==> o matches EnforcementOutcome::Failed(d) && d@
            == detail@,
{
    match ban_result {
        Ok(()) => EnforcementOutcome::Banned,
        Err(detail) => EnforcementOutcome::Failed(detail),
    }
}

/// The line reported for a ban that went through.
pub open spec fn ban_success_line(name: Seq<char>, tag: Seq<char>) -> Seq<char> {
    "Banned "@ + name + "#"@ + tag
}

/// The line reported once a ban request reaches a terminal state: on
/// success it names the banned member by display name and tag, on
/// failure it surfaces the error detail unchanged.
pub fn ban_report(record: &MemberJoinRecord, outcome: &EnforcementOutcome) -> (line: String)
    ensures
        *outcome is Banned ==> line@ == ban_success_line(
            record.display_name@,
            record.discriminator_tag@,
        ),
        *outcome matches EnforcementOutcome::Failed(detail) ==> line@ == detail@,
{
    match outcome {
        EnforcementOutcome::Banned => {
            let line = String::from_str("Banned ").concat(record.display_name.as_str());
            let line = line.concat("#");
            line.concat(record.discriminator_tag.as_str())
        },
        EnforcementOutcome::Failed(detail) => detail.clone(),
    }
}

/// The authenticated identity the platform reports for this agent.
pub struct Identity {
    pub name: String,
    pub discriminator_tag: String,
}

/// The line reported when a shard comes up and the identity lookup
/// succeeds.
pub open spec fn ready_line(shard_id: u64, name: Seq<char>, tag: Seq<char>) -> Seq<char> {
    "Shard "@ + dec_str(shard_id as nat) + " connected with user "@ + name + "#"@ + tag
}

/// The line reported for one shard-ready notice: on a successful
/// identity lookup it names the shard and the identity, on a failed
/// lookup it surfaces the error detail unchanged.
pub fn ready_report(shard_id: u64, lookup: &Result<Identity, String>) -> (line: String)
    ensures
        *lookup matches Ok(identity) ==> line@ == ready_line(
            shard_id,
            identity.name@,
            identity.discriminator_tag@,
        ),
        *lookup matches Err(detail) ==> line@ == detail@,
{
    match lookup {
        Ok(identity) => {
            let line = String::from_str("Shard ").concat(u64_to_dec(shard_id).as_str());
            let line = line.concat(" connected with user ");
            let line = line.concat(identity.name.as_str());
            let line = line.concat("#");
            line.concat(identity.discriminator_tag.as_str())
        },
        Err(detail) => detail.clone(),
    }
}

} // verus!
