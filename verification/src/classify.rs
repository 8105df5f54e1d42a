//! The spam classifier: a pure verdict over one member-join record.

use vstd::prelude::*;
use vstd::string::*;
use crate::snowflake::creation_millis_of;
use crate::snowflake::creation_millis;
use crate::text::contains_seq;
use crate::text::contains_sub;

verus! {

/// The lowercase form of a string, as `str::to_lowercase` computes it.
/// The result depends on the characters alone.
pub uninterp spec fn lower_of(s: Seq<char>) -> Seq<char>;

/// Relies on str::to_lowercase: returns the lowercase form of the
/// string, a function of its characters alone.
#[verifier::external_body]
fn lowercase(s: &str) -> (r: String)
    ensures
        r@ == lower_of(s@),
{
    s.to_lowercase()
}

/// What one member-join event carries: the group joined, the joining
/// account, its free-text display name and its short numeric tag.
pub struct MemberJoinRecord {
    pub guild_id: u64,
    pub user_id: u64,
    pub display_name: String,
    pub discriminator_tag: String,
}

/// The classifier's output: a spam determination and a reason line.
pub struct Verdict {
    pub is_spam: bool,
    pub reason: String,
}

/// The reason attached to every positive verdict.
pub open spec fn spam_reason() -> Seq<char> {
    "User is most likely a spam account."@
}

/// The lowercased display name holds one of the flagged substrings.
pub open spec fn name_is_flagged(lower_name: Seq<char>) -> bool {
    ||| contains_seq(lower_name, "/token"@)
    ||| contains_seq(lower_name, "john f"@)
    ||| contains_seq(lower_name, "motion"@)
}

/// The freshness rule: the process's elapsed milliseconds plus one
/// minute exceed the creation instant embedded in the identifier.
/// This compares an uptime against an absolute timestamp, exactly as
/// the policy states it; equality does not fire.
pub open spec fn account_is_fresh(elapsed_millis: u64, user_id: u64) -> bool {
    elapsed_millis + 60000 > creation_millis_of(user_id)
}

/// The whole decision policy: a disjunction of the three substring
/// rules on the lowercased display name and the freshness rule.
pub open spec fn spec_is_spam(name: Seq<char>, user_id: u64, elapsed_millis: u64) -> bool {
    ||| name_is_flagged(lower_of(name))
    ||| account_is_fresh(elapsed_millis, user_id)
}

/// Evaluates the freshness rule.
pub fn freshness_check(elapsed_millis: u64, user_id: u64) -> (r: bool)
    ensures
        r == account_is_fresh(elapsed_millis, user_id),
{
    let created = creation_millis(user_id);
    (elapsed_millis as u128) + 60000 > (created as u128)
}

/// Classifies one member-join record.  Pure: the verdict is a function
/// of the record's fields and the elapsed-time reading alone.
pub fn classify(record: &MemberJoinRecord, elapsed_millis: u64) -> (v: Verdict)
    ensures
        v.is_spam == spec_is_spam(record.display_name@, record.user_id, elapsed_millis),
        v.reason@ == spam_reason(),
{
    let lowered = lowercase(record.display_name.as_str());
    let is_spam = contains_sub(lowered.as_str(), "/token")
        || contains_sub(lowered.as_str(), "john f")
        || contains_sub(lowered.as_str(), "motion")
        || freshness_check(elapsed_millis, record.user_id);
    Verdict { is_spam, reason: String::from_str("User is most likely a spam account.") }
}

/// Law: a display name whose lowercase form holds one of the flagged
/// substrings is classified as spam, whatever the other fields say.
pub proof fn lemma_flagged_name_is_spam(name: Seq<char>, user_id: u64, elapsed_millis: u64)
    requires
        name_is_flagged(lower_of(name)),
    ensures
        spec_is_spam(name, user_id, elapsed_millis),
{
}

/// Law: when no flagged substring is present, the verdict is decided
/// by the freshness rule alone, and the tie (elapsed plus one minute
/// equal to the creation instant) is not spam.
pub proof fn lemma_freshness_decides(name: Seq<char>, user_id: u64, elapsed_millis: u64)
    requires
        !name_is_flagged(lower_of(name)),
    ensures
        spec_is_spam(name, user_id, elapsed_millis) == (elapsed_millis + 60000
            > creation_millis_of(user_id)),
        elapsed_millis + 60000 == creation_millis_of(user_id) ==> !spec_is_spam(
            name,
            user_id,
            elapsed_millis,
        ),
{
}

/// Law: the classifier is deterministic — two records that agree on
/// the fields the policy reads receive the same determination.
pub proof fn lemma_classify_deterministic(
    a: MemberJoinRecord,
    b: MemberJoinRecord,
    elapsed_millis: u64,
)
    requires
        a.display_name@ == b.display_name@,
        a.user_id == b.user_id,
    ensures
        spec_is_spam(a.display_name@, a.user_id, elapsed_millis) == spec_is_spam(
            b.display_name@,
            b.user_id,
            elapsed_millis,
        ),
{
}

} // verus!
