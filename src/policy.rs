//! Who may set which label.
//!
//! Team members may set any label. Everybody else may set labels of a few
//! open namespaces and a handful of diagnostic tags; any other label is
//! refused with an explanation.
use vstd::prelude::*;
use crate::text::{has_prefix, same_text, starts_with};

verus! {

/// Outcome of asking the tracker whether the commenting user is a team member.
#[derive(Clone, Copy, Debug, PartialEq, Eq, Structural)]
pub enum Membership {
    Member,
    NotMember,
    /// The question could not be answered (a transport or API error).
    CheckFailed,
}

/// The label lies in a namespace that anybody may set: categories, areas,
/// easy/mentor markers, NLL, operating systems, status, teams, working groups.
pub open spec fn has_open_prefix(name: Seq<char>) -> bool {
    ||| has_prefix(name, "C-"@)
    ||| has_prefix(name, "A-"@)
    ||| has_prefix(name, "E-"@)
    ||| has_prefix(name, "NLL-"@)
    ||| has_prefix(name, "O-"@)
    ||| has_prefix(name, "S-"@)
    ||| has_prefix(name, "T-"@)
    ||| has_prefix(name, "WG-"@)
}

/// The label is one of the diagnostic tags that anybody may set.
pub open spec fn is_open_tag(name: Seq<char>) -> bool {
    ||| name == "I-compilemem"@
    ||| name == "I-compiletime"@
    ||| name == "I-crash"@
    ||| name == "I-hang"@
    ||| name == "I-ICE"@
    ||| name == "I-slow"@
}

/// A user with the given membership outcome may add or remove the label.
pub open spec fn may_set(name: Seq<char>, membership: Membership) -> bool {
    membership == Membership::Member || has_open_prefix(name) || is_open_tag(name)
}

/// The explanation given when a label is refused.
pub open spec fn deny_message(name: Seq<char>, membership: Membership) -> Seq<char> {
    let base = "Label "@ + name + " can only be set by Rust team members"@;
    if membership == Membership::CheckFailed {
        base + ";we were unable to check if you are a team member."@
    } else {
        base
    }
}

fn has_open_prefix_exec(label: &str) -> (r: bool)
    ensures
        r == has_open_prefix(label@),
{
    starts_with(label, "C-") || starts_with(label, "A-") || starts_with(label, "E-")
        || starts_with(label, "NLL-") || starts_with(label, "O-") || starts_with(label, "S-")
        || starts_with(label, "T-") || starts_with(label, "WG-")
}

fn is_open_tag_exec(label: &str) -> (r: bool)
    ensures
        r == is_open_tag(label@),
{
    same_text(label, "I-compilemem") || same_text(label, "I-compiletime") || same_text(
        label,
        "I-crash",
    ) || same_text(label, "I-hang") || same_text(label, "I-ICE") || same_text(label, "I-slow")
}

fn deny_text(label: &str, membership: Membership) -> (r: String)
    ensures
        r@ == deny_message(label@, membership),
{
    let mut msg = String::from_str("Label ");
    msg.append(label);
    msg.append(" can only be set by Rust team members");
    if membership == Membership::CheckFailed {
        msg.append(";we were unable to check if you are a team member.");
    }
    msg
}

/// Decides whether a user with the given membership outcome may set `label`;
/// on refusal, returns the message to show them. A failed membership check
/// is treated as "not a member": it changes the wording, never the decision.
pub fn check_filter(label: &str, membership: Membership) -> (r: Result<(), String>)
    ensures
        r is Ok <==> may_set(label@, membership),
        r matches Err(msg) ==> msg@ == deny_message(label@, membership),
{
    if membership == Membership::Member {
        return Ok(());
    }
    if has_open_prefix_exec(label) || is_open_tag_exec(label) {
        return Ok(());
    }
    Err(deny_text(label, membership))
}

/// A failed membership check grants exactly what a check that answered
/// "not a member" grants: no restricted label, whatever its namespace.
pub proof fn lemma_check_failed_is_not_member(name: Seq<char>)
    ensures
        may_set(name, Membership::CheckFailed) == may_set(name, Membership::NotMember),
        !has_open_prefix(name) && !is_open_tag(name) ==> !may_set(name, Membership::CheckFailed),
{
}

/// Every label of an open namespace, and every open diagnostic tag, may be set
/// by a user whom the tracker reports as not a member.
pub proof fn lemma_open_labels_allowed(name: Seq<char>)
    ensures
        has_prefix(name, "C-"@) ==> may_set(name, Membership::NotMember),
        has_prefix(name, "A-"@) ==> may_set(name, Membership::NotMember),
        has_prefix(name, "E-"@) ==> may_set(name, Membership::NotMember),
        has_prefix(name, "NLL-"@) ==> may_set(name, Membership::NotMember),
        has_prefix(name, "O-"@) ==> may_set(name, Membership::NotMember),
        has_prefix(name, "S-"@) ==> may_set(name, Membership::NotMember),
        has_prefix(name, "T-"@) ==> may_set(name, Membership::NotMember),
        has_prefix(name, "WG-"@) ==> may_set(name, Membership::NotMember),
        name == "I-compilemem"@ ==> may_set(name, Membership::NotMember),
        name == "I-compiletime"@ ==> may_set(name, Membership::NotMember),
        name == "I-crash"@ ==> may_set(name, Membership::NotMember),
        name == "I-hang"@ ==> may_set(name, Membership::NotMember),
        name == "I-ICE"@ ==> may_set(name, Membership::NotMember),
        name == "I-slow"@ ==> may_set(name, Membership::NotMember),
{
}

} // verus!
