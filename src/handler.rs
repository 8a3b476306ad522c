//! What one incoming event leads to.
//!
//! The handler reads an issue-comment event, the command parsed out of its
//! body and the commenting user's membership outcome, and decides on one
//! action: nothing, an error comment for a malformed command, a denial
//! comment, or a new set of labels for the issue. Carrying the action out
//! (posting, updating the issue) is left to the caller.
use vstd::prelude::*;
use crate::labels::{
    Label,
    LabelDelta,
    apply_deltas,
    deltas_change,
    delta_name,
    label_names,
    resolve,
};
use crate::policy::{Membership, check_filter, deny_message, may_set};

verus! {

/// A comment posted on an issue.
pub struct IssueCommentEvent {
    /// The comment's text, where a label command may stand.
    pub body: String,
    /// The commenting user's login.
    pub user: String,
    /// The comment's canonical address, quoted in error messages.
    pub comment_url: String,
    pub issue_number: u64,
    /// The issue's labels when the comment arrived.
    pub labels: Vec<Label>,
}

/// An event delivered to the handler.
pub enum Event {
    IssueComment(IssueCommentEvent),
    /// Any event of another kind: not this handler's concern.
    Other,
}

/// What the command parser made of a comment body.
pub enum Command {
    /// The comment holds no label command.
    Absent,
    /// The comment holds a label command that does not parse; the parser's message.
    Malformed(String),
    /// The requested deltas, in order.
    Parsed(Vec<LabelDelta>),
}

/// The action an event leads to.
pub enum Action {
    /// Nothing to do: the event is handled.
    Nothing,
    /// Post this comment, then report the event as failed.
    ReportParseError(String),
    /// Post this comment; the event is handled.
    Deny(String),
    /// Replace the issue's labels with these.
    SetLabels(Vec<Label>),
}

/// The mathematical content of an [`Action`].
pub enum Plan {
    Nothing,
    ReportParseError(Seq<char>),
    Deny(Seq<char>),
    SetLabels(Seq<Seq<char>>),
}

impl View for Action {
    type V = Plan;

    open spec fn view(&self) -> Plan {
        match self {
            Action::Nothing => Plan::Nothing,
            Action::ReportParseError(c) => Plan::ReportParseError(c@),
            Action::Deny(c) => Plan::Deny(c@),
            Action::SetLabels(ls) => Plan::SetLabels(label_names(ls@)),
        }
    }
}

/// The comment posted when a label command does not parse.
pub open spec fn parse_error_message(url: Seq<char>, err: Seq<char>) -> Seq<char> {
    "Parsing label command in [comment]("@ + url + ") failed: "@ + err
}

/// `k` is the first delta whose label the user may not set.
pub open spec fn first_denied(ds: Seq<LabelDelta>, membership: Membership, k: int) -> bool {
    &&& 0 <= k < ds.len()
    &&& !may_set(delta_name(ds[k]), membership)
    &&& forall|j: int| 0 <= j < k ==> may_set(delta_name(#[trigger] ds[j]), membership)
}

/// The plan for parsed deltas on an issue whose labels are `labels`: the
/// deltas are all authorized before any takes effect; the first refused one
/// is reported and nothing changes; otherwise the labels are updated only if
/// a delta changed them.
pub open spec fn deltas_plan(labels: Seq<Seq<char>>, ds: Seq<LabelDelta>, membership: Membership) -> Plan {
    if exists|k: int| first_denied(ds, membership, k) {
        let k = choose|k: int| first_denied(ds, membership, k);
        Plan::Deny(deny_message(delta_name(ds[k]), membership))
    } else if deltas_change(labels, ds) {
        Plan::SetLabels(apply_deltas(labels, ds))
    } else {
        Plan::Nothing
    }
}

/// The plan for a command on an issue whose labels are `labels`, where `url`
/// is the address of the comment that held the command.
pub open spec fn command_plan(
    labels: Seq<Seq<char>>,
    url: Seq<char>,
    command: Command,
    membership: Membership,
) -> Plan {
    match command {
        Command::Absent => Plan::Nothing,
        Command::Malformed(err) => Plan::ReportParseError(parse_error_message(url, err@)),
        Command::Parsed(ds) => deltas_plan(labels, ds@, membership),
    }
}

/// The plan for an event: only issue comments are acted upon.
pub open spec fn event_plan(event: Event, command: Command, membership: Membership) -> Plan {
    match event {
        Event::IssueComment(e) => command_plan(
            label_names(e.labels@),
            e.comment_url@,
            command,
            membership,
        ),
        Event::Other => Plan::Nothing,
    }
}

fn parse_error_text(url: &str, err: &str) -> (r: String)
    ensures
        r@ == parse_error_message(url@, err@),
{
    let mut msg = String::from_str("Parsing label command in [comment](");
    msg.append(url);
    msg.append(") failed: ");
    msg.append(err);
    msg
}

fn copy_labels(labels: &Vec<Label>) -> (r: Vec<Label>)
    ensures
        label_names(r@) == label_names(labels@),
{
    let mut r: Vec<Label> = Vec::new();
    let mut i: usize = 0;
    while i < labels.len()
        invariant
            i <= labels@.len(),
            label_names(r@) == label_names(labels@.subrange(0, i as int)),
        decreases labels@.len() - i,
    {
        r.push(Label { name: labels[i].name.clone() });
        assert(label_names(labels@.subrange(0, i + 1)) =~= label_names(
            labels@.subrange(0, i as int),
        ).push(labels@[i as int].name@));
        i = i + 1;
    }
    assert(labels@.subrange(0, labels@.len() as int) =~= labels@);
    r
}

/// Handles label commands in issue comments.
pub struct LabelHandler {
    /// The bot's own login, by which the command parser recognises commands
    /// addressed to it.
    pub username: String,
}

impl LabelHandler {
    /// A handler for the bot that logs in as `username`.
    pub fn new(username: String) -> (r: LabelHandler)
        ensures
            r.username@ == username@,
    {
        LabelHandler { username }
    }

    /// Decides what `event` leads to, given the command parsed from its body
    /// and the commenting user's membership outcome.
    pub fn handle_event(&self, event: &Event, command: &Command, membership: Membership) -> (r:
        Action)
        ensures
            r@ == event_plan(*event, *command, membership),
    {
        let e = match event {
            Event::IssueComment(e) => e,
            Event::Other => return Action::Nothing,
        };
        match command {
            Command::Absent => Action::Nothing,
            Command::Malformed(err) => Action::ReportParseError(
                parse_error_text(e.comment_url.as_str(), err.as_str()),
            ),
            Command::Parsed(deltas) => apply_command(&e.labels, deltas, membership),
        }
    }
}

/// Authorizes every delta, then resolves them against a copy of `labels`.
fn apply_command(labels: &Vec<Label>, deltas: &Vec<LabelDelta>, membership: Membership) -> (r:
    Action)
    ensures
        r@ == deltas_plan(label_names(labels@), deltas@, membership),
{
    let mut i: usize = 0;
    while i < deltas.len()
        invariant
            i <= deltas@.len(),
            forall|j: int| 0 <= j < i ==> may_set(delta_name(#[trigger] deltas@[j]), membership),
        decreases deltas@.len() - i,
    {
        match check_filter(deltas[i].label().name.as_str(), membership) {
            Ok(()) => {},
            Err(msg) => {
                proof {
                    assert(first_denied(deltas@, membership, i as int));
                    let k = choose|k: int| first_denied(deltas@, membership, k);
                    if k < i {
                        assert(may_set(delta_name(deltas@[k]), membership));
                    }
                    if i < k {
                        assert(may_set(delta_name(deltas@[i as int]), membership));
                    }
                }
                return Action::Deny(msg);
            },
        }
        i = i + 1;
    }
    let mut working = copy_labels(labels);
    let changed = resolve(&mut working, deltas);
    if changed {
        Action::SetLabels(working)
    } else {
        Action::Nothing
    }
}

proof fn lemma_first_denial_exists(ds: Seq<LabelDelta>, membership: Membership, k: int)
    requires
        0 <= k < ds.len(),
        !may_set(delta_name(ds[k]), membership),
    ensures
        exists|f: int| first_denied(ds, membership, f),
    decreases k,
{
    if forall|j: int| 0 <= j < k ==> may_set(delta_name(#[trigger] ds[j]), membership) {
        assert(first_denied(ds, membership, k));
    } else {
        let j = choose|j: int| 0 <= j < k && !may_set(delta_name(#[trigger] ds[j]), membership);
        lemma_first_denial_exists(ds, membership, j);
    }
}

/// If any delta of a command is refused, the command is refused as a whole:
/// the plan is a denial, and no label is added or removed.
pub proof fn lemma_denial_is_atomic(
    labels: Seq<Seq<char>>,
    url: Seq<char>,
    command: Command,
    membership: Membership,
    k: int,
)
    requires
        command matches Command::Parsed(ds) && 0 <= k < ds@.len() && !may_set(
            delta_name(ds@[k]),
            membership,
        ),
    ensures
        command_plan(labels, url, command, membership) is Deny,
{
    if let Command::Parsed(ds) = command {
        lemma_first_denial_exists(ds@, membership, k);
    }
}

/// A command whose deltas are all in effect already leads to no label update.
pub proof fn lemma_no_update_when_in_effect(
    labels: Seq<Seq<char>>,
    url: Seq<char>,
    command: Command,
    membership: Membership,
)
    requires
        command matches Command::Parsed(ds) && crate::labels::already_applied(labels, ds@),
    ensures
        !(command_plan(labels, url, command, membership) is SetLabels),
{
    if let Command::Parsed(ds) = command {
        crate::labels::lemma_no_spurious_change(labels, ds@);
    }
}

} // verus!
