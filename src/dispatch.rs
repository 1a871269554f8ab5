//! The decisions of the dispatch loop: which handler an inbound message asks
//! for, and whether its result is published.
//!
//! The loop itself waits on the message bus and on the collaborators; it hands
//! each message to [`on_message`] and each handler's outcome to [`reply_for`].
use crate::commands::{answers, arity, command_kind, kind_of, Command, CommandKind};
use crate::envelope::{decode_envelope, envelope_of_payload, CommandEnvelope, DecodeError, MalformedReason};
use crate::instances::{
    encode_summaries, encode_summary, summaries_json, summaries_of, summarize, summarize_all,
    summary_json, summary_of, InstanceRecord,
};
use vstd::prelude::*;

verus! {

/// Where an envelope leads.
pub enum Routing {
    /// Run this handler.
    Run(Command),
    /// The command is not in the table: ignored, with no reply.
    UnknownCommand,
    /// The command reads more arguments than the envelope holds: the handler fails.
    MissingArguments(CommandKind),
}

/// Chooses the handler for an envelope. Extra arguments are not read.
pub fn route(e: &CommandEnvelope) -> (r: Routing)
    ensures
        kind_of(e.command@) is None <==> r is UnknownCommand,
        forall|k: CommandKind|
            kind_of(e.command@) == Some(k) && e.args@.len() < arity(k) ==> r
                == Routing::MissingArguments(k),
        forall|k: CommandKind|
            kind_of(e.command@) == Some(k) && e.args@.len() >= arity(k) ==> (r matches Routing::Run(
                c,
            ) && c@ == (k, e@.1.take(arity(k) as int))),
{
    let kind = match command_kind(e.command.as_str()) {
        None => return Routing::UnknownCommand,
        Some(k) => k,
    };
    let n = e.args.len();
    let a = &e.args;
    let ghost want = e@.1;
    match kind {
        CommandKind::Create => {
            if n < 3 {
                return Routing::MissingArguments(kind);
            }
            let c = Command::Create { name: a[0].clone(), flavor: a[1].clone(), extra: a[2].clone() };
            assert(c@.1 =~= want.take(3));
            Routing::Run(c)
        },
        CommandKind::Delete => {
            if n < 1 {
                return Routing::MissingArguments(kind);
            }
            let c = Command::Delete { name: a[0].clone() };
            assert(c@.1 =~= want.take(1));
            Routing::Run(c)
        },
        CommandKind::CreateStorage => {
            if n < 3 {
                return Routing::MissingArguments(kind);
            }
            let c = Command::CreateStorage {
                name: a[0].clone(),
                volume: a[1].clone(),
                size: a[2].clone(),
            };
            assert(c@.1 =~= want.take(3));
            Routing::Run(c)
        },
        CommandKind::Restart => {
            if n < 2 {
                return Routing::MissingArguments(kind);
            }
            let c = Command::Restart { name: a[0].clone(), flavor: a[1].clone() };
            assert(c@.1 =~= want.take(2));
            Routing::Run(c)
        },
        CommandKind::Stop => {
            if n < 1 {
                return Routing::MissingArguments(kind);
            }
            let c = Command::Stop { name: a[0].clone() };
            assert(c@.1 =~= want.take(1));
            Routing::Run(c)
        },
        CommandKind::AddDescription => {
            if n < 2 {
                return Routing::MissingArguments(kind);
            }
            let c = Command::AddDescription { name: a[0].clone(), text: a[1].clone() };
            assert(c@.1 =~= want.take(2));
            Routing::Run(c)
        },
        CommandKind::AddFloatingIp => {
            if n < 2 {
                return Routing::MissingArguments(kind);
            }
            let c = Command::AddFloatingIp { name: a[0].clone(), ip: a[1].clone() };
            assert(c@.1 =~= want.take(2));
            Routing::Run(c)
        },
        CommandKind::ListStorage => {
            assert(want.take(0) =~= Seq::<Seq<char>>::empty());
            Routing::Run(Command::ListStorage)
        },
        CommandKind::Instance => {
            if n < 1 {
                return Routing::MissingArguments(kind);
            }
            let c = Command::Instance { name: a[0].clone() };
            assert(c@.1 =~= want.take(1));
            Routing::Run(c)
        },
        CommandKind::List => {
            assert(want.take(0) =~= Seq::<Seq<char>>::empty());
            Routing::Run(Command::List)
        },
    }
}

/// Why an inbound message runs no handler.
#[derive(Clone, Copy, Debug, PartialEq, Eq, Structural)]
pub enum SkipReason {
    /// The payload is no command envelope.
    Malformed(MalformedReason),
    /// The command is not in the table.
    UnknownCommand,
    /// The command reads more arguments than the envelope holds.
    MissingArguments(CommandKind),
}

/// What the loop does with one inbound message.
pub enum Step {
    /// Log and go on to the next message; nothing is published.
    Skip(SkipReason),
    /// Run the handler; its result may go to the reply address.
    Perform { command: Command, reply_to: Option<String> },
}

/// Why a payload runs no handler, or `None` where it runs one.
pub open spec fn skip_reason_of(payload: Seq<u8>) -> Option<SkipReason> {
    match envelope_of_payload(payload) {
        Err(why) => Some(SkipReason::Malformed(why)),
        Ok(e) => match kind_of(e.0) {
            None => Some(SkipReason::UnknownCommand),
            Some(k) => if e.1.len() < arity(k) {
                Some(SkipReason::MissingArguments(k))
            } else {
                None
            },
        },
    }
}

/// The command, with the arguments it reads, that a well-formed payload runs.
pub open spec fn command_of(payload: Seq<u8>) -> (CommandKind, Seq<Seq<char>>) {
    let e = envelope_of_payload(payload)->Ok_0;
    let k = kind_of(e.0)->Some_0;
    (k, e.1.take(arity(k) as int))
}

/// The characters of a reply address.
pub open spec fn address_model(a: Option<String>) -> Option<Seq<char>> {
    match a {
        None => None,
        Some(s) => Some(s@),
    }
}

/// Decides what one inbound message leads to. A malformed payload is skipped
/// with its reason, never aborting the loop; an unknown command is skipped
/// with no reply.
pub fn on_message(payload: &[u8], reply_to: Option<String>) -> (r: Step)
    ensures
        r matches Step::Skip(why) ==> skip_reason_of(payload@) == Some(why),
        r is Perform <==> skip_reason_of(payload@) is None,
        r matches Step::Perform { command, reply_to: back } ==> command@ == command_of(payload@)
            && back == reply_to,
{
    let e = match decode_envelope(payload) {
        Err(DecodeError::MalformedMessage(why)) => return Step::Skip(SkipReason::Malformed(why)),
        Ok(e) => e,
    };
    match route(&e) {
        Routing::UnknownCommand => Step::Skip(SkipReason::UnknownCommand),
        Routing::MissingArguments(k) => Step::Skip(SkipReason::MissingArguments(k)),
        Routing::Run(command) => Step::Perform { command, reply_to },
    }
}

/// How a handler ended.
pub enum Outcome {
    /// The handler or a collaborator failed; the failure was logged.
    Failed,
    /// The handler finished with nothing to report.
    Completed,
    /// The handler finished with this encoded result.
    Payload(String),
}

/// A message to send: its subject and its text.
pub struct Publish {
    pub subject: String,
    pub payload: String,
}

/// The reply a handler's outcome leads to, as subject and text: only where the
/// message carried a reply address, the command answers, and the handler
/// produced a result.
pub open spec fn reply_model(kind: CommandKind, reply_to: Option<Seq<char>>, outcome: Outcome) -> Option<
    (Seq<char>, Seq<char>),
> {
    match reply_to {
        None => None,
        Some(subject) => match outcome {
            Outcome::Payload(p) => if answers(kind) {
                Some((subject, p@))
            } else {
                None
            },
            _ => None,
        },
    }
}

/// Decides whether and where a handler's result is published.
pub fn reply_for(kind: CommandKind, reply_to: Option<String>, outcome: Outcome) -> (r: Option<Publish>)
    ensures
        r is None <==> reply_model(kind, address_model(reply_to), outcome) is None,
        r matches Some(m) ==> reply_model(kind, address_model(reply_to), outcome) == Some(
            (m.subject@, m.payload@),
        ),
{
    let answering = match kind {
        CommandKind::ListStorage | CommandKind::Instance | CommandKind::List => true,
        _ => false,
    };
    match reply_to {
        None => None,
        Some(subject) => match outcome {
            Outcome::Payload(payload) => if answering {
                Some(Publish { subject, payload })
            } else {
                None
            },
            _ => None,
        },
    }
}

/// The outcome of the `list` handler: every record, in the registry's order,
/// with the liveness observed for it in this query, as a JSON array.
pub fn list_outcome(records: &Vec<InstanceRecord>, alive: &Vec<bool>) -> (r: Outcome)
    requires
        alive@.len() == records@.len(),
    ensures
        r matches Outcome::Payload(t) && t@ == summaries_json(summaries_of(records@, alive@)),
        records@.len() == 0 ==> (r matches Outcome::Payload(t) && t@ == "[]"@),
{
    let list = summarize_all(records, alive);
    Outcome::Payload(encode_summaries(&list))
}

/// The outcome of the `instance` handler: the record with the liveness
/// observed for it in this query, as a JSON object.
pub fn instance_outcome(record: &InstanceRecord, alive: bool) -> (r: Outcome)
    ensures
        r matches Outcome::Payload(t) && t@ == summary_json(summary_of(*record, alive)),
{
    let s = summarize(record, alive);
    Outcome::Payload(encode_summary(&s))
}

/// A valid envelope whose command is not in the table runs no handler, and so
/// nothing is published for it; the loop goes on.
pub proof fn unknown_command_is_ignored(payload: Seq<u8>)
    requires
        envelope_of_payload(payload) is Ok,
        kind_of(envelope_of_payload(payload)->Ok_0.0) is None,
    ensures
        skip_reason_of(payload) == Some(SkipReason::UnknownCommand),
{
}

/// Without a reply address nothing is published, whatever the handler's outcome.
pub proof fn no_address_no_publish(kind: CommandKind, outcome: Outcome)
    ensures
        reply_model(kind, None, outcome) is None,
{
}

} // verus!
