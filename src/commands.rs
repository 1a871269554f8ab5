//! The closed set of commands an agent understands, and how an envelope names one.
use crate::text::same_text;
use vstd::prelude::*;

verus! {

/// The commands of the dispatch table.
#[derive(Clone, Copy, Debug, PartialEq, Eq, Structural)]
pub enum CommandKind {
    Create,
    Delete,
    CreateStorage,
    Restart,
    Stop,
    AddDescription,
    AddFloatingIp,
    ListStorage,
    Instance,
    List,
}

/// How many positional arguments a command reads.
pub open spec fn arity(k: CommandKind) -> nat {
    match k {
        CommandKind::Create => 3,
        CommandKind::Delete => 1,
        CommandKind::CreateStorage => 3,
        CommandKind::Restart => 2,
        CommandKind::Stop => 1,
        CommandKind::AddDescription => 2,
        CommandKind::AddFloatingIp => 2,
        CommandKind::ListStorage => 0,
        CommandKind::Instance => 1,
        CommandKind::List => 0,
    }
}

/// Whether a command answers on the reply address: the inspection commands do,
/// the mutating ones do not.
pub open spec fn answers(k: CommandKind) -> bool {
    match k {
        CommandKind::ListStorage | CommandKind::Instance | CommandKind::List => true,
        _ => false,
    }
}

/// The command that a name denotes: an exact, case-sensitive match against the table.
pub open spec fn kind_of(name: Seq<char>) -> Option<CommandKind> {
    if name == "create"@ {
        Some(CommandKind::Create)
    } else if name == "delete"@ {
        Some(CommandKind::Delete)
    } else if name == "create-storage"@ {
        Some(CommandKind::CreateStorage)
    } else if name == "restart"@ {
        Some(CommandKind::Restart)
    } else if name == "stop"@ {
        Some(CommandKind::Stop)
    } else if name == "add-description"@ {
        Some(CommandKind::AddDescription)
    } else if name == "add-floating-ip"@ {
        Some(CommandKind::AddFloatingIp)
    } else if name == "list-storage"@ {
        Some(CommandKind::ListStorage)
    } else if name == "instance"@ {
        Some(CommandKind::Instance)
    } else if name == "list"@ {
        Some(CommandKind::List)
    } else {
        None
    }
}

/// A command together with the arguments it reads.
pub enum Command {
    Create { name: String, flavor: String, extra: String },
    Delete { name: String },
    CreateStorage { name: String, volume: String, size: String },
    Restart { name: String, flavor: String },
    Stop { name: String },
    AddDescription { name: String, text: String },
    AddFloatingIp { name: String, ip: String },
    ListStorage,
    Instance { name: String },
    List,
}

impl View for Command {
    type V = (CommandKind, Seq<Seq<char>>);

    open spec fn view(&self) -> (CommandKind, Seq<Seq<char>>) {
        match self {
            Command::Create { name, flavor, extra } => (
                CommandKind::Create,
                seq![name@, flavor@, extra@],
            ),
            Command::Delete { name } => (CommandKind::Delete, seq![name@]),
            Command::CreateStorage { name, volume, size } => (
                CommandKind::CreateStorage,
                seq![name@, volume@, size@],
            ),
            Command::Restart { name, flavor } => (CommandKind::Restart, seq![name@, flavor@]),
            Command::Stop { name } => (CommandKind::Stop, seq![name@]),
            Command::AddDescription { name, text } => (
                CommandKind::AddDescription,
                seq![name@, text@],
            ),
            Command::AddFloatingIp { name, ip } => (CommandKind::AddFloatingIp, seq![name@, ip@]),
            Command::ListStorage => (CommandKind::ListStorage, Seq::empty()),
            Command::Instance { name } => (CommandKind::Instance, seq![name@]),
            Command::List => (CommandKind::List, Seq::empty()),
        }
    }
}

impl Command {
    /// Which command this is.
    pub fn kind(&self) -> (r: CommandKind)
        ensures
            r == self@.0,
    {
        match self {
            Command::Create { .. } => CommandKind::Create,
            Command::Delete { .. } => CommandKind::Delete,
            Command::CreateStorage { .. } => CommandKind::CreateStorage,
            Command::Restart { .. } => CommandKind::Restart,
            Command::Stop { .. } => CommandKind::Stop,
            Command::AddDescription { .. } => CommandKind::AddDescription,
            Command::AddFloatingIp { .. } => CommandKind::AddFloatingIp,
            Command::ListStorage => CommandKind::ListStorage,
            Command::Instance { .. } => CommandKind::Instance,
            Command::List => CommandKind::List,
        }
    }
}

/// Looks a command name up in the dispatch table.
pub fn command_kind(name: &str) -> (r: Option<CommandKind>)
    ensures
        r == kind_of(name@),
{
    proof {
        reveal_strlit("create");
        reveal_strlit("delete");
        reveal_strlit("create-storage");
        reveal_strlit("restart");
        reveal_strlit("stop");
        reveal_strlit("add-description");
        reveal_strlit("add-floating-ip");
        reveal_strlit("list-storage");
        reveal_strlit("instance");
        reveal_strlit("list");
    }
    if same_text(name, "create") {
        Some(CommandKind::Create)
    } else if same_text(name, "delete") {
        Some(CommandKind::Delete)
    } else if same_text(name, "create-storage") {
        Some(CommandKind::CreateStorage)
    } else if same_text(name, "restart") {
        Some(CommandKind::Restart)
    } else if same_text(name, "stop") {
        Some(CommandKind::Stop)
    } else if same_text(name, "add-description") {
        Some(CommandKind::AddDescription)
    } else if same_text(name, "add-floating-ip") {
        Some(CommandKind::AddFloatingIp)
    } else if same_text(name, "list-storage") {
        Some(CommandKind::ListStorage)
    } else if same_text(name, "instance") {
        Some(CommandKind::Instance)
    } else if same_text(name, "list") {
        Some(CommandKind::List)
    } else {
        None
    }
}

} // verus!
