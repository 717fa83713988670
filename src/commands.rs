//! The commands the bot registers: operator and player entry points into the
//! engine, in the order they are registered.
use vstd::prelude::*;

verus! {

#[derive(PartialEq, Eq, Structural, Clone, Copy, Debug)]
pub enum Command {
    Register,
    Setup,
    Activate,
    SetQuestion,
    ClearCooldown,
    ClearAllCooldowns,
    FixedErr,
    Progress,
    Badges,
    InvalidateBadgeCache,
    DbgCache,
    AllEvents,
    AddEvent,
    AddUserBadge,
    RemoveUserBadge,
}

/// Every command, in registration order: meta, game, progress, badges.
pub open spec fn command_list() -> Seq<Command> {
    seq![
        Command::Register,
        Command::Setup,
        Command::Activate,
        Command::SetQuestion,
        Command::ClearCooldown,
        Command::ClearAllCooldowns,
        Command::FixedErr,
        Command::Progress,
        Command::Badges,
        Command::InvalidateBadgeCache,
        Command::DbgCache,
        Command::AllEvents,
        Command::AddEvent,
        Command::AddUserBadge,
        Command::RemoveUserBadge,
    ]
}

/// The name a command is registered under.
pub open spec fn command_name(c: Command) -> Seq<char> {
    match c {
        Command::Register => "register"@,
        Command::Setup => "setup"@,
        Command::Activate => "activate"@,
        Command::SetQuestion => "set-question"@,
        Command::ClearCooldown => "clear-cooldown"@,
        Command::ClearAllCooldowns => "clear-all-cooldowns"@,
        Command::FixedErr => "fixed-err"@,
        Command::Progress => "progress"@,
        Command::Badges => "badges"@,
        Command::InvalidateBadgeCache => "invalidate-badge-cache"@,
        Command::DbgCache => "dbg-cache"@,
        Command::AllEvents => "all-events"@,
        Command::AddEvent => "add-event"@,
        Command::AddUserBadge => "add-user-badge"@,
        Command::RemoveUserBadge => "remove-user-badge"@,
    }
}

/// The commands to register.
pub fn commands() -> (r: Vec<Command>)
    ensures
        r@ == command_list(),
{
    let r = vec![
        Command::Register,
        Command::Setup,
        Command::Activate,
        Command::SetQuestion,
        Command::ClearCooldown,
        Command::ClearAllCooldowns,
        Command::FixedErr,
        Command::Progress,
        Command::Badges,
        Command::InvalidateBadgeCache,
        Command::DbgCache,
        Command::AllEvents,
        Command::AddEvent,
        Command::AddUserBadge,
        Command::RemoveUserBadge,
    ];
    assert(r@ =~= command_list());
    r
}

impl Command {
    /// Whether only the bot's owners may run the command.
    pub fn owners_only(&self) -> (r: bool)
        ensures
            r == !(*self is Badges || *self is AllEvents),
    {
        !matches!(self, Command::Badges | Command::AllEvents)
    }

    /// The name the command is registered under.
    pub fn name(&self) -> (r: &'static str)
        ensures
            r@ == command_name(*self),
    {
        proof {
            reveal_strlit("register");
            reveal_strlit("setup");
            reveal_strlit("activate");
            reveal_strlit("set-question");
            reveal_strlit("clear-cooldown");
            reveal_strlit("clear-all-cooldowns");
            reveal_strlit("fixed-err");
            reveal_strlit("progress");
            reveal_strlit("badges");
            reveal_strlit("invalidate-badge-cache");
            reveal_strlit("dbg-cache");
            reveal_strlit("all-events");
            reveal_strlit("add-event");
            reveal_strlit("add-user-badge");
            reveal_strlit("remove-user-badge");
        }
        match self {
            Command::Register => "register",
            Command::Setup => "setup",
            Command::Activate => "activate",
            Command::SetQuestion => "set-question",
            Command::ClearCooldown => "clear-cooldown",
            Command::ClearAllCooldowns => "clear-all-cooldowns",
            Command::FixedErr => "fixed-err",
            Command::Progress => "progress",
            Command::Badges => "badges",
            Command::InvalidateBadgeCache => "invalidate-badge-cache",
            Command::DbgCache => "dbg-cache",
            Command::AllEvents => "all-events",
            Command::AddEvent => "add-event",
            Command::AddUserBadge => "add-user-badge",
            Command::RemoveUserBadge => "remove-user-badge",
        }
    }
}

} // verus!
