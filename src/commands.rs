//! The bot's slash commands and their names.
use vstd::prelude::*;
use crate::text::text_eq;

verus! {

#[derive(Clone, Copy, PartialEq, Eq, Structural)]
pub enum SlashCommands {
    BanTop,
    Play,
    Skip,
    Stop,
    Queue,
    Speedrun,
    AddPrivateLeaderboard,
    SetSessionCookie,
    Roll,
}

/// The name a command is registered and invoked under.
pub open spec fn command_name(c: SlashCommands) -> Seq<char> {
    match c {
        SlashCommands::BanTop => "bantop"@,
        SlashCommands::Play => "play"@,
        SlashCommands::Skip => "skip"@,
        SlashCommands::Stop => "stop"@,
        SlashCommands::Queue => "queue"@,
        SlashCommands::Speedrun => "speedrun"@,
        SlashCommands::AddPrivateLeaderboard => "addprivateleaderboard"@,
        SlashCommands::SetSessionCookie => "setsessioncookie"@,
        SlashCommands::Roll => "roll"@,
    }
}

/// A name that belongs to no command.
pub struct UnknownCommand;

impl SlashCommands {
    /// The command's name.
    pub fn as_str(&self) -> (r: &'static str)
        ensures
            r@ == command_name(*self),
    {
        match self {
            SlashCommands::BanTop => "bantop",
            SlashCommands::Play => "play",
            SlashCommands::Skip => "skip",
            SlashCommands::Stop => "stop",
            SlashCommands::Queue => "queue",
            SlashCommands::Speedrun => "speedrun",
            SlashCommands::AddPrivateLeaderboard => "addprivateleaderboard",
            SlashCommands::SetSessionCookie => "setsessioncookie",
            SlashCommands::Roll => "roll",
        }
    }

    /// The command named `name`.
    pub fn parse(name: &str) -> (r: Result<SlashCommands, UnknownCommand>)
        ensures
            r matches Ok(c) ==> command_name(c) == name@,
            r is Err ==> forall|c: SlashCommands| command_name(c) != name@,
    {
        if text_eq(name, "bantop") {
            Ok(SlashCommands::BanTop)
        } else if text_eq(name, "play") {
            Ok(SlashCommands::Play)
        } else if text_eq(name, "skip") {
            Ok(SlashCommands::Skip)
        } else if text_eq(name, "stop") {
            Ok(SlashCommands::Stop)
        } else if text_eq(name, "queue") {
            Ok(SlashCommands::Queue)
        } else if text_eq(name, "speedrun") {
            Ok(SlashCommands::Speedrun)
        } else if text_eq(name, "addprivateleaderboard") {
            Ok(SlashCommands::AddPrivateLeaderboard)
        } else if text_eq(name, "setsessioncookie") {
            Ok(SlashCommands::SetSessionCookie)
        } else if text_eq(name, "roll") {
            Ok(SlashCommands::Roll)
        } else {
            Err(UnknownCommand)
        }
    }
}

impl std::str::FromStr for SlashCommands {
    type Err = UnknownCommand;

    fn from_str(input: &str) -> Result<SlashCommands, UnknownCommand> {
        SlashCommands::parse(input)
    }
}

} // verus!
