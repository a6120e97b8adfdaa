//! The `help` command.

use vstd::prelude::*;
use crate::interaction::{simple_response, InteractionReply};

verus! {

/// The kinds of application command.
#[derive(Debug, Clone, Copy, PartialEq, Eq)]
pub enum CommandType {
    ChatInput,
    User,
    Message,
}

/// What the platform is told of a command.
#[derive(Debug, PartialEq, Eq)]
pub struct CommandDefinition {
    pub name: String,
    pub description: String,
    pub kind: CommandType,
}

/// The text of the reply to the `help` command, with the invite link
/// `invite`.
pub open spec fn help_text(invite: Seq<char>) -> Seq<char> {
    "You can join our Discord Server with the following link: "@ + invite
}

/// The definition of the `help` command.
pub fn command_definition() -> (command: CommandDefinition)
    ensures
        command.name@ == "help"@,
        command.description@ == "Join our Discord Server to get support"@,
        command.kind is ChatInput,
{
    CommandDefinition {
        name: String::from_str("help"),
        description: String::from_str("Join our Discord Server to get support"),
        kind: CommandType::ChatInput,
    }
}

/// The number of commands besides `help`.
pub const OTHER_COMMANDS: usize = 9;

/// The place of `help` in the list of commands.
pub const HELP_POSITION: usize = 2;

/// The list of commands in the order in which the platform is told of them:
/// `others` in their order, with `help` in the third place. `others` are
/// the commands format, invite, website, message, webhook, restore message,
/// dump message, image and embed, in this order.
pub fn with_help<T>(help: T, others: Vec<T>) -> (commands: Vec<T>)
    requires
        others.len() == OTHER_COMMANDS,
    ensures
        commands@ == others@.insert(HELP_POSITION as int, help),
        commands@.len() == OTHER_COMMANDS + 1,
        commands@[HELP_POSITION as int] == help,
        forall|i: int| 0 <= i < HELP_POSITION ==> commands@[i] == others@[i],
        forall|i: int| HELP_POSITION < i <= OTHER_COMMANDS ==> commands@[i] == others@[i - 1],
{
    let mut commands = others;
    commands.insert(HELP_POSITION, help);
    commands
}

/// The definitions of all commands, in the order in which the platform is
/// told of them: the definitions `others` of the commands format, invite,
/// website, message, webhook, restore message, dump message, image and
/// embed, in this order, with the definition of `help` in the third place.
pub fn command_definitions(others: Vec<CommandDefinition>) -> (commands: Vec<CommandDefinition>)
    requires
        others.len() == 9,
    ensures
        commands@.len() == 10,
        commands@[0] == others@[0],
        commands@[1] == others@[1],
        commands@[2].name@ == "help"@,
        commands@[2].description@ == "Join our Discord Server to get support"@,
        commands@[2].kind is ChatInput,
        forall|i: int| 3 <= i < 10 ==> commands@[i] == others@[i - 1],
{
    with_help(command_definition(), others)
}

/// The reply to the `help` command: a notice with the invite link.
pub fn handle_command(invite: &str) -> (reply: InteractionReply)
    ensures
        reply.is_notice(help_text(invite@)),
{
    let mut text = String::from_str("You can join our Discord Server with the following link: ");
    text.append(invite);
    simple_response(text)
}

} // verus!
