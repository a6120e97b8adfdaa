//! Interactions: what arrives when a member uses a command or a component,
//! which handler an interaction goes to, and under what authority the
//! actions of a message run.

use std::collections::HashMap;
use vstd::prelude::*;
use crate::integrity::payload_digest;
use crate::payload::{ComponentKind, ComponentRow, MessageEmbed, MessagePayload};
use crate::permissions::{
    highest_role_position, ActionPermissionsContext, DerivedActionPermissionsContext,
};
use crate::provenance::{ChannelMessageModel, RecordView};
use crate::template::MessageVariables;
use crate::text::{decimal, decimal_string, same_text};

verus! {

/// Messages before this time, in seconds since the epoch, were sent before
/// the sender's permissions were tracked.
pub const PERMISSION_TRACKING_EPOCH: i64 = 0;

/// Messages before this time, in seconds since the epoch, were sent before
/// message integrity was tracked.
pub const INTEGRITY_TRACKING_EPOCH: i64 = 1659880800;

/// The kind of an interaction.
#[derive(Debug, Clone, Copy, PartialEq, Eq)]
pub enum InteractionKind {
    ApplicationCommand,
    ApplicationCommandAutocomplete,
    MessageComponent,
    ModalSubmit,
    Other,
}

/// What a used component reports.
#[derive(Debug, Clone, PartialEq, Eq)]
pub struct ComponentData {
    pub kind: ComponentKind,
    pub custom_id: String,
    /// The values that the member has selected in a select menu.
    pub values: Vec<String>,
}

/// The data of an interaction.
#[derive(Debug, PartialEq, Eq)]
pub enum InteractionData {
    ApplicationCommand { name: String },
    MessageComponent(ComponentData),
    ModalSubmit { custom_id: String },
    Other,
}

/// The commands of the application.
#[derive(Debug, Clone, Copy, PartialEq, Eq)]
pub enum CommandHandler {
    Format,
    Help,
    Invite,
    Website,
    Message,
    Webhook,
    Image,
    Embed,
    RestoreMessage,
    DumpMessage,
}

/// The commands that complete their arguments.
#[derive(Debug, Clone, Copy, PartialEq, Eq)]
pub enum AutocompleteHandler {
    Format,
    Image,
}

/// The handler that an interaction goes to.
#[derive(Debug, Clone, Copy, PartialEq, Eq)]
pub enum InteractionRoute {
    /// Nothing handles the interaction.
    Nothing,
    Command(CommandHandler),
    Autocomplete(AutocompleteHandler),
    Component,
    EmbedModal,
}

/// The handler of the command `name`, if there is one.
pub open spec fn command_handler(name: Seq<char>) -> Option<CommandHandler> {
    if name == "format"@ {
        Some(CommandHandler::Format)
    } else if name == "help"@ {
        Some(CommandHandler::Help)
    } else if name == "invite"@ {
        Some(CommandHandler::Invite)
    } else if name == "website"@ {
        Some(CommandHandler::Website)
    } else if name == "message"@ {
        Some(CommandHandler::Message)
    } else if name == "webhook"@ {
        Some(CommandHandler::Webhook)
    } else if name == "image"@ {
        Some(CommandHandler::Image)
    } else if name == "embed"@ {
        Some(CommandHandler::Embed)
    } else if name == "Restore Message"@ {
        Some(CommandHandler::RestoreMessage)
    } else if name == "Dump Message"@ {
        Some(CommandHandler::DumpMessage)
    } else {
        None
    }
}

/// The handler that completes the arguments of the command `name`, if there
/// is one.
pub open spec fn autocomplete_handler(name: Seq<char>) -> Option<AutocompleteHandler> {
    if name == "format"@ {
        Some(AutocompleteHandler::Format)
    } else if name == "image"@ {
        Some(AutocompleteHandler::Image)
    } else {
        None
    }
}

/// The handler that an interaction of kind `kind` with the data `data` goes
/// to.
pub open spec fn interaction_route(kind: InteractionKind, data: Option<InteractionData>) -> InteractionRoute {
    match data {
        None => InteractionRoute::Nothing,
        Some(InteractionData::ApplicationCommand { name }) => {
            if kind is ApplicationCommand {
                match command_handler(name@) {
                    Some(handler) => InteractionRoute::Command(handler),
                    None => InteractionRoute::Nothing,
                }
            } else if kind is ApplicationCommandAutocomplete {
                match autocomplete_handler(name@) {
                    Some(handler) => InteractionRoute::Autocomplete(handler),
                    None => InteractionRoute::Nothing,
                }
            } else {
                InteractionRoute::Nothing
            }
        },
        Some(InteractionData::MessageComponent(component)) => InteractionRoute::Component,
        Some(InteractionData::ModalSubmit { custom_id }) => if custom_id@ == "embed"@ {
            InteractionRoute::EmbedModal
        } else {
            InteractionRoute::Nothing
        },
        Some(InteractionData::Other) => InteractionRoute::Nothing,
    }
}

/// Finds the handler of a command by its name.
fn find_command(name: &str) -> (handler: Option<CommandHandler>)
    ensures
        handler == command_handler(name@),
{
    if same_text(name, "format") {
        Some(CommandHandler::Format)
    } else if same_text(name, "help") {
        Some(CommandHandler::Help)
    } else if same_text(name, "invite") {
        Some(CommandHandler::Invite)
    } else if same_text(name, "website") {
        Some(CommandHandler::Website)
    } else if same_text(name, "message") {
        Some(CommandHandler::Message)
    } else if same_text(name, "webhook") {
        Some(CommandHandler::Webhook)
    } else if same_text(name, "image") {
        Some(CommandHandler::Image)
    } else if same_text(name, "embed") {
        Some(CommandHandler::Embed)
    } else if same_text(name, "Restore Message") {
        Some(CommandHandler::RestoreMessage)
    } else if same_text(name, "Dump Message") {
        Some(CommandHandler::DumpMessage)
    } else {
        None
    }
}

/// Decides which handler an interaction goes to.
pub fn handle_interaction(kind: InteractionKind, data: &Option<InteractionData>) -> (route:
    InteractionRoute)
    ensures
        route == interaction_route(kind, *data),
{
    match data {
        None => InteractionRoute::Nothing,
        Some(InteractionData::ApplicationCommand { name }) => match kind {
            InteractionKind::ApplicationCommand => match find_command(name.as_str()) {
                Some(handler) => InteractionRoute::Command(handler),
                None => InteractionRoute::Nothing,
            },
            InteractionKind::ApplicationCommandAutocomplete => {
                if same_text(name.as_str(), "format") {
                    InteractionRoute::Autocomplete(AutocompleteHandler::Format)
                } else if same_text(name.as_str(), "image") {
                    InteractionRoute::Autocomplete(AutocompleteHandler::Image)
                } else {
                    InteractionRoute::Nothing
                }
            },
            _ => InteractionRoute::Nothing,
        },
        Some(InteractionData::MessageComponent(_)) => InteractionRoute::Component,
        Some(InteractionData::ModalSubmit { custom_id }) => {
            if same_text(custom_id.as_str(), "embed") {
                InteractionRoute::EmbedModal
            } else {
                InteractionRoute::Nothing
            }
        },
        Some(InteractionData::Other) => InteractionRoute::Nothing,
    }
}

/// How a reply reaches the member.
#[derive(Debug, Clone, Copy, PartialEq, Eq)]
pub enum ResponseKind {
    /// A new message in the channel.
    ChannelMessageWithSource,
    /// An edit of the message that carries the component.
    UpdateMessage,
}

/// A reply to an interaction.
#[derive(Debug, PartialEq, Eq)]
pub struct InteractionReply {
    pub kind: ResponseKind,
    pub content: Option<String>,
    pub embeds: Option<Vec<MessageEmbed>>,
    pub components: Option<Vec<ComponentRow>>,
    /// Whether only the member who caused the interaction sees the reply.
    pub ephemeral: bool,
}

impl InteractionReply {
    /// Whether this is the plain notice `text`: a new message that only the
    /// member sees, with `text` for its content and nothing else.
    pub open spec fn is_notice(&self, text: Seq<char>) -> bool {
        &&& self.kind is ChannelMessageWithSource
        &&& self.content matches Some(content) && content@ == text
        &&& self.embeds is None
        &&& self.components is None
        &&& self.ephemeral
    }
}

/// The plain notice `text`.
pub fn simple_response(text: String) -> (reply: InteractionReply)
    ensures
        reply.is_notice(text@),
        reply.content == Some(text),
{
    InteractionReply {
        kind: ResponseKind::ChannelMessageWithSource,
        content: Some(text),
        embeds: None,
        components: None,
        ephemeral: true,
    }
}

/// The member who caused an interaction.
#[derive(Debug, Clone, PartialEq, Eq)]
pub struct InteractionMember {
    pub user_id: u64,
    pub user_name: String,
    pub guild_id: u64,
    pub role_ids: Vec<u64>,
}

/// The message that carries the component of an interaction, as the
/// platform shows it now.
#[derive(Debug, Clone, PartialEq, Eq)]
pub struct InteractionMessage {
    pub id: u64,
    pub author_id: u64,
    /// When the message was sent, in seconds since the epoch.
    pub timestamp: i64,
    /// When the message was last edited, if it was.
    pub edited_timestamp: Option<i64>,
    /// The content, embeds and components of the message.
    pub body: MessagePayload,
}

impl InteractionMessage {
    /// The time that decides which rules hold for the message: that of its
    /// last edit, or that of its sending if it was never edited.
    pub open spec fn spec_effective_timestamp(&self) -> i64 {
        match self.edited_timestamp {
            Some(edited) => edited,
            None => self.timestamp,
        }
    }

    /// The time that decides which rules hold for the message.
    #[verifier::when_used_as_spec(spec_effective_timestamp)]
    pub fn effective_timestamp(&self) -> (timestamp: i64)
        ensures
            timestamp == self.spec_effective_timestamp(),
    {
        match self.edited_timestamp {
            Some(edited) => edited,
            None => self.timestamp,
        }
    }
}

/// The variables that the member of an interaction gives to a template.
pub open spec fn member_variables(
    vars: Map<Seq<char>, Seq<char>>,
    member: InteractionMember,
) -> Map<Seq<char>, Seq<char>> {
    vars.insert("user"@, member.user_name@).insert(
        "user.id"@,
        decimal(member.user_id as nat),
    ).insert("user.name"@, member.user_name@).insert(
        "user.mention"@,
        "<@"@ + decimal(member.user_id as nat) + ">"@,
    )
}

impl InteractionMember {
    /// Adds the variables of this member to `vars`.
    pub fn to_message_variables(&self, vars: &mut MessageVariables)
        ensures
            final(vars)@ == member_variables(old(vars)@, *self),
    {
        let id = decimal_string(self.user_id);
        vars.insert("user", self.user_name.as_str());
        vars.insert("user.id", id.as_str());
        vars.insert("user.name", self.user_name.as_str());
        let mut mention = String::from_str("<@");
        mention.append(id.as_str());
        mention.append(">");
        vars.insert("user.mention", mention.as_str());
    }
}

/// The notice that a member sees when the integrity of a message cannot be
/// shown. It does not say why.
pub open spec fn integrity_notice() -> Seq<char> {
    "Message integrity could not be validated"@
}

/// The integrity of a message could not be shown.
#[derive(Debug, PartialEq, Eq)]
pub struct IntegrityFailure;

/// The rules for messages from before the tracking of permissions and of
/// integrity. A message with a record that was sent before permissions were
/// tracked may do everything, since its record holds no reliable author. A
/// message of the bot without a record may do everything if it was sent
/// before integrity was tracked, and nothing otherwise. In every other case
/// the rules for tracked messages hold, and the result is `None`.
pub open spec fn legacy_context(has_record: bool, timestamp: i64) -> Option<
    ActionPermissionsContext,
> {
    if has_record {
        if timestamp < PERMISSION_TRACKING_EPOCH {
            Some(ActionPermissionsContext::Allow)
        } else {
            None
        }
    } else if timestamp < INTEGRITY_TRACKING_EPOCH {
        Some(ActionPermissionsContext::Allow)
    } else {
        Some(ActionPermissionsContext::Deny)
    }
}

/// The rules for messages from before the tracking of permissions and of
/// integrity.
pub fn legacy_fallback(has_record: bool, timestamp: i64) -> (ctx: Option<ActionPermissionsContext>)
    ensures
        ctx == legacy_context(has_record, timestamp),
{
    if has_record {
        if timestamp < PERMISSION_TRACKING_EPOCH {
            Some(ActionPermissionsContext::Allow)
        } else {
            None
        }
    } else if timestamp < INTEGRITY_TRACKING_EPOCH {
        Some(ActionPermissionsContext::Allow)
    } else {
        Some(ActionPermissionsContext::Deny)
    }
}

/// The context under which the actions of a message run, or the failure to
/// show its integrity.
///
/// With a record: the digest of the message as it is now has to be the
/// recorded one; then the legacy rules hold if they apply, and else the
/// context is derived from the recorded author, or denies everything if
/// none was recorded. Without a record: the message has to be the bot's own;
/// then the legacy rules hold.
pub open spec fn authorization(
    record: Option<RecordView>,
    digest: Seq<char>,
    author_id: u64,
    bot_user_id: u64,
    timestamp: i64,
    roles: Map<u64, i64>,
) -> Result<ActionPermissionsContext, IntegrityFailure> {
    match record {
        Some(stored) => if stored.hash != digest {
            Err(IntegrityFailure)
        } else {
            match legacy_context(true, timestamp) {
                Some(ctx) => Ok(ctx),
                None => match stored.author {
                    Some(author) => Ok(
                        ActionPermissionsContext::Derived(
                            DerivedActionPermissionsContext {
                                user_id: author.id,
                                permissions: author.permissions,
                                highest_role_position: highest_role_position(
                                    author.role_ids,
                                    roles,
                                ),
                            },
                        ),
                    ),
                    None => Ok(ActionPermissionsContext::Deny),
                },
            }
        },
        None => if author_id != bot_user_id {
            Err(IntegrityFailure)
        } else {
            match legacy_context(false, timestamp) {
                Some(ctx) => Ok(ctx),
                None => Ok(ActionPermissionsContext::Deny),
            }
        },
    }
}

/// What an optional record holds.
pub open spec fn record_view(record: Option<ChannelMessageModel>) -> Option<RecordView> {
    match record {
        Some(r) => Some(r@),
        None => None,
    }
}

/// Derives the context under which the actions of `message` run from its
/// provenance record, if it has one.
pub fn authorization_context(
    record: &Option<ChannelMessageModel>,
    message: &InteractionMessage,
    bot_user_id: u64,
    roles: &HashMap<u64, i64>,
) -> (ctx: Result<ActionPermissionsContext, IntegrityFailure>)
    ensures
        ctx == authorization(
            record_view(*record),
            payload_digest(message.body@),
            message.author_id,
            bot_user_id,
            message.effective_timestamp(),
            roles@,
        ),
{
    let timestamp = message.effective_timestamp();
    match record {
        Some(stored) => {
            let digest = message.body.integrity_hash();
            if stored.hash != digest {
                return Err(IntegrityFailure);
            }
            match legacy_fallback(true, timestamp) {
                Some(ctx) => Ok(ctx),
                None => match &stored.author {
                    Some(author) => Ok(ActionPermissionsContext::from_author(author, roles)),
                    None => Ok(ActionPermissionsContext::Deny),
                },
            }
        },
        None => {
            if message.author_id != bot_user_id {
                return Err(IntegrityFailure);
            }
            match legacy_fallback(false, timestamp) {
                Some(ctx) => Ok(ctx),
                None => Ok(ActionPermissionsContext::Deny),
            }
        },
    }
}

/// A message whose recorded digest is not the digest of the message as it
/// is now fails the integrity check, whoever sent it, whenever, and whatever
/// its record holds otherwise.
pub proof fn lemma_tampered_message_fails(
    stored: RecordView,
    digest: Seq<char>,
    author_id: u64,
    bot_user_id: u64,
    timestamp: i64,
    roles: Map<u64, i64>,
)
    requires
        stored.hash != digest,
    ensures
        authorization(Some(stored), digest, author_id, bot_user_id, timestamp, roles) is Err,
{
}

} // verus!
