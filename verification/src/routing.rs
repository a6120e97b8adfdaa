//! The rules of delivery routing, each as a function of plain values: which
//! channel and thread a target resolves to, which webhook carries the
//! message, and what is recorded of the sender.

use vstd::prelude::*;
use crate::template::MessageVariables;
use crate::text::{decimal, decimal_string};

verus! {

/// The platform's cap on the webhooks of one channel.
pub const WEBHOOK_LIMIT: usize = 10;

/// Where a message is to be sent.
#[derive(Debug, Clone, PartialEq, Eq)]
pub enum SendTarget {
    /// A direct send through a webhook that the caller names. It is not
    /// checked and leaves no provenance record.
    Webhook { webhook_id: u64, webhook_token: String, thread_id: Option<u64>, message_id: Option<u64> },
    /// An authorized send into a channel of a guild.
    Channel { guild_id: u64, channel_id: u64, message_id: Option<u64> },
}

/// The kinds of channel that routing tells apart.
#[derive(Debug, Clone, Copy, PartialEq, Eq)]
pub enum ChannelKind {
    GuildText,
    GuildNews,
    GuildNewsThread,
    GuildPublicThread,
    GuildPrivateThread,
    Other,
}

/// A channel as the cache knows it.
#[derive(Debug, Clone, PartialEq, Eq)]
pub struct CachedChannel {
    pub id: u64,
    pub guild_id: Option<u64>,
    pub kind: ChannelKind,
    pub parent_id: Option<u64>,
    pub name: String,
}

/// A guild as the cache knows it.
#[derive(Debug, Clone, PartialEq, Eq)]
pub struct CachedGuild {
    pub id: u64,
    pub owner_id: u64,
    pub name: String,
}

/// A webhook of a channel.
#[derive(Debug, Clone, PartialEq, Eq)]
pub struct CachedWebhook {
    pub id: u64,
    pub token: String,
    pub application_id: Option<u64>,
}

/// What is missing when a send fails with `RouteError::NotFound`.
#[derive(Debug, Clone, Copy, PartialEq, Eq)]
pub enum MissingEntity {
    Channel,
    Guild,
}

/// Why a send was refused or failed.
#[derive(Debug, Clone, Copy, PartialEq, Eq)]
pub enum RouteError {
    MissingGuildAccess,
    NotFound { entity: MissingEntity },
    GuildChannelMismatch,
    BotMissingChannelAccess,
    MissingChannelAccess,
    UnsupportedChannelType,
    ChannelWebhookLimitReached,
    /// The platform refused or failed the send itself.
    MessageSend,
    /// Another call to the platform failed.
    Platform,
    /// A call to storage failed.
    Storage,
}

/// The classes of error that callers tell apart.
#[derive(Debug, Clone, Copy, PartialEq, Eq)]
pub enum ErrorClass {
    AccessDenied,
    NotFound,
    StateConflict,
    PlatformError,
    StorageError,
}

impl RouteError {
    /// The class of this error.
    pub open spec fn spec_class(self) -> ErrorClass {
        match self {
            RouteError::MissingGuildAccess => ErrorClass::AccessDenied,
            RouteError::BotMissingChannelAccess => ErrorClass::AccessDenied,
            RouteError::MissingChannelAccess => ErrorClass::AccessDenied,
            RouteError::NotFound { entity } => ErrorClass::NotFound,
            RouteError::GuildChannelMismatch => ErrorClass::StateConflict,
            RouteError::UnsupportedChannelType => ErrorClass::StateConflict,
            RouteError::ChannelWebhookLimitReached => ErrorClass::StateConflict,
            RouteError::MessageSend => ErrorClass::PlatformError,
            RouteError::Platform => ErrorClass::PlatformError,
            RouteError::Storage => ErrorClass::StorageError,
        }
    }

    /// The class of this error.
    #[verifier::when_used_as_spec(spec_class)]
    pub fn class(self) -> (class: ErrorClass)
        ensures
            class == self.spec_class(),
    {
        match self {
            RouteError::MissingGuildAccess => ErrorClass::AccessDenied,
            RouteError::BotMissingChannelAccess => ErrorClass::AccessDenied,
            RouteError::MissingChannelAccess => ErrorClass::AccessDenied,
            RouteError::NotFound { entity } => ErrorClass::NotFound,
            RouteError::GuildChannelMismatch => ErrorClass::StateConflict,
            RouteError::UnsupportedChannelType => ErrorClass::StateConflict,
            RouteError::ChannelWebhookLimitReached => ErrorClass::StateConflict,
            RouteError::MessageSend => ErrorClass::PlatformError,
            RouteError::Platform => ErrorClass::PlatformError,
            RouteError::Storage => ErrorClass::StorageError,
        }
    }
}

/// The channel that carries the webhook, and the thread under it, if the
/// target is a thread.
#[derive(Debug, Clone, Copy, PartialEq, Eq)]
pub struct ResolvedChannel {
    pub channel_id: u64,
    pub thread_id: Option<u64>,
}

impl ChannelKind {
    /// Whether this is one of the thread kinds.
    pub open spec fn is_thread(self) -> bool {
        self is GuildNewsThread || self is GuildPublicThread || self is GuildPrivateThread
    }

    /// Whether this is a plain text or news channel.
    pub open spec fn is_text(self) -> bool {
        self is GuildText || self is GuildNews
    }

    /// Whether messages can be sent into channels of this kind: threads,
    /// text channels and news channels.
    pub open spec fn is_supported(self) -> bool {
        self.is_thread() || self.is_text()
    }

    /// Whether messages can be sent into channels of this kind.
    pub fn supported(self) -> (ok: bool)
        ensures
            ok == self.is_supported(),
    {
        match self {
            ChannelKind::Other => false,
            _ => true,
        }
    }
}

impl CachedChannel {
    /// A thread names its parent.
    pub open spec fn well_formed(&self) -> bool {
        self.kind.is_thread() ==> self.parent_id is Some
    }

    /// Whether this channel is well formed.
    pub fn is_well_formed(&self) -> (ok: bool)
        ensures
            ok == self.well_formed(),
    {
        match self.kind {
            ChannelKind::GuildNewsThread
            | ChannelKind::GuildPublicThread
            | ChannelKind::GuildPrivateThread => self.parent_id.is_some(),
            _ => true,
        }
    }
}

/// What `channel` resolves to: a thread resolves to its parent, with itself
/// as the thread; a text or news channel to itself, with no thread; no other
/// kind is supported. The result is `Ok` exactly for the supported kinds.
pub open spec fn resolved_channel(channel: CachedChannel) -> Result<ResolvedChannel, RouteError> {
    if channel.kind.is_thread() {
        Ok(ResolvedChannel { channel_id: channel.parent_id->0, thread_id: Some(channel.id) })
    } else if channel.kind.is_text() {
        Ok(ResolvedChannel { channel_id: channel.id, thread_id: None })
    } else {
        Err(RouteError::UnsupportedChannelType)
    }
}

/// Resolves the channel of a target to the channel that carries the webhook.
pub fn resolve_channel(channel: &CachedChannel) -> (resolved: Result<ResolvedChannel, RouteError>)
    requires
        channel.well_formed(),
    ensures
        resolved == resolved_channel(*channel),
{
    match channel.kind {
        ChannelKind::GuildPrivateThread
        | ChannelKind::GuildPublicThread
        | ChannelKind::GuildNewsThread => {
            match channel.parent_id {
                Some(parent_id) => Ok(
                    ResolvedChannel { channel_id: parent_id, thread_id: Some(channel.id) },
                ),
                None => Err(RouteError::UnsupportedChannelType),
            }
        },
        ChannelKind::GuildText | ChannelKind::GuildNews => Ok(
            ResolvedChannel { channel_id: channel.id, thread_id: None },
        ),
        ChannelKind::Other => Err(RouteError::UnsupportedChannelType),
    }
}

/// Whether the application `application_id` owns `webhook`.
pub open spec fn owned_by(webhook: CachedWebhook, application_id: u64) -> bool {
    webhook.application_id == Some(application_id)
}

/// The index of the first webhook among the first `upto` of `existing` that
/// the application owns, if there is one.
pub open spec fn first_owned(existing: Seq<CachedWebhook>, application_id: u64, upto: int) -> Option<
    int,
>
    decreases upto,
{
    if upto <= 0 {
        None
    } else {
        match first_owned(existing, application_id, upto - 1) {
            Some(index) => Some(index),
            None => if owned_by(existing[upto - 1], application_id) {
                Some(upto - 1)
            } else {
                None
            },
        }
    }
}

/// What is to be done for a webhook in a channel.
#[derive(Debug, Clone, Copy, PartialEq, Eq)]
pub enum WebhookSelection {
    /// Use the existing webhook at this index.
    Reuse(usize),
    /// Create a new webhook.
    Create,
    /// The channel has no room for another webhook.
    LimitReached,
}

/// The selection among the webhooks `existing` of a channel: the first that
/// the application owns is reused; without one, a new one is created unless
/// the channel already holds `WEBHOOK_LIMIT` webhooks.
pub open spec fn webhook_selection(existing: Seq<CachedWebhook>, application_id: u64) -> WebhookSelection {
    match first_owned(existing, application_id, existing.len() as int) {
        Some(index) => WebhookSelection::Reuse(index as usize),
        None => if existing.len() >= WEBHOOK_LIMIT {
            WebhookSelection::LimitReached
        } else {
            WebhookSelection::Create
        },
    }
}

/// `first_owned` finds an owned webhook before which none is owned, and
/// finds none only if none is owned.
pub proof fn lemma_first_owned(existing: Seq<CachedWebhook>, application_id: u64, upto: int)
    requires
        0 <= upto <= existing.len(),
    ensures
        match first_owned(existing, application_id, upto) {
            Some(index) => {
                &&& 0 <= index < upto
                &&& owned_by(existing[index], application_id)
                &&& forall|i: int| 0 <= i < index ==> !owned_by(#[trigger] existing[i], application_id)
            },
            None => forall|i: int| 0 <= i < upto ==> !owned_by(#[trigger] existing[i], application_id),
        },
    decreases upto,
{
    if upto > 0 {
        lemma_first_owned(existing, application_id, upto - 1);
    }
}

/// Selects the webhook that carries a message into a channel.
pub fn select_webhook(existing: &Vec<CachedWebhook>, application_id: u64) -> (selection:
    WebhookSelection)
    ensures
        selection == webhook_selection(existing@, application_id),
        selection matches WebhookSelection::Reuse(index) ==> index < existing.len() && owned_by(
            existing@[index as int],
            application_id,
        ),
{
    let mut i: usize = 0;
    while i < existing.len()
        invariant
            i <= existing.len(),
            first_owned(existing@, application_id, i as int) is None,
        decreases existing.len() - i,
    {
        let owned = match existing[i].application_id {
            Some(owner) => owner == application_id,
            None => false,
        };
        if owned {
            proof {
                lemma_first_owned_stays(existing@, application_id, i + 1, existing.len() as int);
            }
            return WebhookSelection::Reuse(i);
        }
        i += 1;
    }
    if existing.len() >= WEBHOOK_LIMIT {
        WebhookSelection::LimitReached
    } else {
        WebhookSelection::Create
    }
}

/// Once a webhook is found, looking further finds the same one.
proof fn lemma_first_owned_stays(
    existing: Seq<CachedWebhook>,
    application_id: u64,
    upto: int,
    further: int,
)
    requires
        upto <= further,
        first_owned(existing, application_id, upto) is Some,
    ensures
        first_owned(existing, application_id, further) == first_owned(
            existing,
            application_id,
            upto,
        ),
    decreases further - upto,
{
    if upto < further {
        lemma_first_owned_stays(existing, application_id, upto, further - 1);
    }
}

/// The variables that a channel gives to a template.
pub open spec fn channel_variables(
    vars: Map<Seq<char>, Seq<char>>,
    channel: CachedChannel,
) -> Map<Seq<char>, Seq<char>> {
    vars.insert("channel.id"@, decimal(channel.id as nat)).insert("channel.name"@, channel.name@)
}

/// The variables that a guild gives to a template.
pub open spec fn guild_variables(vars: Map<Seq<char>, Seq<char>>, guild: CachedGuild) -> Map<
    Seq<char>,
    Seq<char>,
> {
    vars.insert("guild.id"@, decimal(guild.id as nat)).insert("guild.name"@, guild.name@)
}

impl CachedChannel {
    /// Adds the variables of this channel to `vars`.
    pub fn to_message_variables(&self, vars: &mut MessageVariables)
        ensures
            final(vars)@ == channel_variables(old(vars)@, *self),
    {
        let id = decimal_string(self.id);
        vars.insert("channel.id", id.as_str());
        vars.insert("channel.name", self.name.as_str());
    }
}

impl CachedGuild {
    /// Adds the variables of this guild to `vars`.
    pub fn to_message_variables(&self, vars: &mut MessageVariables)
        ensures
            final(vars)@ == guild_variables(old(vars)@, *self),
    {
        let id = decimal_string(self.id);
        vars.insert("guild.id", id.as_str());
        vars.insert("guild.name", self.name.as_str());
    }
}

/// A channel in which the application owns no webhook gets a new one while
/// it holds fewer than `WEBHOOK_LIMIT` webhooks, and none once it holds that
/// many.
pub proof fn lemma_webhook_cap(existing: Seq<CachedWebhook>, application_id: u64)
    requires
        forall|i: int| 0 <= i < existing.len() ==> !owned_by(#[trigger] existing[i], application_id),
    ensures
        existing.len() < WEBHOOK_LIMIT ==> webhook_selection(existing, application_id)
            is Create,
        existing.len() >= WEBHOOK_LIMIT ==> webhook_selection(existing, application_id)
            is LimitReached,
{
    lemma_first_owned(existing, application_id, existing.len() as int);
}

/// A channel in which the application owns a webhook reuses the first such
/// webhook, however many webhooks the channel holds.
pub proof fn lemma_webhook_reuse(existing: Seq<CachedWebhook>, application_id: u64, index: int)
    requires
        0 <= index < existing.len(),
        owned_by(existing[index], application_id),
        forall|i: int| 0 <= i < index ==> !owned_by(#[trigger] existing[i], application_id),
    ensures
        webhook_selection(existing, application_id) == WebhookSelection::Reuse(index as usize),
{
    lemma_first_owned(existing, application_id, existing.len() as int);
}

/// The display name of the webhooks that the application creates.
pub open spec fn webhook_name() -> Seq<char> {
    "Embed Generator"@
}

/// The standard base64 text, with padding, of `bytes`.
pub uninterp spec fn base64_text(bytes: Seq<u8>) -> Seq<char>;

/// Whether the base64 text of `len` bytes has a length that fits a machine
/// word.
pub open spec fn base64_fits(len: nat) -> bool {
    (len / 3) * 4 + 4 <= usize::MAX
}

/// Encodes bytes as base64.
///
/// Trusted: `base64::encode`, which encodes with the standard alphabet and
/// padding and is a function of the bytes alone; the contract names its
/// result. It panics when the length of the text overflows a machine word,
/// which the precondition rules out.
#[verifier::external_body]
fn base64_encode(bytes: &[u8]) -> (text: String)
    requires
        base64_fits(bytes@.len()),
    ensures
        text@ == base64_text(bytes@),
{
    base64::encode(bytes)
}

/// The `data:` URL of a PNG image whose bytes have the base64 text `text`.
pub open spec fn png_data_url_of(text: Seq<char>) -> Seq<char> {
    "data:image/png;base64,"@ + text
}

/// The `data:` URL of a PNG image with the given bytes.
pub open spec fn png_data_url(bytes: Seq<u8>) -> Seq<char> {
    png_data_url_of(base64_text(bytes))
}

/// The `data:` URL of a PNG image, given the base64 text of its bytes.
pub fn png_data_url_from_base64(text: &str) -> (url: String)
    ensures
        url@ == png_data_url_of(text@),
{
    let mut url = String::from_str("data:image/png;base64,");
    url.append(text);
    url
}

/// The `data:` URL of the icon of the webhooks that the application creates.
pub fn icon_data_url(icon: &[u8]) -> (url: String)
    requires
        base64_fits(icon@.len()),
    ensures
        url@ == png_data_url(icon@),
{
    let text = base64_encode(icon);
    png_data_url_from_base64(text.as_str())
}

/// The `data:` URL of the icon, or `None` if the icon is too large for its
/// base64 text to fit a machine word.
pub fn checked_icon_data_url(icon: &[u8]) -> (url: Option<String>)
    ensures
        url is Some <==> base64_fits(icon@.len()),
        url matches Some(text) ==> text@ == png_data_url(icon@),
{
    if icon.len() / 3 <= (usize::MAX - 4) / 4 {
        Some(icon_data_url(icon))
    } else {
        None
    }
}

} // verus!
