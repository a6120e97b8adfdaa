//! The send flow: one send request, from its arrival to the message id or
//! the error that answers it.
//!
//! The flow decides; it performs nothing. Each step takes the answer to the
//! command that the step before gave, and gives the next command. The caller
//! carries the commands out against the guild-access store, the cache, the
//! platform and the provenance collection.

use vstd::prelude::*;
use crate::attachments::{
    assembled, attachment_views, decode_attachments, decoded_bodies, requested_views, Attachment,
    AttachmentView, MessageSendAttachment,
};
use crate::integrity::{hashable, payload_digest};
use crate::payload::{
    expanded_payload, lemma_payload_expansion_without_variables, MessagePayload, PayloadView,
};
use crate::permissions::{can_manage_webhooks, permits, MANAGE_WEBHOOKS};
use crate::provenance::{
    upsert_of, ChannelMessageAuthorModel, ChannelMessageModel, ProvenanceUpsert, RecordView,
};
use crate::routing::{
    channel_variables, guild_variables, lemma_webhook_cap, lemma_webhook_reuse, owned_by,
    resolve_channel, resolved_channel, select_webhook, webhook_name, webhook_selection,
    CachedChannel, CachedGuild, CachedWebhook, MissingEntity, ResolvedChannel, RouteError,
    SendTarget, WebhookSelection, WEBHOOK_LIMIT,
};
use crate::template::MessageVariables;

verus! {

/// What is to be sent, and with what.
#[derive(Debug, PartialEq, Eq)]
pub struct SendJob {
    pub target: SendTarget,
    pub payload: MessagePayload,
    pub attachments: Vec<Attachment>,
    /// The `data:` URL of the icon of a webhook that the flow has created.
    pub icon: String,
}

/// An authorized send into a channel of a guild.
#[derive(Debug, PartialEq, Eq)]
pub struct ChannelJob {
    pub guild_id: u64,
    pub channel_id: u64,
    /// The id of the message if the send edits one.
    pub message_id: Option<u64>,
    pub payload: MessagePayload,
    pub attachments: Vec<Attachment>,
    /// The `data:` URL of the icon of a webhook that the flow has created.
    pub icon: String,
}

/// The channel of an authorized send, its guild, and what the channel
/// resolves to.
#[derive(Debug, PartialEq, Eq)]
pub struct ChannelRoute {
    pub channel: CachedChannel,
    pub guild: CachedGuild,
    pub resolved: ResolvedChannel,
}

/// What will be recorded of a message once the platform has taken it.
#[derive(Debug, PartialEq, Eq)]
pub struct PendingRecord {
    pub channel_id: u64,
    pub hash: String,
    pub author: ChannelMessageAuthorModel,
}

/// How far a send has come.
#[derive(Debug, PartialEq, Eq)]
pub enum SendStage {
    Start(SendJob),
    AwaitingGuildAccess(ChannelJob),
    AwaitingCache(ChannelJob),
    AwaitingMember(ChannelJob, CachedChannel, CachedGuild),
    AwaitingWebhooks(ChannelJob, ChannelRoute, ChannelMessageAuthorModel),
    AwaitingCreatedWebhook(ChannelJob, ChannelRoute, ChannelMessageAuthorModel),
    /// The message is with the platform. `editing` is the id of the message
    /// if the send edits one.
    AwaitingDispatch { record: Option<PendingRecord>, editing: Option<u64> },
    AwaitingStored(u64),
    Finished,
}

/// One send request on its way.
#[derive(Debug, PartialEq, Eq)]
pub struct SendFlow {
    /// The user who asked for the send.
    pub user_id: u64,
    /// The application that owns the webhooks that the flow may use.
    pub application_id: u64,
    /// The time of the request, in milliseconds since the epoch.
    pub now: i64,
    pub stage: SendStage,
}

/// What the caller reports to the flow.
#[derive(Debug, PartialEq, Eq)]
pub enum SendEvent {
    Begin,
    /// Whether the user has access to the guild.
    GuildAccess(bool),
    /// What the cache holds of the channel and the guild, and the bot's
    /// permissions in the channel (none if they cannot be resolved).
    Cached { channel: Option<CachedChannel>, guild: Option<CachedGuild>, bot_permissions: u64 },
    /// The roles of the user in the guild, and the user's permissions in
    /// the channel (none if they cannot be resolved).
    Member { role_ids: Vec<u64>, permissions: u64 },
    /// The webhooks of the resolved channel.
    Webhooks(Vec<CachedWebhook>),
    WebhookCreated(CachedWebhook),
    /// The platform has created the message.
    Sent { message_id: u64 },
    /// The platform has edited the message.
    Updated,
    Stored,
    /// The command could not be carried out.
    Failed,
}

/// What goes to the platform with a message, and through which webhook.
#[derive(Debug, PartialEq, Eq)]
pub struct Delivery {
    pub webhook_id: u64,
    pub webhook_token: String,
    pub thread_id: Option<u64>,
    pub payload: MessagePayload,
    pub attachments: Vec<Attachment>,
}

/// What the flow asks the caller to do next.
#[derive(Debug, PartialEq, Eq)]
pub enum SendCommand {
    CheckGuildAccess { user_id: u64, guild_id: u64 },
    ReadCache { guild_id: u64, channel_id: u64 },
    FetchMember { guild_id: u64, user_id: u64, channel_id: u64 },
    ListWebhooks { channel_id: u64 },
    CreateWebhook { channel_id: u64, name: String, avatar: String },
    /// Create a message through the webhook.
    ExecuteWebhook(Delivery),
    /// Edit the message `message_id` through the webhook.
    UpdateWebhookMessage { message_id: u64, delivery: Delivery },
    StoreProvenance(ProvenanceUpsert),
    /// The send is over, with the id of the message or an error.
    Finish(Result<u64, RouteError>),
}

impl SendTarget {
    /// The id of the message that the send edits, if it edits one.
    pub open spec fn spec_message_id(&self) -> Option<u64> {
        match self {
            SendTarget::Webhook { message_id, .. } => *message_id,
            SendTarget::Channel { message_id, .. } => *message_id,
        }
    }

    /// The id of the message that the send edits, if it edits one.
    #[verifier::when_used_as_spec(spec_message_id)]
    pub fn message_id(&self) -> (id: Option<u64>)
        ensures
            id == self.spec_message_id(),
    {
        match self {
            SendTarget::Webhook { message_id, .. } => *message_id,
            SendTarget::Channel { message_id, .. } => *message_id,
        }
    }
}

impl SendFlow {
    /// Whether `event` answers the command that the flow gave last.
    pub open spec fn expects(&self, event: SendEvent) -> bool {
        match self.stage {
            SendStage::Start(job) => event is Begin,
            SendStage::AwaitingGuildAccess(job) => event is GuildAccess || event is Failed,
            SendStage::AwaitingCache(job) => event is Cached || event is Failed,
            SendStage::AwaitingMember(job, channel, guild) => {
                ||| event is Failed
                ||| event matches SendEvent::Member { role_ids, permissions }
                    && (permits(permissions, MANAGE_WEBHOOKS) ==> channel.well_formed())
            },
            SendStage::AwaitingWebhooks(job, route, author) => event is Webhooks || event is Failed,
            SendStage::AwaitingCreatedWebhook(job, route, author) => event is WebhookCreated
                || event is Failed,
            SendStage::AwaitingDispatch { record, editing } => {
                ||| event is Failed
                ||| editing is None && event is Sent
                ||| editing is Some && event is Updated
            },
            SendStage::AwaitingStored(message_id) => event is Stored || event is Failed,
            SendStage::Finished => false,
        }
    }

    /// Whether `event` answers the command that the flow gave last.
    pub fn accepts(&self, event: &SendEvent) -> (ok: bool)
        ensures
            ok == self.expects(*event),
    {
        match &self.stage {
            SendStage::Start(_) => matches!(event, SendEvent::Begin),
            SendStage::AwaitingGuildAccess(_) => matches!(
                event,
                SendEvent::GuildAccess(_) | SendEvent::Failed
            ),
            SendStage::AwaitingCache(_) => matches!(
                event,
                SendEvent::Cached { .. } | SendEvent::Failed
            ),
            SendStage::AwaitingMember(_, channel, _) => match event {
                SendEvent::Failed => true,
                SendEvent::Member { permissions, .. } => !can_manage_webhooks(*permissions)
                    || channel.is_well_formed(),
                _ => false,
            },
            SendStage::AwaitingWebhooks(_, _, _) => matches!(
                event,
                SendEvent::Webhooks(_) | SendEvent::Failed
            ),
            SendStage::AwaitingCreatedWebhook(_, _, _) => matches!(
                event,
                SendEvent::WebhookCreated(_) | SendEvent::Failed
            ),
            SendStage::AwaitingDispatch { editing, .. } => match event {
                SendEvent::Failed => true,
                SendEvent::Sent { .. } => editing.is_none(),
                SendEvent::Updated => editing.is_some(),
                _ => false,
            },
            SendStage::AwaitingStored(_) => matches!(event, SendEvent::Stored | SendEvent::Failed),
            SendStage::Finished => false,
        }
    }

    /// A flow for the send of `payload` to `target`, asked for by the user
    /// `user_id` at `now`, on behalf of the application `application_id`.
    /// The attachments are decoded; one that cannot be decoded is dropped.
    /// `icon` is the `data:` URL of the icon of a webhook that the flow may
    /// have created.
    pub fn new(
        target: SendTarget,
        payload: MessagePayload,
        attachments: &Vec<MessageSendAttachment>,
        icon: String,
        user_id: u64,
        application_id: u64,
        now: i64,
    ) -> (flow: SendFlow)
        ensures
            flow.user_id == user_id,
            flow.application_id == application_id,
            flow.now == now,
            flow.stage matches SendStage::Start(job) && job.target == target && job.payload
                == payload && job.icon == icon && attachment_views(job.attachments@) == assembled(
                requested_views(attachments@),
                decoded_bodies(requested_views(attachments@)),
                attachments.len() as int,
            ),
    {
        let job = SendJob { target, payload, attachments: decode_attachments(attachments), icon };
        SendFlow { user_id, application_id, now, stage: SendStage::Start(job) }
    }
}

/// The error with which the flow ends when a command fails at `stage`.
pub open spec fn failure_at(stage: SendStage) -> RouteError {
    match stage {
        SendStage::AwaitingGuildAccess(job) => RouteError::Storage,
        SendStage::AwaitingStored(message_id) => RouteError::Storage,
        SendStage::AwaitingDispatch { record, editing } => RouteError::MessageSend,
        _ => RouteError::Platform,
    }
}

/// The flow ends with `outcome`.
pub open spec fn finishes(
    flow: SendFlow,
    next: SendFlow,
    command: SendCommand,
    outcome: Result<u64, RouteError>,
) -> bool {
    command == SendCommand::Finish(outcome) && next == (SendFlow {
        stage: SendStage::Finished,
        ..flow
    })
}

/// `delivery` goes through the given webhook, into the given thread, with
/// the given payload and attachments.
pub open spec fn carries(
    delivery: Delivery,
    webhook_id: u64,
    webhook_token: Seq<char>,
    thread_id: Option<u64>,
    payload: PayloadView,
    attachments: Seq<AttachmentView>,
) -> bool {
    &&& delivery.webhook_id == webhook_id
    &&& delivery.webhook_token@ == webhook_token
    &&& delivery.thread_id == thread_id
    &&& delivery.payload@ == payload
    &&& attachment_views(delivery.attachments@) == attachments
}

/// `command` puts the message on its way: it edits the message `message_id`
/// if there is one, and creates a message otherwise.
pub open spec fn delivery_command(
    command: SendCommand,
    message_id: Option<u64>,
    webhook_id: u64,
    webhook_token: Seq<char>,
    thread_id: Option<u64>,
    payload: PayloadView,
    attachments: Seq<AttachmentView>,
) -> bool {
    match message_id {
        Some(id) => command matches SendCommand::UpdateWebhookMessage { message_id, delivery }
            && message_id == id && carries(
            delivery,
            webhook_id,
            webhook_token,
            thread_id,
            payload,
            attachments,
        ),
        None => command matches SendCommand::ExecuteWebhook(delivery) && carries(
            delivery,
            webhook_id,
            webhook_token,
            thread_id,
            payload,
            attachments,
        ),
    }
}

/// The variables of an authorized send: those of the channel, then those of
/// the guild.
pub open spec fn route_variables(route: ChannelRoute) -> Map<Seq<char>, Seq<char>> {
    guild_variables(channel_variables(Map::empty(), route.channel), route.guild)
}

/// The payload of an authorized send as it is dispatched.
pub open spec fn channel_payload(job: ChannelJob, route: ChannelRoute) -> PayloadView {
    expanded_payload(job.payload@, route_variables(route))
}

/// The payload of a direct send as it is dispatched: without components.
pub open spec fn webhook_payload(job: SendJob) -> PayloadView {
    expanded_payload(
        PayloadView { components: Seq::empty(), ..job.payload@ },
        Map::empty(),
    )
}

/// An authorized send goes out through the webhook `webhook_id`: the
/// payload is expanded against the variables of channel and guild, and the
/// flow keeps what it will record, with the digest of the payload as it is
/// dispatched.
pub open spec fn delivers(
    flow: SendFlow,
    job: ChannelJob,
    route: ChannelRoute,
    author: ChannelMessageAuthorModel,
    webhook_id: u64,
    webhook_token: Seq<char>,
    next: SendFlow,
    command: SendCommand,
) -> bool {
    &&& delivery_command(
        command,
        job.message_id,
        webhook_id,
        webhook_token,
        route.resolved.thread_id,
        channel_payload(job, route),
        attachment_views(job.attachments@),
    )
    &&& next.user_id == flow.user_id
    &&& next.application_id == flow.application_id
    &&& next.now == flow.now
    &&& next.stage matches SendStage::AwaitingDispatch { record: Some(record), editing }
    &&& editing == job.message_id
    &&& record.channel_id == job.channel_id
    &&& record.hash@ == payload_digest(channel_payload(job, route))
    &&& record.author == author
    &&& hashable(channel_payload(job, route))
}

/// The author snapshot of the user `user_id` with the given roles and
/// permissions in `guild`.
pub open spec fn author_snapshot(
    user_id: u64,
    guild: CachedGuild,
    role_ids: Vec<u64>,
    permissions: u64,
) -> ChannelMessageAuthorModel {
    ChannelMessageAuthorModel {
        id: user_id,
        is_owner: guild.owner_id == user_id,
        permissions,
        role_ids,
    }
}

/// The record that is stored once the platform has given the message the id
/// `message_id`.
pub open spec fn stored_record(record: PendingRecord, message_id: u64, now: i64) -> RecordView {
    RecordView {
        channel_id: record.channel_id,
        message_id,
        hash: record.hash@,
        created_at: now,
        updated_at: now,
        author: Some(record.author@),
    }
}

/// The message is with the platform under `message_id`: an authorized send
/// stores its record, a direct send is over.
pub open spec fn dispatched(
    flow: SendFlow,
    record: Option<PendingRecord>,
    message_id: u64,
    next: SendFlow,
    command: SendCommand,
) -> bool {
    match record {
        Some(pending) => {
            &&& command matches SendCommand::StoreProvenance(upsert)
            &&& upsert@ == upsert_of(stored_record(pending, message_id, flow.now))
            &&& next == (SendFlow { stage: SendStage::AwaitingStored(message_id), ..flow })
        },
        None => finishes(flow, next, command, Ok(message_id)),
    }
}

/// What the cache holds decides whether the send goes on: the channel has
/// to be known and to belong to the guild, the guild has to be known, the
/// channel has to be of a supported kind, and the bot has to hold the
/// authority to manage webhooks in it. Then the member is fetched. The
/// parent of a thread is not looked at yet.
pub open spec fn cache_step(
    flow: SendFlow,
    job: ChannelJob,
    channel: Option<CachedChannel>,
    guild: Option<CachedGuild>,
    bot_permissions: u64,
    next: SendFlow,
    command: SendCommand,
) -> bool {
    if channel is None {
        finishes(
            flow,
            next,
            command,
            Err(RouteError::NotFound { entity: MissingEntity::Channel }),
        )
    } else if channel->0.guild_id != Some(job.guild_id) {
        finishes(flow, next, command, Err(RouteError::GuildChannelMismatch))
    } else if guild is None {
        finishes(flow, next, command, Err(RouteError::NotFound { entity: MissingEntity::Guild }))
    } else if !channel->0.kind.is_supported() {
        finishes(flow, next, command, Err(RouteError::UnsupportedChannelType))
    } else if !permits(bot_permissions, MANAGE_WEBHOOKS) {
        finishes(flow, next, command, Err(RouteError::BotMissingChannelAccess))
    } else {
        &&& command == (SendCommand::FetchMember {
            guild_id: job.guild_id,
            user_id: flow.user_id,
            channel_id: job.channel_id,
        })
        &&& next == (SendFlow {
            stage: SendStage::AwaitingMember(job, channel->0, guild->0),
            ..flow
        })
    }
}

/// The member has arrived: the user has to hold the authority to manage
/// webhooks in the channel. Then the channel is resolved to the channel
/// that carries the webhook, and the webhooks of that channel are listed.
pub open spec fn member_step(
    flow: SendFlow,
    job: ChannelJob,
    channel: CachedChannel,
    guild: CachedGuild,
    role_ids: Vec<u64>,
    permissions: u64,
    next: SendFlow,
    command: SendCommand,
) -> bool {
    if !permits(permissions, MANAGE_WEBHOOKS) {
        finishes(flow, next, command, Err(RouteError::MissingChannelAccess))
    } else {
        match resolved_channel(channel) {
            Ok(resolved) => {
                &&& command == (SendCommand::ListWebhooks { channel_id: resolved.channel_id })
                &&& next == (SendFlow {
                    stage: SendStage::AwaitingWebhooks(
                        job,
                        ChannelRoute { channel, guild, resolved },
                        author_snapshot(flow.user_id, guild, role_ids, permissions),
                    ),
                    ..flow
                })
            },
            Err(error) => finishes(flow, next, command, Err(error)),
        }
    }
}

/// The webhooks of the channel decide how the message goes out: through the
/// first that the application owns; else through a new one, unless the
/// channel is full.
pub open spec fn webhooks_step(
    flow: SendFlow,
    job: ChannelJob,
    route: ChannelRoute,
    author: ChannelMessageAuthorModel,
    existing: Vec<CachedWebhook>,
    next: SendFlow,
    command: SendCommand,
) -> bool {
    match webhook_selection(existing@, flow.application_id) {
        WebhookSelection::Reuse(index) => delivers(
            flow,
            job,
            route,
            author,
            existing@[index as int].id,
            existing@[index as int].token@,
            next,
            command,
        ),
        WebhookSelection::LimitReached => finishes(
            flow,
            next,
            command,
            Err(RouteError::ChannelWebhookLimitReached),
        ),
        WebhookSelection::Create => {
            &&& command matches SendCommand::CreateWebhook { channel_id, name, avatar }
            &&& channel_id == route.resolved.channel_id
            &&& name@ == webhook_name()
            &&& avatar@ == job.icon@
            &&& next == (SendFlow {
                stage: SendStage::AwaitingCreatedWebhook(job, route, author),
                ..flow
            })
        },
    }
}

/// The step of the send flow: from `flow` and `event` to `next` and
/// `command`.
pub open spec fn send_step(
    flow: SendFlow,
    event: SendEvent,
    next: SendFlow,
    command: SendCommand,
) -> bool {
    if event is Failed {
        finishes(flow, next, command, Err(failure_at(flow.stage)))
    } else {
        match flow.stage {
            SendStage::Start(job) => match job.target {
                SendTarget::Channel { guild_id, channel_id, message_id } => {
                    &&& command == (SendCommand::CheckGuildAccess {
                        user_id: flow.user_id,
                        guild_id,
                    })
                    &&& next.user_id == flow.user_id
                    &&& next.application_id == flow.application_id
                    &&& next.now == flow.now
                    &&& next.stage == SendStage::AwaitingGuildAccess(
                        ChannelJob {
                            guild_id,
                            channel_id,
                            message_id,
                            payload: job.payload,
                            attachments: job.attachments,
                            icon: job.icon,
                        },
                    )
                },
                SendTarget::Webhook { webhook_id, webhook_token, thread_id, message_id } => {
                    &&& delivery_command(
                        command,
                        message_id,
                        webhook_id,
                        webhook_token@,
                        thread_id,
                        webhook_payload(job),
                        attachment_views(job.attachments@),
                    )
                    &&& next == (SendFlow {
                        stage: SendStage::AwaitingDispatch { record: None, editing: message_id },
                        ..flow
                    })
                },
            },
            SendStage::AwaitingGuildAccess(job) => match event {
                SendEvent::GuildAccess(allowed) => if allowed {
                    &&& command == (SendCommand::ReadCache {
                        guild_id: job.guild_id,
                        channel_id: job.channel_id,
                    })
                    &&& next == (SendFlow { stage: SendStage::AwaitingCache(job), ..flow })
                } else {
                    finishes(flow, next, command, Err(RouteError::MissingGuildAccess))
                },
                _ => false,
            },
            SendStage::AwaitingCache(job) => match event {
                SendEvent::Cached { channel, guild, bot_permissions } => cache_step(
                    flow,
                    job,
                    channel,
                    guild,
                    bot_permissions,
                    next,
                    command,
                ),
                _ => false,
            },
            SendStage::AwaitingMember(job, channel, guild) => match event {
                SendEvent::Member { role_ids, permissions } => member_step(
                    flow,
                    job,
                    channel,
                    guild,
                    role_ids,
                    permissions,
                    next,
                    command,
                ),
                _ => false,
            },
            SendStage::AwaitingWebhooks(job, route, author) => match event {
                SendEvent::Webhooks(existing) => webhooks_step(
                    flow,
                    job,
                    route,
                    author,
                    existing,
                    next,
                    command,
                ),
                _ => false,
            },
            SendStage::AwaitingCreatedWebhook(job, route, author) => match event {
                SendEvent::WebhookCreated(webhook) => delivers(
                    flow,
                    job,
                    route,
                    author,
                    webhook.id,
                    webhook.token@,
                    next,
                    command,
                ),
                _ => false,
            },
            SendStage::AwaitingDispatch { record, editing } => match event {
                SendEvent::Sent { message_id } => editing is None && dispatched(
                    flow,
                    record,
                    message_id,
                    next,
                    command,
                ),
                SendEvent::Updated => editing is Some && dispatched(
                    flow,
                    record,
                    editing->0,
                    next,
                    command,
                ),
                _ => false,
            },
            SendStage::AwaitingStored(message_id) => event is Stored && finishes(
                flow,
                next,
                command,
                Ok(message_id),
            ),
            SendStage::Finished => false,
        }
    }
}

impl SendCommand {
    /// What the command sends, if it sends a message.
    pub open spec fn delivery(self) -> Option<Delivery> {
        match self {
            SendCommand::ExecuteWebhook(delivery) => Some(delivery),
            SendCommand::UpdateWebhookMessage { message_id, delivery } => Some(delivery),
            _ => None,
        }
    }
}

/// A direct send dispatches the payload as it was given, but for its
/// components, which are removed.
pub proof fn lemma_direct_send_strips_components_only(job: SendJob)
    ensures
        webhook_payload(job) == (PayloadView { components: Seq::empty(), ..job.payload@ }),
{
    lemma_payload_expansion_without_variables(
        PayloadView { components: Seq::empty(), ..job.payload@ },
    );
}

/// A send that names a message takes the edit path and a send that names
/// none the create path; both go through the webhook that was chosen for
/// the channel, into the thread that the channel resolved to.
pub proof fn lemma_edit_takes_edit_path(
    flow: SendFlow,
    job: ChannelJob,
    route: ChannelRoute,
    author: ChannelMessageAuthorModel,
    webhook_id: u64,
    webhook_token: Seq<char>,
    next: SendFlow,
    command: SendCommand,
)
    requires
        delivers(flow, job, route, author, webhook_id, webhook_token, next, command),
    ensures
        job.message_id is Some <==> command is UpdateWebhookMessage,
        job.message_id is None <==> command is ExecuteWebhook,
        command matches SendCommand::UpdateWebhookMessage { message_id, delivery } ==> Some(
            message_id,
        ) == job.message_id,
        command.delivery() matches Some(delivery) && delivery.webhook_id == webhook_id
            && delivery.webhook_token@ == webhook_token && delivery.thread_id
            == route.resolved.thread_id,
{
}

/// Where the application owns a webhook of the channel, an edit goes
/// through the first such webhook, as a creation does: the webhook does not
/// depend on whether the send names a message.
pub proof fn lemma_edit_reuses_webhook(
    flow: SendFlow,
    job: ChannelJob,
    route: ChannelRoute,
    author: ChannelMessageAuthorModel,
    existing: Vec<CachedWebhook>,
    index: int,
    next: SendFlow,
    command: SendCommand,
)
    requires
        webhooks_step(flow, job, route, author, existing, next, command),
        0 <= index < existing@.len() <= usize::MAX,
        owned_by(existing@[index], flow.application_id),
        forall|i: int| 0 <= i < index ==> !owned_by(#[trigger] existing@[i], flow.application_id),
    ensures
        job.message_id is Some <==> command is UpdateWebhookMessage,
        job.message_id is None <==> command is ExecuteWebhook,
        command.delivery() matches Some(delivery) && delivery.webhook_id == existing@[index].id
            && delivery.webhook_token@ == existing@[index].token@ && delivery.thread_id
            == route.resolved.thread_id,
{
    lemma_webhook_reuse(existing@, flow.application_id, index);
}

/// In a channel in which the application owns no webhook, a send creates a
/// webhook while the channel holds fewer webhooks than the platform allows,
/// and ends with the cap error once it holds that many.
pub proof fn lemma_send_respects_webhook_cap(
    flow: SendFlow,
    existing: Vec<CachedWebhook>,
    next: SendFlow,
    command: SendCommand,
)
    requires
        flow.stage is AwaitingWebhooks,
        send_step(flow, SendEvent::Webhooks(existing), next, command),
        forall|i: int|
            0 <= i < existing@.len() ==> !owned_by(#[trigger] existing@[i], flow.application_id),
    ensures
        existing@.len() < WEBHOOK_LIMIT ==> command is CreateWebhook && next.stage
            is AwaitingCreatedWebhook,
        existing@.len() >= WEBHOOK_LIMIT ==> command == SendCommand::Finish(
            Err(RouteError::ChannelWebhookLimitReached),
        ) && next.stage is Finished,
{
    lemma_webhook_cap(existing@, flow.application_id);
}

/// Builds the command that puts a message on its way.
fn deliver(
    message_id: Option<u64>,
    webhook_id: u64,
    webhook_token: String,
    thread_id: Option<u64>,
    payload: MessagePayload,
    attachments: Vec<Attachment>,
) -> (command: SendCommand)
    ensures
        delivery_command(
            command,
            message_id,
            webhook_id,
            webhook_token@,
            thread_id,
            payload@,
            attachment_views(attachments@),
        ),
{
    let delivery = Delivery { webhook_id, webhook_token, thread_id, payload, attachments };
    match message_id {
        Some(id) => SendCommand::UpdateWebhookMessage { message_id: id, delivery },
        None => SendCommand::ExecuteWebhook(delivery),
    }
}

/// Sends the message of an authorized send through the webhook
/// `webhook_id`.
fn deliver_to_channel(
    flow: SendFlow,
    job: ChannelJob,
    route: ChannelRoute,
    author: ChannelMessageAuthorModel,
    webhook_id: u64,
    webhook_token: String,
) -> (step: (SendFlow, SendCommand))
    ensures
        delivers(flow, job, route, author, webhook_id, webhook_token@, step.0, step.1),
{
    let mut vars = MessageVariables::new();
    route.channel.to_message_variables(&mut vars);
    route.guild.to_message_variables(&mut vars);
    let mut payload = job.payload;
    payload.replace_variables(&vars);
    let hash = payload.integrity_hash();
    let record = PendingRecord { channel_id: job.channel_id, hash, author };
    let command = deliver(
        job.message_id,
        webhook_id,
        webhook_token,
        route.resolved.thread_id,
        payload,
        job.attachments,
    );
    let next = SendFlow {
        user_id: flow.user_id,
        application_id: flow.application_id,
        now: flow.now,
        stage: SendStage::AwaitingDispatch { record: Some(record), editing: job.message_id },
    };
    (next, command)
}

/// Ends the flow with `outcome`.
fn finish(user_id: u64, application_id: u64, now: i64, outcome: Result<u64, RouteError>) -> (step: (
    SendFlow,
    SendCommand,
))
    ensures
        step.1 == SendCommand::Finish(outcome),
        step.0 == (SendFlow { user_id, application_id, now, stage: SendStage::Finished }),
{
    (
        SendFlow { user_id, application_id, now, stage: SendStage::Finished },
        SendCommand::Finish(outcome),
    )
}

/// Goes on after the platform has taken the message under `message_id`.
fn after_dispatch(
    user_id: u64,
    application_id: u64,
    now: i64,
    record: Option<PendingRecord>,
    message_id: u64,
) -> (step: (SendFlow, SendCommand))
    ensures
        dispatched(
            SendFlow {
                user_id,
                application_id,
                now,
                stage: SendStage::AwaitingDispatch { record, editing: None },
            },
            record,
            message_id,
            step.0,
            step.1,
        ),
{
    match record {
        Some(pending) => {
            let model = ChannelMessageModel {
                channel_id: pending.channel_id,
                message_id,
                hash: pending.hash,
                created_at: now,
                updated_at: now,
                author: Some(pending.author),
            };
            let upsert = model.update_or_create();
            (
                SendFlow {
                    user_id,
                    application_id,
                    now,
                    stage: SendStage::AwaitingStored(message_id),
                },
                SendCommand::StoreProvenance(upsert),
            )
        },
        None => finish(user_id, application_id, now, Ok(message_id)),
    }
}

/// Takes one step of the send flow: given the answer to the command that
/// the flow gave last, gives the flow as it goes on and the next command.
pub fn route_message_send(flow: SendFlow, event: SendEvent) -> (step: (SendFlow, SendCommand))
    requires
        flow.expects(event),
    ensures
        send_step(flow, event, step.0, step.1),
{
    let user_id = flow.user_id;
    let application_id = flow.application_id;
    let now = flow.now;
    if let SendEvent::Failed = event {
        let error = match &flow.stage {
            SendStage::AwaitingGuildAccess(_) => RouteError::Storage,
            SendStage::AwaitingStored(_) => RouteError::Storage,
            SendStage::AwaitingDispatch { .. } => RouteError::MessageSend,
            _ => RouteError::Platform,
        };
        return finish(user_id, application_id, now, Err(error));
    }
    match flow.stage {
        SendStage::Start(job) => match job.target {
            SendTarget::Channel { guild_id, channel_id, message_id } => {
                let channel_job = ChannelJob {
                    guild_id,
                    channel_id,
                    message_id,
                    payload: job.payload,
                    attachments: job.attachments,
                    icon: job.icon,
                };
                (
                    SendFlow {
                        user_id,
                        application_id,
                        now,
                        stage: SendStage::AwaitingGuildAccess(channel_job),
                    },
                    SendCommand::CheckGuildAccess { user_id, guild_id },
                )
            },
            SendTarget::Webhook { webhook_id, webhook_token, thread_id, message_id } => {
                let mut payload = job.payload;
                payload.strip_components();
                let vars = MessageVariables::new();
                payload.replace_variables(&vars);
                let command = deliver(
                    message_id,
                    webhook_id,
                    webhook_token,
                    thread_id,
                    payload,
                    job.attachments,
                );
                (
                    SendFlow {
                        user_id,
                        application_id,
                        now,
                        stage: SendStage::AwaitingDispatch { record: None, editing: message_id },
                    },
                    command,
                )
            },
        },
        SendStage::AwaitingGuildAccess(job) => match event {
            SendEvent::GuildAccess(allowed) => {
                if allowed {
                    let command = SendCommand::ReadCache {
                        guild_id: job.guild_id,
                        channel_id: job.channel_id,
                    };
                    (
                        SendFlow {
                            user_id,
                            application_id,
                            now,
                            stage: SendStage::AwaitingCache(job),
                        },
                        command,
                    )
                } else {
                    finish(user_id, application_id, now, Err(RouteError::MissingGuildAccess))
                }
            },
            _ => finish(user_id, application_id, now, Err(RouteError::Platform)),
        },
        SendStage::AwaitingCache(job) => match event {
            SendEvent::Cached { channel, guild, bot_permissions } => {
                let channel = match channel {
                    Some(c) => c,
                    None => {
                        return finish(
                            user_id,
                            application_id,
                            now,
                            Err(RouteError::NotFound { entity: MissingEntity::Channel }),
                        );
                    },
                };
                let in_guild = match channel.guild_id {
                    Some(id) => id == job.guild_id,
                    None => false,
                };
                if !in_guild {
                    return finish(
                        user_id,
                        application_id,
                        now,
                        Err(RouteError::GuildChannelMismatch),
                    );
                }
                let guild = match guild {
                    Some(g) => g,
                    None => {
                        return finish(
                            user_id,
                            application_id,
                            now,
                            Err(RouteError::NotFound { entity: MissingEntity::Guild }),
                        );
                    },
                };
                if !channel.kind.supported() {
                    return finish(
                        user_id,
                        application_id,
                        now,
                        Err(RouteError::UnsupportedChannelType),
                    );
                }
                if !can_manage_webhooks(bot_permissions) {
                    return finish(
                        user_id,
                        application_id,
                        now,
                        Err(RouteError::BotMissingChannelAccess),
                    );
                }
                let command = SendCommand::FetchMember {
                    guild_id: job.guild_id,
                    user_id,
                    channel_id: job.channel_id,
                };
                (
                    SendFlow {
                        user_id,
                        application_id,
                        now,
                        stage: SendStage::AwaitingMember(job, channel, guild),
                    },
                    command,
                )
            },
            _ => finish(user_id, application_id, now, Err(RouteError::Platform)),
        },
        SendStage::AwaitingMember(job, channel, guild) => match event {
            SendEvent::Member { role_ids, permissions } => {
                if !can_manage_webhooks(permissions) {
                    return finish(
                        user_id,
                        application_id,
                        now,
                        Err(RouteError::MissingChannelAccess),
                    );
                }
                let resolved = match resolve_channel(&channel) {
                    Ok(r) => r,
                    Err(e) => {
                        return finish(user_id, application_id, now, Err(e));
                    },
                };
                let author = ChannelMessageAuthorModel {
                    id: user_id,
                    is_owner: guild.owner_id == user_id,
                    permissions,
                    role_ids,
                };
                let command = SendCommand::ListWebhooks { channel_id: resolved.channel_id };
                (
                    SendFlow {
                        user_id,
                        application_id,
                        now,
                        stage: SendStage::AwaitingWebhooks(
                            job,
                            ChannelRoute { channel, guild, resolved },
                            author,
                        ),
                    },
                    command,
                )
            },
            _ => finish(user_id, application_id, now, Err(RouteError::Platform)),
        },
        SendStage::AwaitingWebhooks(job, route, author) => match event {
            SendEvent::Webhooks(existing) => {
                match select_webhook(&existing, application_id) {
                    WebhookSelection::Reuse(index) => {
                        let webhook_id = existing[index].id;
                        let webhook_token = existing[index].token.clone();
                        deliver_to_channel(
                            SendFlow { user_id, application_id, now, stage: SendStage::Finished },
                            job,
                            route,
                            author,
                            webhook_id,
                            webhook_token,
                        )
                    },
                    WebhookSelection::LimitReached => finish(
                        user_id,
                        application_id,
                        now,
                        Err(RouteError::ChannelWebhookLimitReached),
                    ),
                    WebhookSelection::Create => {
                        let command = SendCommand::CreateWebhook {
                            channel_id: route.resolved.channel_id,
                            name: String::from_str("Embed Generator"),
                            avatar: job.icon.clone(),
                        };
                        (
                            SendFlow {
                                user_id,
                                application_id,
                                now,
                                stage: SendStage::AwaitingCreatedWebhook(job, route, author),
                            },
                            command,
                        )
                    },
                }
            },
            _ => finish(user_id, application_id, now, Err(RouteError::Platform)),
        },
        SendStage::AwaitingCreatedWebhook(job, route, author) => match event {
            SendEvent::WebhookCreated(webhook) => deliver_to_channel(
                SendFlow { user_id, application_id, now, stage: SendStage::Finished },
                job,
                route,
                author,
                webhook.id,
                webhook.token,
            ),
            _ => finish(user_id, application_id, now, Err(RouteError::Platform)),
        },
        SendStage::AwaitingDispatch { record, editing } => match event {
            SendEvent::Sent { message_id } => after_dispatch(
                user_id,
                application_id,
                now,
                record,
                message_id,
            ),
            SendEvent::Updated => match editing {
                Some(message_id) => after_dispatch(
                    user_id,
                    application_id,
                    now,
                    record,
                    message_id,
                ),
                None => finish(user_id, application_id, now, Err(RouteError::Platform)),
            },
            _ => finish(user_id, application_id, now, Err(RouteError::Platform)),
        },
        SendStage::AwaitingStored(message_id) => finish(
            user_id,
            application_id,
            now,
            Ok(message_id),
        ),
        SendStage::Finished => finish(user_id, application_id, now, Err(RouteError::Platform)),
    }
}

} // verus!
