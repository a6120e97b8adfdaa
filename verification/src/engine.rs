//! The action engine: the actions of one interaction are checked and run
//! one after the other, and the first denial ends the run.
//!
//! The engine decides; it performs nothing. Each step takes the answer to
//! the command that the step before gave, and gives the next command.

use std::collections::HashMap;
use vstd::prelude::*;
use crate::actions::{flags_request_edit, requests_edit, MessageAction};
use crate::interaction::{
    member_variables, simple_response, InteractionMember, InteractionReply, ResponseKind,
};
use crate::payload::{expanded_payload, ComponentRow, MessageEmbed, MessagePayload, PayloadView};
use crate::permissions::{
    action_check, missing_response_denial, ActionCheck, ActionCheckView, ActionPermissionsContext,
};
use crate::template::MessageVariables;
use crate::text::{decimal, push_decimal};

verus! {

/// Why the handling of an interaction failed.
#[derive(Debug, Clone, Copy, PartialEq, Eq)]
pub enum InteractionError {
    /// Nothing could be done: a role was to be toggled, and the interaction
    /// names no member.
    NoOp,
    DiscordHttp,
    DiscordDeserialize,
    JsonSerialize,
    AwcDeserialize,
    AwcRequest,
    Database,
    Redis,
}

/// A change of a member's roles.
#[derive(Debug, Clone, Copy, PartialEq, Eq)]
pub enum RoleChange {
    Remove,
    Add,
}

/// The change that toggles `role_id` for a member who holds the roles
/// `held`: the role is removed if the member holds it, and added otherwise.
pub open spec fn role_change(held: Set<u64>, role_id: u64) -> RoleChange {
    if held.contains(role_id) {
        RoleChange::Remove
    } else {
        RoleChange::Add
    }
}

/// The roles of a member after `change` of `role_id`.
pub open spec fn changed_roles(held: Set<u64>, change: RoleChange, role_id: u64) -> Set<u64> {
    match change {
        RoleChange::Remove => held.remove(role_id),
        RoleChange::Add => held.insert(role_id),
    }
}

/// The roles of a member after a toggle of `role_id`.
pub open spec fn toggled_roles(held: Set<u64>, role_id: u64) -> Set<u64> {
    changed_roles(held, role_change(held, role_id), role_id)
}

/// Toggling a role twice leaves the member with the roles held before.
pub proof fn lemma_toggle_twice(held: Set<u64>, role_id: u64)
    ensures
        toggled_roles(toggled_roles(held, role_id), role_id) == held,
        toggled_roles(held, role_id).contains(role_id) != held.contains(role_id),
{
    assert(toggled_roles(toggled_roles(held, role_id), role_id) =~= held);
}

/// Whether the member holds the role.
pub fn holds_role(role_ids: &Vec<u64>, role_id: u64) -> (held: bool)
    ensures
        held == role_ids@.to_set().contains(role_id),
        held == (role_change(role_ids@.to_set(), role_id) is Remove),
{
    let mut i: usize = 0;
    while i < role_ids.len()
        invariant
            i <= role_ids.len(),
            forall|k: int| 0 <= k < i ==> role_ids@[k] != role_id,
        decreases role_ids.len() - i,
    {
        if role_ids[i] == role_id {
            assert(role_ids@.contains(role_id));
            return true;
        }
        i += 1;
    }
    assert(!role_ids@.contains(role_id));
    false
}

/// What the lookup of a saved message gives.
#[derive(Debug, PartialEq, Eq)]
pub enum SavedMessageLookup {
    NotFound,
    /// The stored payload cannot be read.
    Invalid,
    Found(MessagePayload),
}

/// What the caller reports to the engine.
#[derive(Debug, PartialEq, Eq)]
pub enum ActionEvent {
    Begin,
    /// Whether the owner named by the command owns the saved message.
    SavedMessageExists(bool),
    SavedMessage(SavedMessageLookup),
    /// Whether the platform has changed the member's role.
    RoleChanged(bool),
    /// The reply has reached the platform.
    Responded,
    /// The command could not be carried out.
    Failed(InteractionError),
}

/// What the engine asks the caller to do next.
#[derive(Debug, PartialEq, Eq)]
pub enum ActionCommand {
    CheckSavedMessage { owner_id: u64, message_id: String },
    LoadSavedMessage { message_id: String },
    RemoveRole { guild_id: u64, user_id: u64, role_id: u64 },
    AddRole { guild_id: u64, user_id: u64, role_id: u64 },
    Respond(InteractionReply),
    /// The run is over.
    Finish(Result<(), InteractionError>),
}

/// How far a run has come.
#[derive(Debug, Clone, Copy, PartialEq, Eq)]
pub enum ActionStage {
    Ready,
    AwaitingExistence,
    AwaitingSavedMessage,
    AwaitingRoleChange { removing: bool },
    /// A reply is on its way; `closing` says that it ends the run.
    AwaitingResponse { closing: bool },
    Finished,
}

/// The run of the actions of one interaction.
#[derive(Debug, PartialEq, Eq)]
pub struct ActionRun {
    pub actions: Vec<MessageAction>,
    /// The index of the action that is checked or run next.
    pub position: usize,
    pub context: ActionPermissionsContext,
    /// The member who caused the interaction, if it came from a guild.
    pub member: Option<InteractionMember>,
    pub stage: ActionStage,
}

/// The reply to a saved message that does not exist.
pub open spec fn response_not_found_notice() -> Seq<char> {
    "Response message not found"@
}

/// The reply to a saved message that cannot be read.
pub open spec fn invalid_response_notice() -> Seq<char> {
    "Invalid response message"@
}

/// What a member reads after a role change that succeeded (`done`) or
/// failed.
pub open spec fn role_change_notice(removing: bool, done: bool, role_id: u64) -> Seq<char> {
    if removing {
        if done {
            "You no longer have the <@&"@ + decimal(role_id as nat) + "> role"@
        } else {
            "Failed to remove role. Does the bot have permissions to remove this role?"@
        }
    } else {
        if done {
            "You now have the <@&"@ + decimal(role_id as nat) + "> role"@
        } else {
            "Failed to add role. Does the bot have permissions to remove this role?"@
        }
    }
}

/// The variables that an interaction gives to a template.
pub open spec fn interaction_variables(member: Option<InteractionMember>) -> Map<
    Seq<char>,
    Seq<char>,
> {
    match member {
        Some(m) => member_variables(Map::empty(), m),
        None => Map::empty(),
    }
}

/// Whether `reply` shows the saved message `saved`: its content, embeds and
/// components after expansion against `vars`, as an edit of the message if
/// `flags` asks for one and as a new message otherwise, for the member's
/// eyes only.
pub open spec fn shows_saved_message(
    reply: InteractionReply,
    saved: PayloadView,
    flags: u64,
    vars: Map<Seq<char>, Seq<char>>,
) -> bool {
    let shown = expanded_payload(saved, vars);
    &&& flags_request_edit(flags) ==> reply.kind is UpdateMessage
    &&& !flags_request_edit(flags) ==> reply.kind is ChannelMessageWithSource
    &&& reply.content matches Some(content) && content@ == shown.content
    &&& reply.embeds matches Some(embeds) && embeds@.map_values(|e: MessageEmbed| e@)
        == shown.embeds
    &&& reply.components matches Some(rows) && rows@.map_values(|r: ComponentRow| r@)
        == shown.components
    &&& reply.ephemeral
}

/// Whether the run passes over `action` without a command: an action that
/// does nothing, unless the context denies everything.
pub open spec fn passed_over(ctx: ActionPermissionsContext, action: MessageAction) -> bool {
    action is Unknown && !(ctx is Deny)
}

/// The index of the first action at or after `from` that the run does not
/// pass over, or the number of actions if there is none.
pub open spec fn next_effective(
    actions: Seq<MessageAction>,
    ctx: ActionPermissionsContext,
    from: int,
) -> int
    decreases actions.len() - from,
{
    if from >= actions.len() {
        actions.len() as int
    } else if passed_over(ctx, actions[from]) {
        next_effective(actions, ctx, from + 1)
    } else {
        from
    }
}

impl ActionRun {
    /// The position lies within the actions, and the action at the position
    /// is of the kind that the stage waits for.
    pub open spec fn well_formed(&self) -> bool {
        &&& self.position <= self.actions.len()
        &&& (self.stage is AwaitingExistence || self.stage is AwaitingSavedMessage)
            ==> self.position < self.actions.len()
            && self.actions@[self.position as int] is ResponseSavedMessage
        &&& self.stage is AwaitingRoleChange ==> self.position < self.actions.len()
            && self.actions@[self.position as int] is RoleToggle
    }

    /// Whether `event` answers the command that the run gave last.
    pub open spec fn expects(&self, event: ActionEvent) -> bool {
        match self.stage {
            ActionStage::Ready => event is Begin,
            ActionStage::AwaitingExistence => event is SavedMessageExists || event is Failed,
            ActionStage::AwaitingSavedMessage => event is SavedMessage || event is Failed,
            ActionStage::AwaitingRoleChange { removing } => event is RoleChanged || event is Failed,
            ActionStage::AwaitingResponse { closing } => event is Responded || event is Failed,
            ActionStage::Finished => false,
        }
    }

    /// Whether `event` answers the command that the run gave last.
    pub fn accepts(&self, event: &ActionEvent) -> (ok: bool)
        ensures
            ok == self.expects(*event),
    {
        match self.stage {
            ActionStage::Ready => matches!(event, ActionEvent::Begin),
            ActionStage::AwaitingExistence => matches!(
                event,
                ActionEvent::SavedMessageExists(_) | ActionEvent::Failed(_)
            ),
            ActionStage::AwaitingSavedMessage => matches!(
                event,
                ActionEvent::SavedMessage(_) | ActionEvent::Failed(_)
            ),
            ActionStage::AwaitingRoleChange { .. } => matches!(
                event,
                ActionEvent::RoleChanged(_) | ActionEvent::Failed(_)
            ),
            ActionStage::AwaitingResponse { .. } => matches!(
                event,
                ActionEvent::Responded | ActionEvent::Failed(_)
            ),
            ActionStage::Finished => false,
        }
    }

    /// A run of `actions` under `context`, for the member `member` if the
    /// interaction came from a guild.
    pub fn new(
        actions: Vec<MessageAction>,
        context: ActionPermissionsContext,
        member: Option<InteractionMember>,
    ) -> (run: ActionRun)
        ensures
            run.well_formed(),
            run == (ActionRun { actions, position: 0, context, member, stage: ActionStage::Ready }),
    {
        ActionRun { actions, position: 0, context, member, stage: ActionStage::Ready }
    }
}

/// The run replies with the notice `text`; the reply ends the run if
/// `closing`.
pub open spec fn notifies(
    run: ActionRun,
    position: int,
    text: Seq<char>,
    closing: bool,
    next: ActionRun,
    command: ActionCommand,
) -> bool {
    &&& command matches ActionCommand::Respond(reply) && reply.is_notice(text)
    &&& next == (ActionRun {
        position: position as usize,
        stage: ActionStage::AwaitingResponse { closing },
        ..run
    })
}

/// The run ends with `outcome`.
pub open spec fn run_finishes(
    run: ActionRun,
    next: ActionRun,
    command: ActionCommand,
    outcome: Result<(), InteractionError>,
) -> bool {
    command == ActionCommand::Finish(outcome) && next == (ActionRun {
        stage: ActionStage::Finished,
        ..run
    })
}

/// The run carries out the action at `at`, which was granted: a saved
/// message is loaded; a role is removed from the member if the member
/// holds it, and added otherwise. A role toggle of an interaction without a
/// member ends the run with an error.
pub open spec fn executes(run: ActionRun, at: int, next: ActionRun, command: ActionCommand) -> bool {
    match run.actions@[at] {
        MessageAction::Unknown => false,
        MessageAction::ResponseSavedMessage { message_id, flags } => {
            &&& command matches ActionCommand::LoadSavedMessage { message_id: wanted }
            &&& wanted@ == message_id@
            &&& next == (ActionRun {
                position: at as usize,
                stage: ActionStage::AwaitingSavedMessage,
                ..run
            })
        },
        MessageAction::RoleToggle { role_id } => match run.member {
            Some(member) => {
                let removing = role_change(member.role_ids@.to_set(), role_id) is Remove;
                &&& removing ==> command == (ActionCommand::RemoveRole {
                    guild_id: member.guild_id,
                    user_id: member.user_id,
                    role_id,
                })
                &&& !removing ==> command == (ActionCommand::AddRole {
                    guild_id: member.guild_id,
                    user_id: member.user_id,
                    role_id,
                })
                &&& next == (ActionRun {
                    position: at as usize,
                    stage: ActionStage::AwaitingRoleChange { removing },
                    ..run
                })
            },
            None => run_finishes(run, next, command, Err(InteractionError::NoOp)),
        },
    }
}

/// The run goes on from the action at `from`: actions that do nothing are
/// passed over; the first other action is checked, and a denial is sent as
/// the reply that ends the run; when no action is left, the run is over.
pub open spec fn advances(
    run: ActionRun,
    roles: Map<u64, i64>,
    from: int,
    next: ActionRun,
    command: ActionCommand,
) -> bool {
    let at = next_effective(run.actions@, run.context, from);
    if at >= run.actions.len() {
        run_finishes(run, next, command, Ok(()))
    } else {
        match action_check(run.context, run.actions@[at]@, roles) {
            ActionCheckView::Denied(text) => notifies(run, at, text, true, next, command),
            ActionCheckView::AwaitsSavedMessage { owner_id, message_id } => {
                &&& command matches ActionCommand::CheckSavedMessage {
                    owner_id: owner,
                    message_id: wanted,
                }
                &&& owner == owner_id
                &&& wanted@ == message_id
                &&& next == (ActionRun {
                    position: at as usize,
                    stage: ActionStage::AwaitingExistence,
                    ..run
                })
            },
            ActionCheckView::Granted => executes(run, at, next, command),
        }
    }
}

/// The step of the engine: from `run` and `event` to `next` and `command`.
pub open spec fn action_step(
    run: ActionRun,
    event: ActionEvent,
    roles: Map<u64, i64>,
    next: ActionRun,
    command: ActionCommand,
) -> bool {
    match event {
        ActionEvent::Failed(error) => run_finishes(run, next, command, Err(error)),
        ActionEvent::Begin => run.stage is Ready && advances(
            run,
            roles,
            run.position as int,
            next,
            command,
        ),
        ActionEvent::SavedMessageExists(exists) => run.stage is AwaitingExistence && if exists {
            executes(run, run.position as int, next, command)
        } else {
            notifies(run, run.position as int, missing_response_denial(), true, next, command)
        },
        ActionEvent::SavedMessage(lookup) => run.stage is AwaitingSavedMessage && match lookup {
            SavedMessageLookup::NotFound => notifies(
                run,
                run.position + 1,
                response_not_found_notice(),
                false,
                next,
                command,
            ),
            SavedMessageLookup::Invalid => notifies(
                run,
                run.position + 1,
                invalid_response_notice(),
                false,
                next,
                command,
            ),
            SavedMessageLookup::Found(saved) => {
                &&& command matches ActionCommand::Respond(reply)
                &&& run.actions@[run.position as int] matches MessageAction::ResponseSavedMessage {
                    message_id,
                    flags,
                }
                &&& shows_saved_message(reply, saved@, flags, interaction_variables(run.member))
                &&& next == (ActionRun {
                    position: (run.position + 1) as usize,
                    stage: ActionStage::AwaitingResponse { closing: false },
                    ..run
                })
            },
        },
        ActionEvent::RoleChanged(done) => {
            &&& run.stage matches ActionStage::AwaitingRoleChange { removing }
            &&& run.actions@[run.position as int] matches MessageAction::RoleToggle { role_id }
            &&& notifies(
                run,
                run.position + 1,
                role_change_notice(removing, done, role_id),
                false,
                next,
                command,
            )
        },
        ActionEvent::Responded => {
            &&& run.stage matches ActionStage::AwaitingResponse { closing }
            &&& if closing {
                run_finishes(run, next, command, Ok(()))
            } else {
                advances(run, roles, run.position as int, next, command)
            }
        },
    }
}

/// Ends the run with `outcome`.
fn finish_run(run: ActionRun, outcome: Result<(), InteractionError>) -> (step: (
    ActionRun,
    ActionCommand,
))
    ensures
        run_finishes(run, step.0, step.1, outcome),
{
    (ActionRun { stage: ActionStage::Finished, ..run }, ActionCommand::Finish(outcome))
}

/// Replies with the notice `text`.
fn notify(run: ActionRun, position: usize, text: String, closing: bool) -> (step: (
    ActionRun,
    ActionCommand,
))
    ensures
        notifies(run, position as int, text@, closing, step.0, step.1),
{
    (
        ActionRun { position, stage: ActionStage::AwaitingResponse { closing }, ..run },
        ActionCommand::Respond(simple_response(text)),
    )
}

/// Carries out the granted action at `at`.
fn execute(run: ActionRun, at: usize) -> (step: (ActionRun, ActionCommand))
    requires
        run.well_formed(),
        at < run.actions.len(),
        !(run.actions@[at as int] is Unknown),
    ensures
        executes(run, at as int, step.0, step.1),
        step.0.well_formed(),
{
    match &run.actions[at] {
        MessageAction::ResponseSavedMessage { message_id, .. } => {
            let command = ActionCommand::LoadSavedMessage { message_id: message_id.clone() };
            (ActionRun { position: at, stage: ActionStage::AwaitingSavedMessage, ..run }, command)
        },
        MessageAction::RoleToggle { role_id } => {
            let role_id = *role_id;
            match &run.member {
                Some(member) => {
                    let removing = holds_role(&member.role_ids, role_id);
                    let command = if removing {
                        ActionCommand::RemoveRole {
                            guild_id: member.guild_id,
                            user_id: member.user_id,
                            role_id,
                        }
                    } else {
                        ActionCommand::AddRole {
                            guild_id: member.guild_id,
                            user_id: member.user_id,
                            role_id,
                        }
                    };
                    (
                        ActionRun {
                            position: at,
                            stage: ActionStage::AwaitingRoleChange { removing },
                            ..run
                        },
                        command,
                    )
                },
                None => finish_run(run, Err(InteractionError::NoOp)),
            }
        },
        MessageAction::Unknown => finish_run(run, Err(InteractionError::NoOp)),
    }
}

/// Goes on from the action at the position of the run.
fn advance(run: ActionRun, roles: &HashMap<u64, i64>) -> (step: (ActionRun, ActionCommand))
    requires
        run.well_formed(),
    ensures
        advances(run, roles@, run.position as int, step.0, step.1),
        step.0.well_formed(),
{
    let mut position: usize = run.position;
    let mut pending: Option<ActionCheck> = None;
    while pending.is_none() && position < run.actions.len()
        invariant
            run.position <= position <= run.actions.len(),
            next_effective(run.actions@, run.context, run.position as int) == next_effective(
                run.actions@,
                run.context,
                position as int,
            ),
            pending matches Some(check) ==> position < run.actions.len() && !passed_over(
                run.context,
                run.actions@[position as int],
            ) && check@ == action_check(run.context, run.actions@[position as int]@, roles@),
        decreases run.actions.len() - position + if pending is None { 1int } else { 0int },
    {
        let check = run.context.check_action(&run.actions[position], roles);
        let pass = match (&check, &run.actions[position]) {
            (ActionCheck::Granted, MessageAction::Unknown) => true,
            _ => false,
        };
        if pass {
            position += 1;
        } else {
            pending = Some(check);
        }
    }
    match pending {
        None => finish_run(run, Ok(())),
        Some(ActionCheck::Denied(text)) => notify(run, position, text, true),
        Some(ActionCheck::AwaitsSavedMessage { owner_id, message_id }) => (
            ActionRun { position, stage: ActionStage::AwaitingExistence, ..run },
            ActionCommand::CheckSavedMessage { owner_id, message_id },
        ),
        Some(ActionCheck::Granted) => execute(run, position),
    }
}

/// Builds the notice that follows a role change.
fn role_change_text(removing: bool, done: bool, role_id: u64) -> (text: String)
    ensures
        text@ == role_change_notice(removing, done, role_id),
{
    if removing {
        if done {
            let mut text = String::from_str("You no longer have the <@&");
            push_decimal(&mut text, role_id);
            text.append("> role");
            text
        } else {
            String::from_str(
                "Failed to remove role. Does the bot have permissions to remove this role?",
            )
        }
    } else {
        if done {
            let mut text = String::from_str("You now have the <@&");
            push_decimal(&mut text, role_id);
            text.append("> role");
            text
        } else {
            String::from_str(
                "Failed to add role. Does the bot have permissions to remove this role?",
            )
        }
    }
}

/// Builds the reply that shows a saved message.
fn saved_message_reply(saved: MessagePayload, flags: u64, member: &Option<InteractionMember>) -> (reply:
    InteractionReply)
    ensures
        shows_saved_message(reply, saved@, flags, interaction_variables(*member)),
{
    let mut vars = MessageVariables::new();
    match member {
        Some(m) => {
            m.to_message_variables(&mut vars);
        },
        None => {},
    }
    let mut payload = saved;
    payload.replace_variables(&vars);
    let kind = if requests_edit(flags) {
        ResponseKind::UpdateMessage
    } else {
        ResponseKind::ChannelMessageWithSource
    };
    InteractionReply {
        kind,
        content: Some(payload.content),
        embeds: Some(payload.embeds),
        components: Some(payload.components),
        ephemeral: true,
    }
}

/// Takes one step of the action engine: given the answer to the command
/// that the run gave last, gives the run as it goes on and the next
/// command. `roles` holds the positions of the roles that the cache knows.
pub fn handle_component_actions(run: ActionRun, event: ActionEvent, roles: &HashMap<u64, i64>) -> (step:
    (ActionRun, ActionCommand))
    requires
        run.well_formed(),
        run.expects(event),
    ensures
        action_step(run, event, roles@, step.0, step.1),
        step.0.well_formed(),
{
    match event {
        ActionEvent::Failed(error) => finish_run(run, Err(error)),
        ActionEvent::Begin => advance(run, roles),
        ActionEvent::SavedMessageExists(exists) => {
            let position = run.position;
            match ActionPermissionsContext::check_saved_message(exists) {
                Ok(()) => execute(run, position),
                Err(text) => notify(run, position, text, true),
            }
        },
        ActionEvent::SavedMessage(lookup) => {
            let position = run.position + 1;
            match lookup {
                SavedMessageLookup::NotFound => notify(
                    run,
                    position,
                    String::from_str("Response message not found"),
                    false,
                ),
                SavedMessageLookup::Invalid => notify(
                    run,
                    position,
                    String::from_str("Invalid response message"),
                    false,
                ),
                SavedMessageLookup::Found(saved) => {
                    let flags = match &run.actions[run.position] {
                        MessageAction::ResponseSavedMessage { flags, .. } => *flags,
                        _ => 0,
                    };
                    let reply = saved_message_reply(saved, flags, &run.member);
                    (
                        ActionRun {
                            position,
                            stage: ActionStage::AwaitingResponse { closing: false },
                            ..run
                        },
                        ActionCommand::Respond(reply),
                    )
                },
            }
        },
        ActionEvent::RoleChanged(done) => {
            let removing = match run.stage {
                ActionStage::AwaitingRoleChange { removing } => removing,
                _ => false,
            };
            let role_id = match &run.actions[run.position] {
                MessageAction::RoleToggle { role_id } => *role_id,
                _ => 0,
            };
            let position = run.position + 1;
            notify(run, position, role_change_text(removing, done, role_id), false)
        },
        ActionEvent::Responded => {
            let closing = match run.stage {
                ActionStage::AwaitingResponse { closing } => closing,
                _ => true,
            };
            if closing {
                finish_run(run, Ok(()))
            } else {
                advance(run, roles)
            }
        },
    }
}

} // verus!
