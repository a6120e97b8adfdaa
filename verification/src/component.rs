//! The component flow: one use of an interactive component, from its
//! arrival to the end of its handling.
//!
//! Before any action runs, the message that carries the component has to
//! be shown to be unmodified and the bot's own: by its provenance record
//! and the digest of the message as it is now, or by the rules for messages
//! from before records were kept.

use std::collections::HashMap;
use vstd::prelude::*;
use crate::actions::{action_views, parsed_actions, MessageAction};
use crate::engine::{
    action_step, handle_component_actions, interaction_variables, ActionCommand, ActionEvent,
    ActionRun, ActionStage, InteractionError,
};
use crate::integrity::payload_digest;
use crate::interaction::{
    authorization, authorization_context, integrity_notice, record_view, simple_response,
    ComponentData, InteractionMember, InteractionMessage, InteractionReply,
};
use crate::payload::ComponentKind;
use crate::provenance::ChannelMessageModel;
use crate::template::{expanded, replace_variables, MessageVariables};

verus! {

/// The token of a used component: the custom id of a button, the first
/// selected value of a select menu, and none for a select menu without a
/// selected value or for any other kind of component.
pub open spec fn component_token(component: ComponentData) -> Option<Seq<char>> {
    match component.kind {
        ComponentKind::Button => Some(component.custom_id@),
        ComponentKind::SelectMenu => if component.values.len() > 0 {
            Some(component.values@[0]@)
        } else {
            None
        },
        ComponentKind::Other => None,
    }
}

/// The token of a used component.
pub fn token_of(component: &ComponentData) -> (token: Option<String>)
    ensures
        token is Some <==> component_token(*component) is Some,
        token matches Some(text) ==> text@ == component_token(*component)->0,
{
    match component.kind {
        ComponentKind::Button => Some(component.custom_id.clone()),
        ComponentKind::SelectMenu => {
            if component.values.len() > 0 {
                Some(component.values[0].clone())
            } else {
                None
            }
        },
        ComponentKind::Other => None,
    }
}

/// The reply to a token that holds no action: the token itself, read as a
/// template and expanded against `vars`.
pub fn literal_reply(token: &str, vars: &MessageVariables) -> (reply: InteractionReply)
    ensures
        reply.is_notice(expanded(token@, vars@)),
{
    simple_response(replace_variables(token, vars))
}

/// How far the handling of a used component has come.
#[derive(Debug, PartialEq, Eq)]
pub enum ComponentStage {
    Start,
    AwaitingRecord,
    /// The integrity notice is on its way; nothing follows it.
    Closing,
    /// The reply to a token without actions is on its way.
    Replying,
    /// The actions of the token run.
    Running(ActionRun),
    ResettingMenu,
    Finished,
}

/// One use of an interactive component on its way.
#[derive(Debug, PartialEq, Eq)]
pub struct ComponentFlow {
    pub bot_user_id: u64,
    pub message: InteractionMessage,
    /// Whether the component is a select menu, which is put back to its
    /// first state at the end.
    pub select_menu: bool,
    /// The token of the component, if it has one.
    pub token: Option<String>,
    /// The actions of the token.
    pub actions: Vec<MessageAction>,
    /// The member who used the component. It passes to the run of the
    /// actions when that begins.
    pub member: Option<InteractionMember>,
    pub stage: ComponentStage,
}

/// What the caller reports to the flow.
#[derive(Debug, PartialEq, Eq)]
pub enum ComponentEvent {
    Begin,
    /// The provenance record of the message, if there is one.
    Record(Option<ChannelMessageModel>),
    /// The reply has reached the platform.
    Responded,
    /// The answer to a command of the action engine.
    Action(ActionEvent),
    /// The select menu was put back, or could not be.
    MenuReset,
    /// The command could not be carried out.
    Failed(InteractionError),
}

/// What the flow asks the caller to do next.
#[derive(Debug, PartialEq, Eq)]
pub enum ComponentCommand {
    FindRecord { message_id: u64 },
    Respond(InteractionReply),
    /// A command of the action engine.
    Action(ActionCommand),
    /// Put the components of the message back as they were.
    ResetMenu { message_id: u64 },
    /// The handling is over.
    Finish(Result<(), InteractionError>),
}

impl ComponentFlow {
    /// Until the record has arrived, the actions are those of the token;
    /// and a run that is under way is well formed.
    pub open spec fn well_formed(&self) -> bool {
        &&& (self.stage is Start || self.stage is AwaitingRecord) ==> action_views(self.actions@)
            == match self.token {
            Some(token) => parsed_actions(token@),
            None => Seq::empty(),
        }
        &&& self.stage matches ComponentStage::Running(run) ==> run.well_formed()
            && self.actions@.len() == 0 && self.member is None
    }

    /// Whether `event` answers the command that the flow gave last.
    pub open spec fn expects(&self, event: ComponentEvent) -> bool {
        match self.stage {
            ComponentStage::Start => event is Begin,
            ComponentStage::AwaitingRecord => event is Record || event is Failed,
            ComponentStage::Closing => event is Responded || event is Failed,
            ComponentStage::Replying => event is Responded || event is Failed,
            ComponentStage::Running(run) => event matches ComponentEvent::Action(answer)
                && run.expects(answer),
            ComponentStage::ResettingMenu => event is MenuReset || event is Failed,
            ComponentStage::Finished => false,
        }
    }

    /// Whether `event` answers the command that the flow gave last.
    pub fn accepts(&self, event: &ComponentEvent) -> (ok: bool)
        ensures
            ok == self.expects(*event),
    {
        match &self.stage {
            ComponentStage::Start => matches!(event, ComponentEvent::Begin),
            ComponentStage::AwaitingRecord => matches!(
                event,
                ComponentEvent::Record(_) | ComponentEvent::Failed(_)
            ),
            ComponentStage::Closing => matches!(
                event,
                ComponentEvent::Responded | ComponentEvent::Failed(_)
            ),
            ComponentStage::Replying => matches!(
                event,
                ComponentEvent::Responded | ComponentEvent::Failed(_)
            ),
            ComponentStage::Running(run) => match event {
                ComponentEvent::Action(answer) => run.accepts(answer),
                _ => false,
            },
            ComponentStage::ResettingMenu => matches!(
                event,
                ComponentEvent::MenuReset | ComponentEvent::Failed(_)
            ),
            ComponentStage::Finished => false,
        }
    }

    /// A flow for the use of `component` on `message` by `member`; the
    /// member is known if the interaction came from a guild.
    pub fn new(
        bot_user_id: u64,
        message: InteractionMessage,
        component: &ComponentData,
        member: Option<InteractionMember>,
    ) -> (flow: ComponentFlow)
        ensures
            flow.well_formed(),
            flow.bot_user_id == bot_user_id,
            flow.message == message,
            flow.member == member,
            flow.select_menu == (component.kind is SelectMenu),
            flow.stage is Start,
            flow.token is Some <==> component_token(*component) is Some,
            flow.token matches Some(token) ==> token@ == component_token(*component)->0,
    {
        let token = token_of(component);
        let actions = match &token {
            Some(text) => MessageAction::parse(text.as_str()),
            None => {
                let none: Vec<MessageAction> = Vec::new();
                assert(action_views(none@) =~= Seq::empty());
                none
            },
        };
        let select_menu = matches!(component.kind, ComponentKind::SelectMenu);
        ComponentFlow {
            bot_user_id,
            message,
            select_menu,
            token,
            actions,
            member,
            stage: ComponentStage::Start,
        }
    }
}

/// `next` is about the same use of the same component as `flow`.
pub open spec fn same_subject(flow: ComponentFlow, next: ComponentFlow) -> bool {
    &&& next.bot_user_id == flow.bot_user_id
    &&& next.message == flow.message
    &&& next.select_menu == flow.select_menu
    &&& next.token == flow.token
}

/// The handling ends with `outcome`.
pub open spec fn component_finishes(
    flow: ComponentFlow,
    next: ComponentFlow,
    command: ComponentCommand,
    outcome: Result<(), InteractionError>,
) -> bool {
    command == ComponentCommand::Finish(outcome) && next.stage is Finished && same_subject(
        flow,
        next,
    )
}

/// The replies and actions are done: a select menu is put back, and any
/// other component ends the handling.
pub open spec fn winds_up(flow: ComponentFlow, next: ComponentFlow, command: ComponentCommand) -> bool {
    if flow.select_menu {
        command == (ComponentCommand::ResetMenu { message_id: flow.message.id })
            && next.stage is ResettingMenu && same_subject(flow, next)
    } else {
        component_finishes(flow, next, command, Ok(()))
    }
}

/// The engine has taken a step from `run` on `answer`: its command is
/// passed on, except for the end of the run, after which the flow winds up
/// or, after an error, ends with it.
pub open spec fn run_step(
    flow: ComponentFlow,
    run: ActionRun,
    answer: ActionEvent,
    roles: Map<u64, i64>,
    next: ComponentFlow,
    command: ComponentCommand,
) -> bool {
    exists|after: ActionRun, given: ActionCommand|
        {
            &&& #[trigger] action_step(run, answer, roles, after, given)
            &&& match given {
                ActionCommand::Finish(Ok(done)) => winds_up(flow, next, command),
                ActionCommand::Finish(Err(error)) => component_finishes(
                    flow,
                    next,
                    command,
                    Err(error),
                ),
                _ => command == ComponentCommand::Action(given) && next.stage
                    == ComponentStage::Running(after) && same_subject(flow, next)
                    && next.actions@.len() == 0 && next.member is None,
            }
        }
}

/// The record of the message has arrived. If the integrity of the message
/// cannot be shown, the member gets the integrity notice and nothing else
/// happens. Else a component without a token ends the handling; a token
/// without actions is answered with itself, expanded; and the actions of
/// any other token begin to run under the context that was derived.
pub open spec fn record_step(
    flow: ComponentFlow,
    record: Option<ChannelMessageModel>,
    roles: Map<u64, i64>,
    next: ComponentFlow,
    command: ComponentCommand,
) -> bool {
    match authorization(
        record_view(record),
        payload_digest(flow.message.body@),
        flow.message.author_id,
        flow.bot_user_id,
        flow.message.effective_timestamp(),
        roles,
    ) {
        Err(failure) => {
            &&& command matches ComponentCommand::Respond(reply)
            &&& reply.is_notice(integrity_notice())
            &&& next == (ComponentFlow { stage: ComponentStage::Closing, ..flow })
        },
        Ok(ctx) => match flow.token {
            None => component_finishes(flow, next, command, Ok(())),
            Some(token) => if flow.actions.len() == 0 {
                &&& command matches ComponentCommand::Respond(reply)
                &&& reply.is_notice(expanded(token@, interaction_variables(flow.member)))
                &&& next == (ComponentFlow { stage: ComponentStage::Replying, ..flow })
            } else {
                run_step(
                    flow,
                    ActionRun {
                        actions: flow.actions,
                        position: 0,
                        context: ctx,
                        member: flow.member,
                        stage: ActionStage::Ready,
                    },
                    ActionEvent::Begin,
                    roles,
                    next,
                    command,
                )
            },
        },
    }
}

/// The step of the component flow: from `flow` and `event` to `next` and
/// `command`.
pub open spec fn component_step(
    flow: ComponentFlow,
    event: ComponentEvent,
    roles: Map<u64, i64>,
    next: ComponentFlow,
    command: ComponentCommand,
) -> bool {
    match flow.stage {
        ComponentStage::Start => {
            &&& event is Begin
            &&& command == (ComponentCommand::FindRecord { message_id: flow.message.id })
            &&& next == (ComponentFlow { stage: ComponentStage::AwaitingRecord, ..flow })
        },
        ComponentStage::AwaitingRecord => match event {
            ComponentEvent::Record(record) => record_step(flow, record, roles, next, command),
            ComponentEvent::Failed(error) => component_finishes(flow, next, command, Err(error)),
            _ => false,
        },
        ComponentStage::Closing => match event {
            ComponentEvent::Responded => component_finishes(flow, next, command, Ok(())),
            ComponentEvent::Failed(error) => component_finishes(flow, next, command, Err(error)),
            _ => false,
        },
        ComponentStage::Replying => match event {
            ComponentEvent::Responded => winds_up(flow, next, command),
            ComponentEvent::Failed(error) => component_finishes(flow, next, command, Err(error)),
            _ => false,
        },
        ComponentStage::Running(run) => match event {
            ComponentEvent::Action(answer) => run_step(flow, run, answer, roles, next, command),
            _ => false,
        },
        ComponentStage::ResettingMenu => (event is MenuReset || event is Failed)
            && component_finishes(flow, next, command, Ok(())),
        ComponentStage::Finished => false,
    }
}

/// Ends the handling with `outcome`.
fn finish_component(flow: ComponentFlow, outcome: Result<(), InteractionError>) -> (step: (
    ComponentFlow,
    ComponentCommand,
))
    ensures
        component_finishes(flow, step.0, step.1, outcome),
        step.0.well_formed(),
{
    (
        ComponentFlow { stage: ComponentStage::Finished, ..flow },
        ComponentCommand::Finish(outcome),
    )
}

/// Puts a select menu back, or ends the handling.
fn wind_up(flow: ComponentFlow) -> (step: (ComponentFlow, ComponentCommand))
    ensures
        winds_up(flow, step.0, step.1),
        step.0.well_formed(),
{
    if flow.select_menu {
        let command = ComponentCommand::ResetMenu { message_id: flow.message.id };
        (ComponentFlow { stage: ComponentStage::ResettingMenu, ..flow }, command)
    } else {
        finish_component(flow, Ok(()))
    }
}

/// Lets the engine take a step, and passes its command on.
fn step_run(
    flow: ComponentFlow,
    run: ActionRun,
    answer: ActionEvent,
    roles: &HashMap<u64, i64>,
) -> (step: (ComponentFlow, ComponentCommand))
    requires
        run.well_formed(),
        run.expects(answer),
        flow.actions@.len() == 0,
        flow.member is None,
    ensures
        run_step(flow, run, answer, roles@, step.0, step.1),
        step.0.well_formed(),
{
    let (after, given) = handle_component_actions(run, answer, roles);
    match given {
        ActionCommand::Finish(Ok(())) => wind_up(flow),
        ActionCommand::Finish(Err(error)) => finish_component(flow, Err(error)),
        other => (
            ComponentFlow { stage: ComponentStage::Running(after), ..flow },
            ComponentCommand::Action(other),
        ),
    }
}

/// Takes one step of the component flow: given the answer to the command
/// that the flow gave last, gives the flow as it goes on and the next
/// command. `roles` holds the positions of the roles that the cache knows.
pub fn handle_unknown_component(
    flow: ComponentFlow,
    event: ComponentEvent,
    roles: &HashMap<u64, i64>,
) -> (step: (ComponentFlow, ComponentCommand))
    requires
        flow.well_formed(),
        flow.expects(event),
    ensures
        component_step(flow, event, roles@, step.0, step.1),
        step.0.well_formed(),
{
    let ComponentFlow { bot_user_id, message, select_menu, token, actions, member, stage } = flow;
    match stage {
        ComponentStage::Start => {
            let command = ComponentCommand::FindRecord { message_id: message.id };
            (
                ComponentFlow {
                    bot_user_id,
                    message,
                    select_menu,
                    token,
                    actions,
                    member,
                    stage: ComponentStage::AwaitingRecord,
                },
                command,
            )
        },
        ComponentStage::AwaitingRecord => match event {
            ComponentEvent::Record(record) => {
                let ctx = match authorization_context(&record, &message, bot_user_id, roles) {
                    Ok(ctx) => ctx,
                    Err(_) => {
                        let reply = simple_response(
                            String::from_str("Message integrity could not be validated"),
                        );
                        return (
                            ComponentFlow {
                                bot_user_id,
                                message,
                                select_menu,
                                token,
                                actions,
                                member,
                                stage: ComponentStage::Closing,
                            },
                            ComponentCommand::Respond(reply),
                        );
                    },
                };
                let text = match &token {
                    Some(text) => text,
                    None => {
                        return finish_component(
                            ComponentFlow {
                                bot_user_id,
                                message,
                                select_menu,
                                token,
                                actions,
                                member,
                                stage: ComponentStage::Finished,
                            },
                            Ok(()),
                        );
                    },
                };
                if actions.len() == 0 {
                    let mut vars = MessageVariables::new();
                    match &member {
                        Some(m) => {
                            m.to_message_variables(&mut vars);
                        },
                        None => {},
                    }
                    let reply = literal_reply(text.as_str(), &vars);
                    (
                        ComponentFlow {
                            bot_user_id,
                            message,
                            select_menu,
                            token,
                            actions,
                            member,
                            stage: ComponentStage::Replying,
                        },
                        ComponentCommand::Respond(reply),
                    )
                } else {
                    let run = ActionRun {
                        actions,
                        position: 0,
                        context: ctx,
                        member,
                        stage: ActionStage::Ready,
                    };
                    step_run(
                        ComponentFlow {
                            bot_user_id,
                            message,
                            select_menu,
                            token,
                            actions: Vec::new(),
                            member: None,
                            stage: ComponentStage::Finished,
                        },
                        run,
                        ActionEvent::Begin,
                        roles,
                    )
                }
            },
            ComponentEvent::Failed(error) => finish_component(
                ComponentFlow {
                    bot_user_id,
                    message,
                    select_menu,
                    token,
                    actions,
                    member,
                    stage: ComponentStage::Finished,
                },
                Err(error),
            ),
            _ => finish_component(
                ComponentFlow {
                    bot_user_id,
                    message,
                    select_menu,
                    token,
                    actions,
                    member,
                    stage: ComponentStage::Finished,
                },
                Err(InteractionError::NoOp),
            ),
        },
        ComponentStage::Closing => {
            let outcome = match event {
                ComponentEvent::Failed(error) => Err(error),
                _ => Ok(()),
            };
            finish_component(
                ComponentFlow {
                    bot_user_id,
                    message,
                    select_menu,
                    token,
                    actions,
                    member,
                    stage: ComponentStage::Finished,
                },
                outcome,
            )
        },
        ComponentStage::Replying => {
            let rest = ComponentFlow {
                bot_user_id,
                message,
                select_menu,
                token,
                actions,
                member,
                stage: ComponentStage::Finished,
            };
            match event {
                ComponentEvent::Failed(error) => finish_component(rest, Err(error)),
                _ => wind_up(rest),
            }
        },
        ComponentStage::Running(run) => {
            let rest = ComponentFlow {
                bot_user_id,
                message,
                select_menu,
                token,
                actions,
                member,
                stage: ComponentStage::Finished,
            };
            match event {
                ComponentEvent::Action(answer) => step_run(rest, run, answer, roles),
                _ => finish_component(rest, Err(InteractionError::NoOp)),
            }
        },
        ComponentStage::ResettingMenu => finish_component(
            ComponentFlow {
                bot_user_id,
                message,
                select_menu,
                token,
                actions,
                member,
                stage: ComponentStage::Finished,
            },
            Ok(()),
        ),
        ComponentStage::Finished => finish_component(
            ComponentFlow {
                bot_user_id,
                message,
                select_menu,
                token,
                actions,
                member,
                stage: ComponentStage::Finished,
            },
            Err(InteractionError::NoOp),
        ),
    }
}

/// A message whose recorded digest is not the digest of the message as it
/// is now gets the integrity notice and nothing else: whatever actions its
/// token asks for, no command of the action engine is given, and the flow
/// waits only for the notice to be delivered.
pub proof fn lemma_tampered_message_runs_no_action(
    flow: ComponentFlow,
    stored: ChannelMessageModel,
    roles: Map<u64, i64>,
    next: ComponentFlow,
    command: ComponentCommand,
)
    requires
        flow.stage is AwaitingRecord,
        stored.hash@ != payload_digest(flow.message.body@),
        component_step(flow, ComponentEvent::Record(Some(stored)), roles, next, command),
    ensures
        command matches ComponentCommand::Respond(reply) && reply.is_notice(integrity_notice()),
        !(command is Action),
        next.stage is Closing,
{
}

/// A token that holds no action is answered as text: once the integrity of
/// the message is shown, the reply is the token itself, expanded against
/// the variables of the interaction, and no command of the action engine is
/// given.
pub proof fn lemma_token_without_actions_is_text(
    flow: ComponentFlow,
    record: Option<ChannelMessageModel>,
    roles: Map<u64, i64>,
    next: ComponentFlow,
    command: ComponentCommand,
)
    requires
        flow.well_formed(),
        flow.stage is AwaitingRecord,
        flow.token matches Some(token) && parsed_actions(token@).len() == 0,
        authorization(
            record_view(record),
            payload_digest(flow.message.body@),
            flow.message.author_id,
            flow.bot_user_id,
            flow.message.effective_timestamp(),
            roles,
        ) is Ok,
        component_step(flow, ComponentEvent::Record(record), roles, next, command),
    ensures
        command matches ComponentCommand::Respond(reply) && reply.is_notice(
            expanded(flow.token->0@, interaction_variables(flow.member)),
        ),
        next.stage is Replying,
{
    assert(action_views(flow.actions@).len() == flow.actions@.len());
}

/// After the integrity notice the handling ends: the only step left gives
/// no command but the end.
pub proof fn lemma_closing_only_finishes(
    flow: ComponentFlow,
    event: ComponentEvent,
    roles: Map<u64, i64>,
    next: ComponentFlow,
    command: ComponentCommand,
)
    requires
        flow.stage is Closing,
        component_step(flow, event, roles, next, command),
    ensures
        command is Finish,
        next.stage is Finished,
{
}

} // verus!
