use message_relay::component::{
    handle_unknown_component, literal_reply, token_of, ComponentCommand, ComponentEvent,
    ComponentFlow, ComponentStage,
};
use message_relay::engine::{ActionCommand, ActionEvent, InteractionError};
use message_relay::interaction::{
    ComponentData, InteractionMember, InteractionMessage, InteractionReply, ResponseKind,
};
use message_relay::payload::{ComponentKind, ComponentRow, MessageComponent, MessagePayload};
use message_relay::permissions::MANAGE_ROLES;
use message_relay::provenance::{ChannelMessageAuthorModel, ChannelMessageModel};
use message_relay::template::MessageVariables;
use std::collections::HashMap;

const BOT: u64 = 99;
const AFTER_TRACKING: i64 = 1_700_000_000;

fn body(token: &str) -> MessagePayload {
    MessagePayload {
        content: "Pick".to_string(),
        embeds: vec![],
        components: vec![ComponentRow {
            components: vec![MessageComponent {
                kind: ComponentKind::Button,
                label: "Go".to_string(),
                custom_id: token.to_string(),
                options: vec![],
                properties: vec![],
            }],
        }],
        attachments: vec![],
    }
}

fn message(token: &str, author_id: u64, timestamp: i64) -> InteractionMessage {
    InteractionMessage { id: 42, author_id, timestamp, edited_timestamp: None, body: body(token) }
}

fn button(token: &str) -> ComponentData {
    ComponentData { kind: ComponentKind::Button, custom_id: token.to_string(), values: vec![] }
}

fn menu(values: &[&str]) -> ComponentData {
    ComponentData {
        kind: ComponentKind::SelectMenu,
        custom_id: "menu".to_string(),
        values: values.iter().map(|v| v.to_string()).collect(),
    }
}

fn member() -> InteractionMember {
    InteractionMember { user_id: 30, user_name: "Alice".to_string(), guild_id: 1, role_ids: vec![6] }
}

fn roles() -> HashMap<u64, i64> {
    [(5u64, 3i64), (6, 8)].into_iter().collect()
}

fn record(token: &str, permissions: u64) -> ChannelMessageModel {
    ChannelMessageModel {
        channel_id: 2,
        message_id: 42,
        hash: body(token).integrity_hash(),
        created_at: 1,
        updated_at: 1,
        author: Some(ChannelMessageAuthorModel { id: 7, is_owner: false, permissions, role_ids: vec![6] }),
    }
}

fn notice(text: &str) -> ComponentCommand {
    ComponentCommand::Respond(InteractionReply {
        kind: ResponseKind::ChannelMessageWithSource,
        content: Some(text.to_string()),
        embeds: None,
        components: None,
        ephemeral: true,
    })
}

fn step(flow: ComponentFlow, event: ComponentEvent) -> (ComponentFlow, ComponentCommand) {
    assert!(flow.accepts(&event), "the flow does not expect {:?}", event);
    handle_unknown_component(flow, event, &roles())
}

fn begun(message: InteractionMessage, component: &ComponentData) -> ComponentFlow {
    let flow = ComponentFlow::new(BOT, message, component, Some(member()));
    let (flow, command) = step(flow, ComponentEvent::Begin);
    assert_eq!(command, ComponentCommand::FindRecord { message_id: 42 });
    flow
}

fn finished(step: (ComponentFlow, ComponentCommand), outcome: Result<(), InteractionError>) {
    assert_eq!(step.1, ComponentCommand::Finish(outcome));
    assert_eq!(step.0.stage, ComponentStage::Finished);
    assert!(!step.0.accepts(&ComponentEvent::Responded));
}

#[test]
fn token_comes_from_button_or_first_selected_value() {
    assert_eq!(token_of(&button("2:5")), Some("2:5".to_string()));
    assert_eq!(token_of(&menu(&["a", "b"])), Some("a".to_string()));
    assert_eq!(token_of(&menu(&[])), None);
    let other = ComponentData { kind: ComponentKind::Other, custom_id: "x".to_string(), values: vec!["y".to_string()] };
    assert_eq!(token_of(&other), None);
}

#[test]
fn literal_reply_expands_the_token() {
    let mut vars = MessageVariables::new();
    vars.insert("user", "Alice");
    assert_eq!(
        literal_reply("Hello <user>", &vars),
        InteractionReply {
            kind: ResponseKind::ChannelMessageWithSource,
            content: Some("Hello Alice".to_string()),
            embeds: None,
            components: None,
            ephemeral: true,
        }
    );
}

#[test]
fn token_without_actions_is_answered_as_text() {
    let flow = begun(message("Hello <user>", BOT, AFTER_TRACKING), &button("Hello <user>"));
    let (flow, command) = step(flow, ComponentEvent::Record(Some(record("Hello <user>", 0))));
    assert_eq!(command, notice("Hello Alice"));
    finished(step(flow, ComponentEvent::Responded), Ok(()));
}

#[test]
fn tampered_message_gets_the_notice_and_runs_nothing() {
    for token in ["2:5", "1:m:0;2:5", "Hello <user>", "0:"] {
        let mut stored = record(token, MANAGE_ROLES);
        stored.hash = body("2:6").integrity_hash();
        let flow = begun(message(token, BOT, AFTER_TRACKING), &button(token));
        let (flow, command) = step(flow, ComponentEvent::Record(Some(stored)));
        assert_eq!(command, notice("Message integrity could not be validated"));
        assert_eq!(flow.stage, ComponentStage::Closing);
        assert!(!flow.accepts(&ComponentEvent::Action(ActionEvent::Begin)));
        finished(step(flow, ComponentEvent::Responded), Ok(()));
    }
}

#[test]
fn edited_content_changes_the_digest() {
    let mut msg = message("2:5", BOT, AFTER_TRACKING);
    msg.body.content = "Pick!".to_string();
    let flow = begun(msg, &button("2:5"));
    let (_, command) = step(flow, ComponentEvent::Record(Some(record("2:5", MANAGE_ROLES))));
    assert_eq!(command, notice("Message integrity could not be validated"));
}

#[test]
fn message_of_a_stranger_without_record_fails_integrity() {
    let flow = begun(message("2:5", BOT + 1, 0), &button("2:5"));
    let (flow, command) = step(flow, ComponentEvent::Record(None));
    assert_eq!(command, notice("Message integrity could not be validated"));
    finished(step(flow, ComponentEvent::Responded), Ok(()));
}

#[test]
fn recorded_author_with_authority_toggles_the_role() {
    let flow = begun(message("2:5", BOT, AFTER_TRACKING), &button("2:5"));
    let (flow, command) = step(flow, ComponentEvent::Record(Some(record("2:5", MANAGE_ROLES))));
    assert_eq!(
        command,
        ComponentCommand::Action(ActionCommand::AddRole { guild_id: 1, user_id: 30, role_id: 5 })
    );
    let (flow, command) = step(flow, ComponentEvent::Action(ActionEvent::RoleChanged(true)));
    assert_eq!(
        command,
        ComponentCommand::Action(ActionCommand::Respond(InteractionReply {
            kind: ResponseKind::ChannelMessageWithSource,
            content: Some("You now have the <@&5> role".to_string()),
            embeds: None,
            components: None,
            ephemeral: true,
        }))
    );
    finished(step(flow, ComponentEvent::Action(ActionEvent::Responded)), Ok(()));
}

#[test]
fn recorded_author_without_authority_is_denied() {
    let flow = begun(message("2:5", BOT, AFTER_TRACKING), &button("2:5"));
    let (flow, command) = step(flow, ComponentEvent::Record(Some(record("2:5", 0))));
    assert_eq!(
        command,
        ComponentCommand::Action(ActionCommand::Respond(InteractionReply {
            kind: ResponseKind::ChannelMessageWithSource,
            content: Some(
                "The original author (<@7>) of this message doesn't have permissions to toggle this role."
                    .to_string()
            ),
            embeds: None,
            components: None,
            ephemeral: true,
        }))
    );
    finished(step(flow, ComponentEvent::Action(ActionEvent::Responded)), Ok(()));
}

#[test]
fn record_without_author_denies_everything() {
    let mut stored = record("2:5", MANAGE_ROLES);
    stored.author = None;
    let flow = begun(message("2:5", BOT, AFTER_TRACKING), &button("2:5"));
    let (_, command) = step(flow, ComponentEvent::Record(Some(stored)));
    match command {
        ComponentCommand::Action(ActionCommand::Respond(reply)) => {
            assert_eq!(reply.content, Some("This message can't perform any actions.".to_string()))
        }
        other => panic!("unexpected command {:?}", other),
    }
}

#[test]
fn old_bot_message_without_record_may_do_everything() {
    let flow = begun(message("2:6", BOT, 1659880799), &button("2:6"));
    let (_, command) = step(flow, ComponentEvent::Record(None));
    assert_eq!(
        command,
        ComponentCommand::Action(ActionCommand::RemoveRole { guild_id: 1, user_id: 30, role_id: 6 })
    );
}

#[test]
fn new_bot_message_without_record_may_do_nothing() {
    let flow = begun(message("2:6", BOT, 1659880800), &button("2:6"));
    let (_, command) = step(flow, ComponentEvent::Record(None));
    match command {
        ComponentCommand::Action(ActionCommand::Respond(reply)) => {
            assert_eq!(reply.content, Some("This message can't perform any actions.".to_string()))
        }
        other => panic!("unexpected command {:?}", other),
    }
}

#[test]
fn edit_time_decides_over_send_time() {
    let mut msg = message("2:6", BOT, 1659880799);
    msg.edited_timestamp = Some(1659880800);
    assert_eq!(msg.effective_timestamp(), 1659880800);
    let flow = begun(msg, &button("2:6"));
    let (_, command) = step(flow, ComponentEvent::Record(None));
    match command {
        ComponentCommand::Action(ActionCommand::Respond(reply)) => {
            assert_eq!(reply.content, Some("This message can't perform any actions.".to_string()))
        }
        other => panic!("unexpected command {:?}", other),
    }
}

#[test]
fn select_menu_is_put_back_after_the_reply() {
    let flow = begun(message("hi", BOT, AFTER_TRACKING), &menu(&["Hi <user.name>", "ignored"]));
    let (flow, command) = step(flow, ComponentEvent::Record(Some(record("hi", 0))));
    assert_eq!(command, notice("Hi Alice"));
    let (flow, command) = step(flow, ComponentEvent::Responded);
    assert_eq!(command, ComponentCommand::ResetMenu { message_id: 42 });
    finished(step(flow, ComponentEvent::MenuReset), Ok(()));
}

#[test]
fn select_menu_is_put_back_after_the_actions() {
    let flow = begun(message("hi", BOT, AFTER_TRACKING), &menu(&["0:"]));
    let (flow, command) = step(flow, ComponentEvent::Record(Some(record("hi", 0))));
    assert_eq!(command, ComponentCommand::ResetMenu { message_id: 42 });
    finished(step(flow, ComponentEvent::Failed(InteractionError::DiscordHttp)), Ok(()));
}

#[test]
fn select_menu_is_not_put_back_after_the_integrity_notice() {
    let flow = begun(message("hi", BOT + 1, AFTER_TRACKING), &menu(&["0:"]));
    let (flow, _) = step(flow, ComponentEvent::Record(None));
    finished(step(flow, ComponentEvent::Responded), Ok(()));
}

#[test]
fn component_without_token_ends_the_handling() {
    let flow = begun(message("hi", BOT, AFTER_TRACKING), &menu(&[]));
    finished(step(flow, ComponentEvent::Record(Some(record("hi", 0)))), Ok(()));
    let other = ComponentData { kind: ComponentKind::Other, custom_id: "2:5".to_string(), values: vec![] };
    let flow = begun(message("hi", BOT, AFTER_TRACKING), &other);
    finished(step(flow, ComponentEvent::Record(Some(record("hi", 0)))), Ok(()));
}

#[test]
fn component_without_token_still_fails_integrity_first() {
    let flow = begun(message("hi", BOT + 1, AFTER_TRACKING), &menu(&[]));
    let (_, command) = step(flow, ComponentEvent::Record(None));
    assert_eq!(command, notice("Message integrity could not be validated"));
}

#[test]
fn failures_end_the_handling_with_their_error() {
    let flow = begun(message("2:5", BOT, AFTER_TRACKING), &button("2:5"));
    finished(step(flow, ComponentEvent::Failed(InteractionError::Database)), Err(InteractionError::Database));

    let flow = begun(message("2:5", BOT, AFTER_TRACKING), &button("2:5"));
    let (flow, _) = step(flow, ComponentEvent::Record(Some(record("2:5", MANAGE_ROLES))));
    finished(
        step(flow, ComponentEvent::Action(ActionEvent::Failed(InteractionError::DiscordHttp))),
        Err(InteractionError::DiscordHttp),
    );

    let flow = begun(message("x", BOT, AFTER_TRACKING), &button("x"));
    let (flow, _) = step(flow, ComponentEvent::Record(Some(record("x", 0))));
    finished(step(flow, ComponentEvent::Failed(InteractionError::DiscordHttp)), Err(InteractionError::DiscordHttp));
}

fn begun_without_member(message: InteractionMessage, token: &str) -> ComponentFlow {
    let flow = ComponentFlow::new(BOT, message, &button(token), None);
    step(flow, ComponentEvent::Begin).0
}

#[test]
fn toggle_without_member_still_gets_the_integrity_notice() {
    let flow = begun_without_member(message("2:5", BOT + 1, AFTER_TRACKING), "2:5");
    let (flow, command) = step(flow, ComponentEvent::Record(None));
    assert_eq!(command, notice("Message integrity could not be validated"));
    finished(step(flow, ComponentEvent::Responded), Ok(()));
}

#[test]
fn toggle_without_member_still_gets_its_denial() {
    let flow = begun_without_member(message("2:5", BOT, AFTER_TRACKING), "2:5");
    let (flow, command) = step(flow, ComponentEvent::Record(None));
    match command {
        ComponentCommand::Action(ActionCommand::Respond(reply)) => {
            assert_eq!(reply.content, Some("This message can't perform any actions.".to_string()))
        }
        other => panic!("unexpected command {:?}", other),
    }
    finished(step(flow, ComponentEvent::Action(ActionEvent::Responded)), Ok(()));

    let flow = begun_without_member(message("2:5", BOT, AFTER_TRACKING), "2:5");
    let (_, command) = step(flow, ComponentEvent::Record(Some(record("2:5", 0))));
    match command {
        ComponentCommand::Action(ActionCommand::Respond(reply)) => assert_eq!(
            reply.content,
            Some(
                "The original author (<@7>) of this message doesn't have permissions to toggle this role."
                    .to_string()
            )
        ),
        other => panic!("unexpected command {:?}", other),
    }
}

#[test]
fn granted_toggle_without_member_ends_the_handling_with_an_error() {
    let flow = begun_without_member(message("2:5", BOT, AFTER_TRACKING), "2:5");
    finished(
        step(flow, ComponentEvent::Record(Some(record("2:5", MANAGE_ROLES)))),
        Err(InteractionError::NoOp),
    );
}

#[test]
fn token_without_member_is_expanded_against_nothing() {
    let flow = begun_without_member(message("Hi <user>", BOT, AFTER_TRACKING), "Hi <user>");
    let (_, command) = step(flow, ComponentEvent::Record(Some(record("Hi <user>", 0))));
    assert_eq!(command, notice("Hi <user>"));
}
