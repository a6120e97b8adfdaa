use message_relay::help::{
    command_definition, command_definitions, handle_command, with_help, CommandDefinition,
    CommandType, HELP_POSITION, OTHER_COMMANDS,
};
use message_relay::interaction::{
    authorization_context, handle_interaction, legacy_fallback, simple_response,
    AutocompleteHandler, CommandHandler, ComponentData, IntegrityFailure,
    InteractionData, InteractionKind, InteractionMember, InteractionMessage, InteractionReply,
    InteractionRoute, ResponseKind, INTEGRITY_TRACKING_EPOCH, PERMISSION_TRACKING_EPOCH,
};
use message_relay::payload::{ComponentKind, MessagePayload};
use message_relay::permissions::{ActionPermissionsContext, DerivedActionPermissionsContext};
use message_relay::provenance::{ChannelMessageAuthorModel, ChannelMessageModel};
use message_relay::template::MessageVariables;
use std::collections::HashMap;

fn command(name: &str) -> Option<InteractionData> {
    Some(InteractionData::ApplicationCommand { name: name.to_string() })
}

#[test]
fn commands_go_to_their_handlers() {
    let cases = [
        ("format", CommandHandler::Format),
        ("help", CommandHandler::Help),
        ("invite", CommandHandler::Invite),
        ("website", CommandHandler::Website),
        ("message", CommandHandler::Message),
        ("webhook", CommandHandler::Webhook),
        ("image", CommandHandler::Image),
        ("embed", CommandHandler::Embed),
        ("Restore Message", CommandHandler::RestoreMessage),
        ("Dump Message", CommandHandler::DumpMessage),
    ];
    for (name, handler) in cases {
        assert_eq!(
            handle_interaction(InteractionKind::ApplicationCommand, &command(name)),
            InteractionRoute::Command(handler)
        );
    }
    assert_eq!(
        handle_interaction(InteractionKind::ApplicationCommand, &command("Help")),
        InteractionRoute::Nothing
    );
    assert_eq!(
        handle_interaction(InteractionKind::ApplicationCommand, &command("")),
        InteractionRoute::Nothing
    );
}

#[test]
fn autocomplete_goes_to_format_and_image_only() {
    assert_eq!(
        handle_interaction(InteractionKind::ApplicationCommandAutocomplete, &command("format")),
        InteractionRoute::Autocomplete(AutocompleteHandler::Format)
    );
    assert_eq!(
        handle_interaction(InteractionKind::ApplicationCommandAutocomplete, &command("image")),
        InteractionRoute::Autocomplete(AutocompleteHandler::Image)
    );
    assert_eq!(
        handle_interaction(InteractionKind::ApplicationCommandAutocomplete, &command("help")),
        InteractionRoute::Nothing
    );
}

#[test]
fn command_data_of_another_kind_goes_nowhere() {
    for kind in [InteractionKind::MessageComponent, InteractionKind::ModalSubmit, InteractionKind::Other] {
        assert_eq!(handle_interaction(kind, &command("help")), InteractionRoute::Nothing);
    }
}

#[test]
fn components_and_modals_are_routed_by_their_data() {
    let component = Some(InteractionData::MessageComponent(ComponentData {
        kind: ComponentKind::Button,
        custom_id: "anything".to_string(),
        values: vec![],
    }));
    for kind in [InteractionKind::MessageComponent, InteractionKind::ApplicationCommand, InteractionKind::Other] {
        assert_eq!(handle_interaction(kind, &component), InteractionRoute::Component);
    }
    let modal = |id: &str| Some(InteractionData::ModalSubmit { custom_id: id.to_string() });
    assert_eq!(handle_interaction(InteractionKind::ModalSubmit, &modal("embed")), InteractionRoute::EmbedModal);
    assert_eq!(handle_interaction(InteractionKind::ModalSubmit, &modal("other")), InteractionRoute::Nothing);
    assert_eq!(handle_interaction(InteractionKind::ModalSubmit, &None), InteractionRoute::Nothing);
    assert_eq!(
        handle_interaction(InteractionKind::Other, &Some(InteractionData::Other)),
        InteractionRoute::Nothing
    );
}

#[test]
fn simple_response_is_an_ephemeral_message() {
    assert_eq!(
        simple_response("hello".to_string()),
        InteractionReply {
            kind: ResponseKind::ChannelMessageWithSource,
            content: Some("hello".to_string()),
            embeds: None,
            components: None,
            ephemeral: true,
        }
    );
}

#[test]
fn help_command_is_defined_and_answers_with_the_invite() {
    assert_eq!(
        command_definition(),
        CommandDefinition {
            name: "help".to_string(),
            description: "Join our Discord Server to get support".to_string(),
            kind: CommandType::ChatInput,
        }
    );
    assert_eq!(
        handle_command("https://discord.gg/abc").content,
        Some("You can join our Discord Server with the following link: https://discord.gg/abc".to_string())
    );
    assert!(handle_command("").ephemeral);
}

fn other_commands() -> Vec<CommandDefinition> {
    let names = [
        "format",
        "invite",
        "website",
        "message",
        "webhook",
        "Restore Message",
        "Dump Message",
        "image",
        "embed",
    ];
    names
        .iter()
        .map(|name| CommandDefinition {
            name: name.to_string(),
            description: format!("about {}", name),
            kind: if name.contains(' ') { CommandType::Message } else { CommandType::ChatInput },
        })
        .collect()
}

#[test]
fn help_stands_third_among_the_ten_commands() {
    assert_eq!(OTHER_COMMANDS, 9);
    assert_eq!(HELP_POSITION, 2);
    let commands = command_definitions(other_commands());
    let names: Vec<&str> = commands.iter().map(|c| c.name.as_str()).collect();
    assert_eq!(
        names,
        vec![
            "format",
            "invite",
            "help",
            "website",
            "message",
            "webhook",
            "Restore Message",
            "Dump Message",
            "image",
            "embed",
        ]
    );
    assert_eq!(commands[2], command_definition());
    let others = other_commands();
    assert_eq!(commands[0], others[0]);
    assert_eq!(commands[1], others[1]);
    for i in 3..10 {
        assert_eq!(commands[i], others[i - 1]);
    }
    assert_eq!(command_definitions(other_commands()), commands);
}

#[test]
fn help_is_placed_among_values_of_any_type() {
    assert_eq!(
        with_help(0u8, vec![1, 2, 3, 4, 5, 6, 7, 8, 9]),
        vec![1, 2, 0, 3, 4, 5, 6, 7, 8, 9]
    );
}

#[test]
fn member_gives_its_variables() {
    let member = InteractionMember { user_id: 30, user_name: "Alice".to_string(), guild_id: 1, role_ids: vec![] };
    let mut vars = MessageVariables::new();
    vars.insert("user", "Nobody");
    member.to_message_variables(&mut vars);
    assert_eq!(vars.get("user").map(|s| s.as_str()), Some("Alice"));
    assert_eq!(vars.get("user.id").map(|s| s.as_str()), Some("30"));
    assert_eq!(vars.get("user.name").map(|s| s.as_str()), Some("Alice"));
    assert_eq!(vars.get("user.mention").map(|s| s.as_str()), Some("<@30>"));
}

#[test]
fn legacy_thresholds_are_exact() {
    assert_eq!(PERMISSION_TRACKING_EPOCH, 0);
    assert_eq!(INTEGRITY_TRACKING_EPOCH, 1659880800);
    assert_eq!(legacy_fallback(true, -1), Some(ActionPermissionsContext::Allow));
    assert_eq!(legacy_fallback(true, 0), None);
    assert_eq!(legacy_fallback(true, i64::MAX), None);
    assert_eq!(legacy_fallback(false, 1659880799), Some(ActionPermissionsContext::Allow));
    assert_eq!(legacy_fallback(false, 1659880800), Some(ActionPermissionsContext::Deny));
    assert_eq!(legacy_fallback(false, i64::MIN), Some(ActionPermissionsContext::Allow));
}

fn message(author_id: u64, timestamp: i64) -> InteractionMessage {
    InteractionMessage {
        id: 42,
        author_id,
        timestamp,
        edited_timestamp: None,
        body: MessagePayload { content: "c".to_string(), embeds: vec![], components: vec![], attachments: vec![] },
    }
}

fn record(hash: String, author: Option<ChannelMessageAuthorModel>) -> Option<ChannelMessageModel> {
    Some(ChannelMessageModel { channel_id: 2, message_id: 42, hash, created_at: 1, updated_at: 1, author })
}

#[test]
fn context_is_derived_from_the_recorded_author() {
    let msg = message(500, 10);
    let roles: HashMap<u64, i64> = [(3u64, 4i64), (9, 2)].into_iter().collect();
    let author = ChannelMessageAuthorModel { id: 7, is_owner: true, permissions: 5, role_ids: vec![9, 3, 1] };
    assert_eq!(
        authorization_context(&record(msg.body.integrity_hash(), Some(author)), &msg, 99, &roles),
        Ok(ActionPermissionsContext::Derived(DerivedActionPermissionsContext {
            user_id: 7,
            permissions: 5,
            highest_role_position: 4,
        }))
    );
}

#[test]
fn record_from_before_permission_tracking_allows() {
    let msg = message(500, -1);
    let roles = HashMap::new();
    assert_eq!(
        authorization_context(&record(msg.body.integrity_hash(), None), &msg, 99, &roles),
        Ok(ActionPermissionsContext::Allow)
    );
}

#[test]
fn mismatch_fails_even_before_permission_tracking() {
    let msg = message(99, -1);
    let roles = HashMap::new();
    assert_eq!(
        authorization_context(&record("other".to_string(), None), &msg, 99, &roles),
        Err(IntegrityFailure)
    );
}

#[test]
fn missing_record_needs_the_bot_as_author() {
    let roles = HashMap::new();
    assert_eq!(authorization_context(&None, &message(98, 0), 99, &roles), Err(IntegrityFailure));
    assert_eq!(
        authorization_context(&None, &message(99, 0), 99, &roles),
        Ok(ActionPermissionsContext::Allow)
    );
    assert_eq!(
        authorization_context(&None, &message(99, 1659880800), 99, &roles),
        Ok(ActionPermissionsContext::Deny)
    );
}
