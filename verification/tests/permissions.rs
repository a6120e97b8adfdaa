use message_relay::actions::MessageAction;
use message_relay::permissions::{
    can_manage_roles, can_manage_webhooks, ActionCheck, ActionPermissionsContext,
    DerivedActionPermissionsContext, MANAGE_ROLES, MANAGE_WEBHOOKS,
};
use message_relay::provenance::ChannelMessageAuthorModel;
use std::collections::HashMap;

fn roles(pairs: &[(u64, i64)]) -> HashMap<u64, i64> {
    pairs.iter().copied().collect()
}

fn derived(permissions: u64, highest: i64) -> ActionPermissionsContext {
    ActionPermissionsContext::Derived(DerivedActionPermissionsContext {
        user_id: 7,
        permissions,
        highest_role_position: highest,
    })
}

fn toggle(role_id: u64) -> MessageAction {
    MessageAction::RoleToggle { role_id }
}

const AUTHOR_DENIAL: &str =
    "The original author (<@7>) of this message doesn't have permissions to toggle this role.";

#[test]
fn permission_bits_are_the_platform_bits() {
    assert_eq!(MANAGE_ROLES, 1 << 28);
    assert_eq!(MANAGE_WEBHOOKS, 1 << 29);
    assert!(can_manage_roles(1 << 28));
    assert!(can_manage_roles(u64::MAX));
    assert!(!can_manage_roles(1 << 29));
    assert!(!can_manage_roles(0));
    assert!(can_manage_webhooks(1 << 29));
    assert!(can_manage_webhooks((1 << 29) | 8));
    assert!(!can_manage_webhooks(1 << 28));
    assert!(!can_manage_webhooks(0));
}

#[test]
fn context_takes_the_highest_known_role() {
    let author = ChannelMessageAuthorModel {
        id: 7,
        is_owner: false,
        permissions: 12,
        role_ids: vec![1, 2, 3, 4],
    };
    let ctx = ActionPermissionsContext::from_author(&author, &roles(&[(1, 5), (3, 9), (4, 2), (8, 50)]));
    assert_eq!(
        ctx,
        ActionPermissionsContext::Derived(DerivedActionPermissionsContext {
            user_id: 7,
            permissions: 12,
            highest_role_position: 9,
        })
    );
}

#[test]
fn context_without_known_roles_has_position_zero() {
    let author = ChannelMessageAuthorModel {
        id: 7,
        is_owner: false,
        permissions: 0,
        role_ids: vec![1, 2],
    };
    assert_eq!(ActionPermissionsContext::from_author(&author, &roles(&[(3, 9)])), derived(0, 0));
    let nobody = ChannelMessageAuthorModel { id: 7, is_owner: false, permissions: 0, role_ids: vec![] };
    assert_eq!(ActionPermissionsContext::from_author(&nobody, &roles(&[(3, 9)])), derived(0, 0));
}

#[test]
fn context_keeps_a_negative_highest_position() {
    let author = ChannelMessageAuthorModel {
        id: 7,
        is_owner: false,
        permissions: 0,
        role_ids: vec![1, 2],
    };
    assert_eq!(
        ActionPermissionsContext::from_author(&author, &roles(&[(1, -5), (2, -3)])),
        derived(0, -3)
    );
}

#[test]
fn allow_grants_everything() {
    let ctx = ActionPermissionsContext::Allow;
    let none = roles(&[]);
    assert_eq!(ctx.check_action(&toggle(5), &none), ActionCheck::Granted);
    assert_eq!(ctx.check_action(&MessageAction::Unknown, &none), ActionCheck::Granted);
    assert_eq!(
        ctx.check_action(
            &MessageAction::ResponseSavedMessage { message_id: "m".to_string(), flags: 0 },
            &none
        ),
        ActionCheck::Granted
    );
}

#[test]
fn deny_denies_everything() {
    let ctx = ActionPermissionsContext::Deny;
    let known = roles(&[(5, 1)]);
    let denial = ActionCheck::Denied("This message can't perform any actions.".to_string());
    assert_eq!(ctx.check_action(&toggle(5), &known), denial);
    assert_eq!(ctx.check_action(&MessageAction::Unknown, &known), denial);
    assert_eq!(
        ctx.check_action(
            &MessageAction::ResponseSavedMessage { message_id: "m".to_string(), flags: 0 },
            &known
        ),
        denial
    );
}

#[test]
fn role_toggle_without_authority_is_denied_at_any_position() {
    let known = roles(&[(5, 1), (6, 100), (7, -4)]);
    for role in [5u64, 6, 7] {
        for highest in [-10i64, 0, 1, 100, i64::MAX] {
            let ctx = derived(!MANAGE_ROLES, highest);
            assert_eq!(
                ctx.check_action(&toggle(role), &known),
                ActionCheck::Denied(AUTHOR_DENIAL.to_string())
            );
        }
    }
}

#[test]
fn role_toggle_above_the_authors_roles_is_denied() {
    let known = roles(&[(5, 10)]);
    let ctx = derived(MANAGE_ROLES, 9);
    assert_eq!(ctx.check_action(&toggle(5), &known), ActionCheck::Denied(AUTHOR_DENIAL.to_string()));
}

#[test]
fn role_toggle_at_or_below_the_authors_roles_is_granted() {
    let known = roles(&[(5, 10), (6, 3)]);
    let ctx = derived(MANAGE_ROLES | 8, 10);
    assert_eq!(ctx.check_action(&toggle(5), &known), ActionCheck::Granted);
    assert_eq!(ctx.check_action(&toggle(6), &known), ActionCheck::Granted);
}

#[test]
fn role_toggle_of_unknown_role_is_denied() {
    let ctx = derived(MANAGE_ROLES, 10);
    assert_eq!(
        ctx.check_action(&toggle(5), &roles(&[(6, 1)])),
        ActionCheck::Denied("Role to toggle doesn't exist.".to_string())
    );
    let weak = derived(0, 10);
    assert_eq!(
        weak.check_action(&toggle(5), &roles(&[(6, 1)])),
        ActionCheck::Denied("Role to toggle doesn't exist.".to_string())
    );
}

#[test]
fn denial_names_the_author_in_decimal() {
    let ctx = ActionPermissionsContext::Derived(DerivedActionPermissionsContext {
        user_id: 123456789012345678,
        permissions: 0,
        highest_role_position: 0,
    });
    assert_eq!(
        ctx.check_action(&toggle(5), &roles(&[(5, 0)])),
        ActionCheck::Denied(
            "The original author (<@123456789012345678>) of this message doesn't have permissions to toggle this role."
                .to_string()
        )
    );
}

#[test]
fn saved_message_waits_for_its_owner() {
    let ctx = derived(0, 0);
    assert_eq!(
        ctx.check_action(
            &MessageAction::ResponseSavedMessage { message_id: "m1".to_string(), flags: 1 },
            &roles(&[])
        ),
        ActionCheck::AwaitsSavedMessage { owner_id: 7, message_id: "m1".to_string() }
    );
    assert_eq!(ActionPermissionsContext::check_saved_message(true), Ok(()));
    assert_eq!(
        ActionPermissionsContext::check_saved_message(false),
        Err("The response message doesn't exist.".to_string())
    );
}

#[test]
fn unknown_action_is_granted_under_a_derived_context() {
    assert_eq!(derived(0, 0).check_action(&MessageAction::Unknown, &roles(&[])), ActionCheck::Granted);
}
