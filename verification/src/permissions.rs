//! Permission bit sets, and the authorization context under which the
//! actions of a message run.

use std::collections::HashMap;
use vstd::prelude::*;
use crate::actions::{ActionView, MessageAction};
use crate::provenance::ChannelMessageAuthorModel;
use crate::text::{decimal, push_decimal};

verus! {

broadcast use vstd::std_specs::hash::group_hash_axioms;

/// The permission bit that lets a member manage roles.
pub const MANAGE_ROLES: u64 = 0x1000_0000;

/// The permission bit that lets a member manage webhooks.
pub const MANAGE_WEBHOOKS: u64 = 0x2000_0000;

/// The bits of the role-management permission.
///
/// Trusted: reads `twilight_model::guild::Permissions::MANAGE_ROLES`, which
/// that crate declares as `1 << 28`.
#[verifier::external_body]
fn manage_roles_bits() -> (bits: u64)
    ensures
        bits == MANAGE_ROLES,
{
    twilight_model::guild::Permissions::MANAGE_ROLES.bits()
}

/// The bits of the webhook-management permission.
///
/// Trusted: reads `twilight_model::guild::Permissions::MANAGE_WEBHOOKS`,
/// which that crate declares as `1 << 29`.
#[verifier::external_body]
fn manage_webhooks_bits() -> (bits: u64)
    ensures
        bits == MANAGE_WEBHOOKS,
{
    twilight_model::guild::Permissions::MANAGE_WEBHOOKS.bits()
}

/// Whether the bit set `permissions` holds every bit of `required`.
pub open spec fn permits(permissions: u64, required: u64) -> bool {
    permissions & required == required
}

/// Whether `permissions` includes the authority to manage roles.
pub fn can_manage_roles(permissions: u64) -> (allowed: bool)
    ensures
        allowed == permits(permissions, MANAGE_ROLES),
{
    let required = manage_roles_bits();
    permissions & required == required
}

/// Whether `permissions` includes the authority to manage webhooks.
pub fn can_manage_webhooks(permissions: u64) -> (allowed: bool)
    ensures
        allowed == permits(permissions, MANAGE_WEBHOOKS),
{
    let required = manage_webhooks_bits();
    permissions & required == required
}

/// The authority of a message's author, as far as actions need it.
#[derive(Debug, Clone, Copy, PartialEq, Eq)]
pub struct DerivedActionPermissionsContext {
    pub user_id: u64,
    pub permissions: u64,
    pub highest_role_position: i64,
}

/// Under what authority the actions of a message run.
#[derive(Debug, Clone, Copy, PartialEq, Eq)]
pub enum ActionPermissionsContext {
    Allow,
    Deny,
    Derived(DerivedActionPermissionsContext),
}

/// The highest position among those of `role_ids` that `roles` knows, if it
/// knows any.
pub open spec fn highest_known_position(role_ids: Seq<u64>, roles: Map<u64, i64>) -> Option<i64>
    decreases role_ids.len(),
{
    if role_ids.len() == 0 {
        None
    } else {
        let rest = highest_known_position(role_ids.drop_last(), roles);
        let last = role_ids.last();
        if !roles.contains_key(last) {
            rest
        } else if rest is Some && rest->0 >= roles[last] {
            rest
        } else {
            Some(roles[last])
        }
    }
}

/// The highest position among those of `role_ids` that `roles` knows, or 0
/// if it knows none of them.
pub open spec fn highest_role_position(role_ids: Seq<u64>, roles: Map<u64, i64>) -> i64 {
    match highest_known_position(role_ids, roles) {
        Some(position) => position,
        None => 0,
    }
}

/// `highest_known_position` is the maximum that its name promises: it is
/// `None` exactly when no role resolves; otherwise it is the position of a
/// role that resolves, and no role that resolves lies above it.
pub proof fn lemma_highest_known_position(role_ids: Seq<u64>, roles: Map<u64, i64>)
    ensures
        highest_known_position(role_ids, roles) is None <==> forall|i: int|
            0 <= i < role_ids.len() ==> !roles.contains_key(#[trigger] role_ids[i]),
        highest_known_position(role_ids, roles) matches Some(top) ==> {
            &&& exists|i: int|
                0 <= i < role_ids.len() && roles.contains_key(#[trigger] role_ids[i])
                    && roles[role_ids[i]] == top
            &&& forall|i: int|
                0 <= i < role_ids.len() && roles.contains_key(#[trigger] role_ids[i])
                    ==> roles[role_ids[i]] <= top
        },
    decreases role_ids.len(),
{
    if role_ids.len() > 0 {
        let front = role_ids.drop_last();
        lemma_highest_known_position(front, roles);
        assert(forall|i: int| 0 <= i < front.len() ==> front[i] == role_ids[i]);
        let last = role_ids.len() - 1;
        let rest = highest_known_position(front, roles);
        match highest_known_position(role_ids, roles) {
            Some(top) => {
                if roles.contains_key(role_ids[last]) && !(rest is Some && rest->0
                    >= roles[role_ids[last]]) {
                    assert(roles[role_ids[last]] == top);
                } else {
                    let w = choose|i: int|
                        0 <= i < front.len() && roles.contains_key(#[trigger] front[i])
                            && roles[front[i]] == top;
                    assert(roles.contains_key(role_ids[w]) && roles[role_ids[w]] == top);
                }
            },
            None => {},
        }
    }
}

impl ActionPermissionsContext {
    /// The context of an author snapshot: the author's id and permissions,
    /// and the highest position that `roles` gives for one of the author's
    /// roles (0 if it knows none of them).
    pub fn from_author(author: &ChannelMessageAuthorModel, roles: &HashMap<u64, i64>) -> (ctx:
        ActionPermissionsContext)
        ensures
            ctx == ActionPermissionsContext::Derived(
                DerivedActionPermissionsContext {
                    user_id: author.id,
                    permissions: author.permissions,
                    highest_role_position: highest_role_position(author.role_ids@, roles@),
                },
            ),
    {
        let mut highest: Option<i64> = None;
        let mut i: usize = 0;
        while i < author.role_ids.len()
            invariant
                i <= author.role_ids.len(),
                highest == highest_known_position(author.role_ids@.take(i as int), roles@),
            decreases author.role_ids.len() - i,
        {
            proof {
                let upto = author.role_ids@.take(i + 1);
                assert(upto.drop_last() == author.role_ids@.take(i as int));
                assert(upto.last() == author.role_ids@[i as int]);
            }
            match roles.get(&author.role_ids[i]) {
                Some(position) => {
                    let keep = match highest {
                        Some(top) => top >= *position,
                        None => false,
                    };
                    if !keep {
                        highest = Some(*position);
                    }
                },
                None => {},
            }
            i += 1;
        }
        assert(author.role_ids@.take(i as int) == author.role_ids@);
        let highest_role_position = match highest {
            Some(top) => top,
            None => 0,
        };
        ActionPermissionsContext::Derived(
            DerivedActionPermissionsContext {
                user_id: author.id,
                permissions: author.permissions,
                highest_role_position,
            },
        )
    }
}

/// What the check of one action gives.
#[derive(Debug, PartialEq, Eq)]
pub enum ActionCheck {
    /// The action may run.
    Granted,
    /// The action may not run; the text says why.
    Denied(String),
    /// The action may run if `owner_id` owns a saved message `message_id`.
    AwaitsSavedMessage { owner_id: u64, message_id: String },
}

/// What the check of one action holds.
pub ghost enum ActionCheckView {
    Granted,
    Denied(Seq<char>),
    AwaitsSavedMessage { owner_id: u64, message_id: Seq<char> },
}

impl View for ActionCheck {
    type V = ActionCheckView;

    open spec fn view(&self) -> ActionCheckView {
        match self {
            ActionCheck::Granted => ActionCheckView::Granted,
            ActionCheck::Denied(text) => ActionCheckView::Denied(text@),
            ActionCheck::AwaitsSavedMessage { owner_id, message_id } => {
                ActionCheckView::AwaitsSavedMessage {
                    owner_id: *owner_id,
                    message_id: message_id@,
                }
            },
        }
    }
}

/// The denial of every action of a message that may perform none.
pub open spec fn no_actions_denial() -> Seq<char> {
    "This message can't perform any actions."@
}

/// The denial of a saved message that its supposed owner does not own.
pub open spec fn missing_response_denial() -> Seq<char> {
    "The response message doesn't exist."@
}

/// The denial of a toggle of a role that is not known.
pub open spec fn missing_role_denial() -> Seq<char> {
    "Role to toggle doesn't exist."@
}

/// The denial of a toggle of a role that the author `user_id` may not
/// manage.
pub open spec fn role_toggle_denial(user_id: u64) -> Seq<char> {
    "The original author (<@"@ + decimal(user_id as nat)
        + ">) of this message doesn't have permissions to toggle this role."@
}

/// What the check of `action` under `ctx` gives, with the role positions
/// `roles`.
pub open spec fn action_check(
    ctx: ActionPermissionsContext,
    action: ActionView,
    roles: Map<u64, i64>,
) -> ActionCheckView {
    match ctx {
        ActionPermissionsContext::Allow => ActionCheckView::Granted,
        ActionPermissionsContext::Deny => ActionCheckView::Denied(no_actions_denial()),
        ActionPermissionsContext::Derived(author) => match action {
            ActionView::Unknown => ActionCheckView::Granted,
            ActionView::ResponseSavedMessage { message_id, flags } => {
                ActionCheckView::AwaitsSavedMessage { owner_id: author.user_id, message_id }
            },
            ActionView::RoleToggle { role_id } => {
                if !roles.contains_key(role_id) {
                    ActionCheckView::Denied(missing_role_denial())
                } else if !permits(author.permissions, MANAGE_ROLES) || roles[role_id]
                    > author.highest_role_position {
                    ActionCheckView::Denied(role_toggle_denial(author.user_id))
                } else {
                    ActionCheckView::Granted
                }
            },
        },
    }
}

impl ActionPermissionsContext {
    /// Checks whether `action` may run under this context. The one thing it
    /// leaves open is whether a saved message exists: then it says whose it
    /// has to be.
    pub fn check_action(&self, action: &MessageAction, roles: &HashMap<u64, i64>) -> (check:
        ActionCheck)
        ensures
            check@ == action_check(*self, action@, roles@),
    {
        let author = match self {
            ActionPermissionsContext::Derived(author) => author,
            ActionPermissionsContext::Allow => {
                return ActionCheck::Granted;
            },
            ActionPermissionsContext::Deny => {
                return ActionCheck::Denied(
                    String::from_str("This message can't perform any actions."),
                );
            },
        };
        match action {
            MessageAction::ResponseSavedMessage { message_id, .. } => {
                ActionCheck::AwaitsSavedMessage {
                    owner_id: author.user_id,
                    message_id: message_id.clone(),
                }
            },
            MessageAction::RoleToggle { role_id } => match roles.get(role_id) {
                Some(position) => {
                    if !can_manage_roles(author.permissions) || *position
                        > author.highest_role_position {
                        let mut text = String::from_str("The original author (<@");
                        push_decimal(&mut text, author.user_id);
                        text.append(
                            ">) of this message doesn't have permissions to toggle this role.",
                        );
                        ActionCheck::Denied(text)
                    } else {
                        ActionCheck::Granted
                    }
                },
                None => ActionCheck::Denied(String::from_str("Role to toggle doesn't exist.")),
            },
            MessageAction::Unknown => ActionCheck::Granted,
        }
    }

    /// Settles a check that was waiting to learn whether the saved message
    /// exists.
    pub fn check_saved_message(exists: bool) -> (outcome: Result<(), String>)
        ensures
            exists <==> outcome is Ok,
            outcome matches Err(text) ==> text@ == missing_response_denial(),
    {
        if exists {
            Ok(())
        } else {
            Err(String::from_str("The response message doesn't exist."))
        }
    }
}

/// A role toggle under a derived context is denied whenever the author lacks
/// the authority to manage roles, whatever the positions are; it is denied
/// whenever the role lies above the author's highest role; and it is granted
/// when the role is known, the author has the authority and the role lies at
/// or below the author's highest role.
pub proof fn lemma_role_toggle_authorization(
    author: DerivedActionPermissionsContext,
    role_id: u64,
    roles: Map<u64, i64>,
)
    ensures
        !permits(author.permissions, MANAGE_ROLES) ==> action_check(
            ActionPermissionsContext::Derived(author),
            ActionView::RoleToggle { role_id },
            roles,
        ) is Denied,
        roles.contains_key(role_id) && roles[role_id] > author.highest_role_position
            ==> action_check(
            ActionPermissionsContext::Derived(author),
            ActionView::RoleToggle { role_id },
            roles,
        ) is Denied,
        roles.contains_key(role_id) && permits(author.permissions, MANAGE_ROLES) && roles[role_id]
            <= author.highest_role_position ==> action_check(
            ActionPermissionsContext::Derived(author),
            ActionView::RoleToggle { role_id },
            roles,
        ) is Granted,
{
}

} // verus!
