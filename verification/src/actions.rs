//! Actions, and the tokens that interactive components carry for them.
//!
//! A token is a list of segments separated by `;`. A segment is a decimal
//! number that tells what to do, a `:` and the arguments:
//!
//! * `1:<id>:<flags>` shows the saved message `<id>`; `<flags>` is a decimal
//!   bit set in which bit 0 asks to edit the message in place;
//! * `2:<role>` toggles the role with the decimal id `<role>`;
//! * any other number, whatever follows the `:`, is an action that does
//!   nothing.
//!
//! A string in which any segment has another form is no token at all and
//! parses to no action.

use vstd::prelude::*;
use crate::text::{chars_of, find_char, first_index, push_range};

verus! {

/// The bit of the flags of a saved-message action that asks to edit the
/// message in place.
pub const RESPONSE_FLAG_EDIT: u64 = 1;

/// An action that an interactive component asks for.
#[derive(Debug, Clone, PartialEq, Eq)]
pub enum MessageAction {
    Unknown,
    ResponseSavedMessage { message_id: String, flags: u64 },
    RoleToggle { role_id: u64 },
}

/// What an action holds.
pub ghost enum ActionView {
    Unknown,
    ResponseSavedMessage { message_id: Seq<char>, flags: u64 },
    RoleToggle { role_id: u64 },
}

impl View for MessageAction {
    type V = ActionView;

    open spec fn view(&self) -> ActionView {
        match self {
            MessageAction::Unknown => ActionView::Unknown,
            MessageAction::ResponseSavedMessage { message_id, flags } => {
                ActionView::ResponseSavedMessage { message_id: message_id@, flags: *flags }
            },
            MessageAction::RoleToggle { role_id } => ActionView::RoleToggle { role_id: *role_id },
        }
    }
}

/// What a list of actions holds.
pub open spec fn action_views(actions: Seq<MessageAction>) -> Seq<ActionView> {
    actions.map_values(|a: MessageAction| a@)
}

/// Whether `flags` asks to edit the message in place.
pub open spec fn flags_request_edit(flags: u64) -> bool {
    flags & RESPONSE_FLAG_EDIT == RESPONSE_FLAG_EDIT
}

/// Whether `flags` asks to edit the message in place.
pub fn requests_edit(flags: u64) -> (edit: bool)
    ensures
        edit == flags_request_edit(flags),
{
    flags & RESPONSE_FLAG_EDIT == RESPONSE_FLAG_EDIT
}

/// Whether `c` is a decimal digit.
pub open spec fn is_digit(c: char) -> bool {
    '0' <= c && c <= '9'
}

/// The value of the decimal digit `c`.
pub open spec fn digit_value(c: char) -> nat {
    (c as u32 - '0' as u32) as nat
}

/// Whether `c` may stand in the id of a saved message.
pub open spec fn is_id_char(c: char) -> bool {
    ('0' <= c && c <= '9') || ('a' <= c && c <= 'z') || ('A' <= c && c <= 'Z') || c == '_' || c
        == '-'
}

/// Whether `text[from..to]` is a decimal numeral: one or more digits.
pub open spec fn is_numeral(text: Seq<char>, from: int, to: int) -> bool {
    from < to && forall|i: int| from <= i < to ==> is_digit(#[trigger] text[i])
}

/// The value of the numeral `text[from..to]`.
pub open spec fn numeral_value(text: Seq<char>, from: int, to: int) -> nat
    decreases to - from,
{
    if to <= from {
        0
    } else {
        numeral_value(text, from, to - 1) * 10 + digit_value(text[to - 1])
    }
}

/// Whether `text[from..to]` is the id of a saved message: one or more
/// letters, digits, `_` or `-`.
pub open spec fn is_identifier(text: Seq<char>, from: int, to: int) -> bool {
    from < to && forall|i: int| from <= i < to ==> is_id_char(#[trigger] text[i])
}

/// The action that `text[from..to]` denotes as the arguments of a
/// saved-message segment: an id, a `:` and the flags.
pub open spec fn parsed_saved_message(text: Seq<char>, from: int, to: int) -> Option<ActionView> {
    let colon = first_index(text, ':', from, to);
    if colon < to && is_identifier(text, from, colon) && is_numeral(text, colon + 1, to)
        && numeral_value(text, colon + 1, to) <= u64::MAX {
        Some(
            ActionView::ResponseSavedMessage {
                message_id: text.subrange(from, colon),
                flags: numeral_value(text, colon + 1, to) as u64,
            },
        )
    } else {
        None
    }
}

/// The action that `text[from..to]` denotes as the argument of a
/// role-toggle segment: the id of the role.
pub open spec fn parsed_role_toggle(text: Seq<char>, from: int, to: int) -> Option<ActionView> {
    if is_numeral(text, from, to) && numeral_value(text, from, to) <= u64::MAX {
        Some(ActionView::RoleToggle { role_id: numeral_value(text, from, to) as u64 })
    } else {
        None
    }
}

/// The action that the segment `text[from..to]` denotes, if it is one.
pub open spec fn parsed_segment(text: Seq<char>, from: int, to: int) -> Option<ActionView> {
    let colon = first_index(text, ':', from, to);
    if colon < to && is_numeral(text, from, colon) {
        let kind = numeral_value(text, from, colon);
        if kind == 1 {
            parsed_saved_message(text, colon + 1, to)
        } else if kind == 2 {
            parsed_role_toggle(text, colon + 1, to)
        } else {
            Some(ActionView::Unknown)
        }
    } else {
        None
    }
}

/// The actions that the segments of `text[pos..]` denote, if each of them is
/// an action.
pub open spec fn parsed_from(text: Seq<char>, pos: int) -> Option<Seq<ActionView>>
    decreases text.len() - pos,
{
    let end = first_index(text, ';', pos, text.len() as int);
    if pos < 0 || pos > text.len() || end < pos {
        None
    } else {
        match parsed_segment(text, pos, end) {
            None => None,
            Some(action) => if end >= text.len() {
                Some(seq![action])
            } else {
                match parsed_from(text, end + 1) {
                    None => None,
                    Some(rest) => Some(seq![action] + rest),
                }
            },
        }
    }
}

/// The actions of a token, in order; none if the string is no token.
pub open spec fn parsed_actions(token: Seq<char>) -> Seq<ActionView> {
    match parsed_from(token, 0) {
        Some(actions) => actions,
        None => Seq::empty(),
    }
}

/// What reading a numeral gives.
enum Numeral {
    Invalid,
    TooLarge,
    Value(u64),
}

/// Reads the numeral `text[from..to]`.
fn read_numeral(text: &Vec<char>, from: usize, to: usize) -> (r: Numeral)
    requires
        from <= to <= text.len(),
    ensures
        r is Invalid <==> !is_numeral(text@, from as int, to as int),
        r is TooLarge ==> numeral_value(text@, from as int, to as int) > u64::MAX,
        r matches Numeral::Value(v) ==> numeral_value(text@, from as int, to as int) == v,
{
    if from == to {
        return Numeral::Invalid;
    }
    let mut value: u64 = 0;
    let mut too_large = false;
    let mut i: usize = from;
    while i < to
        invariant
            from <= i <= to <= text.len(),
            forall|k: int| from <= k < i ==> is_digit(#[trigger] text@[k]),
            !too_large ==> numeral_value(text@, from as int, i as int) == value,
            too_large ==> numeral_value(text@, from as int, i as int) > u64::MAX,
        decreases to - i,
    {
        let c = text[i];
        if !('0' <= c && c <= '9') {
            return Numeral::Invalid;
        }
        let d: u64 = (c as u32 - '0' as u32) as u64;
        if !too_large {
            if value > (u64::MAX - d) / 10 {
                too_large = true;
            } else {
                value = value * 10 + d;
            }
        }
        i += 1;
    }
    if too_large {
        Numeral::TooLarge
    } else {
        Numeral::Value(value)
    }
}

/// Checks that `text[from..to]` is the id of a saved message.
fn check_identifier(text: &Vec<char>, from: usize, to: usize) -> (ok: bool)
    requires
        from <= to <= text.len(),
    ensures
        ok == is_identifier(text@, from as int, to as int),
{
    if from == to {
        return false;
    }
    let mut i: usize = from;
    while i < to
        invariant
            from <= i <= to <= text.len(),
            forall|k: int| from <= k < i ==> is_id_char(#[trigger] text@[k]),
        decreases to - i,
    {
        let c = text[i];
        let ok = ('0' <= c && c <= '9') || ('a' <= c && c <= 'z') || ('A' <= c && c <= 'Z') || c
            == '_' || c == '-';
        if !ok {
            return false;
        }
        i += 1;
    }
    true
}

/// Reads the segment `text[from..to]`.
fn parse_segment(text: &Vec<char>, from: usize, to: usize) -> (r: Option<MessageAction>)
    requires
        from <= to <= text.len(),
    ensures
        match r {
            Some(action) => parsed_segment(text@, from as int, to as int) == Some(action@),
            None => parsed_segment(text@, from as int, to as int) is None,
        },
{
    let colon = find_char(text, ':', from, to);
    if colon >= to {
        return None;
    }
    let kind = read_numeral(text, from, colon);
    match kind {
        Numeral::Invalid => None,
        Numeral::TooLarge => Some(MessageAction::Unknown),
        Numeral::Value(k) => {
            if k == 1 {
                let second = find_char(text, ':', colon + 1, to);
                if second >= to || !check_identifier(text, colon + 1, second) {
                    return None;
                }
                match read_numeral(text, second + 1, to) {
                    Numeral::Value(flags) => {
                        let mut message_id = String::new();
                        push_range(&mut message_id, text, colon + 1, second);
                        Some(MessageAction::ResponseSavedMessage { message_id, flags })
                    },
                    _ => None,
                }
            } else if k == 2 {
                match read_numeral(text, colon + 1, to) {
                    Numeral::Value(role_id) => Some(MessageAction::RoleToggle { role_id }),
                    _ => None,
                }
            } else {
                Some(MessageAction::Unknown)
            }
        },
    }
}

/// `parsed_from` with a list of actions in front of what it gives.
pub open spec fn with_prefix(prefix: Seq<ActionView>, rest: Option<Seq<ActionView>>) -> Option<
    Seq<ActionView>,
> {
    match rest {
        Some(actions) => Some(prefix + actions),
        None => None,
    }
}

impl MessageAction {
    /// Parses a token into its actions. A string that is no token gives no
    /// action.
    pub fn parse(token: &str) -> (actions: Vec<MessageAction>)
        ensures
            action_views(actions@) == parsed_actions(token@),
    {
        let text = chars_of(token);
        let mut actions: Vec<MessageAction> = Vec::new();
        let mut pos: usize = 0;
        assert(parsed_from(text@, 0) == with_prefix(action_views(actions@), parsed_from(text@, 0)))
            by {
            assert(action_views(actions@) =~= Seq::empty());
            if parsed_from(text@, 0) is Some {
                assert(Seq::<ActionView>::empty() + parsed_from(text@, 0)->0 =~= parsed_from(
                    text@,
                    0,
                )->0);
            }
        }
        loop
            invariant
                pos <= text.len(),
                text@ == token@,
                parsed_from(text@, 0) == with_prefix(
                    action_views(actions@),
                    parsed_from(text@, pos as int),
                ),
            decreases text.len() - pos,
        {
            let end = find_char(&text, ';', pos, text.len());
            match parse_segment(&text, pos, end) {
                None => {
                    let none: Vec<MessageAction> = Vec::new();
                    assert(action_views(none@) =~= Seq::empty());
                    return none;
                },
                Some(action) => {
                    let ghost before = action_views(actions@);
                    let ghost a = action@;
                    actions.push(action);
                    assert(action_views(actions@) =~= before.push(a));
                    if end >= text.len() {
                        assert(before + seq![a] =~= before.push(a));
                        return actions;
                    }
                    proof {
                        let rest = parsed_from(text@, end + 1);
                        if rest is Some {
                            assert(before + (seq![a] + rest.unwrap()) =~= before.push(a)
                                + rest.unwrap());
                        }
                    }
                    pos = end + 1;
                },
            }
        }
    }
}

} // verus!
