//! Variable maps and the expansion of `<name>` placeholders in text.

use vstd::prelude::*;
use crate::text::{chars_of, find_char, first_index, push_char, push_range, same_text};

verus! {

/// One binding of a variable name to its replacement text.
#[derive(Debug, Clone, PartialEq, Eq)]
pub struct Variable {
    pub name: String,
    pub value: String,
}

/// A flat, string-keyed variable map. A later binding of a name replaces an
/// earlier one.
#[derive(Debug, Clone, PartialEq, Eq)]
pub struct MessageVariables {
    pub entries: Vec<Variable>,
}

/// The map that a list of bindings denotes.
pub open spec fn bindings(entries: Seq<Variable>) -> Map<Seq<char>, Seq<char>>
    decreases entries.len(),
{
    if entries.len() == 0 {
        Map::empty()
    } else {
        bindings(entries.drop_last()).insert(entries.last().name@, entries.last().value@)
    }
}

impl View for MessageVariables {
    type V = Map<Seq<char>, Seq<char>>;

    open spec fn view(&self) -> Map<Seq<char>, Seq<char>> {
        bindings(self.entries@)
    }
}

impl MessageVariables {
    /// The empty variable map.
    pub fn new() -> (vars: MessageVariables)
        ensures
            vars@ == Map::<Seq<char>, Seq<char>>::empty(),
    {
        MessageVariables { entries: Vec::new() }
    }

    /// Binds `name` to `value`, replacing any earlier binding of `name`.
    pub fn insert(&mut self, name: &str, value: &str)
        ensures
            final(self)@ == old(self)@.insert(name@, value@),
    {
        let entry = Variable { name: String::from_str(name), value: String::from_str(value) };
        self.entries.push(entry);
        assert(self.entries@.drop_last() == old(self).entries@);
    }

    /// The text bound to `name`, if any.
    pub fn get(&self, name: &str) -> (found: Option<&String>)
        ensures
            found is Some <==> self@.contains_key(name@),
            found matches Some(value) ==> value@ == self@[name@],
    {
        let mut i: usize = self.entries.len();
        assert(self.entries@.take(i as int) == self.entries@);
        while i > 0
            invariant
                i <= self.entries.len(),
                bindings(self.entries@).contains_key(name@) <==> bindings(
                    self.entries@.take(i as int),
                ).contains_key(name@),
                bindings(self.entries@).contains_key(name@) ==> bindings(self.entries@)[name@]
                    == bindings(self.entries@.take(i as int))[name@],
            decreases i,
        {
            i -= 1;
            proof {
                let upto = self.entries@.take(i + 1);
                assert(upto.drop_last() == self.entries@.take(i as int));
                assert(upto.last() == self.entries@[i as int]);
            }
            if same_text(self.entries[i].name.as_str(), name) {
                return Some(&self.entries[i].value);
            }
        }
        proof {
            assert(self.entries@.take(0).len() == 0);
        }
        None
    }
}

/// The expansion of `text[pos..]`: scanning from the left, each `<name>`
/// whose name (the characters up to the next `>`) is bound in `vars` is
/// replaced by its value; every other character stands as it is. Inserted
/// values are not scanned again.
pub open spec fn expanded_from(text: Seq<char>, pos: int, vars: Map<Seq<char>, Seq<char>>) -> Seq<
    char,
>
    decreases text.len() - pos,
{
    if pos < 0 || pos >= text.len() {
        Seq::empty()
    } else {
        let close = first_index(text, '>', pos + 1, text.len() as int);
        if text[pos] == '<' && pos < close < text.len() && vars.contains_key(
            text.subrange(pos + 1, close),
        ) {
            vars[text.subrange(pos + 1, close)] + expanded_from(text, close + 1, vars)
        } else {
            seq![text[pos]] + expanded_from(text, pos + 1, vars)
        }
    }
}

/// The expansion of a whole template.
pub open spec fn expanded(text: Seq<char>, vars: Map<Seq<char>, Seq<char>>) -> Seq<char> {
    expanded_from(text, 0, vars)
}

/// Without variables, the expansion of a text from `pos` is the rest of the
/// text.
pub proof fn lemma_expansion_without_variables_from(text: Seq<char>, pos: int)
    requires
        0 <= pos <= text.len(),
    ensures
        expanded_from(text, pos, Map::empty()) == text.skip(pos),
    decreases text.len() - pos,
{
    if pos < text.len() {
        lemma_expansion_without_variables_from(text, pos + 1);
        assert(seq![text[pos]] + text.skip(pos + 1) =~= text.skip(pos));
    } else {
        assert(text.skip(pos) =~= Seq::empty());
    }
}

/// Without variables, a text expands to itself.
pub proof fn lemma_expansion_without_variables(text: Seq<char>)
    ensures
        expanded(text, Map::empty()) == text,
{
    lemma_expansion_without_variables_from(text, 0);
    assert(text.skip(0) =~= text);
}

/// Expands the placeholders of `template` against `vars`.
pub fn replace_variables(template: &str, vars: &MessageVariables) -> (out: String)
    ensures
        out@ == expanded(template@, vars@),
{
    let text = chars_of(template);
    let mut out = String::new();
    let mut pos: usize = 0;
    while pos < text.len()
        invariant
            pos <= text.len(),
            text@ == template@,
            out@ + expanded_from(text@, pos as int, vars@) == expanded(text@, vars@),
        decreases text.len() - pos,
    {
        let mut replaced = false;
        let ghost before = out@;
        if text[pos] == '<' {
            let close = find_char(&text, '>', pos + 1, text.len());
            if close < text.len() {
                let mut name = String::new();
                push_range(&mut name, &text, pos + 1, close);
                match vars.get(name.as_str()) {
                    Some(value) => {
                        out.append(value.as_str());
                        assert(out@ + expanded_from(text@, close + 1, vars@) == before + (
                        vars@[name@] + expanded_from(text@, close + 1, vars@)));
                        pos = close + 1;
                        replaced = true;
                    },
                    None => {},
                }
            }
        }
        if !replaced {
            push_char(&mut out, text[pos]);
            assert(out@ + expanded_from(text@, pos + 1, vars@) == before + (seq![text@[pos as int]]
                + expanded_from(text@, pos + 1, vars@)));
            pos += 1;
        }
    }
    out
}

} // verus!
