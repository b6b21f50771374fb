//! The field formatter: canonical text for a span's label and for an event.
//!
//! Both modes walk the fields in the order presented and apply the same rule
//! to each one:
//!
//! * the data field (by default `message`) contributes its value alone;
//! * otherwise, a field whose name begins with the reserved prefix contributes
//!   nothing;
//! * any other field contributes `name=value`.
//!
//! A span label is the span's name followed by each contribution behind a
//! comma. An event text is the contributions separated by single spaces.

use crate::field::{field_texts, Field, FieldText};
use vstd::prelude::*;
use vstd::std_specs::iter::IteratorSpec;
use vstd::string::next_postcondition;

verus! {

/// What decides how a field is rendered.
#[derive(Clone, Debug, PartialEq, Eq)]
pub struct FieldRules {
    /// The name of the field that is rendered by its value alone.
    pub data_field: String,
    /// Fields whose name begins with this prefix are left out. `None` keeps
    /// every field.
    pub reserved_prefix: Option<String>,
}

/// The text of a [`FieldRules`].
pub struct FieldRulesText {
    pub data_field: Seq<char>,
    pub reserved_prefix: Option<Seq<char>>,
}

/// The name of the data field where none is configured: `message`.
pub open spec fn default_data_field() -> Seq<char> {
    seq!['m', 'e', 's', 's', 'a', 'g', 'e']
}

/// The prefix of fields that a logging shim has already reported: `log.`.
pub open spec fn default_reserved_prefix() -> Seq<char> {
    seq!['l', 'o', 'g', '.']
}

/// The data field's name under a configured choice: the name chosen, or
/// `message` where none is.
pub open spec fn resolve_data_field(choice: Option<Seq<char>>) -> Seq<char> {
    match choice {
        Some(name) => name,
        None => default_data_field(),
    }
}

/// The text of an optional string.
pub open spec fn option_text(s: Option<String>) -> Option<Seq<char>> {
    match s {
        Some(s) => Some(s@),
        None => None,
    }
}

impl View for FieldRules {
    type V = FieldRulesText;

    open spec fn view(&self) -> FieldRulesText {
        FieldRulesText {
            data_field: self.data_field@,
            reserved_prefix: option_text(self.reserved_prefix),
        }
    }
}

impl FieldRulesText {
    /// Whether a field of this name is the data field.
    pub open spec fn is_data(self, name: Seq<char>) -> bool {
        name == self.data_field
    }

    /// Whether a field of this name is left out of every rendering. The data
    /// field is never left out.
    pub open spec fn skips(self, name: Seq<char>) -> bool {
        &&& !self.is_data(name)
        &&& self.reserved_prefix matches Some(prefix)
        &&& prefix.is_prefix_of(name)
    }

    /// What a field that is kept contributes.
    pub open spec fn render(self, field: FieldText) -> Seq<char> {
        if self.is_data(field.name) {
            field.value
        } else {
            field.name + seq!['='] + field.value
        }
    }

    /// The contributions of the fields that are kept, in the order presented.
    pub open spec fn parts(self, fields: Seq<FieldText>) -> Seq<Seq<char>>
        decreases fields.len(),
    {
        if fields.len() == 0 {
            Seq::empty()
        } else if self.skips(fields.last().name) {
            self.parts(fields.drop_last())
        } else {
            self.parts(fields.drop_last()).push(self.render(fields.last()))
        }
    }

    /// The label of a span: its name, then each contribution behind a comma.
    pub open spec fn span_label(self, name: Seq<char>, fields: Seq<FieldText>) -> Seq<char> {
        name + each_behind(',', self.parts(fields))
    }

    /// The text of an event: the contributions, separated by single spaces.
    pub open spec fn event_text(self, fields: Seq<FieldText>) -> Seq<char> {
        separated_by(' ', self.parts(fields))
    }
}

/// Every part preceded by `sep`, concatenated.
pub open spec fn each_behind(sep: char, parts: Seq<Seq<char>>) -> Seq<char>
    decreases parts.len(),
{
    if parts.len() == 0 {
        Seq::empty()
    } else {
        each_behind(sep, parts.drop_last()) + seq![sep] + parts.last()
    }
}

/// The parts concatenated with `sep` between neighbours.
pub open spec fn separated_by(sep: char, parts: Seq<Seq<char>>) -> Seq<char>
    decreases parts.len(),
{
    if parts.len() == 0 {
        Seq::empty()
    } else if parts.len() == 1 {
        parts[0]
    } else {
        separated_by(sep, parts.drop_last()) + seq![sep] + parts.last()
    }
}

/// Whether `text` begins with `prefix`.
pub fn begins_with(text: &str, prefix: &str) -> (yes: bool)
    ensures
        yes == prefix@.is_prefix_of(text@),
{
    let mut wanted = prefix.chars();
    let mut given = text.chars();
    let ghost mut seen: int = 0;
    assert(prefix@.skip(0) =~= prefix@);
    assert(text@.skip(0) =~= text@);
    loop
        invariant
            0 <= seen <= prefix@.len(),
            seen <= text@.len(),
            wanted.remaining() == prefix@.skip(seen),
            given.remaining() == text@.skip(seen),
            forall|j: int| 0 <= j < seen ==> prefix@[j] == text@[j],
        decreases prefix@.len() - seen,
    {
        let ghost wanted_before = wanted;
        let ghost given_before = given;
        let next_wanted = wanted.next();
        proof {
            next_postcondition(&wanted_before, &wanted, next_wanted);
        }
        match next_wanted {
            None => {
                assert(prefix@ =~= text@.subrange(0, prefix@.len() as int));
                return true;
            },
            Some(c) => {
                let next_given = given.next();
                proof {
                    next_postcondition(&given_before, &given, next_given);
                }
                match next_given {
                    None => {
                        return false;
                    },
                    Some(d) => {
                        assert(c == prefix@[seen]);
                        assert(d == text@[seen]);
                        if c != d {
                            assert(prefix@.len() <= text@.len() ==> prefix@[seen] != text@.subrange(
                                0,
                                prefix@.len() as int,
                            )[seen]);
                            return false;
                        }
                        assert(prefix@.skip(seen).drop_first() =~= prefix@.skip(seen + 1));
                        assert(text@.skip(seen).drop_first() =~= text@.skip(seen + 1));
                        proof {
                            seen = seen + 1;
                        }
                    },
                }
            },
        }
    }
}

impl FieldRules {
    /// The rules in force where nothing is configured: `message` is the data
    /// field, and fields that begin with `log.` are left out.
    pub open spec fn new_text() -> FieldRulesText {
        FieldRulesText {
            data_field: default_data_field(),
            reserved_prefix: Some(default_reserved_prefix()),
        }
    }

    /// The rules in force where nothing is configured.
    pub fn new() -> (rules: FieldRules)
        ensures
            rules@ == Self::new_text(),
    {
        proof {
            reveal_strlit("message");
            reveal_strlit("log.");
        }
        let data_field = "message".to_owned();
        let prefix = "log.".to_owned();
        assert(data_field@ =~= default_data_field());
        assert(prefix@ =~= default_reserved_prefix());
        FieldRules { data_field, reserved_prefix: Some(prefix) }
    }

    /// These rules with another choice of data field. `None` stands for
    /// `message`.
    pub fn with_data_field(self, choice: Option<String>) -> (rules: FieldRules)
        ensures
            rules@.data_field == resolve_data_field(option_text(choice)),
            rules@.reserved_prefix == self@.reserved_prefix,
    {
        let data_field = match choice {
            Some(name) => name,
            None => {
                proof {
                    reveal_strlit("message");
                }
                let name = "message".to_owned();
                assert(name@ =~= default_data_field());
                name
            },
        };
        FieldRules { data_field, reserved_prefix: self.reserved_prefix }
    }

    /// These rules with another reserved prefix. `None` keeps every field.
    pub fn with_reserved_prefix(self, prefix: Option<String>) -> (rules: FieldRules)
        ensures
            rules@.data_field == self@.data_field,
            rules@.reserved_prefix == option_text(prefix),
    {
        FieldRules { data_field: self.data_field, reserved_prefix: prefix }
    }

    /// Whether the field is the data field.
    pub fn is_data(&self, field: &Field) -> (yes: bool)
        ensures
            yes == self@.is_data(field@.name),
    {
        field.name == self.data_field
    }

    /// Whether the field is left out of every rendering.
    pub fn skips(&self, field: &Field) -> (yes: bool)
        ensures
            yes == self@.skips(field@.name),
    {
        if self.is_data(field) {
            return false;
        }
        match &self.reserved_prefix {
            Some(prefix) => begins_with(field.name.as_str(), prefix.as_str()),
            None => false,
        }
    }

    /// Appends to `out` what a kept field contributes.
    pub fn render_into(&self, field: &Field, out: &mut String)
        ensures
            final(out)@ == old(out)@ + self@.render(field@),
    {
        if self.is_data(field) {
            out.append(field.value.as_str());
        } else {
            out.append(field.name.as_str());
            out.append("=");
            proof {
                reveal_strlit("=");
            }
            assert("="@ =~= seq!['=']);
            out.append(field.value.as_str());
            assert(out@ =~= old(out)@ + (field@.name + seq!['='] + field@.value));
        }
    }

    /// The label of a span with this name and these fields.
    pub fn span_label(&self, name: &str, fields: &Vec<Field>) -> (label: String)
        ensures
            label@ == self@.span_label(name@, field_texts(fields@)),
    {
        let ghost texts = field_texts(fields@);
        let mut label = name.to_owned();
        let mut i: usize = 0;
        assert(texts.take(0) =~= Seq::<FieldText>::empty());
        assert(label@ =~= self@.span_label(name@, texts.take(0)));
        while i < fields.len()
            invariant
                i <= fields.len(),
                texts == field_texts(fields@),
                label@ == self@.span_label(name@, texts.take(i as int)),
            decreases fields.len() - i,
        {
            let field = &fields[i];
            proof {
                let upto = texts.take(i as int + 1);
                assert(upto.drop_last() =~= texts.take(i as int));
                assert(upto.last() == field@);
            }
            if !self.skips(field) {
                label.append(",");
                proof {
                    reveal_strlit(",");
                }
                assert(","@ =~= seq![',']);
                self.render_into(field, &mut label);
                assert(label@ =~= name@ + (each_behind(
                    ',',
                    self@.parts(texts.take(i as int)),
                ) + seq![','] + self@.render(field@)));
                proof {
                    let parts = self@.parts(texts.take(i as int + 1));
                    assert(parts.drop_last() =~= self@.parts(texts.take(i as int)));
                }
            }
            i += 1;
        }
        assert(texts.take(i as int) =~= texts);
        label
    }

    /// The text of an event with these fields.
    pub fn event_text(&self, fields: &Vec<Field>) -> (text: String)
        ensures
            text@ == self@.event_text(field_texts(fields@)),
    {
        let ghost texts = field_texts(fields@);
        let mut text = String::new();
        let mut any = false;
        let mut i: usize = 0;
        assert(texts.take(0) =~= Seq::<FieldText>::empty());
        while i < fields.len()
            invariant
                i <= fields.len(),
                texts == field_texts(fields@),
                any == (self@.parts(texts.take(i as int)).len() > 0),
                text@ == self@.event_text(texts.take(i as int)),
            decreases fields.len() - i,
        {
            let field = &fields[i];
            proof {
                let upto = texts.take(i as int + 1);
                assert(upto.drop_last() =~= texts.take(i as int));
                assert(upto.last() == field@);
            }
            if !self.skips(field) {
                let ghost before = self@.parts(texts.take(i as int));
                let ghost after = self@.parts(texts.take(i as int + 1));
                assert(after.drop_last() =~= before);
                if any {
                    text.append(" ");
                    proof {
                        reveal_strlit(" ");
                    }
                    assert(" "@ =~= seq![' ']);
                    self.render_into(field, &mut text);
                    assert(text@ =~= separated_by(' ', before) + seq![' '] + self@.render(
                        field@,
                    ));
                } else {
                    self.render_into(field, &mut text);
                    assert(text@ =~= self@.render(field@));
                    assert(after[0] == self@.render(field@));
                }
                any = true;
            }
            i += 1;
        }
        assert(texts.take(i as int) =~= texts);
        text
    }
}

} // verus!
