//! What holds of the formatter, the store and the adapter, proved once for
//! every input.

use crate::adapter::LayerState;
use crate::error::TraceError;
use crate::field::{field_texts, Field, FieldText};
use crate::format::{
    default_reserved_prefix, each_behind, separated_by, FieldRules, FieldRulesText,
};
use crate::marker::{begin_marker, end_marker, MarkerKind, MarkerText};
use crate::store::{created, found, removed, updated};
use vstd::prelude::*;

verus! {

/// Whether a text holds no line break.
pub open spec fn line_free(text: Seq<char>) -> bool {
    forall|i: int| 0 <= i < text.len() ==> text[i] != '\n'
}

/// Formatting depends on nothing but the text presented: fields that agree in
/// name and value, under rules and a span name that agree, give the same
/// label and the same event text, however often they are formatted.
pub proof fn formatting_is_deterministic(
    rules: FieldRules,
    again_rules: FieldRules,
    name: &str,
    again_name: &str,
    fields: Seq<Field>,
    again_fields: Seq<Field>,
)
    requires
        rules@ == again_rules@,
        name@ == again_name@,
        fields.len() == again_fields.len(),
        forall|i: int| 0 <= i < fields.len() ==> fields[i]@ == again_fields[i]@,
    ensures
        rules@.span_label(name@, field_texts(fields)) == again_rules@.span_label(
            again_name@,
            field_texts(again_fields),
        ),
        rules@.event_text(field_texts(fields)) == again_rules@.event_text(
            field_texts(again_fields),
        ),
{
    assert(field_texts(fields) =~= field_texts(again_fields));
}

/// Without fields, the label of a span is its name and nothing more, and the
/// text of an event is empty.
pub proof fn no_fields_no_separators(rules: FieldRulesText, name: Seq<char>)
    ensures
        rules.span_label(name, Seq::empty()) == name,
        rules.event_text(Seq::empty()) == Seq::<char>::empty(),
{
    assert(rules.span_label(name, Seq::empty()) =~= name);
}

/// The data field, presented alone, is rendered as its bare value: the event
/// text is the value, and the label is the span's name, a comma and the
/// value.
pub proof fn data_field_alone_is_bare(rules: FieldRulesText, name: Seq<char>, field: FieldText)
    requires
        rules.is_data(field.name),
    ensures
        rules.parts(seq![field]) == seq![field.value],
        rules.event_text(seq![field]) == field.value,
        rules.span_label(name, seq![field]) == name + seq![','] + field.value,
{
    one_field(rules, field);
    let parts = rules.parts(seq![field]);
    assert(parts.drop_last() =~= Seq::<Seq<char>>::empty());
    reveal_with_fuel(each_behind, 2);
    assert(each_behind(',', parts) =~= seq![','] + field.value);
    assert(rules.span_label(name, seq![field]) =~= name + seq![','] + field.value);
}

/// Any other field that is kept, presented alone, is rendered as its name, an
/// equals sign and its value.
pub proof fn plain_field_alone_is_named(rules: FieldRulesText, name: Seq<char>, field: FieldText)
    requires
        !rules.is_data(field.name),
        !rules.skips(field.name),
    ensures
        rules.event_text(seq![field]) == field.name + seq!['='] + field.value,
        rules.span_label(name, seq![field]) == name + seq![','] + field.name + seq!['=']
            + field.value,
{
    one_field(rules, field);
    let parts = rules.parts(seq![field]);
    let text = field.name + seq!['='] + field.value;
    assert(parts.drop_last() =~= Seq::<Seq<char>>::empty());
    reveal_with_fuel(each_behind, 2);
    assert(each_behind(',', parts) =~= seq![','] + text);
    assert(rules.span_label(name, seq![field]) =~= name + seq![','] + field.name + seq!['=']
        + field.value);
}

/// The rule for one field: presented alone, a field that the rules leave out
/// contributes nothing, and any other field contributes its rendering.
pub proof fn one_field(rules: FieldRulesText, field: FieldText)
    ensures
        rules.parts(seq![field]) == if rules.skips(field.name) {
            Seq::<Seq<char>>::empty()
        } else {
            seq![rules.render(field)]
        },
{
    let one = seq![field];
    assert(one.drop_last() =~= Seq::<FieldText>::empty());
    assert(rules.parts(one.drop_last()) =~= Seq::<Seq<char>>::empty());
    if !rules.skips(field.name) {
        assert(rules.parts(one) =~= seq![rules.render(field)]);
    }
}

/// Fields are rendered in the order presented: the contributions of one run
/// of fields followed by another are those of the first followed by those of
/// the second.
pub proof fn order_is_kept(rules: FieldRulesText, first: Seq<FieldText>, second: Seq<FieldText>)
    ensures
        rules.parts(first + second) == rules.parts(first) + rules.parts(second),
    decreases second.len(),
{
    let both = first + second;
    if second.len() == 0 {
        assert(both =~= first);
        assert(rules.parts(first) + rules.parts(second) =~= rules.parts(first));
    } else {
        assert(both.drop_last() =~= first + second.drop_last());
        assert(both.last() == second.last());
        order_is_kept(rules, first, second.drop_last());
        assert(rules.parts(both) =~= rules.parts(first) + rules.parts(second));
    }
}

/// A field that the rules leave out is absent from both renderings: wherever
/// it is presented among the others, the label and the event text are those
/// of the others alone.
pub proof fn reserved_field_is_absent(
    rules: FieldRulesText,
    name: Seq<char>,
    fields: Seq<FieldText>,
    at: int,
    field: FieldText,
)
    requires
        rules.skips(field.name),
        0 <= at <= fields.len(),
    ensures
        rules.parts(fields.insert(at, field)) == rules.parts(fields),
        rules.span_label(name, fields.insert(at, field)) == rules.span_label(name, fields),
        rules.event_text(fields.insert(at, field)) == rules.event_text(fields),
{
    let before = fields.take(at);
    let after = fields.skip(at);
    assert(fields.insert(at, field) =~= (before + seq![field]) + after);
    assert(fields =~= before + after);
    one_field(rules, field);
    order_is_kept(rules, before, seq![field]);
    order_is_kept(rules, before + seq![field], after);
    order_is_kept(rules, before, after);
    assert(rules.parts(before) + Seq::<Seq<char>>::empty() =~= rules.parts(before));
}

/// Under the rules in force where nothing is configured, every field whose
/// name begins with `log.` is left out.
pub proof fn log_fields_are_reserved(name: Seq<char>)
    requires
        default_reserved_prefix().is_prefix_of(name),
    ensures
        FieldRules::new_text().skips(name),
{
    let prefix = default_reserved_prefix();
    assert(name.subrange(0, prefix.len() as int)[0] == 'l');
    assert(name[0] == 'l');
}

/// Fields that are all left out give the label and the event text of no
/// fields at all.
pub proof fn only_reserved_fields_render_nothing(
    rules: FieldRulesText,
    name: Seq<char>,
    fields: Seq<FieldText>,
)
    requires
        forall|i: int| 0 <= i < fields.len() ==> rules.skips(#[trigger] fields[i].name),
    ensures
        rules.parts(fields) == Seq::<Seq<char>>::empty(),
        rules.span_label(name, fields) == name,
        rules.event_text(fields) == Seq::<char>::empty(),
    decreases fields.len(),
{
    if fields.len() > 0 {
        only_reserved_fields_render_nothing(rules, name, fields.drop_last());
    }
    assert(rules.span_label(name, fields) =~= name);
}

/// Where the span's name and the names and values of the fields hold no line
/// break, neither does the label nor the event text.
pub proof fn renderings_are_line_free(
    rules: FieldRulesText,
    name: Seq<char>,
    fields: Seq<FieldText>,
)
    requires
        line_free(name),
        forall|i: int|
            0 <= i < fields.len() ==> line_free(#[trigger] fields[i].name) && line_free(
                fields[i].value,
            ),
    ensures
        line_free(rules.span_label(name, fields)),
        line_free(rules.event_text(fields)),
{
    parts_are_line_free(rules, fields);
    glued_parts_are_line_free(',', rules.parts(fields));
    glued_parts_are_line_free(' ', rules.parts(fields));
}

proof fn parts_are_line_free(rules: FieldRulesText, fields: Seq<FieldText>)
    requires
        forall|i: int|
            0 <= i < fields.len() ==> line_free(#[trigger] fields[i].name) && line_free(
                fields[i].value,
            ),
    ensures
        forall|j: int| 0 <= j < rules.parts(fields).len() ==> line_free(rules.parts(fields)[j]),
    decreases fields.len(),
{
    if fields.len() > 0 {
        let earlier = fields.drop_last();
        let last = fields.last();
        assert forall|i: int| 0 <= i < earlier.len() implies line_free(
            #[trigger] earlier[i].name,
        ) && line_free(earlier[i].value) by {
            assert(earlier[i] == fields[i]);
        }
        parts_are_line_free(rules, earlier);
        assert(line_free(last.name) && line_free(last.value));
        assert(line_free(rules.render(last)));
        assert forall|j: int| 0 <= j < rules.parts(fields).len() implies line_free(
            rules.parts(fields)[j],
        ) by {
            if j < rules.parts(earlier).len() {
                assert(rules.parts(fields)[j] == rules.parts(earlier)[j]);
            }
        }
    }
}

proof fn glued_parts_are_line_free(sep: char, parts: Seq<Seq<char>>)
    requires
        sep != '\n',
        forall|j: int| 0 <= j < parts.len() ==> line_free(parts[j]),
    ensures
        line_free(each_behind(sep, parts)),
        line_free(separated_by(sep, parts)),
    decreases parts.len(),
{
    if parts.len() > 0 {
        glued_parts_are_line_free(sep, parts.drop_last());
        assert(line_free(parts.last()));
    }
}

/// A label that was stored under a fresh identifier is the label that is
/// found there.
pub proof fn create_then_get(labels: Map<u64, Seq<char>>, id: u64, label: Seq<char>)
    requires
        !labels.contains_key(id),
    ensures
        created(labels, id, label) is Ok,
        found(created(labels, id, label).unwrap(), id) == Ok::<Seq<char>, TraceError>(label),
{
}

/// An update with the text that is stored leaves the store as it is; an
/// update with another text makes that text the one that is found.
pub proof fn update_replaces_only_what_differs(
    labels: Map<u64, Seq<char>>,
    id: u64,
    label: Seq<char>,
)
    requires
        labels.contains_key(id),
    ensures
        updated(labels, id, label) is Ok,
        labels[id] == label ==> updated(labels, id, label).unwrap() == labels,
        found(updated(labels, id, label).unwrap(), id) == Ok::<Seq<char>, TraceError>(label),
{
    if labels[id] == label {
        assert(labels.insert(id, label) =~= labels);
    }
}

/// Once an entry is removed, it is found no more, and cannot be updated or
/// removed again.
pub proof fn remove_then_nothing_is_found(labels: Map<u64, Seq<char>>, id: u64, label: Seq<char>)
    requires
        labels.contains_key(id),
    ensures
        removed(labels, id) is Ok,
        found(removed(labels, id).unwrap(), id) == Err::<Seq<char>, TraceError>(
            TraceError::UnknownSpan,
        ),
        updated(removed(labels, id).unwrap(), id, label) is Err,
        removed(removed(labels, id).unwrap(), id) is Err,
{
}

/// What is done to one span leaves the entries of every other span as they
/// are.
pub proof fn spans_do_not_interfere(
    labels: Map<u64, Seq<char>>,
    id: u64,
    label: Seq<char>,
    other: u64,
)
    requires
        other != id,
    ensures
        created(labels, id, label) matches Ok(next) ==> found(next, other) == found(labels, other),
        updated(labels, id, label) matches Ok(next) ==> found(next, other) == found(labels, other),
        removed(labels, id) matches Ok(next) ==> found(next, other) == found(labels, other),
{
}

/// Entering a span that was just created emits one `begin` marker, which
/// carries the span's name and its formatted fields.
pub proof fn enter_emits_the_label(
    state: LayerState,
    id: u64,
    name: Seq<char>,
    fields: Seq<FieldText>,
)
    requires
        !state.spans.contains_key(id),
    ensures
        state.new_span(id, name, fields) is Ok,
        state.new_span(id, name, fields).unwrap().enter(id) == Ok::<MarkerText, TraceError>(begin_marker(state.rules.span_label(name, fields))),
{
}

/// Entering a span emits the label of the latest record: after values are
/// recorded, the `begin` marker carries the label formatted from them.
pub proof fn enter_follows_the_latest_record(
    state: LayerState,
    id: u64,
    name: Seq<char>,
    fields: Seq<FieldText>,
)
    requires
        state.spans.contains_key(id),
    ensures
        state.record(id, name, fields) is Ok,
        state.record(id, name, fields).unwrap().enter(id) == Ok::<MarkerText, TraceError>(begin_marker(state.rules.span_label(name, fields))),
{
}

/// Recording the same fields a second time changes nothing.
pub proof fn record_is_idempotent(
    state: LayerState,
    id: u64,
    name: Seq<char>,
    fields: Seq<FieldText>,
)
    requires
        state.spans.contains_key(id),
    ensures
        state.record(id, name, fields) is Ok,
        state.record(id, name, fields).unwrap().record(id, name, fields) == state.record(
            id,
            name,
            fields,
        ),
{
    let label = state.rules.span_label(name, fields);
    let once = state.spans.insert(id, label);
    assert(once.insert(id, label) =~= once);
}

/// Exiting emits one `end` marker with an empty payload, whatever the span
/// and whatever the state.
pub proof fn exit_ignores_the_span(state: LayerState, id: u64)
    ensures
        state.exit(id) == end_marker(),
        state.exit(id).kind == MarkerKind::End,
        state.exit(id).payload.len() == 0,
{
}

/// An event is a `begin` marker that carries the event's text, followed by an
/// `end` marker with an empty payload.
pub proof fn event_is_a_begin_end_pair(state: LayerState, fields: Seq<FieldText>)
    ensures
        state.event(fields).0.kind == MarkerKind::Begin,
        state.event(fields).0.payload == state.rules.event_text(fields),
        state.event(fields).1.kind == MarkerKind::End,
        state.event(fields).1.payload.len() == 0,
{
}

/// Closing a span removes its context: afterwards the span cannot be entered,
/// recorded or closed.
pub proof fn close_ends_the_span(
    state: LayerState,
    id: u64,
    name: Seq<char>,
    fields: Seq<FieldText>,
)
    requires
        state.spans.contains_key(id),
    ensures
        state.close(id) is Ok,
        !state.close(id).unwrap().spans.contains_key(id),
        state.close(id).unwrap().enter(id) == Err::<MarkerText, TraceError>(
            TraceError::UnknownSpan,
        ),
        state.close(id).unwrap().record(id, name, fields) == Err::<LayerState, TraceError>(
            TraceError::UnknownSpan,
        ),
        state.close(id).unwrap().close(id) == Err::<LayerState, TraceError>(
            TraceError::UnknownSpan,
        ),
{
}

/// The whole life of a span: created under a fresh identifier, it can be
/// entered, which emits a `begin` marker with its label, and exited, which
/// emits an `end` marker; once it is closed the state is what it was before
/// the span was created, so that the span can be entered no more.
pub proof fn a_closed_span_leaves_nothing_behind(
    state: LayerState,
    id: u64,
    name: Seq<char>,
    fields: Seq<FieldText>,
)
    requires
        !state.spans.contains_key(id),
    ensures
        state.new_span(id, name, fields) matches Ok(live) && {
            &&& live.enter(id) == Ok::<MarkerText, TraceError>(
                begin_marker(state.rules.span_label(name, fields)),
            )
            &&& live.exit(id) == end_marker()
            &&& live.close(id) == Ok::<LayerState, TraceError>(state)
        },
        state.enter(id) == Err::<MarkerText, TraceError>(TraceError::UnknownSpan),
{
    let label = state.rules.span_label(name, fields);
    assert(state.spans.insert(id, label).remove(id) =~= state.spans);
}

/// A span has a context from its creation until it is closed: creating gives
/// it one, closing takes it away, and recording leaves the set of live spans
/// as it is.
pub proof fn context_lives_from_creation_to_close(
    state: LayerState,
    id: u64,
    name: Seq<char>,
    fields: Seq<FieldText>,
)
    ensures
        state.new_span(id, name, fields) matches Ok(next) ==> next.spans.dom()
            == state.spans.dom().insert(id),
        state.record(id, name, fields) matches Ok(next) ==> next.spans.dom() == state.spans.dom(),
        state.close(id) matches Ok(next) ==> next.spans.dom() == state.spans.dom().remove(id),
{
    if state.record(id, name, fields) is Ok {
        let next = state.record(id, name, fields).unwrap();
        assert(next.spans.dom() =~= state.spans.dom());
    }
    if state.new_span(id, name, fields) is Ok {
        let next = state.new_span(id, name, fields).unwrap();
        assert(next.spans.dom() =~= state.spans.dom().insert(id));
    }
    if state.close(id) is Ok {
        let next = state.close(id).unwrap();
        assert(next.spans.dom() =~= state.spans.dom().remove(id));
    }
}

} // verus!
