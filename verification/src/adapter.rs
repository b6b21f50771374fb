//! The lifecycle adapter: from span and event notifications to markers.
//!
//! A span is created once, may be recorded, entered and exited any number of
//! times, and is closed once. The adapter keeps the label of every live span
//! and answers each notification with the markers the sink has to write.

use crate::error::TraceError;
use crate::field::{field_texts, Field, FieldText};
use crate::format::{option_text, resolve_data_field, FieldRules, FieldRulesText};
use crate::marker::{begin_marker, end_marker, Marker, MarkerText};
use crate::store::{created, found, removed, updated, SpanStore};
use vstd::prelude::*;

verus! {

/// Turns span and event notifications into kernel trace markers.
pub struct AtraceLayer {
    rules: FieldRules,
    spans: SpanStore,
}

/// The state of an [`AtraceLayer`]: its rules and the labels of the live
/// spans.
pub struct LayerState {
    pub rules: FieldRulesText,
    pub spans: Map<u64, Seq<char>>,
}

impl LayerState {
    /// The state with other live spans and the same rules.
    pub open spec fn with_spans(self, spans: Map<u64, Seq<char>>) -> LayerState {
        LayerState { rules: self.rules, spans }
    }

    /// A span begins to exist: its label is formatted and stored.
    pub open spec fn new_span(self, id: u64, name: Seq<char>, fields: Seq<FieldText>) -> Result<
        LayerState,
        TraceError,
    > {
        match created(self.spans, id, self.rules.span_label(name, fields)) {
            Ok(spans) => Ok(self.with_spans(spans)),
            Err(e) => Err(e),
        }
    }

    /// New values are recorded on a span: its label is formatted again from
    /// the fields given.
    pub open spec fn record(self, id: u64, name: Seq<char>, fields: Seq<FieldText>) -> Result<
        LayerState,
        TraceError,
    > {
        match updated(self.spans, id, self.rules.span_label(name, fields)) {
            Ok(spans) => Ok(self.with_spans(spans)),
            Err(e) => Err(e),
        }
    }

    /// A span is entered: a `begin` marker carries its label.
    pub open spec fn enter(self, id: u64) -> Result<MarkerText, TraceError> {
        match found(self.spans, id) {
            Ok(label) => Ok(begin_marker(label)),
            Err(e) => Err(e),
        }
    }

    /// A span is exited: an `end` marker, whatever the span.
    pub open spec fn exit(self, id: u64) -> MarkerText {
        end_marker()
    }

    /// An event happens: a `begin` marker with its text, then an `end`
    /// marker.
    pub open spec fn event(self, fields: Seq<FieldText>) -> (MarkerText, MarkerText) {
        (begin_marker(self.rules.event_text(fields)), end_marker())
    }

    /// A span is closed: its label is dropped.
    pub open spec fn close(self, id: u64) -> Result<LayerState, TraceError> {
        match removed(self.spans, id) {
            Ok(spans) => Ok(self.with_spans(spans)),
            Err(e) => Err(e),
        }
    }
}

impl View for AtraceLayer {
    type V = LayerState;

    closed spec fn view(&self) -> LayerState {
        LayerState { rules: self.rules@, spans: self.spans@ }
    }
}

impl AtraceLayer {
    /// A layer without live spans and with the default rules, where the
    /// kernel tracing facility is `available` on this platform; `Unsupported`
    /// where it is not.
    pub fn new(available: bool) -> (made: Result<AtraceLayer, TraceError>)
        ensures
            available ==> made is Ok && made.unwrap()@ == (LayerState {
                rules: FieldRules::new_text(),
                spans: Map::empty(),
            }),
            !available ==> made == Err::<AtraceLayer, TraceError>(TraceError::Unsupported),
    {
        if available {
            Ok(AtraceLayer { rules: FieldRules::new(), spans: SpanStore::new() })
        } else {
            Err(TraceError::Unsupported)
        }
    }

    /// Sets the name of the field that is rendered by its value alone. `None`
    /// stands for `message`.
    pub fn with_data_field(self, x: Option<String>) -> (layer: AtraceLayer)
        ensures
            layer@.rules.data_field == resolve_data_field(option_text(x)),
            layer@.rules.reserved_prefix == self@.rules.reserved_prefix,
            layer@.spans == self@.spans,
    {
        AtraceLayer { rules: self.rules.with_data_field(x), spans: self.spans }
    }

    /// Sets the prefix of the fields that are left out of every rendering.
    /// `None` keeps every field.
    pub fn with_reserved_prefix(self, x: Option<String>) -> (layer: AtraceLayer)
        ensures
            layer@.rules.reserved_prefix == option_text(x),
            layer@.rules.data_field == self@.rules.data_field,
            layer@.spans == self@.spans,
    {
        AtraceLayer { rules: self.rules.with_reserved_prefix(x), spans: self.spans }
    }

    /// Whether the span is live.
    pub fn has_span(&self, id: u64) -> (yes: bool)
        ensures
            yes == self@.spans.contains_key(id),
    {
        self.spans.contains(id)
    }

    /// A span was created, with this name and these fields.
    pub fn on_new_span(&mut self, id: u64, name: &str, fields: &Vec<Field>) -> (outcome: Result<
        (),
        TraceError,
    >)
        ensures
            match old(self)@.new_span(id, name@, field_texts(fields@)) {
                Ok(next) => outcome is Ok && final(self)@ == next,
                Err(e) => outcome == Err::<(), TraceError>(e) && *final(self) == *old(self),
            },
    {
        let label = self.rules.span_label(name, fields);
        self.spans.create(id, label)
    }

    /// Values were recorded on a span, which now has these fields. Says
    /// whether the stored label was written: it is left alone where the new
    /// label is the text it already holds.
    pub fn on_record(&mut self, id: u64, name: &str, fields: &Vec<Field>) -> (outcome: Result<
        bool,
        TraceError,
    >)
        ensures
            match old(self)@.record(id, name@, field_texts(fields@)) {
                Ok(next) => {
                    &&& outcome == Ok::<bool, TraceError>(next.spans[id] != old(self)@.spans[id])
                    &&& final(self)@ == next
                    &&& next.spans[id] == old(self)@.spans[id] ==> *final(self) == *old(self)
                },
                Err(e) => outcome == Err::<bool, TraceError>(e) && *final(self) == *old(self),
            },
    {
        let label = self.rules.span_label(name, fields);
        self.spans.update(id, label)
    }

    /// An event happened, with these fields.
    pub fn on_event(&self, fields: &Vec<Field>) -> (markers: (Marker, Marker))
        ensures
            (markers.0@, markers.1@) == self@.event(field_texts(fields@)),
    {
        (Marker::begin(self.rules.event_text(fields)), Marker::end())
    }

    /// A span was entered.
    pub fn on_enter(&self, id: u64) -> (outcome: Result<Marker, TraceError>)
        ensures
            match self@.enter(id) {
                Ok(marker) => outcome is Ok && outcome.unwrap()@ == marker,
                Err(e) => outcome == Err::<Marker, TraceError>(e),
            },
    {
        match self.spans.get(id) {
            Ok(label) => Ok(Marker::begin(label.clone())),
            Err(e) => Err(e),
        }
    }

    /// A span was exited. The span is not looked up: the sink pairs the
    /// marker with the most recent `begin` that is still open.
    pub fn on_exit(&self, id: u64) -> (marker: Marker)
        ensures
            marker@ == self@.exit(id),
    {
        Marker::end()
    }

    /// A span was closed.
    pub fn on_close(&mut self, id: u64) -> (outcome: Result<(), TraceError>)
        ensures
            match old(self)@.close(id) {
                Ok(next) => outcome is Ok && final(self)@ == next,
                Err(e) => outcome == Err::<(), TraceError>(e) && *final(self) == *old(self),
            },
    {
        self.spans.remove(id)
    }
}

/// A layer for a platform on which the kernel tracing facility is
/// `available`, as [`AtraceLayer::new`] makes it.
pub fn layer(available: bool) -> (made: Result<AtraceLayer, TraceError>)
    ensures
        available ==> made is Ok && made.unwrap()@ == (LayerState {
            rules: FieldRules::new_text(),
            spans: Map::empty(),
        }),
        !available ==> made == Err::<AtraceLayer, TraceError>(TraceError::Unsupported),
{
    AtraceLayer::new(available)
}

} // verus!
