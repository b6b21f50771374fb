//! The span context store: the current label of every span that has been
//! created and not yet closed.

use crate::error::TraceError;
use std::collections::HashMap;
use vstd::prelude::*;

verus! {

broadcast use vstd::std_specs::hash::group_hash_axioms;

/// The labels of the live spans, by span identifier.
pub struct SpanStore {
    labels: HashMap<u64, String>,
}

/// What `create` makes of a store: the store with the new entry, or the
/// refusal where the identifier is taken.
pub open spec fn created(
    labels: Map<u64, Seq<char>>,
    id: u64,
    label: Seq<char>,
) -> Result<Map<u64, Seq<char>>, TraceError> {
    if labels.contains_key(id) {
        Err(TraceError::DuplicateSpan)
    } else {
        Ok(labels.insert(id, label))
    }
}

/// What `update` makes of a store: the store in which the entry holds the new
/// label, or the refusal where there is no entry.
pub open spec fn updated(
    labels: Map<u64, Seq<char>>,
    id: u64,
    label: Seq<char>,
) -> Result<Map<u64, Seq<char>>, TraceError> {
    if labels.contains_key(id) {
        Ok(labels.insert(id, label))
    } else {
        Err(TraceError::UnknownSpan)
    }
}

/// What `get` finds in a store.
pub open spec fn found(labels: Map<u64, Seq<char>>, id: u64) -> Result<Seq<char>, TraceError> {
    if labels.contains_key(id) {
        Ok(labels[id])
    } else {
        Err(TraceError::UnknownSpan)
    }
}

/// What `remove` makes of a store: the store without the entry, or the
/// refusal where there is no entry.
pub open spec fn removed(labels: Map<u64, Seq<char>>, id: u64) -> Result<
    Map<u64, Seq<char>>,
    TraceError,
> {
    if labels.contains_key(id) {
        Ok(labels.remove(id))
    } else {
        Err(TraceError::UnknownSpan)
    }
}

impl View for SpanStore {
    type V = Map<u64, Seq<char>>;

    closed spec fn view(&self) -> Map<u64, Seq<char>> {
        Map::new(|id: u64| self.labels@.contains_key(id), |id: u64| self.labels@[id]@)
    }
}

impl SpanStore {
    /// A store without entries.
    pub fn new() -> (store: SpanStore)
        ensures
            store@ == Map::<u64, Seq<char>>::empty(),
    {
        let store = SpanStore { labels: HashMap::new() };
        assert(store@ =~= Map::<u64, Seq<char>>::empty());
        store
    }

    /// Whether the span has an entry.
    pub fn contains(&self, id: u64) -> (yes: bool)
        ensures
            yes == self@.contains_key(id),
    {
        self.labels.contains_key(&id)
    }

    /// How many spans have an entry.
    pub fn len(&self) -> (n: usize)
        ensures
            n == self@.len(),
    {
        assert(self@.dom() =~= self.labels@.dom());
        self.labels.len()
    }

    /// Inserts the entry of a new span. Refused with `DuplicateSpan`, and the
    /// store left as it was, where the span already has one.
    pub fn create(&mut self, id: u64, label: String) -> (outcome: Result<(), TraceError>)
        ensures
            match created(old(self)@, id, label@) {
                Ok(next) => outcome is Ok && final(self)@ == next,
                Err(e) => outcome == Err::<(), TraceError>(e) && *final(self) == *old(self),
            },
    {
        if self.labels.contains_key(&id) {
            return Err(TraceError::DuplicateSpan);
        }
        self.labels.insert(id, label);
        assert(self@ =~= old(self)@.insert(id, label@));
        Ok(())
    }

    /// Makes `label` the label of the span, and says whether the entry was
    /// written. An entry that already holds this text is not touched. Refused
    /// with `UnknownSpan` where the span has no entry.
    pub fn update(&mut self, id: u64, label: String) -> (outcome: Result<bool, TraceError>)
        ensures
            match updated(old(self)@, id, label@) {
                Ok(next) => {
                    &&& outcome == Ok::<bool, TraceError>(old(self)@[id] != label@)
                    &&& final(self)@ == next
                    &&& old(self)@[id] == label@ ==> *final(self) == *old(self)
                },
                Err(e) => outcome == Err::<bool, TraceError>(e) && *final(self) == *old(self),
            },
    {
        let same = match self.labels.get(&id) {
            Some(current) => *current == label,
            None => {
                return Err(TraceError::UnknownSpan);
            },
        };
        if same {
            assert(self@ =~= old(self)@.insert(id, label@));
            Ok(false)
        } else {
            self.labels.insert(id, label);
            assert(self@ =~= old(self)@.insert(id, label@));
            Ok(true)
        }
    }

    /// The label of the span. Refused with `UnknownSpan` where the span has
    /// no entry.
    pub fn get(&self, id: u64) -> (outcome: Result<&String, TraceError>)
        ensures
            match found(self@, id) {
                Ok(label) => outcome is Ok && outcome.unwrap()@ == label,
                Err(e) => outcome == Err::<&String, TraceError>(e),
            },
    {
        match self.labels.get(&id) {
            Some(label) => Ok(label),
            None => Err(TraceError::UnknownSpan),
        }
    }

    /// Deletes the entry of the span. Refused with `UnknownSpan`, and the
    /// store left as it was, where the span has no entry.
    pub fn remove(&mut self, id: u64) -> (outcome: Result<(), TraceError>)
        ensures
            match removed(old(self)@, id) {
                Ok(next) => outcome is Ok && final(self)@ == next,
                Err(e) => outcome == Err::<(), TraceError>(e) && *final(self) == *old(self),
            },
    {
        if !self.labels.contains_key(&id) {
            return Err(TraceError::UnknownSpan);
        }
        self.labels.remove(&id);
        assert(self@ =~= old(self)@.remove(id));
        Ok(())
    }
}

} // verus!
