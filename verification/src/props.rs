//! A model of a unit's property set: the unordered string-to-value mapping
//! that the service manager reports for each unit.
//!
//! The core consumes only string-valued and unsigned-64-valued properties;
//! every other payload is carried as `Other`.

use vstd::prelude::*;

use crate::kvlist::{kv_get, kv_map};

verus! {

/// A single property value, as far as the core reads it.
#[derive(Debug)]
pub enum PropValue {
    Str(String),
    U64(u64),
    Other,
}

/// The mathematical shape of a property value.
pub enum PropView {
    Str(Seq<char>),
    U64(u64),
    Other,
}

impl View for PropValue {
    type V = PropView;

    open spec fn view(&self) -> PropView {
        match self {
            PropValue::Str(s) => PropView::Str(s@),
            PropValue::U64(t) => PropView::U64(*t),
            PropValue::Other => PropView::Other,
        }
    }
}

/// A unit's properties, keyed by property name.
#[derive(Debug)]
pub struct UnitProps {
    entries: Vec<(String, PropValue)>,
}

impl View for UnitProps {
    type V = Map<Seq<char>, PropView>;

    closed spec fn view(&self) -> Map<Seq<char>, PropView> {
        kv_map(self.entries@)
    }
}

impl UnitProps {
    /// An empty property set.
    pub fn new() -> (r: UnitProps)
        ensures
            r@ == Map::<Seq<char>, PropView>::empty(),
    {
        UnitProps { entries: Vec::new() }
    }

    /// Record a property, replacing any earlier value under the same name.
    pub fn insert(&mut self, key: String, value: PropValue)
        ensures
            final(self)@ == old(self)@.insert(key@, value@),
    {
        let ghost prior = self.entries@;
        self.entries.push((key, value));
        proof {
            assert(self.entries@.drop_last() =~= prior);
        }
    }

    /// Look a property up by name.
    pub fn get(&self, key: &str) -> (r: Option<&PropValue>)
        ensures
            match r {
                Some(v) => self@.contains_key(key@) && v@ == self@[key@],
                None => !self@.contains_key(key@),
            },
    {
        kv_get(&self.entries, key)
    }
}

} // verus!
