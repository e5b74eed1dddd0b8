//! The normalized intermediate representation (IR).
//!
//! A tool-agnostic model of resource changes. Each adapter turns its own IaC tool's plan
//! into this single canonical model, so pricing, cost and reporting never need to know
//! which tool produced the change.

use vstd::prelude::*;
use crate::json::{JsonValue, member, has_unknown_leaf, find_member, contains_unknown};

verus! {

/// What a plan intends to do to a single resource.
///
/// A replacement (destroy then recreate, in either order) normalizes to [`Action::Replace`].
#[derive(Debug, Clone, Copy, PartialEq, Eq, Structural)]
pub enum Action {
    Create,
    Update,
    Delete,
    Replace,
    NoOp,
}

impl Action {
    /// The action brings the resource's new (`after`) spec into being.
    pub open spec fn spec_adds_after(self) -> bool {
        self is Create || self is Update || self is Replace
    }

    /// The action takes the resource's old (`before`) spec away.
    pub open spec fn spec_removes_before(self) -> bool {
        self is Delete || self is Update || self is Replace
    }

    /// Whether this action adds the resource's *new* (`after`) cost.
    pub fn adds_after(self) -> (r: bool)
        ensures
            r == self.spec_adds_after(),
    {
        matches!(self, Action::Create | Action::Update | Action::Replace)
    }

    /// Whether this action removes the resource's *old* (`before`) cost.
    pub fn removes_before(self) -> (r: bool)
        ensures
            r == self.spec_removes_before(),
    {
        matches!(self, Action::Delete | Action::Update | Action::Replace)
    }
}

/// Which side of a change to read attributes from.
#[derive(Debug, Clone, Copy, PartialEq, Eq, Structural)]
pub enum SpecState {
    Before,
    After,
}

/// A resource's attributes (e.g. `instance_type` -> `"t3.large"`), as `(key, value)` pairs.
///
/// Where a key occurs more than once, the pair inserted last is the one that counts.
#[derive(Debug, Clone, PartialEq)]
pub struct Attributes {
    pub entries: Vec<(String, JsonValue)>,
}

impl Attributes {
    /// The value of `key`: the last pair with that key.
    pub open spec fn spec_get(self, key: Seq<char>) -> Option<JsonValue> {
        member(self.entries@, key)
    }

    /// An empty set of attributes.
    pub fn new() -> (r: Attributes)
        ensures
            r.entries@ == Seq::<(String, JsonValue)>::empty(),
            forall|k: Seq<char>| r.spec_get(k) is None,
    {
        Attributes { entries: Vec::new() }
    }

    /// Set `key` to `value`, replacing any earlier value of `key`.
    pub fn insert(&mut self, key: String, value: JsonValue)
        ensures
            final(self).entries@ == old(self).entries@.push((key, value)),
            final(self).spec_get(key@) == Some(value),
            forall|k: Seq<char>| k != key@ ==> final(self).spec_get(k) == old(self).spec_get(k),
    {
        self.entries.push((key, value));
        proof {
            assert(self.entries@.drop_last() =~= old(self).entries@);
        }
    }

    /// Look up a single attribute.
    pub fn get(&self, key: &str) -> (r: Option<&JsonValue>)
        ensures
            match r {
                Some(v) => self.spec_get(key@) == Some(*v),
                None => self.spec_get(key@) is None,
            },
    {
        find_member(&self.entries, key)
    }
}

/// A single normalized resource change.
#[derive(Debug, Clone, PartialEq)]
pub struct ResourceChange {
    /// Stable, unique identifier for the resource within the plan (e.g. `aws_instance.web`).
    pub address: String,
    /// Resource type (e.g. `aws_instance`).
    pub rtype: String,
    /// Resource name (e.g. `web`).
    pub name: String,
    pub action: Action,
    /// Attributes prior to the change (absent for creates).
    pub before: Option<Attributes>,
    /// Attributes after the change (absent for deletes).
    pub after: Option<Attributes>,
    /// Attribute keys whose values are computed and not yet known — they won't be resolved
    /// until the change is applied. A cost-relevant attribute here can't be priced, so it is
    /// reported as "not estimated" rather than $0.
    pub after_unknown: Option<Attributes>,
}

impl ResourceChange {
    /// The attributes of the requested side.
    pub open spec fn side(self, state: SpecState) -> Option<Attributes> {
        match state {
            SpecState::Before => self.before,
            SpecState::After => self.after,
        }
    }

    /// The value of `key` on the requested side.
    pub open spec fn spec_attr(self, state: SpecState, key: Seq<char>) -> Option<JsonValue> {
        match self.side(state) {
            Some(a) => a.spec_get(key),
            None => None,
        }
    }

    /// `key` is computed and not known until apply: `after_unknown` holds `key` with an
    /// unknown leaf somewhere in its value.
    pub open spec fn spec_is_unknown(self, key: Seq<char>) -> bool {
        match self.after_unknown {
            Some(u) => match u.spec_get(key) {
                Some(v) => has_unknown_leaf(v),
                None => false,
            },
            None => false,
        }
    }

    /// Attributes for the requested side, if present.
    pub fn attributes(&self, state: SpecState) -> (r: Option<&Attributes>)
        ensures
            match r {
                Some(a) => self.side(state) == Some(*a),
                None => self.side(state) is None,
            },
    {
        match state {
            SpecState::Before => self.before.as_ref(),
            SpecState::After => self.after.as_ref(),
        }
    }

    /// Look up a single attribute on the requested side.
    pub fn attr(&self, state: SpecState, key: &str) -> (r: Option<&JsonValue>)
        ensures
            match r {
                Some(v) => self.spec_attr(state, key@) == Some(*v),
                None => self.spec_attr(state, key@) is None,
            },
    {
        match self.attributes(state) {
            Some(a) => a.get(key),
            None => None,
        }
    }

    /// True if `key`'s value is computed and won't be known until the change is applied,
    /// so it can't be priced. A partially-computed object/array attribute is flagged when
    /// *any* leaf inside it is unknown — not just when the whole value is the scalar `true`.
    pub fn is_unknown(&self, key: &str) -> (r: bool)
        ensures
            r == self.spec_is_unknown(key@),
    {
        match &self.after_unknown {
            Some(u) => match u.get(key) {
                Some(v) => contains_unknown(v),
                None => false,
            },
            None => false,
        }
    }
}

} // verus!
