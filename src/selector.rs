//! The priority selector: an ordered set of segments, each carrying a
//! priority, of which at most one is active.

use vstd::prelude::*;
use crate::task::Priority;

verus! {

/// A handle to one segment of a selector: its position, in the order of insertion.
#[derive(Clone, Copy, Debug, PartialEq, Eq, Structural, Hash)]
pub struct Entity(pub usize);

/// What a selector holds: the priority of each segment, in order, and the
/// position of the active segment, if any.
pub struct Selection {
    pub entries: Seq<Priority>,
    pub active: Option<nat>,
}

impl Selection {
    /// The selection after `entity` was activated: an entity that names no
    /// segment leaves it as it was.
    pub open spec fn activate(self, entity: Entity) -> Selection {
        if entity.0 < self.entries.len() {
            Selection { entries: self.entries, active: Some(entity.0 as nat) }
        } else {
            self
        }
    }

    /// The priority that `entity` carries, if it names a segment.
    pub open spec fn data(self, entity: Entity) -> Option<Priority> {
        if entity.0 < self.entries.len() {
            Some(self.entries[entity.0 as int])
        } else {
            None
        }
    }
}

/// A single-select segmented control whose segments carry priorities.
pub struct PriorityModel {
    entries: Vec<Priority>,
    active: Option<usize>,
}

impl View for PriorityModel {
    type V = Selection;

    closed spec fn view(&self) -> Selection {
        Selection {
            entries: self.entries@,
            active: match self.active {
                Some(i) => Some(i as nat),
                None => None,
            },
        }
    }
}

impl PriorityModel {
    /// The active segment always names one of the segments.
    #[verifier::type_invariant]
    spec fn well_formed(self) -> bool {
        match self.active {
            Some(i) => i < self.entries.len(),
            None => true,
        }
    }

    /// A selector with one segment for each of `entries`, in that order, the
    /// entity of each being its position; no segment is active.
    pub fn from_entries(entries: Vec<Priority>) -> (r: Self)
        ensures
            r@.entries == entries@,
            r@.active is None,
    {
        PriorityModel { entries, active: None }
    }

    /// Makes `entity` the active segment; an entity that names no segment
    /// changes nothing.
    pub fn activate(&mut self, entity: Entity)
        ensures
            final(self)@ == old(self)@.activate(entity),
    {
        proof {
            use_type_invariant(&*self);
        }
        if entity.0 < self.entries.len() {
            self.active = Some(entity.0);
        }
    }

    /// The priority that `entity` carries, if it names a segment.
    pub fn data(&self, entity: Entity) -> (r: Option<Priority>)
        ensures
            r == self@.data(entity),
    {
        if entity.0 < self.entries.len() {
            Some(self.entries[entity.0])
        } else {
            None
        }
    }

    /// The number of segments.
    pub fn len(&self) -> (r: usize)
        ensures
            r == self@.entries.len(),
    {
        self.entries.len()
    }

    /// The active segment, if any.
    pub fn active(&self) -> (r: Option<Entity>)
        ensures
            match self@.active {
                Some(i) => r == Some(Entity(i as usize)),
                None => r is None,
            },
    {
        match self.active {
            Some(i) => Some(Entity(i)),
            None => None,
        }
    }
}

} // verus!
