use vstd::prelude::*;

use crate::access::AccessKind;

verus! {

/// The largest number of slots a query shape may have. The ceiling is a
/// configuration choice, not a property of the layer.
pub const MAX_ARITY: usize = 12;

/// A component type as the query layer sees it: a key that identifies the
/// type, and the size in bytes of one value, which is the stride between
/// consecutive values in a column.
#[derive(Clone, Copy, Debug, PartialEq, Eq, Structural)]
pub struct ComponentType {
    pub type_key: u64,
    pub size: usize,
}

/// One slot of a query shape: a component type and how it is accessed.
#[derive(Clone, Copy, Debug, PartialEq, Eq, Structural)]
pub struct SlotSpec {
    pub component: ComponentType,
    pub access: AccessKind,
}

/// The ordered slots a query asks for. The order of the slots is the order of
/// the terms handed to the engine and of the columns in every batch.
pub struct QueryShape {
    slots: Vec<SlotSpec>,
}

impl View for QueryShape {
    type V = Seq<SlotSpec>;

    closed spec fn view(&self) -> Seq<SlotSpec> {
        self.slots@
    }
}

impl QueryShape {
    #[verifier::type_invariant]
    spec fn inv(self) -> bool {
        1 <= self.slots.len() <= MAX_ARITY
    }

    /// Whether `n` slots make a supported query shape.
    pub open spec fn supported_arity(n: nat) -> bool {
        1 <= n <= MAX_ARITY
    }

    /// Makes a shape of the given slots, in order; `None` when their number
    /// is not between 1 and `MAX_ARITY`.
    pub fn new(slots: Vec<SlotSpec>) -> (r: Option<QueryShape>)
        ensures
            r.is_some() == Self::supported_arity(slots@.len()),
            r matches Some(shape) ==> shape@ == slots@,
    {
        if slots.len() >= 1 && slots.len() <= MAX_ARITY {
            Some(QueryShape { slots })
        } else {
            None
        }
    }

    /// The number of slots.
    pub fn arity(&self) -> (r: usize)
        ensures
            r == self@.len(),
            Self::supported_arity(r as nat),
    {
        proof {
            use_type_invariant(self);
        }
        self.slots.len()
    }

    /// The slot at position `i`.
    pub fn slot(&self, i: usize) -> (r: SlotSpec)
        requires
            i < self@.len(),
        ensures
            r == self@[i as int],
    {
        self.slots[i]
    }
}

} // verus!
