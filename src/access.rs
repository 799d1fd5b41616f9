use vstd::prelude::*;

verus! {

/// How one slot of a query shape accesses its component.
#[derive(Clone, Copy, Debug, PartialEq, Eq, Structural)]
pub enum AccessKind {
    /// An immutable reference, the component is required.
    ReadValue,
    /// An exclusive reference, the component is required.
    WriteValue,
    /// An immutable reference when the component is present.
    OptionalReadValue,
    /// An exclusive reference when the component is present.
    OptionalWriteValue,
}

/// The access mode of a term, as the engine's matcher reads it.
#[derive(Clone, Copy, Debug, PartialEq, Eq, Structural)]
pub enum InOutKind {
    In,
    InOut,
}

/// Whether a term must match or may be absent.
#[derive(Clone, Copy, Debug, PartialEq, Eq, Structural)]
pub enum OperKind {
    And,
    Optional,
}

impl AccessKind {
    pub open spec fn spec_is_optional(self) -> bool {
        self is OptionalReadValue || self is OptionalWriteValue
    }

    pub open spec fn spec_is_write(self) -> bool {
        self is WriteValue || self is OptionalWriteValue
    }

    pub open spec fn spec_inout(self) -> InOutKind {
        if self.spec_is_write() {
            InOutKind::InOut
        } else {
            InOutKind::In
        }
    }

    pub open spec fn spec_oper(self) -> OperKind {
        if self.spec_is_optional() {
            OperKind::Optional
        } else {
            OperKind::And
        }
    }

    /// The kind of the same access with the component required.
    pub open spec fn spec_required(self) -> AccessKind {
        match self {
            AccessKind::OptionalReadValue => AccessKind::ReadValue,
            AccessKind::OptionalWriteValue => AccessKind::WriteValue,
            k => k,
        }
    }

    /// Whether absence of the component is representable for this slot.
    pub fn is_optional(&self) -> (r: bool)
        ensures
            r == self.spec_is_optional(),
    {
        match self {
            AccessKind::OptionalReadValue | AccessKind::OptionalWriteValue => true,
            _ => false,
        }
    }

    /// Whether this slot hands out exclusive references.
    pub fn is_write(&self) -> (r: bool)
        ensures
            r == self.spec_is_write(),
    {
        match self {
            AccessKind::WriteValue | AccessKind::OptionalWriteValue => true,
            _ => false,
        }
    }

    /// The term access mode this slot asks of the engine.
    pub fn inout(&self) -> (r: InOutKind)
        ensures
            r == self.spec_inout(),
    {
        if self.is_write() {
            InOutKind::InOut
        } else {
            InOutKind::In
        }
    }

    /// The term operator this slot asks of the engine.
    pub fn oper(&self) -> (r: OperKind)
        ensures
            r == self.spec_oper(),
    {
        if self.is_optional() {
            OperKind::Optional
        } else {
            OperKind::And
        }
    }
}

} // verus!
