use vstd::prelude::*;

use crate::access::{AccessKind, InOutKind, OperKind};
use crate::query::{QueryShape, SlotSpec};
use crate::registry::{ComponentRegistry, MAX_COMPONENTS};

verus! {

/// The runtime record of one requested component, handed to the engine's
/// query matcher.
#[derive(Clone, Copy, Debug, PartialEq, Eq, Structural)]
pub struct TermDescriptor {
    pub component_id: u64,
    pub access: AccessKind,
    /// The position of the slot this term answers.
    pub slot: usize,
}

impl TermDescriptor {
    /// The access mode the engine is asked for.
    pub fn inout(&self) -> (r: InOutKind)
        ensures
            r == self.access.spec_inout(),
    {
        self.access.inout()
    }

    /// Whether the engine may match without this term's component.
    pub fn oper(&self) -> (r: OperKind)
        ensures
            r == self.access.spec_oper(),
    {
        self.access.oper()
    }
}

/// The term descriptors of a shape, given the identifier of each component
/// type: one per slot, in slot order.
pub open spec fn spec_terms(shape: Seq<SlotSpec>, ids: Map<u64, u64>) -> Seq<TermDescriptor> {
    Seq::new(
        shape.len(),
        |s: int|
            TermDescriptor {
                component_id: ids[shape[s].component.type_key],
                access: shape[s].access,
                slot: s as usize,
            },
    )
}

/// Every component type of the shape has an identifier in `ids`.
pub open spec fn all_registered(shape: Seq<SlotSpec>, ids: Map<u64, u64>) -> bool {
    forall|s: int| 0 <= s < shape.len() ==> ids.contains_key(#[trigger] shape[s].component.type_key)
}

/// `after` keeps every identifier of `before` and adds only those of the
/// shape's component types.
pub open spec fn registers_only(
    before: Map<u64, u64>,
    after: Map<u64, u64>,
    shape: Seq<SlotSpec>,
) -> bool {
    &&& forall|k: u64| #[trigger] before.contains_key(k) ==> after.contains_key(k) && after[k] == before[k]
    &&& forall|k: u64|
        #[trigger] after.contains_key(k) ==> before.contains_key(k) || exists|s: int|
            0 <= s < shape.len() && (#[trigger] shape[s]).component.type_key == k
}

/// A shape of a supported arity `n` yields exactly `n` term descriptors; the
/// one at position `s` answers slot `s`, with that slot's access and the
/// identifier of that slot's component type.
pub proof fn lemma_terms_follow_shape(shape: Seq<SlotSpec>, ids: Map<u64, u64>)
    requires
        QueryShape::supported_arity(shape.len()),
    ensures
        spec_terms(shape, ids).len() == shape.len(),
        forall|s: int|
            0 <= s < shape.len() ==> {
                let t = #[trigger] spec_terms(shape, ids)[s];
                &&& t.slot == s
                &&& t.access == shape[s].access
                &&& t.component_id == ids[shape[s].component.type_key]
            },
{
}

impl QueryShape {
    /// Builds the term descriptors of this shape, resolving each component
    /// type's identifier through `registry`, which registers the types it
    /// has not seen. `None` only when the registry runs out of room.
    pub fn register_ids_descriptor(&self, registry: &mut ComponentRegistry) -> (r: Option<
        Vec<TermDescriptor>,
    >)
        requires
            old(registry).wf(),
        ensures
            final(registry).wf(),
            registers_only(old(registry)@, final(registry)@, self@),
            r.is_some() == all_registered(self@, final(registry)@),
            r matches Some(terms) ==> terms@ == spec_terms(self@, final(registry)@),
            old(registry).spec_len() + self@.len() <= MAX_COMPONENTS ==> r.is_some(),
            all_registered(self@, old(registry)@) ==> final(registry)@ == old(registry)@,
    {
        let n = self.arity();
        let mut terms: Vec<TermDescriptor> = Vec::new();
        let mut s: usize = 0;
        while s < n
            invariant
                n == self@.len(),
                0 <= s <= n,
                registry.wf(),
                registers_only(old(registry)@, registry@, self@),
                registry.spec_len() <= old(registry).spec_len() + s,
                all_registered(self@.subrange(0, s as int), registry@),
                terms@ == spec_terms(self@.subrange(0, s as int), registry@),
                all_registered(self@, old(registry)@) ==> registry@ == old(registry)@,
            decreases n - s,
        {
            let slot = self.slot(s);
            let ghost before = *registry;
            let id = registry.resolve_identifier(slot.component.type_key);
            match id {
                None => {
                    assert(!registry@.contains_key(self@[s as int].component.type_key));
                    return None;
                },
                Some(id) => {
                    terms.push(TermDescriptor { component_id: id, access: slot.access, slot: s });
                    proof {
                        let key = slot.component.type_key;
                        assert forall|k: u64| #[trigger]
                            old(registry)@.contains_key(k) implies registry@.contains_key(k)
                            && registry@[k] == old(registry)@[k] by {
                            assert(before@.contains_key(k));
                        }
                        assert forall|k: u64| #[trigger] registry@.contains_key(k) implies old(
                            registry,
                        )@.contains_key(k) || exists|j: int|
                            0 <= j < self@.len() && (#[trigger] self@[j]).component.type_key
                                == k by {
                            if k == key {
                                assert(self@[s as int].component.type_key == k);
                            } else {
                                assert(before@.contains_key(k));
                            }
                        }
                        let prefix = self@.subrange(0, s as int + 1);
                        assert forall|j: int| 0 <= j < prefix.len() implies registry@.contains_key(
                            #[trigger] prefix[j].component.type_key,
                        ) by {
                            if j < s {
                                assert(prefix[j] == self@.subrange(0, s as int)[j]);
                                assert(before@.contains_key(prefix[j].component.type_key));
                            }
                        }
                        assert forall|j: int| 0 <= j < s implies #[trigger] terms@[j]
                            == spec_terms(prefix, registry@)[j] by {
                            assert(prefix[j] == self@.subrange(0, s as int)[j]);
                            assert(before@.contains_key(prefix[j].component.type_key));
                        }
                        assert(terms@ =~= spec_terms(prefix, registry@));
                        if all_registered(self@, old(registry)@) {
                            assert(old(registry)@.contains_key(self@[s as int].component.type_key));
                        }
                    }
                },
            }
            s = s + 1;
        }
        assert(self@.subrange(0, n as int) =~= self@);
        Some(terms)
    }
}

} // verus!
