use vstd::prelude::*;

use crate::query::QueryShape;
use crate::registry::{ComponentRegistry, MAX_COMPONENTS};
use crate::terms::{all_registered, registers_only, spec_terms, TermDescriptor};

verus! {

/// What a pipeline is built from: the entity that stands for the pipeline,
/// and the terms that select the systems it runs.
pub struct PipelineDesc {
    pub entity: u64,
    pub terms: Vec<TermDescriptor>,
}

/// `base` with the terms `added` written over it from position `at` on,
/// extended where `added` runs past its end.
pub open spec fn spec_overlay(
    base: Seq<TermDescriptor>,
    at: int,
    added: Seq<TermDescriptor>,
) -> Seq<TermDescriptor> {
    let len = if at + added.len() > base.len() {
        at + added.len()
    } else {
        base.len() as int
    };
    Seq::new(
        len as nat,
        |k: int|
            if at <= k < at + added.len() {
                added[k - at]
            } else {
                base[k]
            },
    )
}

/// Builds the description of a pipeline whose query has a given shape.
pub struct PipelineBuilder {
    desc: PipelineDesc,
    term_index: usize,
    is_instanced: bool,
}

impl PipelineBuilder {
    pub closed spec fn spec_entity(&self) -> u64 {
        self.desc.entity
    }

    pub closed spec fn spec_terms(&self) -> Seq<TermDescriptor> {
        self.desc.terms@
    }

    /// The position at which the next term would be written.
    pub closed spec fn spec_term_index(&self) -> usize {
        self.term_index
    }

    pub closed spec fn spec_is_instanced(&self) -> bool {
        self.is_instanced
    }

    pub open spec fn wf(&self) -> bool {
        self.spec_term_index() <= self.spec_terms().len()
    }

    /// Writes `term` at the current position and moves past it.
    fn write_term(&mut self, term: TermDescriptor)
        requires
            old(self).wf(),
            old(self).spec_term_index() < usize::MAX,
        ensures
            final(self).wf(),
            final(self).spec_terms() == spec_overlay(
                old(self).spec_terms(),
                old(self).spec_term_index() as int,
                seq![term],
            ),
            final(self).spec_term_index() == old(self).spec_term_index() + 1,
            final(self).spec_entity() == old(self).spec_entity(),
            final(self).spec_is_instanced() == old(self).spec_is_instanced(),
    {
        let ghost before = self.desc.terms@;
        let at = self.term_index;
        if at < self.desc.terms.len() {
            self.desc.terms.set(at, term);
        } else {
            self.desc.terms.push(term);
        }
        self.term_index = at + 1;
        assert(self.desc.terms@ =~= spec_overlay(before, at as int, seq![term]));
    }

    /// Writes the shape's terms from the current position on.
    fn populate(&mut self, shape: &QueryShape, terms: &Vec<TermDescriptor>)
        requires
            old(self).wf(),
            terms@.len() == shape@.len(),
            old(self).spec_term_index() + terms@.len() <= usize::MAX,
        ensures
            final(self).wf(),
            final(self).spec_terms() == spec_overlay(
                old(self).spec_terms(),
                old(self).spec_term_index() as int,
                terms@,
            ),
            final(self).spec_term_index() == old(self).spec_term_index() + terms@.len(),
            final(self).spec_entity() == old(self).spec_entity(),
            final(self).spec_is_instanced() == old(self).spec_is_instanced(),
    {
        let n = terms.len();
        let start = self.term_index;
        let mut s: usize = 0;
        while s < n
            invariant
                n == terms@.len(),
                start == old(self).spec_term_index(),
                start + n <= usize::MAX,
                0 <= s <= n,
                self.wf(),
                self.spec_term_index() == start + s,
                self.spec_terms() == spec_overlay(
                    old(self).spec_terms(),
                    start as int,
                    terms@.subrange(0, s as int),
                ),
                self.spec_entity() == old(self).spec_entity(),
                self.spec_is_instanced() == old(self).spec_is_instanced(),
            decreases n - s,
        {
            let ghost before = self.spec_terms();
            self.write_term(terms[s]);
            s = s + 1;
            assert(self.spec_terms() =~= spec_overlay(
                old(self).spec_terms(),
                start as int,
                terms@.subrange(0, s as int),
            ));
        }
        assert(terms@.subrange(0, n as int) =~= terms@);
    }

    /// Starts a pipeline for the entity `entity`, with the terms of `shape`,
    /// resolving component identifiers through `registry`. `None` only when
    /// the registry runs out of room.
    pub fn new_entity(shape: &QueryShape, registry: &mut ComponentRegistry, entity: u64) -> (r:
        Option<PipelineBuilder>)
        requires
            old(registry).wf(),
        ensures
            final(registry).wf(),
            registers_only(old(registry)@, final(registry)@, shape@),
            r.is_some() == all_registered(shape@, final(registry)@),
            old(registry).spec_len() + shape@.len() <= MAX_COMPONENTS ==> r.is_some(),
            r matches Some(b) ==> {
                &&& b.wf()
                &&& b.spec_entity() == entity
                &&& b.spec_terms() == spec_terms(shape@, final(registry)@)
                &&& b.spec_term_index() == shape@.len()
                &&& !b.spec_is_instanced()
            },
    {
        let desc = PipelineDesc { entity, terms: Vec::new() };
        let r = Self::new_from_desc_term_index(shape, registry, desc, 0);
        proof {
            if r is Some {
                assert(r->0.spec_terms() =~= spec_terms(shape@, registry@));
            }
        }
        r
    }

    /// Starts a pipeline from an existing description, writing the terms of
    /// `shape` from position `term_index` on, over what `desc` holds there.
    /// `None` only when the registry runs out of room.
    pub fn new_from_desc_term_index(
        shape: &QueryShape,
        registry: &mut ComponentRegistry,
        desc: PipelineDesc,
        term_index: i32,
    ) -> (r: Option<PipelineBuilder>)
        requires
            old(registry).wf(),
            0 <= term_index <= desc.terms@.len(),
        ensures
            final(registry).wf(),
            registers_only(old(registry)@, final(registry)@, shape@),
            r.is_some() == all_registered(shape@, final(registry)@),
            old(registry).spec_len() + shape@.len() <= MAX_COMPONENTS ==> r.is_some(),
            r matches Some(b) ==> {
                &&& b.wf()
                &&& b.spec_entity() == desc.entity
                &&& b.spec_terms() == spec_overlay(
                    desc.terms@,
                    term_index as int,
                    spec_terms(shape@, final(registry)@),
                )
                &&& b.spec_term_index() == term_index + shape@.len()
                &&& !b.spec_is_instanced()
            },
    {
        let n = shape.arity();
        match shape.register_ids_descriptor(registry) {
            None => None,
            Some(terms) => {
                let mut b = PipelineBuilder {
                    desc,
                    term_index: term_index as usize,
                    is_instanced: false,
                };
                assert(terms@.len() == shape@.len());
                b.populate(shape, &terms);
                Some(b)
            },
        }
    }

    /// The entity that stands for the pipeline.
    pub fn entity(&self) -> (r: u64)
        ensures
            r == self.spec_entity(),
    {
        self.desc.entity
    }

    /// The terms written so far.
    pub fn terms(&self) -> (r: &Vec<TermDescriptor>)
        ensures
            r@ == self.spec_terms(),
    {
        &self.desc.terms
    }
}

} // verus!
