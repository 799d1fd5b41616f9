use vstd::prelude::*;

use crate::materialize::{
    column_fits, spec_slot_ref, spec_slot_view, SlotRef, SlotView, NULL_ADDRESS,
};
use crate::query::{QueryShape, SlotSpec};

verus! {

/// One step of the engine's iteration: the columns that hold the matched
/// components of `entity_count` entities, one column per slot of the query
/// shape, in slot order.
pub struct IterationBatch {
    pub entity_count: usize,
    /// The address of each column; `NULL_ADDRESS` where an optional slot's
    /// component is absent from the batch.
    pub columns: Vec<usize>,
    /// Whether each column holds one component shared by every entity of the
    /// batch rather than one per entity.
    pub is_shared: Vec<bool>,
    /// The matched entities, in row order.
    pub entity_ids: Vec<u64>,
}

/// The columns of a batch agree with a query shape: one column and one
/// shared flag per slot, a null address only for an optional slot, and
/// every column's address range fits in the address space.
pub open spec fn columns_agree(
    slots: Seq<SlotSpec>,
    columns: Seq<usize>,
    shared: Seq<bool>,
    count: usize,
) -> bool {
    &&& columns.len() == slots.len()
    &&& shared.len() == slots.len()
    &&& forall|s: int|
        0 <= s < slots.len() && columns[s] == NULL_ADDRESS ==> (#[trigger] slots[s]).access.spec_is_optional()
    &&& forall|s: int|
        0 <= s < slots.len() ==> column_fits(
            #[trigger] columns[s],
            shared[s],
            slots[s].component.size,
            count,
        )
}

impl IterationBatch {
    /// The batch was produced for a query of the given shape.
    pub open spec fn valid_for(&self, shape: Seq<SlotSpec>) -> bool {
        &&& columns_agree(shape, self.columns@, self.is_shared@, self.entity_count)
        &&& self.entity_ids@.len() == self.entity_count
    }

    /// Checks that the batch was produced for a query of the given shape.
    pub fn is_valid_for(&self, shape: &QueryShape) -> (r: bool)
        ensures
            r == self.valid_for(shape@),
    {
        let n = shape.arity();
        if self.columns.len() != n || self.is_shared.len() != n || self.entity_ids.len()
            != self.entity_count {
            return false;
        }
        let mut s: usize = 0;
        while s < n
            invariant
                n == shape@.len(),
                self.columns@.len() == n,
                self.is_shared@.len() == n,
                0 <= s <= n,
                forall|k: int|
                    0 <= k < s && self.columns@[k] == NULL_ADDRESS
                        ==> (#[trigger] shape@[k]).access.spec_is_optional(),
                forall|k: int|
                    0 <= k < s ==> column_fits(
                        #[trigger] self.columns@[k],
                        self.is_shared@[k],
                        shape@[k].component.size,
                        self.entity_count,
                    ),
            decreases n - s,
        {
            let slot = shape.slot(s);
            let column = self.columns[s];
            if column == NULL_ADDRESS {
                if !slot.access.is_optional() {
                    assert(self.columns@[s as int] == NULL_ADDRESS);
                    return false;
                }
            } else {
                let stride = slot.component.size;
                if self.is_shared[s] {
                    if stride > usize::MAX - column {
                        assert(!column_fits(
                            self.columns@[s as int],
                            self.is_shared@[s as int],
                            shape@[s as int].component.size,
                            self.entity_count,
                        ));
                        return false;
                    }
                } else {
                    let count = self.entity_count;
                    if stride != 0 && count > (usize::MAX - column) / stride {
                        proof {
                            lemma_span_too_large(column, stride, count);
                        }
                        assert(!column_fits(
                            self.columns@[s as int],
                            self.is_shared@[s as int],
                            shape@[s as int].component.size,
                            self.entity_count,
                        ));
                        return false;
                    }
                    proof {
                        lemma_span_fits(column, stride, count);
                    }
                }
            }
            s = s + 1;
        }
        true
    }
}

proof fn lemma_span_too_large(column: usize, stride: usize, count: usize)
    requires
        stride != 0,
        count > (usize::MAX - column) / (stride as int),
    ensures
        column + count * stride > usize::MAX,
{
    let room = usize::MAX - column;
    assert(room < (room / (stride as int) + 1) * stride) by (nonlinear_arith)
        requires
            stride > 0,
            room >= 0,
    ;
    assert(count * stride >= (room / (stride as int) + 1) * stride) by (nonlinear_arith)
        requires
            count >= room / (stride as int) + 1,
            stride > 0,
    ;
}

proof fn lemma_span_fits(column: usize, stride: usize, count: usize)
    requires
        stride == 0 || count <= (usize::MAX - column) / (stride as int),
    ensures
        column + count * stride <= usize::MAX,
{
    let room = usize::MAX - column;
    if stride != 0 {
        assert(count * stride <= (room / (stride as int)) * stride) by (nonlinear_arith)
            requires
                count <= room / (stride as int),
                stride > 0,
        ;
        assert((room / (stride as int)) * stride <= room) by (nonlinear_arith)
            requires
                stride > 0,
                room >= 0,
        ;
    }
}

proof fn lemma_row_fits(column: usize, stride: usize, index: usize, count: usize)
    requires
        index <= count,
        column + count * stride <= usize::MAX,
    ensures
        column + index * stride <= usize::MAX,
{
    assert(index * stride <= count * stride) by (nonlinear_arith)
        requires
            index <= count,
    ;
}

/// The resolved view of one slot's column.
#[derive(Clone, Copy, Debug, PartialEq, Eq, Structural)]
pub struct ArrayElement {
    /// The column's address, `NULL_ADDRESS` where the component is absent.
    pub ptr: usize,
    /// Whether the column holds one component shared by every entity.
    pub is_ref: bool,
}

impl ArrayElement {
    /// Whether an optional slot's component is absent from the batch.
    pub fn is_absent(&self) -> (r: bool)
        ensures
            r == (self.ptr == NULL_ADDRESS),
    {
        self.ptr == NULL_ADDRESS
    }
}

/// The columns of one batch, resolved against the query shape that produced
/// it: per slot its address, its shared flag and the slot it answers. Only
/// addresses are held; column memory stays with the engine.
pub struct ComponentsData {
    array_components: Vec<usize>,
    is_ref_array_components: Vec<bool>,
    slots: Vec<SlotSpec>,
    entity_count: usize,
    is_any_array_a_ref: bool,
}

impl ComponentsData {
    /// The column address of each slot.
    pub closed spec fn columns(&self) -> Seq<usize> {
        self.array_components@
    }

    /// The shared flag of each slot.
    pub closed spec fn shared(&self) -> Seq<bool> {
        self.is_ref_array_components@
    }

    /// The slots of the query shape.
    pub closed spec fn slots(&self) -> Seq<SlotSpec> {
        self.slots@
    }

    /// The number of entities in the batch.
    pub closed spec fn spec_entity_count(&self) -> usize {
        self.entity_count
    }

    /// The flag that selects the fast path is set exactly when some column is
    /// shared.
    pub closed spec fn fast_path_flag_agrees(&self) -> bool {
        self.is_any_array_a_ref == exists|s: int|
            0 <= s < self.shared().len() && #[trigger] self.shared()[s]
    }

    pub open spec fn wf(&self) -> bool {
        &&& columns_agree(self.slots(), self.columns(), self.shared(), self.spec_entity_count())
        &&& self.fast_path_flag_agrees()
    }

    /// What row `row` yields, slot by slot.
    pub open spec fn spec_tuple(&self, row: int) -> Seq<SlotRef> {
        Seq::new(
            self.slots().len(),
            |s: int|
                spec_slot_ref(
                    self.slots()[s].access,
                    self.columns()[s],
                    self.shared()[s],
                    self.slots()[s].component.size,
                    row,
                ),
        )
    }

    /// What the whole batch yields as views, slot by slot.
    pub open spec fn spec_slices(&self) -> Seq<SlotView> {
        Seq::new(
            self.slots().len(),
            |s: int|
                spec_slot_view(
                    self.slots()[s].access,
                    self.columns()[s],
                    self.shared()[s],
                    self.spec_entity_count(),
                ),
        )
    }

    /// Resolves a batch against the shape of the query that produced it.
    pub fn new(shape: &QueryShape, batch: &IterationBatch) -> (r: ComponentsData)
        requires
            batch.valid_for(shape@),
        ensures
            r.wf(),
            r.slots() == shape@,
            r.columns() == batch.columns@,
            r.shared() == batch.is_shared@,
            r.spec_entity_count() == batch.entity_count,
    {
        let mut array_components: Vec<usize> = Vec::new();
        let mut is_ref_array_components: Vec<bool> = Vec::new();
        let mut slots: Vec<SlotSpec> = Vec::new();
        let mut is_any_array_a_ref = false;
        let n = shape.arity();
        let mut s: usize = 0;
        while s < n
            invariant
                n == shape@.len(),
                batch.valid_for(shape@),
                0 <= s <= n,
                array_components@ == batch.columns@.subrange(0, s as int),
                is_ref_array_components@ == batch.is_shared@.subrange(0, s as int),
                slots@ == shape@.subrange(0, s as int),
                is_any_array_a_ref == exists|k: int|
                    0 <= k < s && #[trigger] batch.is_shared@[k],
            decreases n - s,
        {
            array_components.push(batch.columns[s]);
            is_ref_array_components.push(batch.is_shared[s]);
            slots.push(shape.slot(s));
            if batch.is_shared[s] {
                is_any_array_a_ref = true;
            }
            s = s + 1;
            assert(array_components@ =~= batch.columns@.subrange(0, s as int));
            assert(is_ref_array_components@ =~= batch.is_shared@.subrange(0, s as int));
            assert(slots@ =~= shape@.subrange(0, s as int));
        }
        assert(array_components@ =~= batch.columns@);
        assert(is_ref_array_components@ =~= batch.is_shared@);
        assert(slots@ =~= shape@);
        let r = ComponentsData {
            array_components,
            is_ref_array_components,
            slots,
            entity_count: batch.entity_count,
            is_any_array_a_ref,
        };
        proof {
            if is_any_array_a_ref {
                let k = choose|k: int| 0 <= k < n && #[trigger] batch.is_shared@[k];
                assert(r.shared()[k]);
            } else {
                assert forall|k: int| 0 <= k < r.shared().len() implies !#[trigger] r.shared()[k] by {
                    assert(!batch.is_shared@[k]);
                }
            }
        }
        r
    }

    /// The number of entities in the batch.
    pub fn entity_count(&self) -> (r: usize)
        ensures
            r == self.spec_entity_count(),
    {
        self.entity_count
    }

    /// The number of slots.
    pub fn arity(&self) -> (r: usize)
        requires
            self.wf(),
        ensures
            r == self.slots().len(),
    {
        self.slots.len()
    }

    /// The resolved view of slot `slot`'s column.
    pub fn column(&self, slot: usize) -> (r: ArrayElement)
        requires
            self.wf(),
            slot < self.slots().len(),
        ensures
            r.ptr == self.columns()[slot as int],
            r.is_ref == self.shared()[slot as int],
    {
        ArrayElement {
            ptr: self.array_components[slot],
            is_ref: self.is_ref_array_components[slot],
        }
    }

    /// Row `index`, for a batch in which no column is shared.
    fn create_tuple(&self, index: usize) -> (r: Vec<SlotRef>)
        requires
            self.wf(),
            !self.is_any_array_a_ref,
            index < self.spec_entity_count(),
        ensures
            r@ == self.spec_tuple(index as int),
    {
        let n = self.slots.len();
        let mut out: Vec<SlotRef> = Vec::new();
        let mut s: usize = 0;
        while s < n
            invariant
                n == self.slots().len(),
                self.wf(),
                !self.is_any_array_a_ref,
                index < self.spec_entity_count(),
                0 <= s <= n,
                out@.len() == s,
                forall|k: int| 0 <= k < s ==> out@[k] == #[trigger] self.spec_tuple(index as int)[k],
            decreases n - s,
        {
            let slot = self.slots[s];
            let column = self.array_components[s];
            assert(!self.shared()[s as int]);
            assert(column_fits(
                self.columns()[s as int],
                self.shared()[s as int],
                self.slots()[s as int].component.size,
                self.spec_entity_count(),
            ));
            if column != NULL_ADDRESS {
                proof {
                    lemma_row_fits(column, slot.component.size, index, self.entity_count);
                }
            }
            let v = slot.access.create_tuple_data(column, slot.component.size, index);
            out.push(v);
            s = s + 1;
        }
        assert(out@ =~= self.spec_tuple(index as int));
        out
    }

    /// Row `index`, reading each shared column at offset 0.
    fn create_tuple_with_ref(&self, index: usize) -> (r: Vec<SlotRef>)
        requires
            self.wf(),
            index < self.spec_entity_count(),
        ensures
            r@ == self.spec_tuple(index as int),
    {
        let n = self.slots.len();
        let mut out: Vec<SlotRef> = Vec::new();
        let mut s: usize = 0;
        while s < n
            invariant
                n == self.slots().len(),
                self.wf(),
                index < self.spec_entity_count(),
                0 <= s <= n,
                out@.len() == s,
                forall|k: int| 0 <= k < s ==> out@[k] == #[trigger] self.spec_tuple(index as int)[k],
            decreases n - s,
        {
            let slot = self.slots[s];
            let column = self.array_components[s];
            let is_ref = self.is_ref_array_components[s];
            assert(column_fits(
                self.columns()[s as int],
                self.shared()[s as int],
                self.slots()[s as int].component.size,
                self.spec_entity_count(),
            ));
            if column != NULL_ADDRESS && !is_ref {
                proof {
                    lemma_row_fits(column, slot.component.size, index, self.entity_count);
                }
            }
            let v = slot.access.create_tuple_with_ref_data(
                column,
                is_ref,
                slot.component.size,
                index,
            );
            out.push(v);
            s = s + 1;
        }
        assert(out@ =~= self.spec_tuple(index as int));
        out
    }

    /// The views of a batch in which no column is shared.
    fn create_tuple_slices(&self) -> (r: Vec<SlotView>)
        requires
            self.wf(),
            !self.is_any_array_a_ref,
        ensures
            r@ == self.spec_slices(),
    {
        let n = self.slots.len();
        let mut out: Vec<SlotView> = Vec::new();
        let mut s: usize = 0;
        while s < n
            invariant
                n == self.slots().len(),
                self.wf(),
                !self.is_any_array_a_ref,
                0 <= s <= n,
                out@.len() == s,
                forall|k: int| 0 <= k < s ==> out@[k] == #[trigger] self.spec_slices()[k],
            decreases n - s,
        {
            let slot = self.slots[s];
            assert(!self.shared()[s as int]);
            let v = slot.access.create_tuple_slice_data(self.array_components[s], self.entity_count);
            out.push(v);
            s = s + 1;
        }
        assert(out@ =~= self.spec_slices());
        out
    }

    /// The views of a batch, each shared column viewed as its one component.
    fn create_tuple_slices_with_ref(&self) -> (r: Vec<SlotView>)
        requires
            self.wf(),
        ensures
            r@ == self.spec_slices(),
    {
        let n = self.slots.len();
        let mut out: Vec<SlotView> = Vec::new();
        let mut s: usize = 0;
        while s < n
            invariant
                n == self.slots().len(),
                self.wf(),
                0 <= s <= n,
                out@.len() == s,
                forall|k: int| 0 <= k < s ==> out@[k] == #[trigger] self.spec_slices()[k],
            decreases n - s,
        {
            let slot = self.slots[s];
            let v = slot.access.create_tuple_slices_with_ref_data(
                self.array_components[s],
                self.is_ref_array_components[s],
                self.entity_count,
            );
            out.push(v);
            s = s + 1;
        }
        assert(out@ =~= self.spec_slices());
        out
    }

    /// Materializes row `index`: per slot, a reference at offset `index` of
    /// its column, or at offset 0 of a shared column, in the form the slot's
    /// access kind prescribes.
    pub fn get_tuple(&self, index: usize) -> (r: Vec<SlotRef>)
        requires
            self.wf(),
            index < self.spec_entity_count(),
        ensures
            r@ == self.spec_tuple(index as int),
    {
        if self.is_any_array_a_ref {
            self.create_tuple_with_ref(index)
        } else {
            self.create_tuple(index)
        }
    }

    /// Materializes the whole batch: per slot, a view of its column of one
    /// component per entity, or of length 1 for a shared column.
    pub fn get_slice(&self) -> (r: Vec<SlotView>)
        requires
            self.wf(),
        ensures
            r@ == self.spec_slices(),
    {
        if self.is_any_array_a_ref {
            self.create_tuple_slices_with_ref()
        } else {
            self.create_tuple_slices()
        }
    }
}

impl ComponentsData {
    /// Rows of a column that is not shared advance by the component size:
    /// row `j` lies `(j - i) * size` bytes past row `i`, so with a nonzero
    /// size two distinct rows reference distinct components.
    pub proof fn lemma_rows_advance_by_stride(&self, slot: int, i: int, j: int)
        requires
            self.wf(),
            0 <= slot < self.slots().len(),
            !self.shared()[slot],
            self.columns()[slot] != NULL_ADDRESS,
            0 <= i < self.spec_entity_count(),
            0 <= j < self.spec_entity_count(),
        ensures
            self.spec_tuple(i)[slot].spec_address() is Some,
            self.spec_tuple(j)[slot].spec_address() is Some,
            self.spec_tuple(j)[slot].spec_address()->0 - self.spec_tuple(i)[slot].spec_address()->0
                == (j - i) * self.slots()[slot].component.size,
            i != j && self.slots()[slot].component.size > 0 ==> self.spec_tuple(i)[slot]
                != self.spec_tuple(j)[slot],
    {
        let column = self.columns()[slot];
        let stride = self.slots()[slot].component.size;
        let count = self.spec_entity_count();
        assert(column_fits(column, self.shared()[slot], stride, count));
        lemma_row_fits(column, stride, i as usize, count);
        lemma_row_fits(column, stride, j as usize, count);
        assert(0 <= i * stride && 0 <= j * stride) by (nonlinear_arith)
            requires
                0 <= i,
                0 <= j,
        ;
        assert(j * stride - i * stride == (j - i) * stride) by (nonlinear_arith);
        if i != j && stride > 0 {
            assert(i * stride != j * stride) by (nonlinear_arith)
                requires
                    i != j,
                    stride > 0,
            ;
        }
    }

    /// Every row of a shared column references its one component, at
    /// offset 0 of the column.
    pub proof fn lemma_shared_rows_read_offset_zero(&self, slot: int, i: int)
        requires
            self.wf(),
            0 <= slot < self.slots().len(),
            self.shared()[slot],
            self.columns()[slot] != NULL_ADDRESS,
            0 <= i < self.spec_entity_count(),
        ensures
            self.spec_tuple(i)[slot].spec_address() == Some(self.columns()[slot]),
            self.spec_tuple(i)[slot] == self.spec_tuple(0)[slot],
    {
    }

    /// An optional slot whose column is absent yields "absent" on every row;
    /// one whose column is present yields, wrapped as present, what the
    /// same access with the component required yields.
    pub proof fn lemma_optional_rows(&self, slot: int, i: int)
        requires
            self.wf(),
            0 <= slot < self.slots().len(),
            self.slots()[slot].access.spec_is_optional(),
            0 <= i < self.spec_entity_count(),
        ensures
            self.columns()[slot] == NULL_ADDRESS ==> self.spec_tuple(i)[slot].spec_address()
                is None,
            self.columns()[slot] != NULL_ADDRESS ==> self.spec_tuple(i)[slot] == spec_slot_ref(
                self.slots()[slot].access.spec_required(),
                self.columns()[slot],
                self.shared()[slot],
                self.slots()[slot].component.size,
                i,
            ).spec_as_present(),
    {
    }
}

} // verus!
