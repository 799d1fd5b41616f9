use vstd::prelude::*;

use crate::access::AccessKind;

verus! {

/// The address that stands for a missing column.
pub const NULL_ADDRESS: usize = 0;

/// One slot of a materialized row: a reference into a column, given by the
/// address of the referenced component, in the form that the slot's access
/// kind prescribes.
#[derive(Clone, Copy, Debug, PartialEq, Eq, Structural)]
pub enum SlotRef {
    /// An immutable reference.
    Ref(usize),
    /// An exclusive reference.
    Mut(usize),
    /// An immutable reference, or absent.
    OptRef(Option<usize>),
    /// An exclusive reference, or absent.
    OptMut(Option<usize>),
}

/// A contiguous run of components inside one column.
#[derive(Clone, Copy, Debug, PartialEq, Eq, Structural)]
pub struct ColumnView {
    /// The address of the first component.
    pub address: usize,
    /// The number of components.
    pub len: usize,
}

/// One slot of a materialized batch: a view of its column, in the form that
/// the slot's access kind prescribes.
#[derive(Clone, Copy, Debug, PartialEq, Eq, Structural)]
pub enum SlotView {
    /// An immutable view.
    Slice(ColumnView),
    /// An exclusive view.
    SliceMut(ColumnView),
    /// An immutable view, or absent.
    OptSlice(Option<ColumnView>),
    /// An exclusive view, or absent.
    OptSliceMut(Option<ColumnView>),
}

impl SlotRef {
    /// The referenced address, or `None` when the slot is absent.
    pub open spec fn spec_address(self) -> Option<usize> {
        match self {
            SlotRef::Ref(a) => Some(a),
            SlotRef::Mut(a) => Some(a),
            SlotRef::OptRef(o) => o,
            SlotRef::OptMut(o) => o,
        }
    }

    /// The same reference wrapped as present, in the optional form.
    pub open spec fn spec_as_present(self) -> SlotRef {
        match self {
            SlotRef::Ref(a) => SlotRef::OptRef(Some(a)),
            SlotRef::Mut(a) => SlotRef::OptMut(Some(a)),
            r => r,
        }
    }

    /// The referenced address, or `None` when the slot is absent.
    pub fn address(&self) -> (r: Option<usize>)
        ensures
            r == self.spec_address(),
    {
        match self {
            SlotRef::Ref(a) => Some(*a),
            SlotRef::Mut(a) => Some(*a),
            SlotRef::OptRef(o) => *o,
            SlotRef::OptMut(o) => *o,
        }
    }
}

impl SlotView {
    /// The viewed run, or `None` when the slot is absent.
    pub open spec fn spec_column(self) -> Option<ColumnView> {
        match self {
            SlotView::Slice(v) => Some(v),
            SlotView::SliceMut(v) => Some(v),
            SlotView::OptSlice(o) => o,
            SlotView::OptSliceMut(o) => o,
        }
    }

    /// The viewed run, or `None` when the slot is absent.
    pub fn column(&self) -> (r: Option<ColumnView>)
        ensures
            r == self.spec_column(),
    {
        match self {
            SlotView::Slice(v) => Some(*v),
            SlotView::SliceMut(v) => Some(*v),
            SlotView::OptSlice(o) => *o,
            SlotView::OptSliceMut(o) => *o,
        }
    }
}

/// The address of row `row` in a column that starts at `column` and holds
/// components `stride` bytes apart: a shared column holds its one component
/// at offset 0 for every row.
pub open spec fn row_address(column: usize, is_shared: bool, stride: usize, row: int) -> int {
    if is_shared {
        column as int
    } else {
        column + row * stride
    }
}

/// The number of components a batch view of a column spans.
pub open spec fn view_len(is_shared: bool, count: usize) -> usize {
    if is_shared {
        1
    } else {
        count
    }
}

/// A column address range fits in the address space: every row of a batch
/// of `count` entities, and the end of its last component, has an address.
pub open spec fn column_fits(column: usize, is_shared: bool, stride: usize, count: usize) -> bool {
    column == NULL_ADDRESS || row_address(column, is_shared, stride, count as int) + (
    if is_shared {
        stride as int
    } else {
        0int
    }) <= usize::MAX
}

/// What row `row` of a column yields for a slot of kind `access`.
pub open spec fn spec_slot_ref(
    access: AccessKind,
    column: usize,
    is_shared: bool,
    stride: usize,
    row: int,
) -> SlotRef {
    let a = row_address(column, is_shared, stride, row) as usize;
    match access {
        AccessKind::ReadValue => SlotRef::Ref(a),
        AccessKind::WriteValue => SlotRef::Mut(a),
        AccessKind::OptionalReadValue => SlotRef::OptRef(
            if column == NULL_ADDRESS {
                None
            } else {
                Some(a)
            },
        ),
        AccessKind::OptionalWriteValue => SlotRef::OptMut(
            if column == NULL_ADDRESS {
                None
            } else {
                Some(a)
            },
        ),
    }
}

/// What a batch of `count` entities yields as a view of a column for a slot
/// of kind `access`.
pub open spec fn spec_slot_view(
    access: AccessKind,
    column: usize,
    is_shared: bool,
    count: usize,
) -> SlotView {
    let v = ColumnView { address: column, len: view_len(is_shared, count) };
    match access {
        AccessKind::ReadValue => SlotView::Slice(v),
        AccessKind::WriteValue => SlotView::SliceMut(v),
        AccessKind::OptionalReadValue => SlotView::OptSlice(
            if column == NULL_ADDRESS {
                None
            } else {
                Some(v)
            },
        ),
        AccessKind::OptionalWriteValue => SlotView::OptSliceMut(
            if column == NULL_ADDRESS {
                None
            } else {
                Some(v)
            },
        ),
    }
}

impl AccessKind {
    /// Wraps the address `a` of a component of `column` as this kind
    /// prescribes.
    fn wrap_ref(&self, column: usize, a: usize) -> (r: SlotRef)
        ensures
            r == (match *self {
                AccessKind::ReadValue => SlotRef::Ref(a),
                AccessKind::WriteValue => SlotRef::Mut(a),
                AccessKind::OptionalReadValue => SlotRef::OptRef(
                    if column == NULL_ADDRESS {
                        None
                    } else {
                        Some(a)
                    },
                ),
                AccessKind::OptionalWriteValue => SlotRef::OptMut(
                    if column == NULL_ADDRESS {
                        None
                    } else {
                        Some(a)
                    },
                ),
            }),
    {
        match self {
            AccessKind::ReadValue => SlotRef::Ref(a),
            AccessKind::WriteValue => SlotRef::Mut(a),
            AccessKind::OptionalReadValue => {
                if column == NULL_ADDRESS {
                    SlotRef::OptRef(None)
                } else {
                    SlotRef::OptRef(Some(a))
                }
            },
            AccessKind::OptionalWriteValue => {
                if column == NULL_ADDRESS {
                    SlotRef::OptMut(None)
                } else {
                    SlotRef::OptMut(Some(a))
                }
            },
        }
    }

    /// Wraps the run `v` of `column` as this kind prescribes.
    fn wrap_view(&self, column: usize, v: ColumnView) -> (r: SlotView)
        ensures
            r == (match *self {
                AccessKind::ReadValue => SlotView::Slice(v),
                AccessKind::WriteValue => SlotView::SliceMut(v),
                AccessKind::OptionalReadValue => SlotView::OptSlice(
                    if column == NULL_ADDRESS {
                        None
                    } else {
                        Some(v)
                    },
                ),
                AccessKind::OptionalWriteValue => SlotView::OptSliceMut(
                    if column == NULL_ADDRESS {
                        None
                    } else {
                        Some(v)
                    },
                ),
            }),
    {
        match self {
            AccessKind::ReadValue => SlotView::Slice(v),
            AccessKind::WriteValue => SlotView::SliceMut(v),
            AccessKind::OptionalReadValue => {
                if column == NULL_ADDRESS {
                    SlotView::OptSlice(None)
                } else {
                    SlotView::OptSlice(Some(v))
                }
            },
            AccessKind::OptionalWriteValue => {
                if column == NULL_ADDRESS {
                    SlotView::OptSliceMut(None)
                } else {
                    SlotView::OptSliceMut(Some(v))
                }
            },
        }
    }

    /// Row `index` of a column that holds one component per entity.
    pub fn create_tuple_data(&self, column: usize, stride: usize, index: usize) -> (r: SlotRef)
        requires
            (column == NULL_ADDRESS && self.spec_is_optional()) || column + index * stride
                <= usize::MAX,
        ensures
            r == spec_slot_ref(*self, column, false, stride, index as int),
    {
        if column == NULL_ADDRESS && self.is_optional() {
            self.wrap_ref(column, 0)
        } else {
            assert(0 <= index * stride) by (nonlinear_arith);
            let a = column + index * stride;
            self.wrap_ref(column, a)
        }
    }

    /// Row `index` of a column, which is shared when `is_ref` holds: a
    /// shared column yields its component at offset 0 for every row.
    pub fn create_tuple_with_ref_data(
        &self,
        column: usize,
        is_ref: bool,
        stride: usize,
        index: usize,
    ) -> (r: SlotRef)
        requires
            is_ref || (column == NULL_ADDRESS && self.spec_is_optional()) || column + index
                * stride <= usize::MAX,
        ensures
            r == spec_slot_ref(*self, column, is_ref, stride, index as int),
    {
        if is_ref {
            self.wrap_ref(column, column)
        } else {
            self.create_tuple_data(column, stride, index)
        }
    }

    /// The view of a column that holds one component per entity, for a
    /// batch of `count` entities.
    pub fn create_tuple_slice_data(&self, column: usize, count: usize) -> (r: SlotView)
        ensures
            r == spec_slot_view(*self, column, false, count),
    {
        self.wrap_view(column, ColumnView { address: column, len: count })
    }

    /// The view of a column, which is shared when `is_ref` holds, for a
    /// batch of `count` entities: a shared column is viewed as its one
    /// component, never repeated.
    pub fn create_tuple_slices_with_ref_data(&self, column: usize, is_ref: bool, count: usize) -> (r:
        SlotView)
        ensures
            r == spec_slot_view(*self, column, is_ref, count),
    {
        if is_ref {
            self.wrap_view(column, ColumnView { address: column, len: 1 })
        } else {
            self.create_tuple_slice_data(column, count)
        }
    }
}

} // verus!
