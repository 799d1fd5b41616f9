use flecs_query::{
    AccessKind, ArrayElement, ColumnView, ComponentRegistry, ComponentType, ComponentsData,
    IterationBatch, QueryShape, SlotRef, SlotSpec, SlotView, NULL_ADDRESS,
};

fn slot(type_key: u64, size: usize, access: AccessKind) -> SlotSpec {
    SlotSpec { component: ComponentType { type_key, size }, access }
}

fn batch(entity_count: usize, columns: Vec<usize>, is_shared: Vec<bool>) -> IterationBatch {
    let entity_ids = (0..entity_count as u64).map(|e| 500 + e).collect();
    IterationBatch { entity_count, columns, is_shared, entity_ids }
}

fn resolve(shape: &QueryShape, b: &IterationBatch) -> ComponentsData {
    assert!(b.is_valid_for(shape));
    ComponentsData::new(shape, b)
}

const ADDR_A: usize = 0x1000;
const ADDR_B: usize = 0x2000;

#[test]
fn three_slot_round_trip() {
    let shape = QueryShape::new(vec![
        slot(1, 4, AccessKind::ReadValue),
        slot(2, 8, AccessKind::WriteValue),
        slot(3, 2, AccessKind::OptionalReadValue),
    ])
    .unwrap();
    let b = batch(5, vec![ADDR_A, ADDR_B, NULL_ADDRESS], vec![false, false, false]);
    let data = resolve(&shape, &b);
    assert_eq!(data.entity_count(), 5);
    assert_eq!(data.arity(), 3);
    for row in 0..5usize {
        let t = data.get_tuple(row);
        assert_eq!(
            t,
            vec![
                SlotRef::Ref(ADDR_A + 4 * row),
                SlotRef::Mut(ADDR_B + 8 * row),
                SlotRef::OptRef(None),
            ]
        );
    }
}

#[test]
fn shared_slot_round_trip() {
    // Column A holds one u32 per entity, column B one value for the batch.
    let memory_a: Vec<u32> = vec![10, 20, 30];
    let memory_b: Vec<u32> = vec![50];
    let size = 4;
    let shape = QueryShape::new(vec![
        slot(1, size, AccessKind::ReadValue),
        slot(2, size, AccessKind::ReadValue),
    ])
    .unwrap();
    let b = batch(3, vec![ADDR_A, ADDR_B], vec![false, true]);
    let data = resolve(&shape, &b);
    let read = |base: usize, memory: &Vec<u32>, r: SlotRef| -> u32 {
        let a = r.address().unwrap();
        memory[(a - base) / size]
    };
    let mut slot0 = Vec::new();
    for row in 0..3usize {
        let t = data.get_tuple(row);
        assert_eq!(t[1], SlotRef::Ref(ADDR_B));
        assert_eq!(read(ADDR_B, &memory_b, t[1]), 50);
        slot0.push(read(ADDR_A, &memory_a, t[0]));
    }
    assert_eq!(slot0, vec![10, 20, 30]);
}

#[test]
fn batch_view_lengths() {
    let shape = QueryShape::new(vec![
        slot(1, 4, AccessKind::ReadValue),
        slot(2, 4, AccessKind::ReadValue),
    ])
    .unwrap();
    let b = batch(3, vec![ADDR_A, ADDR_B], vec![false, true]);
    let data = resolve(&shape, &b);
    let views = data.get_slice();
    assert_eq!(
        views,
        vec![
            SlotView::Slice(ColumnView { address: ADDR_A, len: 3 }),
            SlotView::Slice(ColumnView { address: ADDR_B, len: 1 }),
        ]
    );
}

#[test]
fn batch_views_for_every_access_kind() {
    let shape = QueryShape::new(vec![
        slot(1, 4, AccessKind::WriteValue),
        slot(2, 4, AccessKind::OptionalReadValue),
        slot(3, 4, AccessKind::OptionalWriteValue),
        slot(4, 4, AccessKind::OptionalWriteValue),
    ])
    .unwrap();
    let b = batch(4, vec![ADDR_A, NULL_ADDRESS, ADDR_B, 0x3000], vec![false, false, true, false]);
    let data = resolve(&shape, &b);
    assert_eq!(
        data.get_slice(),
        vec![
            SlotView::SliceMut(ColumnView { address: ADDR_A, len: 4 }),
            SlotView::OptSlice(None),
            SlotView::OptSliceMut(Some(ColumnView { address: ADDR_B, len: 1 })),
            SlotView::OptSliceMut(Some(ColumnView { address: 0x3000, len: 4 })),
        ]
    );
    assert_eq!(data.get_slice()[1].column(), None);
    assert_eq!(data.get_slice()[0].column(), Some(ColumnView { address: ADDR_A, len: 4 }));
}

#[test]
fn rows_of_unshared_column_advance_by_stride() {
    let size = 12;
    let shape = QueryShape::new(vec![slot(1, size, AccessKind::WriteValue)]).unwrap();
    let b = batch(6, vec![ADDR_A], vec![false]);
    let data = resolve(&shape, &b);
    let addresses: Vec<usize> =
        (0..6usize).map(|row| data.get_tuple(row)[0].address().unwrap()).collect();
    for i in 0..6usize {
        for j in 0..6usize {
            if i != j {
                assert_ne!(addresses[i], addresses[j]);
            }
        }
    }
    for row in 1..6usize {
        assert_eq!(addresses[row] - addresses[row - 1], size);
    }
}

#[test]
fn rows_of_shared_column_read_offset_zero() {
    let shape = QueryShape::new(vec![
        slot(1, 16, AccessKind::ReadValue),
        slot(2, 16, AccessKind::WriteValue),
    ])
    .unwrap();
    let b = batch(7, vec![ADDR_A, ADDR_B], vec![true, false]);
    let data = resolve(&shape, &b);
    for row in 0..7usize {
        let t = data.get_tuple(row);
        assert_eq!(t[0], SlotRef::Ref(ADDR_A));
        assert_eq!(t[1], SlotRef::Mut(ADDR_B + 16 * row));
    }
}

#[test]
fn optional_slots_absent_or_present() {
    let shape = QueryShape::new(vec![
        slot(1, 4, AccessKind::OptionalReadValue),
        slot(2, 4, AccessKind::OptionalWriteValue),
        slot(3, 4, AccessKind::OptionalReadValue),
    ])
    .unwrap();
    let b = batch(3, vec![NULL_ADDRESS, ADDR_B, ADDR_A], vec![false, false, true]);
    let data = resolve(&shape, &b);
    let required = QueryShape::new(vec![
        slot(2, 4, AccessKind::WriteValue),
        slot(3, 4, AccessKind::ReadValue),
    ])
    .unwrap();
    let rb = batch(3, vec![ADDR_B, ADDR_A], vec![false, true]);
    let rdata = resolve(&required, &rb);
    for row in 0..3usize {
        let t = data.get_tuple(row);
        let r = rdata.get_tuple(row);
        assert_eq!(t[0], SlotRef::OptRef(None));
        assert_eq!(t[0].address(), None);
        assert_eq!(r[0], SlotRef::Mut(ADDR_B + 4 * row));
        assert_eq!(t[1], SlotRef::OptMut(r[0].address()));
        assert_eq!(t[2], SlotRef::OptRef(r[1].address()));
    }
}

#[test]
fn fast_path_matches_general_path_without_sharing() {
    let kinds = [
        AccessKind::ReadValue,
        AccessKind::WriteValue,
        AccessKind::OptionalReadValue,
        AccessKind::OptionalWriteValue,
    ];
    for kind in kinds {
        let shape = QueryShape::new(vec![slot(1, 8, kind)]).unwrap();
        let b = batch(4, vec![ADDR_A], vec![false]);
        let data = resolve(&shape, &b);
        for row in 0..4usize {
            let via_tuple = data.get_tuple(row)[0];
            let direct = kind.create_tuple_with_ref_data(ADDR_A, false, 8, row);
            assert_eq!(via_tuple, direct);
            assert_eq!(via_tuple, kind.create_tuple_data(ADDR_A, 8, row));
            assert_eq!(via_tuple.address(), Some(ADDR_A + 8 * row));
        }
    }
}

#[test]
fn per_slot_materialization() {
    assert_eq!(AccessKind::ReadValue.create_tuple_data(100, 4, 3), SlotRef::Ref(112));
    assert_eq!(AccessKind::WriteValue.create_tuple_with_ref_data(100, true, 4, 3), SlotRef::Mut(100));
    assert_eq!(
        AccessKind::OptionalReadValue.create_tuple_with_ref_data(NULL_ADDRESS, false, 4, 3),
        SlotRef::OptRef(None)
    );
    assert_eq!(
        AccessKind::OptionalWriteValue.create_tuple_data(200, 2, 5),
        SlotRef::OptMut(Some(210))
    );
    assert_eq!(
        AccessKind::ReadValue.create_tuple_slice_data(100, 9),
        SlotView::Slice(ColumnView { address: 100, len: 9 })
    );
    assert_eq!(
        AccessKind::WriteValue.create_tuple_slices_with_ref_data(100, true, 9),
        SlotView::SliceMut(ColumnView { address: 100, len: 1 })
    );
    assert_eq!(
        AccessKind::OptionalWriteValue.create_tuple_slices_with_ref_data(NULL_ADDRESS, true, 9),
        SlotView::OptSliceMut(None)
    );
}

#[test]
fn zero_sized_components_share_an_address() {
    let shape = QueryShape::new(vec![slot(1, 0, AccessKind::ReadValue)]).unwrap();
    let b = batch(3, vec![ADDR_A], vec![false]);
    let data = resolve(&shape, &b);
    for row in 0..3usize {
        assert_eq!(data.get_tuple(row)[0], SlotRef::Ref(ADDR_A));
    }
}

#[test]
fn empty_batch_views() {
    let shape = QueryShape::new(vec![
        slot(1, 4, AccessKind::ReadValue),
        slot(2, 4, AccessKind::ReadValue),
    ])
    .unwrap();
    let b = batch(0, vec![ADDR_A, ADDR_B], vec![false, true]);
    let data = resolve(&shape, &b);
    assert_eq!(
        data.get_slice(),
        vec![
            SlotView::Slice(ColumnView { address: ADDR_A, len: 0 }),
            SlotView::Slice(ColumnView { address: ADDR_B, len: 1 }),
        ]
    );
}

#[test]
fn resolved_columns() {
    let shape = QueryShape::new(vec![
        slot(1, 4, AccessKind::ReadValue),
        slot(2, 4, AccessKind::OptionalReadValue),
    ])
    .unwrap();
    let b = batch(2, vec![ADDR_A, NULL_ADDRESS], vec![true, false]);
    let data = resolve(&shape, &b);
    let c0 = data.column(0);
    let c1 = data.column(1);
    assert_eq!(c0, ArrayElement { ptr: ADDR_A, is_ref: true });
    assert!(!c0.is_absent());
    assert_eq!(c1, ArrayElement { ptr: NULL_ADDRESS, is_ref: false });
    assert!(c1.is_absent());
}

#[test]
fn batch_validity() {
    let shape = QueryShape::new(vec![
        slot(1, 4, AccessKind::ReadValue),
        slot(2, 4, AccessKind::OptionalReadValue),
    ])
    .unwrap();
    assert!(batch(2, vec![ADDR_A, NULL_ADDRESS], vec![false, false]).is_valid_for(&shape));
    // A required slot never sees a null column.
    assert!(!batch(2, vec![NULL_ADDRESS, ADDR_B], vec![false, false]).is_valid_for(&shape));
    // One column and one flag per slot.
    assert!(!batch(2, vec![ADDR_A], vec![false]).is_valid_for(&shape));
    assert!(!batch(2, vec![ADDR_A, ADDR_B], vec![false]).is_valid_for(&shape));
    // One entity id per row.
    let mut b = batch(2, vec![ADDR_A, ADDR_B], vec![false, false]);
    b.entity_ids.pop();
    assert!(!b.is_valid_for(&shape));
    // Column ranges must fit in the address space.
    assert!(!batch(4, vec![usize::MAX - 8, ADDR_B], vec![false, false]).is_valid_for(&shape));
    assert!(batch(2, vec![usize::MAX - 8, ADDR_B], vec![false, false]).is_valid_for(&shape));
    assert!(batch(4, vec![usize::MAX - 4, ADDR_B], vec![true, false]).is_valid_for(&shape));
    assert!(!batch(4, vec![usize::MAX - 3, ADDR_B], vec![true, false]).is_valid_for(&shape));
}

#[test]
fn unsupported_arities_are_refused() {
    assert!(QueryShape::new(vec![]).is_none());
    let thirteen: Vec<SlotSpec> =
        (0..13u64).map(|k| slot(k, 4, AccessKind::ReadValue)).collect();
    assert!(QueryShape::new(thirteen).is_none());
}

#[test]
fn every_supported_arity_yields_one_term_per_slot() {
    let kinds = [
        AccessKind::ReadValue,
        AccessKind::WriteValue,
        AccessKind::OptionalReadValue,
        AccessKind::OptionalWriteValue,
    ];
    for n in 1..=12usize {
        let mut registry = ComponentRegistry::new();
        let slots: Vec<SlotSpec> =
            (0..n).map(|s| slot(100 + s as u64, 4, kinds[s % 4])).collect();
        let shape = QueryShape::new(slots.clone()).unwrap();
        assert_eq!(shape.arity(), n);
        let terms = shape.register_ids_descriptor(&mut registry).unwrap();
        assert_eq!(terms.len(), n);
        for (s, term) in terms.iter().enumerate() {
            assert_eq!(term.slot, s);
            assert_eq!(term.access, slots[s].access);
            assert_eq!(term.component_id, registry.resolve_identifier(100 + s as u64).unwrap());
        }
        assert_eq!(registry.len(), n);
    }
}
