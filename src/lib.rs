//! A verified typed query and iteration layer for an entity-component-system
//! engine.
//!
//! A query shape is an ordered list of slots, each naming a component type and
//! how it is accessed. The library turns a shape into the ordered term
//! descriptors that the engine matches against, and turns each batch of
//! matched entities that the engine reports (raw column addresses, shared
//! flags, an entity count) into per-row or per-batch references, computed as
//! addresses and lengths inside the engine's column memory.

mod access;
mod app;
mod batch;
mod materialize;
mod pipeline;
mod query;
mod registry;
mod terms;

pub use access::{AccessKind, InOutKind, OperKind};
pub use app::{App, AppDesc};
pub use batch::{columns_agree, ArrayElement, ComponentsData, IterationBatch};
pub use materialize::{
    column_fits, row_address, spec_slot_ref, spec_slot_view, view_len, ColumnView, SlotRef,
    SlotView, NULL_ADDRESS,
};
pub use pipeline::{spec_overlay, PipelineBuilder, PipelineDesc};
pub use query::{ComponentType, QueryShape, SlotSpec, MAX_ARITY};
pub use registry::{ComponentRegistry, MAX_COMPONENTS};
pub use terms::{
    all_registered, lemma_terms_follow_shape, registers_only, spec_terms, TermDescriptor,
};
