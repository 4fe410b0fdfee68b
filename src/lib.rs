//! Batch GPU-compute dispatch: validated batch descriptions, binding-table
//! planning and a synchronous orchestrator over the `vkl` Vulkan wrapper.
pub mod batch;
pub mod data;
pub mod plan;
pub mod gpu;
pub mod state;

pub use batch::{BatchBufferInfo, BatchCode, BatchInfo, DispatchError};
pub use data::{BatchData, BatchDataTrait};
pub use state::{ComputeState, ProvisionedBuffer};
