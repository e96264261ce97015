//! Process-scoped resource telemetry: CPU and resident memory of the running
//! process, and GPU utilisation through a vendor SDK or a hardware registry;
//! and the messages of a small key-value store.

pub mod kv;
pub mod process;
pub mod registry;
pub mod vendor;

use vstd::prelude::*;

verus! {

/// GPU utilisation where the platform offers neither a vendor SDK nor a
/// hardware registry: never available.
pub fn unsupported_gpu_percent() -> (r: Option<u32>)
    ensures
        r is None,
{
    None
}

} // verus!
