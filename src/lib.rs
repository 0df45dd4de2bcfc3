//! Sampling of host metrics (CPU, RAM, graphics adapter) and their rendering
//! into display text, with the decisions of a periodic sampler that delivers to
//! a consumer that may already be gone.
pub mod adapter;
pub mod decimal;
pub mod metrics;
pub mod sampler;

pub use adapter::{adapter_summary, get_gpu_info, AdapterDescriptor, MIB};
pub use metrics::{average_cpu_usage, update_system_info, DisplayFields, MetricsSnapshot, SystemReadings};
pub use sampler::{Sampler, SamplerAction, SamplerEvent, SamplerState};
