//! Device-side consumption engine for a split virtqueue.
//!
//! A guest driver publishes buffer descriptors in shared memory; the device
//! backend discovers them through the available ring, follows descriptor
//! chains through the descriptor table, and hands the resulting segments to
//! device-specific code. Every guest-supplied field is untrusted: this crate
//! bounds-checks every access, caps chain walks so a cycle cannot hang the
//! device, and treats the 16-bit ring indices with the wrapping arithmetic
//! the wire format mandates.

pub mod chain;
pub mod defs;
pub mod descriptor;
pub mod guest_ram;
pub mod iterator;
pub mod queue;
pub mod vsock;

pub use chain::DescriptorChain;
pub use chain::DescriptorChainRwIter;
pub use descriptor::Descriptor;
pub use guest_ram::GuestRam;
pub use iterator::AvailIter;
pub use queue::QueueState;
pub use vsock::FuzzingDescriptor;
pub use vsock::InitFunction;
pub use vsock::VsockFunctionType;
pub use vsock::VsockInput;
