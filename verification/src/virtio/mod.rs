//! VirtIO devices: the split virtqueue, the bus bindings (PCI and MMIO) and
//! the block, input and GPU device protocols.
pub mod devices;
pub mod drivers;
pub mod interface;
pub mod queue;
