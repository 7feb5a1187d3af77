//! Page frame bookkeeping for a kernel booted by the Limine protocol.
//!
//! The crate keeps one metadata record per physical page frame, lets callers
//! set, clear and test per-frame status flags, and builds the initial frame
//! table from the bootloader's memory map.

pub mod flags;
pub mod frame;
pub mod memmap;
pub mod mgr;

pub use flags::PageFlags;
pub use frame::PageFrame;
pub use memmap::MemmapEntry;
pub use mgr::PageFrameManager;
