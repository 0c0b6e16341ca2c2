//! Signature-scan-and-resolve engine with a scheduler-hook adapter.
//!
//! The library locates a pointer to mutable global state inside a loaded
//! executable image from a wildcard byte signature alone: it parses the
//! image's section table, scans the executable section for the signature,
//! and resolves the relative-addressing arithmetic at the match site to the
//! address of the pointer slot.  Around that core it models the small state
//! machines of the host integration: the init gate that delays the bootstrap
//! scan, and the per-tick death-latch observer that a recurring scheduler
//! callback drives.
//!
//! All reads of the live process (module lookup, the final pointer
//! dereference, scheduler registration, key polling) are left to the thin
//! embedding layer around the library; everything here works on plain bytes
//! and values and is verified.

pub mod bytes;
pub mod gate;
pub mod image;
pub mod latch;
pub mod pipeline;
pub mod resolve;
pub mod scan;
pub mod sig;
