//! A ring buffer whose pages are mapped twice, back to back, so that a window
//! of up to `len` bytes starting anywhere in the ring is contiguous in virtual
//! memory.
//!
//! This crate is the verified core of such a buffer. It calls no operating
//! system and dereferences no address; it decides everything else:
//!
//! - [`length`] says which lengths can be mapped twice, and why the others
//!   cannot;
//! - [`protocol`] states what it means to build and release a double mapping
//!   call by call without leaving anything behind, and [`linux`], [`macos`]
//!   and [`windows`] are the three ways of doing so;
//! - [`buffer`] is the handle of a finished mapping, and [`addressing`] turns
//!   positions in the ring into offsets and windows in the mapping;
//! - [`win`] is a plain handle without positions.
//!
//! A shell around this crate makes the calls that the protocols ask for and
//! turns the offsets into references and slices.

pub mod addressing;
pub mod buffer;
pub mod error;
pub mod length;
pub mod linux;
pub mod macos;
pub mod protocol;
pub mod win;
pub mod windows;

pub use buffer::MagicBuffer;
pub use error::MagicBufferError;
pub use win::InfiniteBuffer;
