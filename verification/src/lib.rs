//! Typed models of the x86-64 control and status registers.
//!
//! Each register is a value over its raw 64-bit word. `Cr0`, `Cr4` and `Efer`
//! are flat sets of named flags; `Cr3` and `RFlags` add accessors for the
//! fields that span several bits. Nothing here touches the hardware: a value
//! is made from a word that the caller has read, and gives back the word to
//! write.
//!
//! The accessors of `Cr3` and `RFlags` state as preconditions what the
//! architecture demands of their arguments. Verified callers prove them;
//! other callers have to test them first.

pub mod bits;
pub mod cr0;
pub mod cr3;
pub mod cr4;
pub mod efer;
pub mod rflags;

pub use crate::bits::InvalidBits;
pub use crate::cr0::Cr0;
pub use crate::cr3::{Cr3, Cr3Flags};
pub use crate::cr4::Cr4;
pub use crate::efer::Efer;
pub use crate::rflags::RFlags;
