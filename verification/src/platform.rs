//! What depends on the operating system: where the identifier is kept,
//! and who may change it.
//!
//! The host says which platform it runs on and hands over what it found
//! there; the decisions are taken here.

pub mod machine_id;
pub mod permissions;

use vstd::prelude::*;

verus! {

/// The operating systems that the library tells apart.
#[derive(Clone, Copy, Debug, PartialEq, Eq, Structural)]
pub enum Platform {
    Windows,
    MacOs,
    Linux,
    /// Any other system: nothing is supported there.
    Other,
}

} // verus!
