//! The operations on a target file: one per way of writing to it.
//!
//! A target is held as `Option<Vec<u8>>`: `None` while the file does not
//! exist, else the bytes in it. Reading the file before an operation and
//! writing it back afterwards is the caller's part.
//!
//! Each operation has an error type of its own, with one variant for the
//! state of the target that it refuses and one, `Template`, that carries a
//! failed rendering unchanged.

use vstd::prelude::*;

pub mod append;
pub mod generate;

verus! {

/// What a target holds: `None` while it does not exist, else its bytes.
pub open spec fn contents(target: Option<Vec<u8>>) -> Option<Seq<u8>> {
    match target {
        None => None,
        Some(bytes) => Some(bytes@),
    }
}

} // verus!
