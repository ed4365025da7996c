//! Request and response bodies of the spaces service, and the verified
//! policy behind its mail-folder handlers.
use vstd::prelude::*;

pub mod folder;
pub mod policy;
pub mod types;

verus! {

} // verus!
