//! The seal on [`Message`](super::Message): only this crate's message types
//! implement it.

use vstd::prelude::*;

verus! {

pub trait Sealed {}

} // verus!
