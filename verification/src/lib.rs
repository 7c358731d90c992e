//! A recursive proof-aggregation and witness-binding pipeline: typed
//! application records are bound to circuit input slots without corrupting
//! their numeric encodings, sibling proofs are merged pairwise into parent
//! proofs that embed the children's verifier identity, and a four-stage
//! pairing evaluation chains each stage's proof into the next stage's
//! witness. The proving engine itself is an outside collaborator: this crate
//! assembles, validates and re-reads everything that crosses its boundary.

pub mod artifact;
pub mod binder;
pub mod combiner;
pub mod errors;
pub mod foreign;
pub mod hash_test;
pub mod numeric;
pub mod pipeline;
pub mod witness;

use vstd::prelude::*;

verus! {

/// Order of the 64-bit prime field every witness value must lie in.
pub const FIELD_ORDER: u64 = 18446744069414584321;

} // verus!
