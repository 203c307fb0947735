//! The one-way link between a commitment and its successor.
//!
//! The construction itself is not part of this library: it is the one of the
//! `piapprec` crate, and nothing is proved of it here.

use vstd::prelude::*;

verus! {

/// Whether `secret` reveals `next` as the legitimate successor of the
/// commitment `prev`: the answer of `piapprec::verify` on these three keys.
pub uninterp spec fn hash_link_holds(prev: Seq<u8>, next: Seq<u8>, secret: Seq<u8>) -> bool;

/// Calls `piapprec::verify`, which hashes `secret` followed by `next` and
/// compares the digest with `prev`. The answer depends on the three keys
/// alone, and the call does not fail; that is all the contract claims.
#[verifier::external_body]
pub(crate) fn verify_hash_link(prev: &[u8; 32], next: &[u8; 32], secret: &[u8; 32]) -> (accepted:
    bool)
    ensures
        accepted == hash_link_holds(prev@, next@, secret@),
{
    piapprec::verify(prev, next, secret)
}

} // verus!
