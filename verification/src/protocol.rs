//! Protocol identifiers and membership tests on identifier sequences.
//!
//! A protocol identifier is an opaque byte string naming one sub-protocol.
//! Two identifiers are the same exactly when their bytes are equal; no
//! canonical registry exists, each handler supplies its own identifiers.

use vstd::prelude::*;

verus! {

/// The mathematical view of an advertised identifier sequence: each byte
/// vector replaced by the sequence of its bytes.
pub open spec fn identifiers_view(protocols: Seq<Vec<u8>>) -> Seq<Seq<u8>> {
    protocols.map_values(|p: Vec<u8>| p@)
}

/// Exact byte equality of two protocol identifiers.
pub fn identifier_eq(x: &Vec<u8>, y: &Vec<u8>) -> (eq: bool)
    ensures
        eq <==> x@ == y@,
{
    if x.len() != y.len() {
        return false;
    }
    let n = x.len();
    let mut i: usize = 0;
    while i < n
        invariant
            n == x@.len(),
            n == y@.len(),
            i <= n,
            forall|j: int| 0 <= j < i ==> x@[j] == y@[j],
        decreases n - i,
    {
        if x[i] != y[i] {
            return false;
        }
        i += 1;
    }
    proof {
        assert(x@ =~= y@);
    }
    true
}

/// A fresh identifier holding the same bytes as `identifier`.
pub fn copy_identifier(identifier: &Vec<u8>) -> (copy: Vec<u8>)
    ensures
        copy@ == identifier@,
{
    let n = identifier.len();
    let mut copy: Vec<u8> = Vec::new();
    let mut i: usize = 0;
    while i < n
        invariant
            n == identifier@.len(),
            i <= n,
            copy@ == identifier@.subrange(0, i as int),
        decreases n - i,
    {
        copy.push(identifier[i]);
        proof {
            assert(copy@ =~= identifier@.subrange(0, i + 1));
        }
        i += 1;
    }
    proof {
        assert(copy@ =~= identifier@);
    }
    copy
}

/// A fresh identifier sequence whose elements hold the same bytes as those
/// of `protocols`, in the same order.
pub fn copy_identifiers(protocols: &Vec<Vec<u8>>) -> (copy: Vec<Vec<u8>>)
    ensures
        identifiers_view(copy@) == identifiers_view(protocols@),
{
    let n = protocols.len();
    let mut copy: Vec<Vec<u8>> = Vec::new();
    let mut i: usize = 0;
    while i < n
        invariant
            n == protocols@.len(),
            i <= n,
            copy@.len() == i,
            forall|j: int| 0 <= j < i ==> copy@[j]@ == protocols@[j]@,
        decreases n - i,
    {
        copy.push(copy_identifier(&protocols[i]));
        i += 1;
    }
    proof {
        assert(identifiers_view(copy@) =~= identifiers_view(protocols@));
    }
    copy
}

/// Whether `info` occurs, by byte equality, in the advertised sequence
/// `protocols`.
pub fn contains_identifier(protocols: &Vec<Vec<u8>>, info: &Vec<u8>) -> (found: bool)
    ensures
        found <==> identifiers_view(protocols@).contains(info@),
{
    let n = protocols.len();
    let mut i: usize = 0;
    while i < n
        invariant
            n == protocols@.len(),
            i <= n,
            forall|j: int| 0 <= j < i ==> identifiers_view(protocols@)[j] != info@,
        decreases n - i,
    {
        if identifier_eq(&protocols[i], info) {
            proof {
                assert(identifiers_view(protocols@)[i as int] == info@);
            }
            return true;
        }
        i += 1;
    }
    false
}

} // verus!
