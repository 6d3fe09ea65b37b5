//! Server-side upgrade and listener rules.
//!
//! The HTTP server and the WebSocket upgrade are I/O and live in the shell;
//! the admission rule it applies — the pre-shared-key comparison — and the
//! address normalisation are verified here.

use vstd::prelude::*;

verus! {

/// Whether two byte strings hold the same octets.
pub fn bytes_eq(a: &Vec<u8>, b: &Vec<u8>) -> (r: bool)
    ensures
        r == (a@ == b@),
{
    if a.len() != b.len() {
        assert(a@ != b@);
        return false;
    }
    let mut i: usize = 0;
    while i < a.len()
        invariant
            a@.len() == b@.len(),
            i <= a@.len(),
            forall|j: int| 0 <= j < i ==> a@[j] == b@[j],
        decreases a@.len() - i,
    {
        if a[i] != b[i] {
            return false;
        }
        i = i + 1;
    }
    assert(a@ =~= b@);
    true
}

/// The upgrade admission rule: with no key configured every client passes; with one
/// configured, only a client presenting exactly that key passes.
pub open spec fn spec_psk_allows(client: Option<Seq<u8>>, configured: Option<Seq<u8>>) -> bool {
    match (client, configured) {
        (_, None) => true,
        (None, Some(_)) => false,
        (Some(c), Some(s)) => c == s,
    }
}

/// Decide whether a WebSocket upgrade may proceed, from the client's
/// `x-penguin-psk` header and the configured pre-shared key. A refused upgrade
/// is answered with the same not-found response as a missing route.
pub fn psk_allows(client_psk: Option<&Vec<u8>>, configured_psk: Option<&Vec<u8>>) -> (r: bool)
    ensures
        r == spec_psk_allows(
            match client_psk {
                Some(c) => Some(c@),
                None => None,
            },
            match configured_psk {
                Some(s) => Some(s@),
                None => None,
            },
        ),
{
    match (client_psk, configured_psk) {
        (_, None) => true,
        (None, Some(_)) => false,
        (Some(c), Some(s)) => bytes_eq(c, s),
    }
}

/// A bracketed IPv6 listening host with its brackets removed; anything
/// else unchanged.
pub open spec fn spec_strip_brackets(host: Seq<u8>) -> Seq<u8> {
    if host.len() >= 2 && host[0] == 91 && host[host.len() - 1] == 93 {
        host.subrange(1, host.len() - 1)
    } else {
        host
    }
}

/// Remove the brackets around an IPv6 listening host, if both are there.
pub fn strip_brackets(host: &Vec<u8>) -> (r: Vec<u8>)
    ensures
        r@ == spec_strip_brackets(host@),
{
    if host.len() >= 2 && host[0] == 91 && host[host.len() - 1] == 93 {
        let r = vstd::slice::slice_to_vec(
            vstd::slice::slice_subrange(host.as_slice(), 1, host.len() - 1),
        );
        assert(r@ =~= spec_strip_brackets(host@));
        r
    } else {
        let r = vstd::slice::slice_to_vec(vstd::slice::slice_subrange(host.as_slice(), 0, host.len()));
        assert(r@ =~= host@);
        r
    }
}

} // verus!
