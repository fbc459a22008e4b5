//! Comparing and building strings by their characters.

use vstd::prelude::*;
use vstd::string::*;
use vstd::utf8::*;

verus! {

/// Two strings with the same UTF-8 bytes have the same characters.
pub proof fn lemma_same_bytes_same_chars(a: Seq<char>, b: Seq<char>)
    requires
        encode_utf8(a) == encode_utf8(b),
    ensures
        a == b,
{
    encode_utf8_decode_utf8(a);
    encode_utf8_decode_utf8(b);
}

/// Whether two strings hold the same characters.
pub fn same_text(a: &str, b: &str) -> (same: bool)
    ensures
        same == (a@ == b@),
{
    let x = a.as_bytes();
    let y = b.as_bytes();
    if x.len() != y.len() {
        return false;
    }
    let mut i: usize = 0;
    while i < x.len()
        invariant
            0 <= i <= x.len(),
            x.len() == y.len(),
            x@ == encode_utf8(a@),
            y@ == encode_utf8(b@),
            forall|j: int| 0 <= j < i ==> x@[j] == y@[j],
        decreases x.len() - i,
    {
        if x[i] != y[i] {
            return false;
        }
        i += 1;
    }
    proof {
        assert(x@ =~= y@);
        lemma_same_bytes_same_chars(a@, b@);
    }
    true
}

/// The transport address of a local socket path: the path behind the
/// scheme `ipc://`.
pub fn endpoint_uri(socket_location: &str) -> (uri: String)
    ensures
        uri@ == "ipc://"@ + socket_location@,
{
    let mut uri = String::from_str("ipc://");
    uri.append(socket_location);
    uri
}

/// The string of `count` characters `'0'`.
pub open spec fn zeros(count: nat) -> Seq<char> {
    Seq::new(count, |i: int| '0')
}

/// A filler of `size` bytes, every one the digit `0`.
pub fn filler(size: usize) -> (payload: String)
    ensures
        payload@ == zeros(size as nat),
{
    let mut payload = String::new();
    let mut i: usize = 0;
    while i < size
        invariant
            0 <= i <= size,
            payload@ == zeros(i as nat),
        decreases size - i,
    {
        proof {
            reveal_strlit("0");
        }
        payload.append("0");
        i += 1;
        assert(payload@ =~= zeros(i as nat));
    }
    payload
}

/// A filler's length in bytes is its length in characters.
pub proof fn lemma_zeros_bytes(count: nat)
    ensures
        encode_utf8(zeros(count)).len() == count,
{
    assert(is_ascii_chars(zeros(count)));
    is_ascii_chars_encode_utf8(zeros(count));
}

} // verus!
