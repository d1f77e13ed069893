//! Random identities and addresses for synthesized clusters.

use rand::distributions::Alphanumeric;
use rand::Rng;
use vstd::prelude::*;

use crate::command::SocketAddress;
use crate::text::push_char;

verus! {

/// Length of a random cluster identity.
pub const CLUSTER_ID_LEN: usize = 7;

/// Lowest port handed out: the first one above the privileged range.
pub const MIN_PORT: u32 = 1025;

/// An ASCII letter or digit.
pub open spec fn is_alphanumeric(c: char) -> bool {
    ('a' <= c && c <= 'z') || ('A' <= c && c <= 'Z') || ('0' <= c && c <= '9')
}

/// A valid cluster identity: seven letters or digits.
pub open spec fn is_cluster_id(s: Seq<char>) -> bool {
    &&& s.len() == CLUSTER_ID_LEN
    &&& forall|i: int| 0 <= i < s.len() ==> is_alphanumeric(#[trigger] s[i])
}

/// Relies on rand's `Alphanumeric` distribution, which samples a byte from
/// `A-Z`, `a-z` and `0-9`.
#[verifier::external_body]
fn random_alphanumeric() -> (c: char)
    ensures
        is_alphanumeric(c),
{
    char::from(rand::thread_rng().sample(Alphanumeric))
}

/// Relies on rand's `Rng::gen_range` on a half-open range, which returns a
/// value in `lo..hi` and panics on an empty range.
#[verifier::external_body]
fn random_in_range(lo: u32, hi: u32) -> (r: u32)
    requires
        lo < hi,
    ensures
        lo <= r < hi,
{
    rand::thread_rng().gen_range(lo..hi)
}

/// A fresh random cluster identity of seven letters or digits.
pub fn random_id_of_7_chars() -> (id: String)
    ensures
        is_cluster_id(id@),
{
    let mut id = String::new();
    let mut n: usize = 0;
    while n < CLUSTER_ID_LEN
        invariant
            n <= CLUSTER_ID_LEN,
            id@.len() == n,
            forall|i: int| 0 <= i < id@.len() ==> is_alphanumeric(#[trigger] id@[i]),
        decreases CLUSTER_ID_LEN - n,
    {
        let c = random_alphanumeric();
        push_char(&mut id, c);
        n = n + 1;
    }
    id
}

/// A random IPv4 octet.
fn random_octet() -> (o: u8) {
    random_in_range(0, 256) as u8
}

/// A random IPv4 address with a port in `1025..=65535`.
pub fn random_socket_address() -> (a: SocketAddress)
    ensures
        a.valid(),
{
    let o0 = random_octet();
    let o1 = random_octet();
    let o2 = random_octet();
    let o3 = random_octet();
    let port = random_in_range(MIN_PORT, 65536) as u16;
    SocketAddress { ip: [o0, o1, o2, o3], port }
}

} // verus!
