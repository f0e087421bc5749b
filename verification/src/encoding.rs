//! Byte-level helpers shared by the dispatcher: slice comparison and the
//! length-prefixed storage-key encoding used by raw queries.

use vstd::prelude::*;

verus! {

/// A storage key under a namespace is the namespace prefixed with its length
/// as a big-endian two-byte integer.
pub open spec fn spec_length_prefixed(key: Seq<u8>) -> Seq<u8> {
    seq![(key.len() / 256) as u8, (key.len() % 256) as u8] + key
}

/// Prefix a storage namespace with its two-byte big-endian length.
pub fn to_length_prefixed(key: &[u8]) -> (r: Vec<u8>)
    requires
        key.len() <= 0xFFFF,
    ensures
        r@ == spec_length_prefixed(key@),
{
    let len: usize = key.len();
    let mut out: Vec<u8> = Vec::new();
    out.push((len / 256) as u8);
    out.push((len % 256) as u8);
    let mut i: usize = 0;
    while i < key.len()
        invariant
            i <= key.len(),
            key.len() <= 0xFFFF,
            out@ == seq![(key@.len() / 256) as u8, (key@.len() % 256) as u8] + key@.subrange(
                0,
                i as int,
            ),
        decreases key.len() - i,
    {
        out.push(key[i]);
        i += 1;
        proof {
            assert(key@.subrange(0, i as int) == key@.subrange(0, i - 1) + seq![key@[i - 1]]);
        }
    }
    proof {
        assert(key@.subrange(0, key@.len() as int) == key@);
    }
    out
}

/// The decimal digit characters of a number, as their byte encoding.
pub open spec fn spec_dec_bytes(n: nat) -> Seq<u8>
    decreases n,
{
    if n < 10 {
        seq![(48 + n) as u8]
    } else {
        spec_dec_bytes(n / 10).push((48 + n % 10) as u8)
    }
}

/// Render a number as its decimal digit bytes.
pub fn u128_dec_bytes(n: u128) -> (r: Vec<u8>)
    ensures
        r@ == spec_dec_bytes(n as nat),
{
    let mut out: Vec<u8> = Vec::new();
    let mut m: u128 = n;
    proof {
        assert(spec_dec_bytes(n as nat) =~= spec_dec_bytes(m as nat) + out@);
    }
    loop
        invariant
            spec_dec_bytes(n as nat) == spec_dec_bytes(m as nat) + out@,
        decreases m,
    {
        let ghost prev = out@;
        if m < 10 {
            out.insert(0, 48 + (m as u8));
            proof {
                assert(out@ =~= seq![(48 + m as nat) as u8] + prev);
                assert(spec_dec_bytes(m as nat) == seq![(48 + m as nat) as u8]);
                assert(spec_dec_bytes(n as nat) =~= out@);
            }
            return out;
        } else {
            let d: u8 = 48 + ((m % 10) as u8);
            out.insert(0, d);
            let next: u128 = m / 10;
            proof {
                assert(out@ =~= seq![d] + prev);
                assert(spec_dec_bytes(m as nat) == spec_dec_bytes((m as nat) / 10).push(
                    (48 + (m as nat) % 10) as u8,
                ));
                assert(spec_dec_bytes(m as nat) + prev =~= spec_dec_bytes(next as nat) + out@);
            }
            m = next;
        }
    }
}

/// Byte-for-byte equality of two slices.
pub fn bytes_eq(a: &[u8], b: &[u8]) -> (r: bool)
    ensures
        r == (a@ == b@),
{
    if a.len() != b.len() {
        proof {
            assert(a@ != b@);
        }
        return false;
    }
    let mut i: usize = 0;
    while i < a.len()
        invariant
            i <= a.len(),
            a.len() == b.len(),
            forall|j: int| 0 <= j < i ==> a@[j] == b@[j],
        decreases a.len() - i,
    {
        if a[i] != b[i] {
            return false;
        }
        i += 1;
    }
    proof {
        assert(a@ =~= b@);
    }
    true
}

} // verus!
