//! Moving octets between vectors and the fixed buffers of the device structures.
use vstd::prelude::*;

verus! {

/// `bytes` followed by zeros, `capacity` octets in all.
pub open spec fn zero_padded(bytes: Seq<u8>, capacity: nat) -> Seq<u8> {
    Seq::new(capacity, |i: int| if i < bytes.len() { bytes[i] } else { 0u8 })
}

/// The first octets of a padded buffer are the octets that were padded.
pub proof fn lemma_zero_padded_prefix(bytes: Seq<u8>, capacity: nat)
    requires
        bytes.len() <= capacity,
    ensures
        zero_padded(bytes, capacity).take(bytes.len() as int) == bytes,
{
    assert(zero_padded(bytes, capacity).take(bytes.len() as int) =~= bytes);
}

/// A buffer of `N` octets that starts with `bytes` and goes on with zeros.
pub(crate) fn buffer_from<const N: usize>(bytes: &Vec<u8>) -> (buffer: [u8; N])
    requires
        bytes.len() <= N,
    ensures
        buffer@ == zero_padded(bytes@, N as nat),
{
    let mut buffer = [0u8; N];
    let mut i: usize = 0;
    while i < bytes.len()
        invariant
            i <= bytes.len() <= N,
            forall|k: int| 0 <= k < i ==> buffer@[k] == bytes@[k],
            forall|k: int| i <= k < N ==> buffer@[k] == 0u8,
        decreases bytes.len() - i,
    {
        buffer[i] = bytes[i];
        i += 1;
    }
    assert(buffer@ =~= zero_padded(bytes@, N as nat));
    buffer
}

/// The first `size` octets of `buffer`.
pub(crate) fn prefix_of<const N: usize>(buffer: &[u8; N], size: usize) -> (bytes: Vec<u8>)
    requires
        size <= N,
    ensures
        bytes@ == buffer@.take(size as int),
{
    let mut bytes: Vec<u8> = Vec::new();
    let mut i: usize = 0;
    while i < size
        invariant
            i <= size <= N,
            bytes@ == buffer@.take(i as int),
        decreases size - i,
    {
        bytes.push(buffer[i]);
        assert(buffer@.take(i as int).push(buffer@[i as int]) =~= buffer@.take(i + 1));
        i += 1;
    }
    bytes
}

} // verus!
