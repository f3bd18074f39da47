//! Byte strings: concatenation, slicing, XOR and big-endian lengths.

use vstd::prelude::*;

verus! {

/// The two-byte big-endian encoding of `n`.
pub open spec fn i2osp_2(n: nat) -> Seq<u8>
    recommends
        n < 0x1_0000,
{
    seq![(n / 256) as u8, (n % 256) as u8]
}

/// `input` behind its own length, written in two big-endian bytes.
pub open spec fn length_prefixed(input: Seq<u8>) -> Seq<u8>
    recommends
        input.len() < 0x1_0000,
{
    i2osp_2(input.len()) + input
}

/// The bytewise XOR of two strings of one length.
pub open spec fn xor(a: Seq<u8>, b: Seq<u8>) -> Seq<u8>
    recommends
        a.len() == b.len(),
{
    Seq::new(a.len(), |i: int| a[i] ^ b[i])
}

/// The string of `n` zero bytes.
pub open spec fn zeros(n: nat) -> Seq<u8> {
    Seq::new(n, |i: int| 0u8)
}

/// An optional byte string as an optional sequence.
pub open spec fn view_opt(o: Option<Vec<u8>>) -> Option<Seq<u8>> {
    match o {
        Some(v) => Some(v@),
        None => None,
    }
}

/// Appends `src` to `dst`.
pub fn append(dst: &mut Vec<u8>, src: &[u8])
    ensures
        final(dst)@ == old(dst)@ + src@,
{
    let mut i: usize = 0;
    while i < src.len()
        invariant
            i <= src@.len(),
            dst@ == old(dst)@ + src@.subrange(0, i as int),
        decreases src@.len() - i,
    {
        dst.push(src[i]);
        i += 1;
    }
}

/// `a ∥ b`.
pub fn concat2(a: &[u8], b: &[u8]) -> (out: Vec<u8>)
    ensures
        out@ == a@ + b@,
{
    let mut out: Vec<u8> = Vec::new();
    append(&mut out, a);
    append(&mut out, b);
    out
}

/// `a ∥ b ∥ c`.
pub fn concat3(a: &[u8], b: &[u8], c: &[u8]) -> (out: Vec<u8>)
    ensures
        out@ == a@ + b@ + c@,
{
    let mut out: Vec<u8> = Vec::new();
    append(&mut out, a);
    append(&mut out, b);
    append(&mut out, c);
    out
}

/// A copy of `input[from..to]`.
pub fn copy_range(input: &[u8], from: usize, to: usize) -> (out: Vec<u8>)
    requires
        from <= to <= input@.len(),
    ensures
        out@ == input@.subrange(from as int, to as int),
{
    let mut out: Vec<u8> = Vec::new();
    let mut i: usize = from;
    while i < to
        invariant
            from <= i <= to <= input@.len(),
            out@ == input@.subrange(from as int, i as int),
        decreases to - i,
    {
        out.push(input[i]);
        i += 1;
    }
    out
}

/// A copy of `input`.
pub fn copy_of(input: &[u8]) -> (out: Vec<u8>)
    ensures
        out@ == input@,
{
    copy_range(input, 0, input.len())
}

/// The two-byte big-endian encoding of a length below 2^16.
pub fn encode_len_2(n: usize) -> (out: Vec<u8>)
    requires
        n < 0x1_0000,
    ensures
        out@ == i2osp_2(n as nat),
{
    let mut out: Vec<u8> = Vec::new();
    out.push((n / 256) as u8);
    out.push((n % 256) as u8);
    out
}

/// The bytewise XOR of two strings of one length.
pub fn xor_bytes(a: &[u8], b: &[u8]) -> (out: Vec<u8>)
    requires
        a@.len() == b@.len(),
    ensures
        out@ == xor(a@, b@),
{
    let mut out: Vec<u8> = Vec::new();
    let mut i: usize = 0;
    while i < a.len()
        invariant
            i <= a@.len(),
            a@.len() == b@.len(),
            out@.len() == i,
            forall|k: int| 0 <= k < i ==> out@[k] == a@[k] ^ b@[k],
        decreases a@.len() - i,
    {
        out.push(a[i] ^ b[i]);
        i += 1;
    }
    out
}

/// `n` zero bytes.
pub fn zero_bytes(n: usize) -> (out: Vec<u8>)
    ensures
        out@ == zeros(n as nat),
{
    let mut out: Vec<u8> = Vec::new();
    let mut i: usize = 0;
    while i < n
        invariant
            i <= n,
            out@.len() == i,
            forall|k: int| 0 <= k < i ==> out@[k] == 0u8,
        decreases n - i,
    {
        out.push(0u8);
        i += 1;
    }
    out
}

/// XOR with one pad is its own inverse.
pub proof fn lemma_xor_involution(a: Seq<u8>, pad: Seq<u8>)
    requires
        a.len() == pad.len(),
    ensures
        xor(xor(a, pad), pad) == a,
{
    assert forall|i: int| 0 <= i < a.len() implies (#[trigger] xor(xor(a, pad), pad)[i]) == a[i] by {
        let x = a[i];
        let p = pad[i];
        assert((x ^ p) ^ p == x) by (bit_vector);
    }
}

} // verus!
