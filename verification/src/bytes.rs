//! Byte strings as the rest of the library reads them: as numbers written
//! most significant byte first, and in front-to-back order.

use vstd::prelude::*;

verus! {

/// The number of values that `len` bytes can hold: 256 to the power `len`.
pub open spec fn capacity(len: nat) -> nat
    decreases len,
{
    if len == 0 {
        1
    } else {
        256 * capacity((len - 1) as nat)
    }
}

/// The number that a byte string denotes when read most significant byte first.
pub open spec fn be_value(s: Seq<u8>) -> nat
    decreases s.len(),
{
    if s.len() == 0 {
        0
    } else {
        be_value(s.drop_last()) * 256 + s.last() as nat
    }
}

/// The `len` low-order base-256 digits of `v`, most significant first.
pub open spec fn be_bytes(v: nat, len: nat) -> Seq<u8>
    decreases len,
{
    if len == 0 {
        Seq::empty()
    } else {
        be_bytes(v / 256, (len - 1) as nat).push((v % 256) as u8)
    }
}

/// A string of `n` zero bytes.
pub open spec fn zeros(n: nat) -> Seq<u8> {
    Seq::new(n, |i: int| 0u8)
}

/// `be_bytes` always yields exactly the length asked for.
pub proof fn lemma_be_bytes_len(v: nat, len: nat)
    ensures
        be_bytes(v, len).len() == len,
    decreases len,
{
    if len > 0 {
        lemma_be_bytes_len(v / 256, (len - 1) as nat);
    }
}

/// A byte string denotes a number below the capacity of its length.
pub proof fn lemma_be_value_bound(s: Seq<u8>)
    ensures
        be_value(s) < capacity(s.len()),
    decreases s.len(),
{
    if s.len() > 0 {
        lemma_be_value_bound(s.drop_last());
    }
}

/// Decoding undoes encoding for every number that fits the length.
pub proof fn lemma_value_of_bytes(v: nat, len: nat)
    requires
        v < capacity(len),
    ensures
        be_value(be_bytes(v, len)) == v,
    decreases len,
{
    if len > 0 {
        let rest = be_bytes(v / 256, (len - 1) as nat);
        lemma_value_of_bytes(v / 256, (len - 1) as nat);
        assert(be_bytes(v, len).drop_last() =~= rest);
    }
}

/// Encoding undoes decoding at the string's own length.
pub proof fn lemma_bytes_of_value(s: Seq<u8>)
    ensures
        be_bytes(be_value(s), s.len()) == s,
    decreases s.len(),
{
    if s.len() > 0 {
        let v = be_value(s);
        lemma_bytes_of_value(s.drop_last());
        assert(v / 256 == be_value(s.drop_last()));
        assert(v % 256 == s.last() as nat);
        assert(be_bytes(v, s.len()) =~= s);
    } else {
        assert(be_bytes(be_value(s), s.len()) =~= s);
    }
}

/// The capacity of a length grows with the length.
pub proof fn lemma_capacity_monotonic(a: nat, b: nat)
    requires
        a <= b,
    ensures
        capacity(a) <= capacity(b),
    decreases b,
{
    if a < b {
        lemma_capacity_monotonic(a, (b - 1) as nat);
    }
}

/// Twelve bytes hold the numbers below two to the power 96.
pub proof fn lemma_capacity_12()
    ensures
        capacity(12) == 0x1_0000_0000_0000_0000_0000_0000,
{
    reveal_with_fuel(capacity, 13);
}

/// Writes a number below two to the power 96 as 12 bytes, most significant
/// first.
pub fn encode_be_12(v: u128) -> (out: [u8; 12])
    requires
        v < 0x1_0000_0000_0000_0000_0000_0000,
    ensures
        out@ == be_bytes(v as nat, 12),
{
    let mut out = [0u8; 12];
    let mut rem: u128 = v;
    let mut k: usize = 0;
    while k < 12
        invariant
            k <= 12,
            be_bytes(v as nat, 12) == be_bytes(rem as nat, (12 - k) as nat) + out@.subrange(
                12 - k,
                12,
            ),
        decreases 12 - k,
    {
        let ghost before = out@.subrange(12 - k, 12);
        let digit: u8 = (rem % 256) as u8;
        out[11 - k] = digit;
        proof {
            let shorter = be_bytes((rem / 256) as nat, (11 - k) as nat);
            assert(be_bytes(rem as nat, (12 - k) as nat) == shorter.push(digit));
            assert(out@.subrange(11 - k, 12) =~= seq![digit] + before);
            assert(shorter.push(digit) + before =~= shorter + (seq![digit] + before));
        }
        rem = rem / 256;
        k += 1;
    }
    assert(out@.subrange(0, 12) =~= out@);
    assert(be_bytes(rem as nat, 0) + out@ =~= out@);
    out
}

/// Reads 12 bytes as a number, most significant byte first.
pub fn decode_be_12(bytes: &[u8; 12]) -> (v: u128)
    ensures
        v == be_value(bytes@),
        v < 0x1_0000_0000_0000_0000_0000_0000,
{
    let mut acc: u128 = 0;
    let mut i: usize = 0;
    while i < 12
        invariant
            i <= 12,
            acc == be_value(bytes@.subrange(0, i as int)),
            acc < capacity(i as nat),
        decreases 12 - i,
    {
        proof {
            lemma_capacity_monotonic((i + 1) as nat, 12);
            lemma_capacity_12();
            assert(bytes@.subrange(0, i + 1).drop_last() =~= bytes@.subrange(0, i as int));
        }
        acc = acc * 256 + bytes[i] as u128;
        i += 1;
    }
    proof {
        lemma_capacity_12();
        assert(bytes@.subrange(0, 12) =~= bytes@);
    }
    acc
}

/// Whether `a` comes strictly before `b` when the two are compared byte by
/// byte from the front. Strings of different lengths are compared up to the
/// shorter one's end.
pub open spec fn precedes(a: Seq<u8>, b: Seq<u8>) -> bool
    decreases a.len(),
{
    if a.len() == 0 || b.len() == 0 {
        false
    } else if a[0] != b[0] {
        a[0] < b[0]
    } else {
        precedes(a.drop_first(), b.drop_first())
    }
}

/// Of two different strings of one length, exactly one precedes the other.
pub proof fn lemma_precedes_total(a: Seq<u8>, b: Seq<u8>)
    requires
        a.len() == b.len(),
        a != b,
    ensures
        precedes(a, b) != precedes(b, a),
    decreases a.len(),
{
    if a.len() == 0 {
        assert(a =~= b);
    } else if a[0] == b[0] {
        if a.drop_first() == b.drop_first() {
            assert(a =~= seq![a[0]] + a.drop_first());
            assert(b =~= seq![b[0]] + b.drop_first());
        }
        lemma_precedes_total(a.drop_first(), b.drop_first());
    }
}

/// Executable form of [`precedes`] on 32-byte strings.
pub fn precedes_32(a: &[u8; 32], b: &[u8; 32]) -> (r: bool)
    ensures
        r == precedes(a@, b@),
{
    let mut i: usize = 0;
    assert(a@.skip(0) =~= a@ && b@.skip(0) =~= b@);
    while i < 32
        invariant
            i <= 32,
            precedes(a@, b@) == precedes(a@.skip(i as int), b@.skip(i as int)),
        decreases 32 - i,
    {
        proof {
            assert(a@.skip(i as int).drop_first() =~= a@.skip(i + 1));
            assert(b@.skip(i as int).drop_first() =~= b@.skip(i + 1));
            assert(a@.skip(i as int)[0] == a@[i as int]);
            assert(b@.skip(i as int)[0] == b@[i as int]);
        }
        if a[i] != b[i] {
            return a[i] < b[i];
        }
        i += 1;
    }
    assert(a@.skip(32).len() == 0);
    false
}

/// Whether all 32 bytes are zero. Every byte is read, whatever the bytes
/// before it held.
pub fn is_all_zero(bytes: &[u8; 32]) -> (r: bool)
    ensures
        r == (bytes@ == zeros(32)),
{
    let mut nonzero = false;
    let mut i: usize = 0;
    while i < 32
        invariant
            i <= 32,
            nonzero == exists|j: int| 0 <= j < i && bytes@[j] != 0,
        decreases 32 - i,
    {
        if bytes[i] != 0 {
            nonzero = true;
        }
        i += 1;
    }
    proof {
        if nonzero {
            let j = choose|j: int| 0 <= j < 32 && bytes@[j] != 0;
            assert(zeros(32)[j] == 0);
        } else {
            assert(bytes@ =~= zeros(32));
        }
    }
    !nonzero
}

/// Whether two 32-byte strings are equal. Every byte is read, whatever the
/// bytes before it held.
pub fn equal_32(a: &[u8; 32], b: &[u8; 32]) -> (r: bool)
    ensures
        r == (a@ == b@),
{
    let mut differ = false;
    let mut i: usize = 0;
    while i < 32
        invariant
            i <= 32,
            differ == exists|j: int| 0 <= j < i && a@[j] != b@[j],
        decreases 32 - i,
    {
        if a[i] != b[i] {
            differ = true;
        }
        i += 1;
    }
    proof {
        if !differ {
            assert(a@ =~= b@);
        }
    }
    !differ
}


/// Copies a slice of exactly `N` bytes into an array; a slice of any other
/// length gives nothing.
pub fn copy_exact<const N: usize>(bytes: &[u8]) -> (array: Option<[u8; N]>)
    ensures
        array is Some <==> bytes@.len() == N,
        array matches Some(a) ==> a@ == bytes@,
{
    if bytes.len() != N {
        return None;
    }
    let mut array = [0u8; N];
    let mut i: usize = 0;
    while i < N
        invariant
            i <= N,
            bytes@.len() == N,
            forall|j: int| 0 <= j < i ==> array@[j] == bytes@[j],
        decreases N - i,
    {
        array[i] = bytes[i];
        i += 1;
    }
    assert(array@ =~= bytes@);
    Some(array)
}

} // verus!
