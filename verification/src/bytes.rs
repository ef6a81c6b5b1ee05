//! Little-endian integer encoding and fixed-offset access into account data.
use vstd::prelude::*;

verus! {

/// The `u64` whose little-endian encoding starts at `o` in `s`.
pub open spec fn le_u64_at(s: Seq<u8>, o: int) -> u64 {
    (s[o] as u64) | ((s[o + 1] as u64) << 8u64) | ((s[o + 2] as u64) << 16u64) | ((s[o
        + 3] as u64) << 24u64) | ((s[o + 4] as u64) << 32u64) | ((s[o + 5] as u64) << 40u64)
        | ((s[o + 6] as u64) << 48u64) | ((s[o + 7] as u64) << 56u64)
}

/// The `u16` whose little-endian encoding starts at `o` in `s`.
pub open spec fn le_u16_at(s: Seq<u8>, o: int) -> u16 {
    (s[o] as u16) | ((s[o + 1] as u16) << 8u16)
}

/// The eight little-endian bytes of `v`.
pub open spec fn u64_le_bytes(v: u64) -> Seq<u8> {
    seq![
        (v & 0xff) as u8,
        ((v >> 8u64) & 0xff) as u8,
        ((v >> 16u64) & 0xff) as u8,
        ((v >> 24u64) & 0xff) as u8,
        ((v >> 32u64) & 0xff) as u8,
        ((v >> 40u64) & 0xff) as u8,
        ((v >> 48u64) & 0xff) as u8,
        ((v >> 56u64) & 0xff) as u8,
    ]
}

/// The two little-endian bytes of `v`.
pub open spec fn u16_le_bytes(v: u16) -> Seq<u8> {
    seq![(v & 0xff) as u8, ((v >> 8u16) & 0xff) as u8]
}

/// `s` with the bytes from `o` on replaced by `b`.
pub open spec fn put_bytes(s: Seq<u8>, o: int, b: Seq<u8>) -> Seq<u8> {
    s.subrange(0, o) + b + s.subrange(o + b.len(), s.len() as int)
}

/// `s` with the little-endian encoding of `v` written at `o`.
pub open spec fn put_u64(s: Seq<u8>, o: int, v: u64) -> Seq<u8> {
    put_bytes(s, o, u64_le_bytes(v))
}

/// `s` with the little-endian encoding of `v` written at `o`.
pub open spec fn put_u16(s: Seq<u8>, o: int, v: u16) -> Seq<u8> {
    put_bytes(s, o, u16_le_bytes(v))
}

/// The bytes of `s` in `[o, o + n)`.
pub open spec fn bytes_at(s: Seq<u8>, o: int, n: int) -> Seq<u8> {
    s.subrange(o, o + n)
}

/// Decoding the encoding of a `u64` gives the value back.
pub proof fn lemma_u64_roundtrip(v: u64)
    ensures
        le_u64_at(u64_le_bytes(v), 0) == v,
{
    let b = u64_le_bytes(v);
    assert(((v & 0xff) as u8 as u64) | ((((v >> 8u64) & 0xff) as u8 as u64) << 8u64) | ((((v
        >> 16u64) & 0xff) as u8 as u64) << 16u64) | ((((v >> 24u64) & 0xff) as u8 as u64)
        << 24u64) | ((((v >> 32u64) & 0xff) as u8 as u64) << 32u64) | ((((v >> 40u64) & 0xff)
        as u8 as u64) << 40u64) | ((((v >> 48u64) & 0xff) as u8 as u64) << 48u64) | ((((v
        >> 56u64) & 0xff) as u8 as u64) << 56u64) == v) by (bit_vector);
}

/// Encoding the value decoded from eight bytes gives those bytes back.
pub proof fn lemma_u64_bytes_roundtrip(s: Seq<u8>, o: int)
    requires
        0 <= o,
        o + 8 <= s.len(),
    ensures
        u64_le_bytes(le_u64_at(s, o)) == bytes_at(s, o, 8),
{
    let (b0, b1, b2, b3, b4, b5, b6, b7) = (
        s[o],
        s[o + 1],
        s[o + 2],
        s[o + 3],
        s[o + 4],
        s[o + 5],
        s[o + 6],
        s[o + 7],
    );
    let v = le_u64_at(s, o);
    assert(v == (b0 as u64) | ((b1 as u64) << 8u64) | ((b2 as u64) << 16u64) | ((b3 as u64)
        << 24u64) | ((b4 as u64) << 32u64) | ((b5 as u64) << 40u64) | ((b6 as u64) << 48u64)
        | ((b7 as u64) << 56u64));
    assert((v & 0xff) as u8 == b0 && ((v >> 8u64) & 0xff) as u8 == b1 && ((v >> 16u64) & 0xff)
        as u8 == b2 && ((v >> 24u64) & 0xff) as u8 == b3 && ((v >> 32u64) & 0xff) as u8 == b4
        && ((v >> 40u64) & 0xff) as u8 == b5 && ((v >> 48u64) & 0xff) as u8 == b6 && ((v
        >> 56u64) & 0xff) as u8 == b7) by (bit_vector)
        requires
            v == (b0 as u64) | ((b1 as u64) << 8u64) | ((b2 as u64) << 16u64) | ((b3 as u64)
                << 24u64) | ((b4 as u64) << 32u64) | ((b5 as u64) << 40u64) | ((b6 as u64)
                << 48u64) | ((b7 as u64) << 56u64),
    ;
    assert(u64_le_bytes(v) =~= bytes_at(s, o, 8));
}

/// Reading back a `u64` right after writing it gives the written value, and the
/// write leaves the length and every byte outside its eight bytes unchanged.
pub proof fn lemma_put_u64(s: Seq<u8>, o: int, v: u64)
    requires
        0 <= o,
        o + 8 <= s.len(),
    ensures
        put_u64(s, o, v).len() == s.len(),
        le_u64_at(put_u64(s, o, v), o) == v,
        forall|i: int|
            0 <= i < s.len() && !(o <= i < o + 8) ==> #[trigger] put_u64(s, o, v)[i] == s[i],
{
    let t = put_u64(s, o, v);
    lemma_u64_roundtrip(v);
    assert(bytes_at(t, o, 8) =~= u64_le_bytes(v));
    assert(le_u64_at(t, o) == le_u64_at(u64_le_bytes(v), 0));
}

/// Writing back the value just read changes nothing.
pub proof fn lemma_put_u64_read_back(s: Seq<u8>, o: int)
    requires
        0 <= o,
        o + 8 <= s.len(),
    ensures
        put_u64(s, o, le_u64_at(s, o)) == s,
{
    lemma_u64_bytes_roundtrip(s, o);
    assert(put_u64(s, o, le_u64_at(s, o)) =~= s);
}

/// Reads the little-endian `u64` at `o`, as `u64::from_le_bytes` on `data[o..o + 8]`.
pub fn read_u64_le(data: &[u8], o: usize) -> (v: u64)
    requires
        o + 8 <= data@.len(),
    ensures
        v == le_u64_at(data@, o as int),
{
    (data[o] as u64) | ((data[o + 1] as u64) << 8u64) | ((data[o + 2] as u64) << 16u64) | ((data[o
        + 3] as u64) << 24u64) | ((data[o + 4] as u64) << 32u64) | ((data[o + 5] as u64)
        << 40u64) | ((data[o + 6] as u64) << 48u64) | ((data[o + 7] as u64) << 56u64)
}

/// Reads the little-endian `u16` at `o`, as `u16::from_le_bytes` on `data[o..o + 2]`.
pub fn read_u16_le(data: &[u8], o: usize) -> (v: u16)
    requires
        o + 2 <= data@.len(),
    ensures
        v == le_u16_at(data@, o as int),
{
    (data[o] as u16) | ((data[o + 1] as u16) << 8u16)
}

/// The little-endian bytes of `v`, as `v.to_le_bytes()`.
pub fn u64_to_le_bytes(v: u64) -> (b: [u8; 8])
    ensures
        b@ == u64_le_bytes(v),
{
    let b = [
        (v & 0xff) as u8,
        ((v >> 8u64) & 0xff) as u8,
        ((v >> 16u64) & 0xff) as u8,
        ((v >> 24u64) & 0xff) as u8,
        ((v >> 32u64) & 0xff) as u8,
        ((v >> 40u64) & 0xff) as u8,
        ((v >> 48u64) & 0xff) as u8,
        ((v >> 56u64) & 0xff) as u8,
    ];
    assert(b@ =~= u64_le_bytes(v));
    b
}

/// Copies `src` into `data` from offset `o` on, as
/// `data[o..o + src.len()].copy_from_slice(src)`.
pub fn write_bytes(data: &mut Vec<u8>, o: usize, src: &[u8])
    requires
        o + src@.len() <= old(data)@.len(),
    ensures
        final(data)@ == put_bytes(old(data)@, o as int, src@),
{
    let n = src.len();
    let len = data.len();
    let mut i: usize = 0;
    while i < n
        invariant
            n == src@.len(),
            len == data@.len(),
            o + n <= data@.len(),
            data@.len() == old(data)@.len(),
            i <= n,
            forall|j: int|
                0 <= j < data@.len() ==> #[trigger] data@[j] == if o <= j < o + i {
                    src@[j - o]
                } else {
                    old(data)@[j]
                },
        decreases n - i,
    {
        data[o + i] = src[i];
        i = i + 1;
    }
    assert(data@ =~= put_bytes(old(data)@, o as int, src@));
}

/// Writes the little-endian encoding of `v` at `o`.
pub fn write_u64_le(data: &mut Vec<u8>, o: usize, v: u64)
    requires
        o + 8 <= old(data)@.len(),
    ensures
        final(data)@ == put_u64(old(data)@, o as int, v),
{
    let b = u64_to_le_bytes(v);
    write_bytes(data, o, &b);
}

/// Whether `data[o..o + 32]` equals `key`.
pub fn bytes_eq_key(data: &[u8], o: usize, key: &[u8; 32]) -> (r: bool)
    requires
        o + 32 <= data@.len(),
    ensures
        r == (bytes_at(data@, o as int, 32) == key@),
{
    let len = data.len();
    let mut i: usize = 0;
    while i < 32
        invariant
            len == data@.len(),
            o + 32 <= data@.len(),
            key@.len() == 32,
            i <= 32,
            forall|j: int| 0 <= j < i ==> data@[o + j] == key@[j],
        decreases 32 - i,
    {
        if data[o + i] != key[i] {
            assert(bytes_at(data@, o as int, 32)[i as int] != key@[i as int]);
            return false;
        }
        i = i + 1;
    }
    assert(bytes_at(data@, o as int, 32) =~= key@);
    true
}

/// Whether two keys are equal.
pub fn keys_eq(a: &[u8; 32], b: &[u8; 32]) -> (r: bool)
    ensures
        r == (a@ == b@),
{
    let mut i: usize = 0;
    while i < 32
        invariant
            a@.len() == 32,
            b@.len() == 32,
            i <= 32,
            forall|j: int| 0 <= j < i ==> a@[j] == b@[j],
        decreases 32 - i,
    {
        if a[i] != b[i] {
            return false;
        }
        i = i + 1;
    }
    assert(a@ =~= b@);
    true
}

/// Whether the bytes of `data` from `o` on start with `expected`.
pub fn bytes_eq_at(data: &[u8], o: usize, expected: &[u8]) -> (r: bool)
    requires
        o + expected@.len() <= data@.len(),
    ensures
        r == (bytes_at(data@, o as int, expected@.len() as int) == expected@),
{
    let n = expected.len();
    let len = data.len();
    let mut i: usize = 0;
    while i < n
        invariant
            n == expected@.len(),
            len == data@.len(),
            o + n <= data@.len(),
            i <= n,
            forall|j: int| 0 <= j < i ==> data@[o + j] == expected@[j],
        decreases n - i,
    {
        if data[o + i] != expected[i] {
            assert(bytes_at(data@, o as int, n as int)[i as int] != expected@[i as int]);
            return false;
        }
        i = i + 1;
    }
    assert(bytes_at(data@, o as int, n as int) =~= expected@);
    true
}

/// Writes the little-endian encoding of `v` at `o`.
pub fn write_u16_le(data: &mut Vec<u8>, o: usize, v: u16)
    requires
        o + 2 <= old(data)@.len(),
    ensures
        final(data)@ == put_u16(old(data)@, o as int, v),
{
    let b: [u8; 2] = [(v & 0xff) as u8, ((v >> 8u16) & 0xff) as u8];
    assert(b@ =~= u16_le_bytes(v));
    write_bytes(data, o, &b);
}

/// Decoding the encoding of a `u16` gives the value back.
pub proof fn lemma_u16_roundtrip(v: u16)
    ensures
        le_u16_at(u16_le_bytes(v), 0) == v,
{
    assert(((v & 0xff) as u8 as u16) | ((((v >> 8u16) & 0xff) as u8 as u16) << 8u16) == v) by (bit_vector);
}

/// The key held in `data[o..o + 32]`.
pub fn read_key(data: &[u8], o: usize) -> (k: [u8; 32])
    requires
        o + 32 <= data@.len(),
    ensures
        k@ == bytes_at(data@, o as int, 32),
{
    let mut k: [u8; 32] = [0u8; 32];
    let len = data.len();
    let mut i: usize = 0;
    while i < 32
        invariant
            len == data@.len(),
            o + 32 <= data@.len(),
            k@.len() == 32,
            i <= 32,
            forall|j: int| 0 <= j < i ==> k@[j] == data@[o + j],
        decreases 32 - i,
    {
        k[i] = data[o + i];
        i = i + 1;
    }
    assert(k@ =~= bytes_at(data@, o as int, 32));
    k
}

} // verus!
