use vstd::bytes::*;
use vstd::prelude::*;
use vstd::slice::{slice_subrange, slice_to_vec};

verus! {

/// The little-endian `u16` stored at `b[off..off + 2]`.
pub open spec fn le16(b: Seq<u8>, off: int) -> u16 {
    spec_u16_from_le_bytes(b.subrange(off, off + 2))
}

/// The little-endian `u32` stored at `b[off..off + 4]`.
pub open spec fn le32(b: Seq<u8>, off: int) -> u32 {
    spec_u32_from_le_bytes(b.subrange(off, off + 4))
}

/// The little-endian `u64` stored at `b[off..off + 8]`.
pub open spec fn le64(b: Seq<u8>, off: int) -> u64 {
    spec_u64_from_le_bytes(b.subrange(off, off + 8))
}

/// The `n` little-endian `u32` words stored from `b[off]` on.
pub open spec fn le_words(b: Seq<u8>, off: int, n: nat) -> Seq<u32> {
    Seq::new(n, |i: int| le32(b, off + 4 * i))
}

/// The little-endian bytes of a `u16`.
pub open spec fn bytes16(x: u16) -> Seq<u8> {
    spec_u16_to_le_bytes(x)
}

/// The little-endian bytes of a `u32`.
pub open spec fn bytes32(x: u32) -> Seq<u8> {
    spec_u32_to_le_bytes(x)
}

/// The little-endian bytes of a `u64`.
pub open spec fn bytes64(x: u64) -> Seq<u8> {
    spec_u64_to_le_bytes(x)
}

/// The little-endian bytes of a run of `u32` words.
pub open spec fn words_bytes(ws: Seq<u32>) -> Seq<u8>
    decreases ws.len(),
{
    if ws.len() == 0 {
        Seq::empty()
    } else {
        words_bytes(ws.drop_last()) + bytes32(ws.last())
    }
}

/// Encoding an integer and decoding it again are inverse to each other.
pub proof fn lemma_int_round_trips()
    ensures
        forall|x: u16| #[trigger] bytes16(x).len() == 2 && spec_u16_from_le_bytes(bytes16(x)) == x,
        forall|x: u32| #[trigger] bytes32(x).len() == 4 && spec_u32_from_le_bytes(bytes32(x)) == x,
        forall|x: u64| #[trigger] bytes64(x).len() == 8 && spec_u64_from_le_bytes(bytes64(x)) == x,
        forall|s: Seq<u8>| s.len() == 2 ==> #[trigger] bytes16(spec_u16_from_le_bytes(s)) == s,
        forall|s: Seq<u8>| s.len() == 4 ==> #[trigger] bytes32(spec_u32_from_le_bytes(s)) == s,
        forall|s: Seq<u8>| s.len() == 8 ==> #[trigger] bytes64(spec_u64_from_le_bytes(s)) == s,
{
    lemma_auto_spec_u16_to_from_le_bytes();
    lemma_auto_spec_u32_to_from_le_bytes();
    lemma_auto_spec_u64_to_from_le_bytes();
}

/// Two adjacent ranges of a sequence joined are the range that spans both.
pub proof fn lemma_join(b: Seq<u8>, i: int, j: int, k: int)
    requires
        0 <= i <= j <= k <= b.len(),
    ensures
        b.subrange(i, j) + b.subrange(j, k) == b.subrange(i, k),
{
    assert(b.subrange(i, j) + b.subrange(j, k) =~= b.subrange(i, k));
}

/// Encoding the words decoded from a range gives back that range.
pub proof fn lemma_words_round_trip(b: Seq<u8>, off: int, n: nat)
    requires
        0 <= off,
        off + 4 * n <= b.len(),
    ensures
        words_bytes(le_words(b, off, n)) == b.subrange(off, off + 4 * n),
    decreases n,
{
    lemma_int_round_trips();
    if n == 0 {
        assert(b.subrange(off, off) =~= Seq::<u8>::empty());
    } else {
        let m = (n - 1) as nat;
        lemma_words_round_trip(b, off, m);
        assert(le_words(b, off, n).drop_last() =~= le_words(b, off, m));
        lemma_join(b, off, off + 4 * m, off + 4 * n);
    }
}

/// Each word takes four bytes.
pub proof fn lemma_words_bytes_len(ws: Seq<u32>)
    ensures
        words_bytes(ws).len() == 4 * ws.len(),
    decreases ws.len(),
{
    lemma_int_round_trips();
    if ws.len() > 0 {
        lemma_words_bytes_len(ws.drop_last());
    }
}

/// Decoding the words whose encoding stands at `off` gives back those words.
pub proof fn lemma_words_decode(b: Seq<u8>, off: int, ws: Seq<u32>)
    requires
        0 <= off,
        off + 4 * ws.len() <= b.len(),
        b.subrange(off, off + 4 * ws.len()) == words_bytes(ws),
    ensures
        le_words(b, off, ws.len()) == ws,
    decreases ws.len(),
{
    lemma_int_round_trips();
    if ws.len() > 0 {
        let n = ws.len() as int;
        let init = ws.drop_last();
        lemma_words_bytes_len(init);
        assert(b.subrange(off, off + 4 * (n - 1)) =~= words_bytes(ws).subrange(0, 4 * (n - 1)));
        assert(words_bytes(ws).subrange(0, 4 * (n - 1)) =~= words_bytes(init));
        lemma_words_decode(b, off, init);
        assert(words_bytes(ws) == words_bytes(init) + bytes32(ws.last()));
        assert(b.subrange(off + 4 * (n - 1), off + 4 * n) =~= words_bytes(ws).subrange(
            4 * (n - 1),
            4 * n,
        ));
        assert(words_bytes(ws).subrange(4 * (n - 1), 4 * n) =~= bytes32(ws.last()));
        assert(le_words(b, off, ws.len()) =~= ws) by {
            assert forall|i: int| 0 <= i < n implies le_words(b, off, ws.len())[i] == ws[i] by {
                if i < n - 1 {
                    assert(le_words(b, off, init.len())[i] == init[i]);
                }
            }
        }
    }
}

/// Reads the byte at `off`.
pub(crate) fn read_u8(buf: &[u8], off: usize) -> (r: u8)
    requires
        off < buf@.len(),
    ensures
        r == buf@[off as int],
{
    buf[off]
}

/// Reads the little-endian `u16` at `off`.
pub(crate) fn read_u16(buf: &[u8], off: usize) -> (r: u16)
    requires
        off + 2 <= buf@.len(),
    ensures
        r == le16(buf@, off as int),
{
    let _ = buf.len();
    u16_from_le_bytes(slice_subrange(buf, off, off + 2))
}

/// Reads the little-endian `u32` at `off`.
pub(crate) fn read_u32(buf: &[u8], off: usize) -> (r: u32)
    requires
        off + 4 <= buf@.len(),
    ensures
        r == le32(buf@, off as int),
{
    let _ = buf.len();
    u32_from_le_bytes(slice_subrange(buf, off, off + 4))
}

/// Reads the little-endian `u64` at `off`.
pub(crate) fn read_u64(buf: &[u8], off: usize) -> (r: u64)
    requires
        off + 8 <= buf@.len(),
    ensures
        r == le64(buf@, off as int),
{
    let _ = buf.len();
    u64_from_le_bytes(slice_subrange(buf, off, off + 8))
}

/// Copies the `n` bytes that start at `off`.
pub(crate) fn read_bytes(buf: &[u8], off: usize, n: usize) -> (r: Vec<u8>)
    requires
        off + n <= buf@.len(),
    ensures
        r@ == buf@.subrange(off as int, off + n),
{
    let _ = buf.len();
    slice_to_vec(slice_subrange(buf, off, off + n))
}

/// Reads `n` little-endian `u32` words from `off` on.
pub(crate) fn read_words(buf: &[u8], off: usize, n: usize) -> (r: Vec<u32>)
    requires
        off + 4 * n <= buf@.len(),
    ensures
        r@ == le_words(buf@, off as int, n as nat),
{
    let _ = buf.len();
    let mut r: Vec<u32> = Vec::new();
    let mut i: usize = 0;
    while i < n
        invariant
            i <= n,
            off + 4 * n <= buf@.len(),
            r@ =~= le_words(buf@, off as int, i as nat),
            buf@.len() <= usize::MAX,
        decreases n - i,
    {
        r.push(read_u32(buf, off + 4 * i));
        i = i + 1;
    }
    r
}

/// Appends the byte `x`.
pub(crate) fn push_u8(v: &mut Vec<u8>, x: u8)
    ensures
        final(v)@ == old(v)@ + seq![x],
{
    v.push(x);
    assert(final(v)@ =~= old(v)@ + seq![x]);
}

/// Appends the little-endian bytes of `x`.
pub(crate) fn push_u16(v: &mut Vec<u8>, x: u16)
    ensures
        final(v)@ == old(v)@ + bytes16(x),
{
    let mut b = u16_to_le_bytes(x);
    v.append(&mut b);
}

/// Appends the little-endian bytes of `x`.
pub(crate) fn push_u32(v: &mut Vec<u8>, x: u32)
    ensures
        final(v)@ == old(v)@ + bytes32(x),
{
    let mut b = u32_to_le_bytes(x);
    v.append(&mut b);
}

/// Appends the little-endian bytes of `x`.
pub(crate) fn push_u64(v: &mut Vec<u8>, x: u64)
    ensures
        final(v)@ == old(v)@ + bytes64(x),
{
    let mut b = u64_to_le_bytes(x);
    v.append(&mut b);
}

/// Appends the bytes of `src`.
pub(crate) fn push_bytes(v: &mut Vec<u8>, src: &Vec<u8>)
    ensures
        final(v)@ == old(v)@ + src@,
{
    let mut i: usize = 0;
    while i < src.len()
        invariant
            i <= src@.len(),
            v@ == old(v)@ + src@.subrange(0, i as int),
        decreases src@.len() - i,
    {
        v.push(src[i]);
        i = i + 1;
        assert(v@ =~= old(v)@ + src@.subrange(0, i as int));
    }
    assert(src@.subrange(0, src@.len() as int) =~= src@);
}

/// Appends the little-endian bytes of each word of `src`.
pub(crate) fn push_words(v: &mut Vec<u8>, src: &Vec<u32>)
    ensures
        final(v)@ == old(v)@ + words_bytes(src@),
{
    let mut i: usize = 0;
    while i < src.len()
        invariant
            i <= src@.len(),
            v@ == old(v)@ + words_bytes(src@.subrange(0, i as int)),
        decreases src@.len() - i,
    {
        push_u32(v, src[i]);
        i = i + 1;
        assert(src@.subrange(0, i as int).drop_last() =~= src@.subrange(0, i - 1));
        assert(v@ =~= old(v)@ + words_bytes(src@.subrange(0, i as int)));
    }
    assert(src@.subrange(0, src@.len() as int) =~= src@);
}

} // verus!
