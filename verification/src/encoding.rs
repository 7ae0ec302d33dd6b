use vstd::prelude::*;

verus! {

/// Little-endian bytes of a `u32`.
pub open spec fn le_u32(v: u32) -> Seq<u8> {
    seq![v as u8, (v >> 8u32) as u8, (v >> 16u32) as u8, (v >> 24u32) as u8]
}

/// Little-endian bytes of a `u64`.
pub open spec fn le_u64(v: u64) -> Seq<u8> {
    seq![
        v as u8,
        (v >> 8u64) as u8,
        (v >> 16u64) as u8,
        (v >> 24u64) as u8,
        (v >> 32u64) as u8,
        (v >> 40u64) as u8,
        (v >> 48u64) as u8,
        (v >> 56u64) as u8,
    ]
}

/// Little-endian two's-complement bytes of an `i64`.
pub open spec fn le_i64(v: i64) -> Seq<u8> {
    le_u64(v as u64)
}

/// The `u32` whose little-endian bytes start `b`.
pub open spec fn u32_from_le(b: Seq<u8>) -> u32 {
    (b[0] as u32) | ((b[1] as u32) << 8u32) | ((b[2] as u32) << 16u32) | ((b[3] as u32) << 24u32)
}

/// The `u64` whose little-endian bytes start `b`.
pub open spec fn u64_from_le(b: Seq<u8>) -> u64 {
    (b[0] as u64) | ((b[1] as u64) << 8u64) | ((b[2] as u64) << 16u64) | ((b[3] as u64) << 24u64)
        | ((b[4] as u64) << 32u64) | ((b[5] as u64) << 40u64) | ((b[6] as u64) << 48u64) | ((
    b[7] as u64) << 56u64)
}

proof fn lemma_u32_pack(v: u32)
    by (bit_vector)
    ensures
        ((v as u8) as u32) | ((((v >> 8u32) as u8) as u32) << 8u32) | ((((v >> 16u32) as u8) as u32)
            << 16u32) | ((((v >> 24u32) as u8) as u32) << 24u32) == v,
{
}

/// Reading a `u32` back from its bytes gives the value.
pub proof fn lemma_le_u32_round_trip(v: u32)
    ensures
        u32_from_le(le_u32(v)) == v,
        le_u32(v).len() == 4,
{
    lemma_u32_pack(v);
}

proof fn lemma_u64_pack(v: u64)
    by (bit_vector)
    ensures
        ((v as u8) as u64) | ((((v >> 8u64) as u8) as u64) << 8u64) | ((((v >> 16u64) as u8) as u64)
            << 16u64) | ((((v >> 24u64) as u8) as u64) << 24u64) | ((((v >> 32u64) as u8) as u64)
            << 32u64) | ((((v >> 40u64) as u8) as u64) << 40u64) | ((((v >> 48u64) as u8) as u64)
            << 48u64) | ((((v >> 56u64) as u8) as u64) << 56u64) == v,
{
}

/// Reading a `u64` back from its bytes gives the value.
pub proof fn lemma_le_u64_round_trip(v: u64)
    ensures
        u64_from_le(le_u64(v)) == v,
        le_u64(v).len() == 8,
{
    lemma_u64_pack(v);
}

/// An `i64` survives the trip through its unsigned bit pattern.
pub proof fn lemma_i64_bits(v: i64)
    by (bit_vector)
    ensures
        (v as u64) as i64 == v,
{
}

/// Appends the little-endian bytes of `v`.
pub fn push_u32(out: &mut Vec<u8>, v: u32)
    ensures
        final(out)@ == old(out)@ + le_u32(v),
{
    out.push(v as u8);
    out.push((v >> 8u32) as u8);
    out.push((v >> 16u32) as u8);
    out.push((v >> 24u32) as u8);
    assert(out@ =~= old(out)@ + le_u32(v));
}

/// Appends the little-endian bytes of `v`.
pub fn push_u64(out: &mut Vec<u8>, v: u64)
    ensures
        final(out)@ == old(out)@ + le_u64(v),
{
    out.push(v as u8);
    out.push((v >> 8u64) as u8);
    out.push((v >> 16u64) as u8);
    out.push((v >> 24u64) as u8);
    out.push((v >> 32u64) as u8);
    out.push((v >> 40u64) as u8);
    out.push((v >> 48u64) as u8);
    out.push((v >> 56u64) as u8);
    assert(out@ =~= old(out)@ + le_u64(v));
}

/// Appends the little-endian two's-complement bytes of `v`.
pub fn push_i64(out: &mut Vec<u8>, v: i64)
    ensures
        final(out)@ == old(out)@ + le_i64(v),
{
    push_u64(out, v as u64);
}

/// Appends `bytes` unchanged.
pub fn push_bytes(out: &mut Vec<u8>, bytes: &[u8])
    ensures
        final(out)@ == old(out)@ + bytes@,
{
    let ghost start = out@;
    let mut i: usize = 0;
    while i < bytes.len()
        invariant
            i <= bytes@.len(),
            out@ == start + bytes@.subrange(0, i as int),
        decreases bytes@.len() - i,
    {
        out.push(bytes[i]);
        i = i + 1;
        assert(out@ =~= start + bytes@.subrange(0, i as int));
    }
    assert(bytes@.subrange(0, i as int) =~= bytes@);
}

/// The bytes of a length-prefixed sequence: a `u64` count, then the bytes.
pub open spec fn len_prefixed(b: Seq<u8>) -> Seq<u8> {
    le_u64(b.len() as u64) + b
}

/// The bytes of an optional byte sequence: a tag byte 0, or a tag byte 1 and
/// the length-prefixed bytes.
pub open spec fn option_bytes(o: Option<Seq<u8>>) -> Seq<u8> {
    match o {
        None => seq![0u8],
        Some(b) => seq![1u8] + len_prefixed(b),
    }
}

/// Appends `bytes` with a `u64` length prefix.
pub fn push_len_prefixed(out: &mut Vec<u8>, bytes: &[u8])
    ensures
        final(out)@ == old(out)@ + len_prefixed(bytes@),
{
    push_u64(out, bytes.len() as u64);
    push_bytes(out, bytes);
    assert(out@ =~= old(out)@ + len_prefixed(bytes@));
}

/// Appends an optional byte sequence with its tag.
pub fn push_option_bytes(out: &mut Vec<u8>, o: &Option<Vec<u8>>)
    ensures
        final(out)@ == old(out)@ + option_bytes(view_option_bytes(*o)),
{
    match o {
        None => {
            out.push(0u8);
            assert(out@ =~= old(out)@ + option_bytes(view_option_bytes(*o)));
        },
        Some(b) => {
            out.push(1u8);
            push_len_prefixed(out, b.as_slice());
            assert(out@ =~= old(out)@ + option_bytes(view_option_bytes(*o)));
        },
    }
}

/// The view of an optional byte vector.
pub open spec fn view_option_bytes(o: Option<Vec<u8>>) -> Option<Seq<u8>> {
    match o {
        None => None,
        Some(v) => Some(v@),
    }
}

/// Reads the `u32` stored little-endian at `pos`.
pub fn read_u32(b: &[u8], pos: usize) -> (r: u32)
    requires
        pos + 4 <= b@.len(),
    ensures
        r == u32_from_le(b@.subrange(pos as int, pos + 4)),
{
    (b[pos] as u32) | ((b[pos + 1] as u32) << 8u32) | ((b[pos + 2] as u32) << 16u32) | ((b[pos
        + 3] as u32) << 24u32)
}

/// Reads the `u64` stored little-endian at `pos`.
pub fn read_u64(b: &[u8], pos: usize) -> (r: u64)
    requires
        pos + 8 <= b@.len(),
    ensures
        r == u64_from_le(b@.subrange(pos as int, pos + 8)),
{
    (b[pos] as u64) | ((b[pos + 1] as u64) << 8u64) | ((b[pos + 2] as u64) << 16u64) | ((b[pos
        + 3] as u64) << 24u64) | ((b[pos + 4] as u64) << 32u64) | ((b[pos + 5] as u64) << 40u64)
        | ((b[pos + 6] as u64) << 48u64) | ((b[pos + 7] as u64) << 56u64)
}

/// Copies `len` bytes starting at `pos`.
pub fn copy_range(b: &[u8], pos: usize, len: usize) -> (r: Vec<u8>)
    requires
        pos + len <= b@.len(),
    ensures
        r@ == b@.subrange(pos as int, pos + len),
{
    let mut out: Vec<u8> = Vec::new();
    let mut i: usize = 0;
    let ghost n = b@.len();
    assert(n == b.len());
    while i < len
        invariant
            i <= len,
            pos + len <= b@.len(),
            b@.len() <= usize::MAX,
            out@ == b@.subrange(pos as int, pos + i),
        decreases len - i,
    {
        out.push(b[pos + i]);
        i = i + 1;
        assert(out@ =~= b@.subrange(pos as int, pos + i));
    }
    out
}

/// Copies 32 bytes starting at `pos` into an array.
pub fn read_array32(b: &[u8], pos: usize) -> (r: [u8; 32])
    requires
        pos + 32 <= b@.len(),
    ensures
        r@ == b@.subrange(pos as int, pos + 32),
{
    let mut out: [u8; 32] = [0u8; 32];
    let mut i: usize = 0;
    assert(b@.len() == b.len());
    while i < 32
        invariant
            i <= 32,
            pos + 32 <= b@.len(),
            b@.len() <= usize::MAX,
            forall|j: int| 0 <= j < i ==> out@[j] == b@[pos + j],
        decreases 32 - i,
    {
        out[i] = b[pos + i];
        i = i + 1;
    }
    assert(out@ =~= b@.subrange(pos as int, pos + 32));
    out
}

/// Decodes the `u32` stored at `pos`, with the position after it.
pub open spec fn dec_u32(b: Seq<u8>, pos: int) -> Option<(u32, int)> {
    if 0 <= pos && pos + 4 <= b.len() {
        Some((u32_from_le(b.subrange(pos, pos + 4)), pos + 4))
    } else {
        None
    }
}

/// Decodes the `u64` stored at `pos`, with the position after it.
pub open spec fn dec_u64(b: Seq<u8>, pos: int) -> Option<(u64, int)> {
    if 0 <= pos && pos + 8 <= b.len() {
        Some((u64_from_le(b.subrange(pos, pos + 8)), pos + 8))
    } else {
        None
    }
}

/// Decodes the `i64` stored at `pos`, with the position after it.
pub open spec fn dec_i64(b: Seq<u8>, pos: int) -> Option<(i64, int)> {
    match dec_u64(b, pos) {
        Some((v, p)) => Some((v as i64, p)),
        None => None,
    }
}

/// Decodes `n` raw bytes at `pos`, with the position after them.
pub open spec fn dec_fixed(b: Seq<u8>, pos: int, n: int) -> Option<(Seq<u8>, int)> {
    if 0 <= pos && 0 <= n && pos + n <= b.len() {
        Some((b.subrange(pos, pos + n), pos + n))
    } else {
        None
    }
}

/// Decodes a length-prefixed byte sequence at `pos`, with the position after it.
pub open spec fn dec_len_prefixed(b: Seq<u8>, pos: int) -> Option<(Seq<u8>, int)> {
    match dec_u64(b, pos) {
        Some((n, p)) => dec_fixed(b, p, n as int),
        None => None,
    }
}

/// Decodes an optional length-prefixed byte sequence at `pos`, with the position after it.
pub open spec fn dec_option_bytes(b: Seq<u8>, pos: int) -> Option<(Option<Seq<u8>>, int)> {
    if 0 <= pos && pos < b.len() {
        if b[pos] == 0 {
            Some((None, pos + 1))
        } else if b[pos] == 1 {
            match dec_len_prefixed(b, pos + 1) {
                Some((v, p)) => Some((Some(v), p)),
                None => None,
            }
        } else {
            None
        }
    } else {
        None
    }
}

/// `b` holds `x` at `pos`.
pub open spec fn holds_at(b: Seq<u8>, pos: int, x: Seq<u8>) -> bool {
    &&& 0 <= pos
    &&& pos + x.len() <= b.len()
    &&& b.subrange(pos, pos + x.len()) == x
}

/// A sequence that holds `x + y` at `pos` holds `x` there and `y` right after it.
pub proof fn lemma_holds_at_split(b: Seq<u8>, pos: int, x: Seq<u8>, y: Seq<u8>)
    requires
        holds_at(b, pos, x + y),
    ensures
        holds_at(b, pos, x),
        holds_at(b, pos + x.len(), y),
{
    assert(b.subrange(pos, pos + x.len()) =~= (x + y).subrange(0, x.len() as int));
    assert((x + y).subrange(0, x.len() as int) =~= x);
    assert(b.subrange(pos + x.len(), pos + x.len() + y.len()) =~= (x + y).subrange(
        x.len() as int,
        (x + y).len() as int,
    ));
    assert((x + y).subrange(x.len() as int, (x + y).len() as int) =~= y);
}

/// A value is at the start of its own encoding followed by anything.
pub proof fn lemma_holds_at_start(x: Seq<u8>, rest: Seq<u8>)
    ensures
        holds_at(x + rest, 0, x),
{
    assert((x + rest).subrange(0, x.len() as int) =~= x);
}

/// Decoding a `u32` where its bytes are.
pub proof fn lemma_dec_u32(b: Seq<u8>, pos: int, v: u32)
    requires
        holds_at(b, pos, le_u32(v)),
    ensures
        dec_u32(b, pos) == Some((v, pos + 4)),
{
    lemma_le_u32_round_trip(v);
}

/// Decoding a `u64` where its bytes are.
pub proof fn lemma_dec_u64(b: Seq<u8>, pos: int, v: u64)
    requires
        holds_at(b, pos, le_u64(v)),
    ensures
        dec_u64(b, pos) == Some((v, pos + 8)),
{
    lemma_le_u64_round_trip(v);
}

/// Decoding an `i64` where its bytes are.
pub proof fn lemma_dec_i64(b: Seq<u8>, pos: int, v: i64)
    requires
        holds_at(b, pos, le_i64(v)),
    ensures
        dec_i64(b, pos) == Some((v, pos + 8)),
{
    lemma_dec_u64(b, pos, v as u64);
    lemma_i64_bits(v);
}

/// Decoding raw bytes where they are.
pub proof fn lemma_dec_fixed(b: Seq<u8>, pos: int, x: Seq<u8>)
    requires
        holds_at(b, pos, x),
    ensures
        dec_fixed(b, pos, x.len() as int) == Some((x, pos + x.len())),
{
}

/// Decoding a length-prefixed sequence where its bytes are.
pub proof fn lemma_dec_len_prefixed(b: Seq<u8>, pos: int, x: Seq<u8>)
    requires
        holds_at(b, pos, len_prefixed(x)),
        x.len() <= u64::MAX,
    ensures
        dec_len_prefixed(b, pos) == Some((x, pos + 8 + x.len())),
{
    lemma_holds_at_split(b, pos, le_u64(x.len() as u64), x);
    lemma_le_u64_round_trip(x.len() as u64);
    lemma_dec_u64(b, pos, x.len() as u64);
    lemma_dec_fixed(b, pos + 8, x);
}

/// Decoding an optional sequence where its bytes are.
pub proof fn lemma_dec_option_bytes(b: Seq<u8>, pos: int, o: Option<Seq<u8>>)
    requires
        holds_at(b, pos, option_bytes(o)),
        o matches Some(x) ==> x.len() <= u64::MAX,
    ensures
        dec_option_bytes(b, pos) == Some((o, pos + option_bytes(o).len())),
{
    match o {
        None => {
            assert(b[pos] == option_bytes(o)[0]);
        },
        Some(x) => {
            lemma_holds_at_split(b, pos, seq![1u8], len_prefixed(x));
            assert(b[pos] == b.subrange(pos, pos + 1)[0]);
            lemma_dec_len_prefixed(b, pos + 1, x);
        },
    }
}

/// Reads the length-prefixed byte sequence at `pos`, with the position after it.
pub fn read_len_prefixed(b: &[u8], pos: usize) -> (r: Option<(Vec<u8>, usize)>)
    ensures
        r is Some <==> dec_len_prefixed(b@, pos as int) is Some,
        r matches Some((v, p)) ==> dec_len_prefixed(b@, pos as int) == Some((v@, p as int)),
{
    let n = b.len();
    if pos > n || n - pos < 8 {
        return None;
    }
    let len = read_u64(b, pos);
    let start = pos + 8;
    if len > (n - start) as u64 {
        return None;
    }
    let len = len as usize;
    let v = copy_range(b, start, len);
    Some((v, start + len))
}

/// Reads the optional length-prefixed byte sequence at `pos`, with the position after it.
pub fn read_option_bytes(b: &[u8], pos: usize) -> (r: Option<(Option<Vec<u8>>, usize)>)
    ensures
        r is Some <==> dec_option_bytes(b@, pos as int) is Some,
        r matches Some((v, p)) ==> dec_option_bytes(b@, pos as int) == Some((view_option_bytes(v), p as int)),
{
    if pos >= b.len() {
        return None;
    }
    let tag = b[pos];
    if tag == 0 {
        Some((None, pos + 1))
    } else if tag == 1 {
        match read_len_prefixed(b, pos + 1) {
            Some((v, p)) => Some((Some(v), p)),
            None => None,
        }
    } else {
        None
    }
}

/// Reads the `i64` stored little-endian at `pos`.
pub fn read_i64(b: &[u8], pos: usize) -> (r: i64)
    requires
        pos + 8 <= b@.len(),
    ensures
        r == u64_from_le(b@.subrange(pos as int, pos + 8)) as i64,
{
    read_u64(b, pos) as i64
}

/// Whether two byte strings are equal.
pub fn bytes_eq(a: &[u8], b: &[u8]) -> (r: bool)
    ensures
        r == (a@ == b@),
{
    if a.len() != b.len() {
        return false;
    }
    let mut i: usize = 0;
    while i < a.len()
        invariant
            i <= a@.len(),
            a@.len() == b@.len(),
            forall|j: int| 0 <= j < i ==> a@[j] == b@[j],
        decreases a@.len() - i,
    {
        if a[i] != b[i] {
            return false;
        }
        i = i + 1;
    }
    assert(a@ =~= b@);
    true
}

} // verus!
