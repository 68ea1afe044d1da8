//! Binary codec primitives: little-endian packing of 64-bit integers and the
//! reversible XOR keystream transform over 32-byte fields.

use vstd::prelude::*;

verus! {

/// Width in bytes of an address or of an obfuscated field.
pub const FIELD_WIDTH: usize = 32;

/// Width in bytes of one key of a keyset, and of one packed integer.
pub const CHUNK_WIDTH: usize = 8;

/// Number of keys that a keyset must hold to cover a 32-byte field.
pub const KEYS_PER_FIELD: usize = 4;

/// Why a codec operation could not be carried out.
#[derive(Clone, Copy, Debug, PartialEq, Eq, Structural)]
pub enum CodecError {
    /// The keyset does not cover the field: its keys, laid end to end, are
    /// not exactly as wide as the field.
    KeysetWidthMismatch,
}

/// The eight bytes of `x`, least significant first.
pub open spec fn u64_to_le(x: u64) -> Seq<u8> {
    seq![
        (x & 0xff) as u8,
        ((x >> 8) & 0xff) as u8,
        ((x >> 16) & 0xff) as u8,
        ((x >> 24) & 0xff) as u8,
        ((x >> 32) & 0xff) as u8,
        ((x >> 40) & 0xff) as u8,
        ((x >> 48) & 0xff) as u8,
        ((x >> 56) & 0xff) as u8,
    ]
}

/// The integer whose little-endian bytes are the first eight bytes of `s`.
pub open spec fn u64_from_le(s: Seq<u8>) -> u64 {
    (s[0] as u64) | (s[1] as u64) << 8 | (s[2] as u64) << 16 | (s[3] as u64) << 24
        | (s[4] as u64) << 32 | (s[5] as u64) << 40 | (s[6] as u64) << 48 | (s[7] as u64) << 56
}

/// Packing eight bytes into an integer and unpacking it gives the bytes back.
pub proof fn lemma_to_le_from_le(s: Seq<u8>)
    requires
        s.len() == 8,
    ensures
        u64_to_le(u64_from_le(s)) == s,
{
    let (b0, b1, b2, b3, b4, b5, b6, b7) = (s[0], s[1], s[2], s[3], s[4], s[5], s[6], s[7]);
    assert({
        let x = (b0 as u64) | (b1 as u64) << 8 | (b2 as u64) << 16 | (b3 as u64) << 24
            | (b4 as u64) << 32 | (b5 as u64) << 40 | (b6 as u64) << 48 | (b7 as u64) << 56;
        &&& (x & 0xff) as u8 == b0
        &&& ((x >> 8) & 0xff) as u8 == b1
        &&& ((x >> 16) & 0xff) as u8 == b2
        &&& ((x >> 24) & 0xff) as u8 == b3
        &&& ((x >> 32) & 0xff) as u8 == b4
        &&& ((x >> 40) & 0xff) as u8 == b5
        &&& ((x >> 48) & 0xff) as u8 == b6
        &&& ((x >> 56) & 0xff) as u8 == b7
    }) by (bit_vector);
    assert(u64_to_le(u64_from_le(s)) =~= s);
}

/// Unpacking an integer into eight bytes and packing them gives the integer back.
pub proof fn lemma_from_le_to_le(x: u64)
    ensures
        u64_to_le(x).len() == 8,
        u64_from_le(u64_to_le(x)) == x,
{
    assert({
        let b0 = (x & 0xff) as u8;
        let b1 = ((x >> 8) & 0xff) as u8;
        let b2 = ((x >> 16) & 0xff) as u8;
        let b3 = ((x >> 24) & 0xff) as u8;
        let b4 = ((x >> 32) & 0xff) as u8;
        let b5 = ((x >> 40) & 0xff) as u8;
        let b6 = ((x >> 48) & 0xff) as u8;
        let b7 = ((x >> 56) & 0xff) as u8;
        x == (b0 as u64) | (b1 as u64) << 8 | (b2 as u64) << 16 | (b3 as u64) << 24
            | (b4 as u64) << 32 | (b5 as u64) << 40 | (b6 as u64) << 48 | (b7 as u64) << 56
    }) by (bit_vector);
}

/// Reads the little-endian integer that starts at `offset` in `data`.
pub fn read_u64_le(data: &[u8], offset: usize) -> (x: u64)
    requires
        offset + 8 <= data@.len(),
    ensures
        x == u64_from_le(data@.subrange(offset as int, offset + 8)),
{
    let b0: u64 = data[offset] as u64;
    let b1: u64 = data[offset + 1] as u64;
    let b2: u64 = data[offset + 2] as u64;
    let b3: u64 = data[offset + 3] as u64;
    let b4: u64 = data[offset + 4] as u64;
    let b5: u64 = data[offset + 5] as u64;
    let b6: u64 = data[offset + 6] as u64;
    let b7: u64 = data[offset + 7] as u64;
    b0 | b1 << 8 | b2 << 16 | b3 << 24 | b4 << 32 | b5 << 40 | b6 << 48 | b7 << 56
}

/// The eight little-endian bytes of `x`.
pub fn u64_le_bytes(x: u64) -> (out: [u8; 8])
    ensures
        out@ == u64_to_le(x),
{
    let out: [u8; 8] = [
        (x & 0xff) as u8,
        ((x >> 8) & 0xff) as u8,
        ((x >> 16) & 0xff) as u8,
        ((x >> 24) & 0xff) as u8,
        ((x >> 32) & 0xff) as u8,
        ((x >> 40) & 0xff) as u8,
        ((x >> 48) & 0xff) as u8,
        ((x >> 56) & 0xff) as u8,
    ];
    assert(out@ =~= u64_to_le(x));
    out
}

/// Writes the eight little-endian bytes of `x` into `buf` at `offset`, leaving
/// every other byte as it was.
pub fn write_u64_le<const N: usize>(buf: &mut [u8; N], offset: usize, x: u64)
    requires
        offset + 8 <= N,
    ensures
        final(buf)@ == old(buf)@.subrange(0, offset as int) + u64_to_le(x) + old(buf)@.subrange(
            offset + 8,
            N as int,
        ),
{
    let bytes = u64_le_bytes(x);
    let mut j: usize = 0;
    while j < 8
        invariant
            j <= 8,
            offset + 8 <= N,
            bytes@ == u64_to_le(x),
            buf@.len() == N,
            forall|k: int| 0 <= k < N && !(offset <= k < offset + j) ==> buf@[k] == old(buf)@[k],
            forall|k: int| 0 <= k < j ==> buf@[offset + k] == bytes@[k],
        decreases 8 - j,
    {
        buf[offset + j] = bytes[j];
        j += 1;
    }
    assert(buf@ =~= old(buf)@.subrange(0, offset as int) + u64_to_le(x) + old(buf)@.subrange(
        offset + 8,
        N as int,
    ));
}

/// Whether a keyset covers a 32-byte field: four keys of eight bytes each.
pub open spec fn keyset_covers_field(keys: Seq<u64>) -> bool {
    keys.len() * CHUNK_WIDTH == FIELD_WIDTH
}

/// Chunk `i` of `field`, read as a little-endian integer, XOR-ed with `key`
/// and written back little-endian.
pub open spec fn xor_chunk(field: Seq<u8>, key: u64, i: int) -> Seq<u8> {
    u64_to_le(u64_from_le(field.subrange(8 * i, 8 * i + 8)) ^ key)
}

/// The keystream transform of a 32-byte field under a keyset of four keys:
/// each 8-byte chunk is XOR-ed with the key of the same index.
pub open spec fn xor_field(field: Seq<u8>, keys: Seq<u64>) -> Seq<u8> {
    xor_chunk(field, keys[0], 0) + xor_chunk(field, keys[1], 1) + xor_chunk(field, keys[2], 2)
        + xor_chunk(field, keys[3], 3)
}

/// The keystream transform of one integer: XOR with the key that `key_index`
/// selects, counted modulo the keyset's length.
pub open spec fn xor_scalar_spec(value: u64, keys: Seq<u64>, key_index: int) -> u64 {
    value ^ keys[key_index % (keys.len() as int)]
}

/// Applies the keystream transform to a 32-byte field under a keyset of
/// four keys. The same call encodes and decodes.
pub fn xor_field_with(field: &[u8; 32], keys: &[u64; 4]) -> (out: [u8; 32])
    ensures
        out@ == xor_field(field@, keys@),
{
    let mut out: [u8; 32] = [0u8; 32];
    let c0 = read_u64_le(field.as_slice(), 0) ^ keys[0];
    let c1 = read_u64_le(field.as_slice(), 8) ^ keys[1];
    let c2 = read_u64_le(field.as_slice(), 16) ^ keys[2];
    let c3 = read_u64_le(field.as_slice(), 24) ^ keys[3];
    write_u64_le(&mut out, 0, c0);
    write_u64_le(&mut out, 8, c1);
    write_u64_le(&mut out, 16, c2);
    write_u64_le(&mut out, 24, c3);
    assert(out@ =~= xor_field(field@, keys@));
    out
}

/// Applies the keystream transform to a 32-byte field under a keyset of any
/// length. A keyset that does not cover the field is refused: nothing is
/// truncated or padded.
pub fn xor_transform(field: &[u8; 32], keys: &[u64]) -> (r: Result<[u8; 32], CodecError>)
    ensures
        keyset_covers_field(keys@) ==> r is Ok && r->Ok_0@ == xor_field(field@, keys@),
        !keyset_covers_field(keys@) ==> r == Err::<[u8; 32], CodecError>(
            CodecError::KeysetWidthMismatch,
        ),
{
    if keys.len() != KEYS_PER_FIELD {
        return Err(CodecError::KeysetWidthMismatch);
    }
    let four: [u64; 4] = [keys[0], keys[1], keys[2], keys[3]];
    assert(xor_field(field@, four@) == xor_field(field@, keys@));
    Ok(xor_field_with(field, &four))
}

/// Applies the keystream transform to one integer, with the key chosen by
/// `key_index` modulo the keyset's length. An empty keyset is refused.
pub fn xor_scalar(value: u64, keys: &[u64], key_index: usize) -> (r: Result<u64, CodecError>)
    ensures
        keys@.len() > 0 ==> r == Ok::<u64, CodecError>(
            xor_scalar_spec(value, keys@, key_index as int),
        ),
        keys@.len() == 0 ==> r == Err::<u64, CodecError>(CodecError::KeysetWidthMismatch),
{
    if keys.len() == 0 {
        return Err(CodecError::KeysetWidthMismatch);
    }
    Ok(value ^ keys[key_index % keys.len()])
}

/// Each chunk that the field transform writes is eight bytes long, so the
/// transformed field is as long as four chunks.
pub proof fn lemma_xor_field_chunks(field: Seq<u8>, keys: Seq<u64>)
    ensures
        forall|i: int| (#[trigger] xor_chunk(field, keys[i], i)).len() == 8,
        xor_field(field, keys).len() == 32,
{
    assert forall|i: int| (#[trigger] xor_chunk(field, keys[i], i)).len() == 8 by {
        lemma_from_le_to_le(u64_from_le(field.subrange(8 * i, 8 * i + 8)) ^ keys[i]);
    }
}

/// The field transform is an involution: applied twice under one keyset it
/// gives back the field it started from.
pub proof fn lemma_xor_field_involution(field: Seq<u8>, keys: Seq<u64>)
    requires
        field.len() == FIELD_WIDTH,
        keyset_covers_field(keys),
    ensures
        xor_field(field, keys).len() == FIELD_WIDTH,
        xor_field(xor_field(field, keys), keys) == field,
{
    let once = xor_field(field, keys);
    assert forall|i: int| 0 <= i < 4 implies #[trigger] xor_chunk(once, keys[i], i)
        == field.subrange(8 * i, 8 * i + 8) by {
        let chunk = field.subrange(8 * i, 8 * i + 8);
        let x = u64_from_le(chunk);
        let k = keys[i];
        lemma_xor_field_chunks(field, keys);
        assert(once.subrange(8 * i, 8 * i + 8) =~= u64_to_le(x ^ k));
        lemma_from_le_to_le(x ^ k);
        assert((x ^ k) ^ k == x) by (bit_vector);
        lemma_to_le_from_le(chunk);
    }
    lemma_xor_field_chunks(field, keys);
    assert(xor_chunk(once, keys[0], 0) == field.subrange(0, 8));
    assert(xor_chunk(once, keys[1], 1) == field.subrange(8, 16));
    assert(xor_chunk(once, keys[2], 2) == field.subrange(16, 24));
    assert(xor_chunk(once, keys[3], 3) == field.subrange(24, 32));
    assert(xor_field(once, keys) =~= field);
}

/// The scalar transform is an involution for every key index.
pub proof fn lemma_xor_scalar_involution(value: u64, keys: Seq<u64>, key_index: int)
    requires
        keys.len() > 0,
    ensures
        xor_scalar_spec(xor_scalar_spec(value, keys, key_index), keys, key_index) == value,
{
    let k = keys[key_index % (keys.len() as int)];
    assert((value ^ k) ^ k == value) by (bit_vector);
}

/// Whether two fields, each given by its offset and width, share no byte.
pub open spec fn fields_disjoint(a: (int, int), b: (int, int)) -> bool {
    a.0 + a.1 <= b.0 || b.0 + b.1 <= a.0
}

/// Whether a layout is well formed: no two of its fields overlap, and its
/// minimum size reaches the end of every field.
pub open spec fn layout_well_formed(fields: Seq<(int, int)>, min_size: int) -> bool {
    &&& forall|i: int| 0 <= i < fields.len() ==> 0 <= (#[trigger] fields[i]).0 && 0 < fields[i].1
    &&& forall|i: int| 0 <= i < fields.len() ==> (#[trigger] fields[i]).0 + fields[i].1 <= min_size
    &&& forall|i: int, j: int|
        0 <= i < j < fields.len() ==> fields_disjoint(#[trigger] fields[i], #[trigger] fields[j])
}

/// Whether a field of `width` bytes at `offset` can be read from a buffer of
/// `len` bytes under a layout whose minimum size is `min_size`.
pub open spec fn field_available(len: int, min_size: int, offset: int, width: int) -> bool {
    len >= min_size && offset + width <= len
}

/// Reads the 32-byte field at `offset`. Nothing is returned from a buffer
/// shorter than the layout's minimum size, or too short for the field.
pub fn read_field_32(buffer: &[u8], min_size: usize, offset: usize) -> (field: Option<[u8; 32]>)
    ensures
        field is Some <==> field_available(buffer@.len() as int, min_size as int, offset as int, 32),
        field is Some ==> field->Some_0@ == buffer@.subrange(offset as int, offset + 32),
{
    let len = buffer.len();
    if len < min_size || len < FIELD_WIDTH || offset > len - FIELD_WIDTH {
        return None;
    }
    let mut out: [u8; 32] = [0u8; 32];
    let mut i: usize = 0;
    while i < 32
        invariant
            i <= 32,
            len == buffer@.len(),
            offset + 32 <= len,
            forall|k: int| 0 <= k < i ==> out@[k] == buffer@[offset + k],
        decreases 32 - i,
    {
        out[i] = buffer[offset + i];
        i += 1;
    }
    assert(out@ =~= buffer@.subrange(offset as int, offset + 32));
    Some(out)
}

/// Reads the obfuscated 32-byte field at `offset` and decodes it under
/// `keys`. Nothing is returned where the plain field could not be read, or
/// where the keyset does not cover the field.
pub fn read_obfuscated_field_32(
    buffer: &[u8],
    min_size: usize,
    offset: usize,
    keys: &[u64],
) -> (field: Option<[u8; 32]>)
    ensures
        field is Some <==> field_available(buffer@.len() as int, min_size as int, offset as int, 32)
            && keyset_covers_field(keys@),
        field is Some ==> field->Some_0@ == xor_field(
            buffer@.subrange(offset as int, offset + 32),
            keys@,
        ),
{
    match read_field_32(buffer, min_size, offset) {
        None => None,
        Some(raw) => match xor_transform(&raw, keys) {
            Ok(decoded) => Some(decoded),
            Err(_) => None,
        },
    }
}

/// Reads the little-endian 64-bit field at `offset`, under the same rule.
pub fn read_field_u64(buffer: &[u8], min_size: usize, offset: usize) -> (field: Option<u64>)
    ensures
        field is Some <==> field_available(buffer@.len() as int, min_size as int, offset as int, 8),
        field is Some ==> field->Some_0 == u64_from_le(buffer@.subrange(offset as int, offset + 8)),
{
    let len = buffer.len();
    if len < min_size || len < CHUNK_WIDTH || offset > len - CHUNK_WIDTH {
        return None;
    }
    Some(read_u64_le(buffer, offset))
}

/// Reads the single byte at `offset`, under the same rule.
pub fn read_field_u8(buffer: &[u8], min_size: usize, offset: usize) -> (field: Option<u8>)
    ensures
        field is Some <==> field_available(buffer@.len() as int, min_size as int, offset as int, 1),
        field is Some ==> field->Some_0 == buffer@[offset as int],
{
    let len = buffer.len();
    if len < min_size || offset >= len {
        return None;
    }
    Some(buffer[offset])
}

} // verus!
