//! A byte-exact CBOR encoder.
//!
//! Values are written in the canonical shortest form: every integer head
//! takes the fewest bytes that hold it, and struct fields are kept ordered
//! by their encoded keys.

use vstd::prelude::*;

use vstd::string::StringSliceAdditionalSpecFns;

verus! {

/// The big-endian bytes of a 16-bit integer.
pub open spec fn be_bytes2(x: u16) -> Seq<u8> {
    seq![((x >> 8u16) & 0xffu16) as u8, (x & 0xffu16) as u8]
}

/// The big-endian bytes of a 32-bit integer.
pub open spec fn be_bytes4(x: u32) -> Seq<u8> {
    seq![
        ((x >> 24u32) & 0xffu32) as u8,
        ((x >> 16u32) & 0xffu32) as u8,
        ((x >> 8u32) & 0xffu32) as u8,
        (x & 0xffu32) as u8,
    ]
}

/// The big-endian bytes of a 64-bit integer.
pub open spec fn be_bytes8(x: u64) -> Seq<u8> {
    seq![
        ((x >> 56u64) & 0xffu64) as u8,
        ((x >> 48u64) & 0xffu64) as u8,
        ((x >> 40u64) & 0xffu64) as u8,
        ((x >> 32u64) & 0xffu64) as u8,
        ((x >> 24u64) & 0xffu64) as u8,
        ((x >> 16u64) & 0xffu64) as u8,
        ((x >> 8u64) & 0xffu64) as u8,
        (x & 0xffu64) as u8,
    ]
}

/// The canonical head encoding a major type and its argument: the shortest
/// of the five head forms that holds the argument.
pub open spec fn cbor_head(major: u8, value: u64) -> Seq<u8> {
    if value <= 0x17 {
        seq![((major << 5u8) | (value as u8)) as u8]
    } else if value <= 0xff {
        seq![((major << 5u8) | 24u8) as u8, value as u8]
    } else if value <= 0xffff {
        seq![((major << 5u8) | 25u8) as u8] + be_bytes2(value as u16)
    } else if value <= 0xffff_ffff {
        seq![((major << 5u8) | 26u8) as u8] + be_bytes4(value as u32)
    } else {
        seq![((major << 5u8) | 27u8) as u8] + be_bytes8(value)
    }
}

/// The head encoding of a signed integer: major type 0 for a non-negative
/// value, major type 1 carrying `-1 - value` for a negative one.
pub open spec fn cbor_int(v: int) -> Seq<u8>
    recommends
        -0x1_0000_0000_0000_0000 <= v <= 0xffff_ffff_ffff_ffff,
{
    if v < 0 {
        cbor_head(1, (-(v + 1)) as u64)
    } else {
        cbor_head(0, v as u64)
    }
}

/// The UTF-8 bytes of one character.
pub open spec fn utf8_bytes(c: char) -> Seq<u8> {
    let u = c as u32;
    if u < 0x80 {
        seq![u as u8]
    } else if u < 0x800 {
        seq![(0xc0u32 | (u >> 6u32)) as u8, (0x80u32 | (u & 0x3fu32)) as u8]
    } else if u < 0x10000 {
        seq![
            (0xe0u32 | (u >> 12u32)) as u8,
            (0x80u32 | ((u >> 6u32) & 0x3fu32)) as u8,
            (0x80u32 | (u & 0x3fu32)) as u8,
        ]
    } else {
        seq![
            (0xf0u32 | (u >> 18u32)) as u8,
            (0x80u32 | ((u >> 12u32) & 0x3fu32)) as u8,
            (0x80u32 | ((u >> 6u32) & 0x3fu32)) as u8,
            (0x80u32 | (u & 0x3fu32)) as u8,
        ]
    }
}

/// Lexicographic order on byte strings, as encoded keys compare.
pub open spec fn lex_leq(a: Seq<u8>, b: Seq<u8>) -> bool
    decreases a.len(),
{
    if a.len() == 0 {
        true
    } else if b.len() == 0 {
        false
    } else if a[0] < b[0] {
        true
    } else if a[0] > b[0] {
        false
    } else {
        lex_leq(a.subrange(1, a.len() as int), b.subrange(1, b.len() as int))
    }
}

/// Whether the suffixes of `a` and `b` from `i` compare lexicographically
/// at most.
fn lex_leq_bytes_from(a: &Vec<u8>, b: &Vec<u8>, i: usize) -> (r: bool)
    requires
        i <= a@.len(),
        i <= b@.len(),
    ensures
        r == lex_leq(
            a@.subrange(i as int, a@.len() as int),
            b@.subrange(i as int, b@.len() as int),
        ),
    decreases a@.len() - i,
{
    let ghost sa = a@.subrange(i as int, a@.len() as int);
    let ghost sb = b@.subrange(i as int, b@.len() as int);
    if i == a.len() {
        true
    } else if i == b.len() {
        false
    } else if a[i] < b[i] {
        true
    } else if a[i] > b[i] {
        false
    } else {
        proof {
            assert(sa.subrange(1, sa.len() as int) =~= a@.subrange(i as int + 1, a@.len() as int));
            assert(sb.subrange(1, sb.len() as int) =~= b@.subrange(i as int + 1, b@.len() as int));
        }
        lex_leq_bytes_from(a, b, i + 1)
    }
}

/// Whether `a` is lexicographically at most `b`.
pub fn lex_leq_bytes(a: &Vec<u8>, b: &Vec<u8>) -> (r: bool)
    ensures
        r == lex_leq(a@, b@),
{
    proof {
        assert(a@.subrange(0, a@.len() as int) =~= a@);
        assert(b@.subrange(0, b@.len() as int) =~= b@);
    }
    lex_leq_bytes_from(a, b, 0)
}

/// Options for the encoder.
///
/// With `packed` set, struct fields and enum variants are identified by
/// their numeric indices rather than names to save space. With
/// `enum_as_map` set, enums are encoded as single-entry maps rather than
/// arrays. With `self_describe` set, output starts with the self-describe
/// tag.
pub struct SerializerOptions {
    pub packed: bool,
    pub enum_as_map: bool,
    pub self_describe: bool,
}

impl Default for SerializerOptions {
    /// All options off.
    fn default() -> (r: Self)
        ensures
            !r.packed,
            !r.enum_as_map,
            !r.self_describe,
    {
        SerializerOptions { packed: false, enum_as_map: false, self_describe: false }
    }
}

/// A structure for serializing values to CBOR bytes.
pub struct Serializer {
    pub writer: Vec<u8>,
    pub packed: bool,
    pub enum_as_map: bool,
}

impl Serializer {
    /// Creates a new CBOR serializer over the given buffer.
    pub fn new(writer: Vec<u8>) -> (r: Serializer)
        ensures
            r.writer@ == writer@,
            !r.packed,
            !r.enum_as_map,
    {
        Serializer { writer, packed: false, enum_as_map: false }
    }

    /// Creates a new "packed" CBOR serializer: struct fields and enum
    /// variants are identified by their numeric indices rather than names to
    /// save space.
    pub fn packed(writer: Vec<u8>) -> (r: Serializer)
        ensures
            r.writer@ == writer@,
            r.packed,
            !r.enum_as_map,
    {
        Serializer { writer, packed: true, enum_as_map: false }
    }

    /// Creates a new CBOR serializer with the specified options.
    pub fn new_with_options(writer: Vec<u8>, options: &SerializerOptions) -> (r: Serializer)
        ensures
            r.writer@ == writer@,
            r.packed == options.packed,
            r.enum_as_map == options.enum_as_map,
    {
        Serializer { writer, packed: options.packed, enum_as_map: options.enum_as_map }
    }

    /// Unwrap the buffer from the serializer.
    pub fn into_inner(self) -> (r: Vec<u8>)
        ensures
            r@ == self.writer@,
    {
        self.writer
    }

    /// Writes a CBOR self-describe tag to the stream. Tagging allows a
    /// decoder to distinguish different file formats based on their content.
    pub fn self_describe(&mut self)
        ensures
            final(self).writer@ == old(self).writer@ + cbor_head(6, 55799),
            final(self).packed == old(self).packed,
            final(self).enum_as_map == old(self).enum_as_map,
    {
        self.write_u16(6, 55799);
    }

    /// Write a head whose argument fits in one byte.
    fn write_u8(&mut self, major: u8, value: u8)
        ensures
            final(self).writer@ == old(self).writer@ + cbor_head(major, value as u64),
            final(self).packed == old(self).packed,
            final(self).enum_as_map == old(self).enum_as_map,
    {
        if value <= 0x17 {
            self.writer.push((major << 5) | value);
        } else {
            self.writer.push((major << 5) | 24);
            self.writer.push(value);
        }
        proof {
            assert(self.writer@ =~= old(self).writer@ + cbor_head(major, value as u64));
        }
    }

    /// Write a head whose argument fits in two bytes.
    fn write_u16(&mut self, major: u8, value: u16)
        ensures
            final(self).writer@ == old(self).writer@ + cbor_head(major, value as u64),
            final(self).packed == old(self).packed,
            final(self).enum_as_map == old(self).enum_as_map,
    {
        if value <= 0xff {
            self.write_u8(major, value as u8);
        } else {
            self.writer.push((major << 5) | 25);
            self.writer.push(((value >> 8) & 0xff) as u8);
            self.writer.push((value & 0xff) as u8);
            proof {
                assert(self.writer@ =~= old(self).writer@ + cbor_head(major, value as u64));
            }
        }
    }

    /// Write a head whose argument fits in four bytes.
    fn write_u32(&mut self, major: u8, value: u32)
        ensures
            final(self).writer@ == old(self).writer@ + cbor_head(major, value as u64),
            final(self).packed == old(self).packed,
            final(self).enum_as_map == old(self).enum_as_map,
    {
        if value <= 0xffff {
            self.write_u16(major, value as u16);
        } else {
            self.writer.push((major << 5) | 26);
            self.writer.push(((value >> 24) & 0xff) as u8);
            self.writer.push(((value >> 16) & 0xff) as u8);
            self.writer.push(((value >> 8) & 0xff) as u8);
            self.writer.push((value & 0xff) as u8);
            proof {
                assert(self.writer@ =~= old(self).writer@ + cbor_head(major, value as u64));
            }
        }
    }

    /// Write a head in its shortest form.
    fn write_u64(&mut self, major: u8, value: u64)
        ensures
            final(self).writer@ == old(self).writer@ + cbor_head(major, value),
            final(self).packed == old(self).packed,
            final(self).enum_as_map == old(self).enum_as_map,
    {
        if value <= 0xffff_ffff {
            self.write_u32(major, value as u32);
        } else {
            self.writer.push((major << 5) | 27);
            self.writer.push(((value >> 56) & 0xff) as u8);
            self.writer.push(((value >> 48) & 0xff) as u8);
            self.writer.push(((value >> 40) & 0xff) as u8);
            self.writer.push(((value >> 32) & 0xff) as u8);
            self.writer.push(((value >> 24) & 0xff) as u8);
            self.writer.push(((value >> 16) & 0xff) as u8);
            self.writer.push(((value >> 8) & 0xff) as u8);
            self.writer.push((value & 0xff) as u8);
            proof {
                assert(self.writer@ =~= old(self).writer@ + cbor_head(major, value));
            }
        }
    }

    /// Encode a boolean as its simple value.
    pub fn serialize_bool(&mut self, value: bool)
        ensures
            final(self).writer@ == old(self).writer@ + seq![
                if value {
                    0xf5u8
                } else {
                    0xf4u8
                },
            ],
            final(self).packed == old(self).packed,
            final(self).enum_as_map == old(self).enum_as_map,
    {
        let b: u8 = if value {
            0xf5
        } else {
            0xf4
        };
        self.writer.push(b);
        proof {
            assert(self.writer@ =~= old(self).writer@ + seq![b]);
        }
    }

    /// Encode a signed 8-bit integer.
    pub fn serialize_i8(&mut self, value: i8)
        ensures
            final(self).writer@ == old(self).writer@ + cbor_int(value as int),
            final(self).packed == old(self).packed,
            final(self).enum_as_map == old(self).enum_as_map,
    {
        if value < 0 {
            self.write_u8(1, (-(value + 1)) as u8);
        } else {
            self.write_u8(0, value as u8);
        }
    }

    /// Encode a signed 16-bit integer.
    pub fn serialize_i16(&mut self, value: i16)
        ensures
            final(self).writer@ == old(self).writer@ + cbor_int(value as int),
            final(self).packed == old(self).packed,
            final(self).enum_as_map == old(self).enum_as_map,
    {
        if value < 0 {
            self.write_u16(1, (-(value + 1)) as u16);
        } else {
            self.write_u16(0, value as u16);
        }
    }

    /// Encode a signed 32-bit integer.
    pub fn serialize_i32(&mut self, value: i32)
        ensures
            final(self).writer@ == old(self).writer@ + cbor_int(value as int),
            final(self).packed == old(self).packed,
            final(self).enum_as_map == old(self).enum_as_map,
    {
        if value < 0 {
            self.write_u32(1, (-(value + 1)) as u32);
        } else {
            self.write_u32(0, value as u32);
        }
    }

    /// Encode a signed 64-bit integer.
    pub fn serialize_i64(&mut self, value: i64)
        ensures
            final(self).writer@ == old(self).writer@ + cbor_int(value as int),
            final(self).packed == old(self).packed,
            final(self).enum_as_map == old(self).enum_as_map,
    {
        if value < 0 {
            self.write_u64(1, (-(value + 1)) as u64);
        } else {
            self.write_u64(0, value as u64);
        }
    }

    /// Encode a signed 128-bit integer; a magnitude beyond 64 bits cannot be
    /// stored in CBOR and is refused.
    pub fn serialize_i128(&mut self, value: i128) -> (r: Result<(), ()>)
        ensures
            final(self).packed == old(self).packed,
            final(self).enum_as_map == old(self).enum_as_map,
            (-0x1_0000_0000_0000_0000 <= value as int <= 0xffff_ffff_ffff_ffff) ==> r == Ok::<
                (),
                (),
            >(()) && final(self).writer@ == old(self).writer@ + cbor_int(value as int),
            !(-0x1_0000_0000_0000_0000 <= value as int <= 0xffff_ffff_ffff_ffff) ==> r == Err::<
                (),
                (),
            >(()) && final(self).writer@ == old(self).writer@,
    {
        if value < 0 {
            if -(value + 1) > u64::MAX as i128 {
                return Err(());
            }
            self.write_u64(1, (-(value + 1)) as u64);
        } else {
            if value > u64::MAX as i128 {
                return Err(());
            }
            self.write_u64(0, value as u64);
        }
        Ok(())
    }

    /// Encode an unsigned 8-bit integer.
    pub fn serialize_u8(&mut self, value: u8)
        ensures
            final(self).writer@ == old(self).writer@ + cbor_head(0, value as u64),
            final(self).packed == old(self).packed,
            final(self).enum_as_map == old(self).enum_as_map,
    {
        self.write_u8(0, value);
    }

    /// Encode an unsigned 16-bit integer.
    pub fn serialize_u16(&mut self, value: u16)
        ensures
            final(self).writer@ == old(self).writer@ + cbor_head(0, value as u64),
            final(self).packed == old(self).packed,
            final(self).enum_as_map == old(self).enum_as_map,
    {
        self.write_u16(0, value);
    }

    /// Encode an unsigned 32-bit integer.
    pub fn serialize_u32(&mut self, value: u32)
        ensures
            final(self).writer@ == old(self).writer@ + cbor_head(0, value as u64),
            final(self).packed == old(self).packed,
            final(self).enum_as_map == old(self).enum_as_map,
    {
        self.write_u32(0, value);
    }

    /// Encode an unsigned 64-bit integer.
    pub fn serialize_u64(&mut self, value: u64)
        ensures
            final(self).writer@ == old(self).writer@ + cbor_head(0, value),
            final(self).packed == old(self).packed,
            final(self).enum_as_map == old(self).enum_as_map,
    {
        self.write_u64(0, value);
    }

    /// Encode an unsigned 128-bit integer; a value beyond 64 bits cannot be
    /// stored in CBOR and is refused.
    pub fn serialize_u128(&mut self, value: u128) -> (r: Result<(), ()>)
        ensures
            final(self).packed == old(self).packed,
            final(self).enum_as_map == old(self).enum_as_map,
            value <= u64::MAX as u128 ==> r == Ok::<(), ()>(()) && final(self).writer@ == old(
                self,
            ).writer@ + cbor_head(0, value as u64),
            value > u64::MAX as u128 ==> r == Err::<(), ()>(()) && final(self).writer@ == old(
                self,
            ).writer@,
    {
        if value > u64::MAX as u128 {
            return Err(());
        }
        self.write_u64(0, value as u64);
        Ok(())
    }

    /// Encode one character as a text string of its UTF-8 bytes.
    pub fn serialize_char(&mut self, value: char)
        ensures
            final(self).writer@ == old(self).writer@ + cbor_head(3, utf8_bytes(value).len() as u64)
                + utf8_bytes(value),
            final(self).packed == old(self).packed,
            final(self).enum_as_map == old(self).enum_as_map,
    {
        let u = value as u32;
        if u < 0x80 {
            self.write_u64(3, 1);
            self.writer.push(u as u8);
        } else if u < 0x800 {
            self.write_u64(3, 2);
            self.writer.push((0xc0 | (u >> 6)) as u8);
            self.writer.push((0x80 | (u & 0x3f)) as u8);
        } else if u < 0x10000 {
            self.write_u64(3, 3);
            self.writer.push((0xe0 | (u >> 12)) as u8);
            self.writer.push((0x80 | ((u >> 6) & 0x3f)) as u8);
            self.writer.push((0x80 | (u & 0x3f)) as u8);
        } else {
            self.write_u64(3, 4);
            self.writer.push((0xf0 | (u >> 18)) as u8);
            self.writer.push((0x80 | ((u >> 12) & 0x3f)) as u8);
            self.writer.push((0x80 | ((u >> 6) & 0x3f)) as u8);
            self.writer.push((0x80 | (u & 0x3f)) as u8);
        }
        proof {
            assert(self.writer@ =~= old(self).writer@ + cbor_head(
                3,
                utf8_bytes(value).len() as u64,
            ) + utf8_bytes(value));
        }
    }

    /// Encode a text string: a text head followed by the UTF-8 bytes.
    pub fn serialize_str(&mut self, value: &str)
        ensures
            final(self).writer@ == old(self).writer@ + cbor_head(
                3,
                value.spec_bytes().len() as u64,
            ) + value.spec_bytes(),
            final(self).packed == old(self).packed,
            final(self).enum_as_map == old(self).enum_as_map,
    {
        let bytes = value.as_bytes();
        self.write_u64(3, bytes.len() as u64);
        self.write_all(bytes);
    }

    /// Encode a byte string: a bytes head followed by the bytes.
    pub fn serialize_bytes(&mut self, value: &[u8])
        ensures
            final(self).writer@ == old(self).writer@ + cbor_head(2, value@.len() as u64) + value@,
            final(self).packed == old(self).packed,
            final(self).enum_as_map == old(self).enum_as_map,
    {
        self.write_u64(2, value.len() as u64);
        self.write_all(value);
    }

    /// Append raw bytes to the output.
    pub fn write_all(&mut self, bytes: &[u8])
        ensures
            final(self).writer@ == old(self).writer@ + bytes@,
            final(self).packed == old(self).packed,
            final(self).enum_as_map == old(self).enum_as_map,
    {
        let mut i: usize = 0;
        proof {
            assert(self.writer@ =~= old(self).writer@ + bytes@.subrange(0, 0));
        }
        while i < bytes.len()
            invariant
                0 <= i <= bytes@.len(),
                self.writer@ == old(self).writer@ + bytes@.subrange(0, i as int),
                self.packed == old(self).packed,
                self.enum_as_map == old(self).enum_as_map,
            decreases bytes@.len() - i,
        {
            self.writer.push(bytes[i]);
            proof {
                assert(self.writer@ =~= old(self).writer@ + bytes@.subrange(0, i as int + 1));
            }
            i = i + 1;
        }
        proof {
            assert(bytes@.subrange(0, bytes@.len() as int) =~= bytes@);
        }
    }

    /// Encode the unit value as null.
    pub fn serialize_unit(&mut self)
        ensures
            final(self).writer@ == old(self).writer@ + seq![0xf6u8],
            final(self).packed == old(self).packed,
            final(self).enum_as_map == old(self).enum_as_map,
    {
        self.serialize_none();
    }

    /// Encode an absent optional value as null.
    pub fn serialize_none(&mut self)
        ensures
            final(self).writer@ == old(self).writer@ + seq![0xf6u8],
            final(self).packed == old(self).packed,
            final(self).enum_as_map == old(self).enum_as_map,
    {
        self.writer.push(0xf6);
        proof {
            assert(self.writer@ =~= old(self).writer@ + seq![0xf6u8]);
        }
    }

    /// Encode a unit struct as null; its name carries no content.
    pub fn serialize_unit_struct(&mut self, name: &str)
        ensures
            final(self).writer@ == old(self).writer@ + seq![0xf6u8],
            final(self).packed == old(self).packed,
            final(self).enum_as_map == old(self).enum_as_map,
    {
        self.serialize_unit();
    }

    /// Encode a unit enum variant: its index when packed, else its name.
    pub fn serialize_unit_variant(&mut self, name: &str, variant_index: u32, variant: &str)
        ensures
            old(self).packed ==> final(self).writer@ == old(self).writer@ + cbor_head(
                0,
                variant_index as u64,
            ),
            !old(self).packed ==> final(self).writer@ == old(self).writer@ + cbor_head(
                3,
                variant.spec_bytes().len() as u64,
            ) + variant.spec_bytes(),
            final(self).packed == old(self).packed,
            final(self).enum_as_map == old(self).enum_as_map,
    {
        if self.packed {
            self.serialize_u32(variant_index);
        } else {
            self.serialize_str(variant);
        }
    }

    /// Begin a sequence of known or unknown length; the returned collection
    /// serializer closes it.
    pub fn serialize_seq(&mut self, len: Option<usize>) -> (r: CollectionSerializer)
        ensures
            match len {
                Some(n) => final(self).writer@ == old(self).writer@ + cbor_head(4, n as u64)
                    && !r.needs_eof,
                None => final(self).writer@ == old(self).writer@ + seq![((4u8 << 5u8)
                    | 31u8) as u8] && r.needs_eof,
            },
            final(self).packed == old(self).packed,
            final(self).enum_as_map == old(self).enum_as_map,
    {
        self.serialize_collection(4, len)
    }

    /// Begin a tuple: an array head of its length.
    pub fn serialize_tuple(&mut self, len: usize)
        ensures
            final(self).writer@ == old(self).writer@ + cbor_head(4, len as u64),
            final(self).packed == old(self).packed,
            final(self).enum_as_map == old(self).enum_as_map,
    {
        self.write_u64(4, len as u64);
    }

    /// Begin a tuple struct; encoded exactly as a tuple.
    pub fn serialize_tuple_struct(&mut self, name: &str, len: usize)
        ensures
            final(self).writer@ == old(self).writer@ + cbor_head(4, len as u64),
            final(self).packed == old(self).packed,
            final(self).enum_as_map == old(self).enum_as_map,
    {
        self.serialize_tuple(len);
    }

    /// Begin a tuple enum variant: as a single-entry map from the variant to
    /// a tuple when enums are maps, else as an array led by the variant.
    pub fn serialize_tuple_variant(
        &mut self,
        name: &str,
        variant_index: u32,
        variant: &str,
        len: usize,
    )
        requires
            len < usize::MAX,
        ensures
            final(self).packed == old(self).packed,
            final(self).enum_as_map == old(self).enum_as_map,
            old(self).enum_as_map ==> final(self).writer@ == old(self).writer@ + cbor_head(5, 1) + (
            if old(self).packed {
                cbor_head(3, variant.spec_bytes().len() as u64) + variant.spec_bytes()
            } else {
                cbor_head(3, variant.spec_bytes().len() as u64) + variant.spec_bytes()
            }) + cbor_head(4, len as u64),
            !old(self).enum_as_map ==> final(self).writer@ == old(self).writer@ + cbor_head(
                4,
                (len + 1) as u64,
            ) + (if old(self).packed {
                cbor_head(0, variant_index as u64)
            } else {
                cbor_head(3, variant.spec_bytes().len() as u64) + variant.spec_bytes()
            }),
    {
        if self.enum_as_map {
            self.write_u64(5, 1);
            self.serialize_str(variant);
            self.serialize_tuple(len);
        } else {
            self.write_u64(4, (len as u64) + 1);
            self.serialize_unit_variant(name, variant_index, variant);
        }
    }

    /// Begin a map of known or unknown length; the returned collection
    /// serializer closes it.
    pub fn serialize_map(&mut self, len: Option<usize>) -> (r: CollectionSerializer)
        ensures
            match len {
                Some(n) => final(self).writer@ == old(self).writer@ + cbor_head(5, n as u64)
                    && !r.needs_eof,
                None => final(self).writer@ == old(self).writer@ + seq![((5u8 << 5u8)
                    | 31u8) as u8] && r.needs_eof,
            },
            final(self).packed == old(self).packed,
            final(self).enum_as_map == old(self).enum_as_map,
    {
        self.serialize_collection(5, len)
    }

    /// Begin a collection of the given major type: a head for a known
    /// length, the indefinite marker otherwise.
    fn serialize_collection(&mut self, major: u8, len: Option<usize>) -> (r: CollectionSerializer)
        requires
            major == 4 || major == 5,
        ensures
            match len {
                Some(n) => final(self).writer@ == old(self).writer@ + cbor_head(major, n as u64)
                    && !r.needs_eof,
                None => final(self).writer@ == old(self).writer@ + seq![((major << 5u8)
                    | 31u8) as u8] && r.needs_eof,
            },
            final(self).packed == old(self).packed,
            final(self).enum_as_map == old(self).enum_as_map,
    {
        let needs_eof = match len {
            Some(n) => {
                self.write_u64(major, n as u64);
                false
            },
            None => {
                self.writer.push((major << 5) | 31);
                proof {
                    assert(self.writer@ =~= old(self).writer@ + seq![((major << 5u8)
                        | 31u8) as u8]);
                }
                true
            },
        };
        CollectionSerializer { needs_eof }
    }

    /// Begin a struct of `len` fields: a map head; the returned struct
    /// serializer collects the fields and closes the map.
    pub fn serialize_struct(&mut self, name: &str, len: usize) -> (r: StructSerializer)
        ensures
            final(self).writer@ == old(self).writer@ + cbor_head(5, len as u64),
            final(self).packed == old(self).packed,
            final(self).enum_as_map == old(self).enum_as_map,
            r.packed == old(self).packed,
            r.idx == 0,
            r.entries@.len() == 0,
    {
        self.write_u64(5, len as u64);
        StructSerializer { packed: self.packed, idx: 0, entries: Vec::new() }
    }

    /// Begin a struct enum variant: the variant prelude, then a struct.
    pub fn serialize_struct_variant(
        &mut self,
        name: &str,
        variant_index: u32,
        variant: &str,
        len: usize,
    ) -> (r: StructSerializer)
        ensures
            final(self).packed == old(self).packed,
            final(self).enum_as_map == old(self).enum_as_map,
            r.packed == old(self).packed,
            r.idx == 0,
            r.entries@.len() == 0,
            old(self).enum_as_map ==> final(self).writer@ == old(self).writer@ + cbor_head(5, 1) + (
            if old(self).packed {
                cbor_head(0, variant_index as u64)
            } else {
                cbor_head(3, variant.spec_bytes().len() as u64) + variant.spec_bytes()
            }) + cbor_head(5, len as u64),
            !old(self).enum_as_map ==> final(self).writer@ == old(self).writer@ + cbor_head(4, 2)
                + (if old(self).packed {
                cbor_head(0, variant_index as u64)
            } else {
                cbor_head(3, variant.spec_bytes().len() as u64) + variant.spec_bytes()
            }) + cbor_head(5, len as u64),
    {
        if self.enum_as_map {
            self.write_u64(5, 1);
        } else {
            self.write_u64(4, 2);
        }
        self.serialize_unit_variant(name, variant_index, variant);
        self.serialize_struct(name, len)
    }
}

/// The fields a struct contributes, kept ordered by their encoded keys.
pub struct StructSerializer {
    pub packed: bool,
    pub idx: u32,
    pub entries: Vec<(Vec<u8>, Vec<u8>)>,
}

/// The entry list with one entry placed at its ordered position: before the
/// first held entry whose key is not smaller.
pub open spec fn insert_sorted(s: Seq<(Vec<u8>, Vec<u8>)>, e: (Vec<u8>, Vec<u8>)) -> Seq<
    (Vec<u8>, Vec<u8>),
>
    decreases s.len(),
{
    if s.len() == 0 {
        seq![e]
    } else if lex_leq(e.0@, s[0].0@) {
        seq![e] + s
    } else {
        seq![s[0]] + insert_sorted(s.subrange(1, s.len() as int), e)
    }
}

/// Splitting at the first position whose key is not smaller realizes the
/// ordered insertion.
proof fn lemma_insert_sorted_split(s: Seq<(Vec<u8>, Vec<u8>)>, e: (Vec<u8>, Vec<u8>), p: int)
    requires
        0 <= p <= s.len(),
        forall|j: int| 0 <= j < p ==> !lex_leq(e.0@, (#[trigger] s[j]).0@),
        p < s.len() ==> lex_leq(e.0@, s[p].0@),
    ensures
        insert_sorted(s, e) == s.subrange(0, p) + seq![e] + s.subrange(p, s.len() as int),
    decreases s.len(),
{
    if s.len() == 0 {
        assert(insert_sorted(s, e) =~= s.subrange(0, p) + seq![e] + s.subrange(
            p,
            s.len() as int,
        ));
    } else if p == 0 {
        assert(s.subrange(0, 0) =~= Seq::<(Vec<u8>, Vec<u8>)>::empty());
        assert(s.subrange(0, s.len() as int) =~= s);
        assert(insert_sorted(s, e) =~= s.subrange(0, 0) + seq![e] + s.subrange(0, s.len() as int));
    } else {
        let t = s.subrange(1, s.len() as int);
        lemma_insert_sorted_split(t, e, p - 1);
        assert(t.subrange(0, p - 1) =~= s.subrange(1, p));
        assert(t.subrange(p - 1, t.len() as int) =~= s.subrange(p, s.len() as int));
        assert(seq![s[0]] + (s.subrange(1, p) + seq![e] + s.subrange(p, s.len() as int)) =~= s.subrange(
            0,
            p,
        ) + seq![e] + s.subrange(p, s.len() as int));
    }
}

/// The concatenation of an entry list's keys and values, in order.
pub open spec fn flatten_entries(s: Seq<(Vec<u8>, Vec<u8>)>) -> Seq<u8>
    decreases s.len(),
{
    if s.len() == 0 {
        Seq::<u8>::empty()
    } else {
        s[0].0@ + s[0].1@ + flatten_entries(s.subrange(1, s.len() as int))
    }
}

/// The first position in the entry list whose key is not smaller than
/// `key`; the list's length when every key is smaller.
fn find_insert_pos(entries: &Vec<(Vec<u8>, Vec<u8>)>, key: &Vec<u8>) -> (p: usize)
    ensures
        p <= entries@.len(),
        forall|j: int| 0 <= j < p ==> !lex_leq(key@, (#[trigger] entries@[j]).0@),
        p < entries@.len() ==> lex_leq(key@, entries@[p as int].0@),
{
    let mut p: usize = 0;
    while p < entries.len()
        invariant
            0 <= p <= entries@.len(),
            forall|j: int| 0 <= j < p ==> !lex_leq(key@, (#[trigger] entries@[j]).0@),
        decreases entries@.len() - p,
    {
        if lex_leq_bytes(key, &entries[p].0) {
            return p;
        }
        p = p + 1;
    }
    p
}

impl StructSerializer {
    /// Record one field: its key is its numeric index when packed, else its
    /// name, and the entry takes its place in key order.
    pub fn serialize_field(&mut self, key: &str, value_bytes: Vec<u8>)
        ensures
            final(self).packed == old(self).packed,
            final(self).idx == (if old(self).idx < u32::MAX {
                old(self).idx + 1
            } else {
                old(self).idx as int
            }),
            ({
                let key_bytes = if old(self).packed {
                    cbor_head(0, old(self).idx as u64)
                } else {
                    cbor_head(3, key.spec_bytes().len() as u64) + key.spec_bytes()
                };
                exists|e: (Vec<u8>, Vec<u8>)|
                    (#[trigger] e.0)@ == key_bytes && e.1 == value_bytes && final(self).entries@
                        == insert_sorted(old(self).entries@, e)
            }),
    {
        let mut key_ser = Serializer { writer: Vec::new(), packed: self.packed, enum_as_map: false };
        if self.packed {
            key_ser.serialize_u32(self.idx);
        } else {
            key_ser.serialize_str(key);
        }
        let key_bytes = key_ser.into_inner();
        if self.idx < u32::MAX {
            self.idx = self.idx + 1;
        }
        let entry = (key_bytes, value_bytes);
        let ghost ge = entry;

        // Find the first held entry whose key is not smaller.
        let p = find_insert_pos(&self.entries, &entry.0);
        proof {
            lemma_insert_sorted_split(self.entries@, entry, p as int);
        }
        self.entries.insert(p, entry);
        proof {
            assert(self.entries@ =~= insert_sorted(old(self).entries@, ge));
        }
    }

    /// Skip a field: only the index advances.
    pub fn skip_field(&mut self, key: &str)
        ensures
            final(self).packed == old(self).packed,
            final(self).entries@ == old(self).entries@,
            final(self).idx == (if old(self).idx < u32::MAX {
                old(self).idx + 1
            } else {
                old(self).idx as int
            }),
    {
        if self.idx < u32::MAX {
            self.idx = self.idx + 1;
        }
    }

    /// Write the collected fields, already in key order, and finish the
    /// struct.
    pub fn end(self, ser: &mut Serializer)
        ensures
            final(ser).writer@ == old(ser).writer@ + flatten_entries(self.entries@),
            final(ser).packed == old(ser).packed,
            final(ser).enum_as_map == old(ser).enum_as_map,
    {
        let mut i: usize = 0;
        proof {
            assert(self.entries@.subrange(0, self.entries@.len() as int) =~= self.entries@);
        }
        while i < self.entries.len()
            invariant
                0 <= i <= self.entries@.len(),
                ser.packed == old(ser).packed,
                ser.enum_as_map == old(ser).enum_as_map,
                old(ser).writer@ + flatten_entries(self.entries@) == ser.writer@
                    + flatten_entries(
                    self.entries@.subrange(i as int, self.entries@.len() as int),
                ),
            decreases self.entries@.len() - i,
        {
            let ghost tail = self.entries@.subrange(i as int, self.entries@.len() as int);
            ser.write_all(self.entries[i].0.as_slice());
            ser.write_all(self.entries[i].1.as_slice());
            proof {
                assert(tail.subrange(1, tail.len() as int) =~= self.entries@.subrange(
                    i as int + 1,
                    self.entries@.len() as int,
                ));
                assert(tail[0] == self.entries@[i as int]);
            }
            i = i + 1;
        }
        proof {
            assert(self.entries@.subrange(
                self.entries@.len() as int,
                self.entries@.len() as int,
            ) =~= Seq::<(Vec<u8>, Vec<u8>)>::empty());
        }
    }
}

/// Closes a sequence or map: an indefinite-length collection gets the stop
/// byte, a known-length one needs nothing.
pub struct CollectionSerializer {
    pub needs_eof: bool,
}

impl CollectionSerializer {
    /// Finish the collection.
    pub fn end(self, ser: &mut Serializer)
        ensures
            self.needs_eof ==> final(ser).writer@ == old(ser).writer@ + seq![0xffu8],
            !self.needs_eof ==> final(ser).writer@ == old(ser).writer@,
            final(ser).packed == old(ser).packed,
            final(ser).enum_as_map == old(ser).enum_as_map,
    {
        if self.needs_eof {
            ser.writer.push(0xff);
            proof {
                assert(ser.writer@ =~= old(ser).writer@ + seq![0xffu8]);
            }
        }
    }
}

} // verus!
