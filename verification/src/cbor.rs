//! The primitive cursor: single reads of CBOR item heads, done by `minicbor`.
//!
//! Every executable function of this module is a thin trusted wrapper around one
//! method of `minicbor::Decoder`. A wrapper takes the input and a position, and
//! hands back what the method decoded together with the position behind it. What
//! a method returns is a function of the input and the position alone; each
//! wrapper names that function, and the rest of the library is verified against
//! the names. Nothing is read at a position that a failed read has left behind:
//! a failure reports its cause and no position.

use pallas_codec::minicbor::data::Type;
use pallas_codec::minicbor::Decoder;
use vstd::prelude::*;
use Kind::{
    ArrayDef, ArrayIndef, Bool, Break, Bytes, BytesIndef, Int, MapDef, MapIndef, Null, Simple, Tag,
    Text, TextIndef, Undefined, Unknown, F16, F32, F64, I16, I32, I64, I8, U16, U32, U64, U8,
};

verus! {

/// Why a single read failed.
#[derive(Debug, Clone, Copy, PartialEq, Eq, Structural)]
pub enum ReadError {
    /// The input ended before the item was complete.
    EndOfInput,
    /// The bytes at the position do not encode an item of the kind asked for.
    Unexpected,
}

/// The kind of item that starts at a position, as `minicbor` classifies it.
#[derive(Debug, Clone, Copy, PartialEq, Eq, Structural)]
pub enum Kind {
    Bool,
    Null,
    Undefined,
    U8,
    U16,
    U32,
    U64,
    I8,
    I16,
    I32,
    I64,
    Int,
    F16,
    F32,
    F64,
    Simple,
    Bytes,
    BytesIndef,
    Text,
    TextIndef,
    ArrayDef,
    ArrayIndef,
    MapDef,
    MapIndef,
    Tag,
    Break,
    Unknown,
}

/// A successful read ends behind where it began, and inside the input.
pub open spec fn advances<T>(pos: usize, r: Result<(T, usize), ReadError>, len: nat) -> bool {
    r matches Ok(v) ==> pos < v.1 <= len
}

/// A read whose value is seen by its view.
pub open spec fn viewed<T: View>(r: Result<(T, usize), ReadError>) -> Result<(T::V, usize), ReadError> {
    match r {
        Ok(v) => Ok((v.0@, v.1)),
        Err(e) => Err(e),
    }
}

/// What `Decoder::datatype` answers at `pos` of `input`; `None` where it fails.
pub uninterp spec fn datatype_at(input: Seq<u8>, pos: usize) -> Option<Kind>;

/// `minicbor::Decoder::datatype`: the kind of the item at `pos`, without consuming
/// anything. It fails only when the input ends, so success means that `pos` lies
/// inside the input.
#[verifier::external_body]
pub(crate) fn read_datatype(input: &[u8], pos: usize) -> (r: Option<Kind>)
    ensures
        r == datatype_at(input@, pos),
        r is Some ==> pos < input@.len(),
{
    let mut d = Decoder::new(input);
    d.set_position(pos);
    Some(match d.datatype().ok()? {
        Type::Bool => Bool, Type::Null => Null, Type::Undefined => Undefined,
        Type::U8 => U8, Type::U16 => U16, Type::U32 => U32, Type::U64 => U64,
        Type::I8 => I8, Type::I16 => I16, Type::I32 => I32, Type::I64 => I64,
        Type::Int => Int, Type::F16 => F16, Type::F32 => F32, Type::F64 => F64,
        Type::Simple => Simple, Type::Bytes => Bytes, Type::BytesIndef => BytesIndef,
        Type::String => Text, Type::StringIndef => TextIndef,
        Type::Array => ArrayDef, Type::ArrayIndef => ArrayIndef,
        Type::Map => MapDef, Type::MapIndef => MapIndef,
        Type::Tag => Tag, Type::Break => Break, Type::Unknown(_) => Unknown
    })
}

/// What `Decoder::bool` returns at `pos` of `input`: the boolean,
/// and the position behind what was read.
pub uninterp spec fn bool_at(input: Seq<u8>, pos: usize) -> Result<(bool, usize), ReadError>;

/// `minicbor::Decoder::bool`: a boolean.
/// The result is the named one; a successful read has consumed at least one
/// byte and no byte beyond the input.
#[verifier::external_body]
pub(crate) fn read_bool(input: &[u8], pos: usize) -> (r: Result<(bool, usize), ReadError>)
    ensures
        r == bool_at(input@, pos),
        advances(pos, r, input@.len()),
{
    let mut d = Decoder::new(input);
    d.set_position(pos);
    match d.bool() {
        Ok(v) => Ok((v, d.position())),
        Err(e) if e.is_end_of_input() => Err(ReadError::EndOfInput),
        Err(_) => Err(ReadError::Unexpected),
    }
}

/// What `Decoder::u8` returns at `pos` of `input`: the unsigned integer,
/// and the position behind what was read.
pub uninterp spec fn u8_at(input: Seq<u8>, pos: usize) -> Result<(u8, usize), ReadError>;

/// `minicbor::Decoder::u8`: an unsigned integer that fits 8 bits.
/// The result is the named one; a successful read has consumed at least one
/// byte and no byte beyond the input.
#[verifier::external_body]
pub(crate) fn read_u8(input: &[u8], pos: usize) -> (r: Result<(u8, usize), ReadError>)
    ensures
        r == u8_at(input@, pos),
        advances(pos, r, input@.len()),
{
    let mut d = Decoder::new(input);
    d.set_position(pos);
    match d.u8() {
        Ok(v) => Ok((v, d.position())),
        Err(e) if e.is_end_of_input() => Err(ReadError::EndOfInput),
        Err(_) => Err(ReadError::Unexpected),
    }
}

/// What `Decoder::u16` returns at `pos` of `input`: the unsigned integer,
/// and the position behind what was read.
pub uninterp spec fn u16_at(input: Seq<u8>, pos: usize) -> Result<(u16, usize), ReadError>;

/// `minicbor::Decoder::u16`: an unsigned integer that fits 16 bits.
/// The result is the named one; a successful read has consumed at least one
/// byte and no byte beyond the input.
#[verifier::external_body]
pub(crate) fn read_u16(input: &[u8], pos: usize) -> (r: Result<(u16, usize), ReadError>)
    ensures
        r == u16_at(input@, pos),
        advances(pos, r, input@.len()),
{
    let mut d = Decoder::new(input);
    d.set_position(pos);
    match d.u16() {
        Ok(v) => Ok((v, d.position())),
        Err(e) if e.is_end_of_input() => Err(ReadError::EndOfInput),
        Err(_) => Err(ReadError::Unexpected),
    }
}

/// What `Decoder::u32` returns at `pos` of `input`: the unsigned integer,
/// and the position behind what was read.
pub uninterp spec fn u32_at(input: Seq<u8>, pos: usize) -> Result<(u32, usize), ReadError>;

/// `minicbor::Decoder::u32`: an unsigned integer that fits 32 bits.
/// The result is the named one; a successful read has consumed at least one
/// byte and no byte beyond the input.
#[verifier::external_body]
pub(crate) fn read_u32(input: &[u8], pos: usize) -> (r: Result<(u32, usize), ReadError>)
    ensures
        r == u32_at(input@, pos),
        advances(pos, r, input@.len()),
{
    let mut d = Decoder::new(input);
    d.set_position(pos);
    match d.u32() {
        Ok(v) => Ok((v, d.position())),
        Err(e) if e.is_end_of_input() => Err(ReadError::EndOfInput),
        Err(_) => Err(ReadError::Unexpected),
    }
}

/// What `Decoder::u64` returns at `pos` of `input`: the unsigned integer,
/// and the position behind what was read.
pub uninterp spec fn u64_at(input: Seq<u8>, pos: usize) -> Result<(u64, usize), ReadError>;

/// `minicbor::Decoder::u64`: an unsigned integer that fits 64 bits.
/// The result is the named one; a successful read has consumed at least one
/// byte and no byte beyond the input.
#[verifier::external_body]
pub(crate) fn read_u64(input: &[u8], pos: usize) -> (r: Result<(u64, usize), ReadError>)
    ensures
        r == u64_at(input@, pos),
        advances(pos, r, input@.len()),
{
    let mut d = Decoder::new(input);
    d.set_position(pos);
    match d.u64() {
        Ok(v) => Ok((v, d.position())),
        Err(e) if e.is_end_of_input() => Err(ReadError::EndOfInput),
        Err(_) => Err(ReadError::Unexpected),
    }
}

/// What `Decoder::i8` returns at `pos` of `input`: the integer,
/// and the position behind what was read.
pub uninterp spec fn i8_at(input: Seq<u8>, pos: usize) -> Result<(i8, usize), ReadError>;

/// `minicbor::Decoder::i8`: an integer that fits 8 bits.
/// The result is the named one; a successful read has consumed at least one
/// byte and no byte beyond the input.
#[verifier::external_body]
pub(crate) fn read_i8(input: &[u8], pos: usize) -> (r: Result<(i8, usize), ReadError>)
    ensures
        r == i8_at(input@, pos),
        advances(pos, r, input@.len()),
{
    let mut d = Decoder::new(input);
    d.set_position(pos);
    match d.i8() {
        Ok(v) => Ok((v, d.position())),
        Err(e) if e.is_end_of_input() => Err(ReadError::EndOfInput),
        Err(_) => Err(ReadError::Unexpected),
    }
}

/// What `Decoder::i16` returns at `pos` of `input`: the integer,
/// and the position behind what was read.
pub uninterp spec fn i16_at(input: Seq<u8>, pos: usize) -> Result<(i16, usize), ReadError>;

/// `minicbor::Decoder::i16`: an integer that fits 16 bits.
/// The result is the named one; a successful read has consumed at least one
/// byte and no byte beyond the input.
#[verifier::external_body]
pub(crate) fn read_i16(input: &[u8], pos: usize) -> (r: Result<(i16, usize), ReadError>)
    ensures
        r == i16_at(input@, pos),
        advances(pos, r, input@.len()),
{
    let mut d = Decoder::new(input);
    d.set_position(pos);
    match d.i16() {
        Ok(v) => Ok((v, d.position())),
        Err(e) if e.is_end_of_input() => Err(ReadError::EndOfInput),
        Err(_) => Err(ReadError::Unexpected),
    }
}

/// What `Decoder::i32` returns at `pos` of `input`: the integer,
/// and the position behind what was read.
pub uninterp spec fn i32_at(input: Seq<u8>, pos: usize) -> Result<(i32, usize), ReadError>;

/// `minicbor::Decoder::i32`: an integer that fits 32 bits.
/// The result is the named one; a successful read has consumed at least one
/// byte and no byte beyond the input.
#[verifier::external_body]
pub(crate) fn read_i32(input: &[u8], pos: usize) -> (r: Result<(i32, usize), ReadError>)
    ensures
        r == i32_at(input@, pos),
        advances(pos, r, input@.len()),
{
    let mut d = Decoder::new(input);
    d.set_position(pos);
    match d.i32() {
        Ok(v) => Ok((v, d.position())),
        Err(e) if e.is_end_of_input() => Err(ReadError::EndOfInput),
        Err(_) => Err(ReadError::Unexpected),
    }
}

/// What `Decoder::i64` returns at `pos` of `input`: the integer,
/// and the position behind what was read.
pub uninterp spec fn i64_at(input: Seq<u8>, pos: usize) -> Result<(i64, usize), ReadError>;

/// `minicbor::Decoder::i64`: an integer that fits 64 bits.
/// The result is the named one; a successful read has consumed at least one
/// byte and no byte beyond the input.
#[verifier::external_body]
pub(crate) fn read_i64(input: &[u8], pos: usize) -> (r: Result<(i64, usize), ReadError>)
    ensures
        r == i64_at(input@, pos),
        advances(pos, r, input@.len()),
{
    let mut d = Decoder::new(input);
    d.set_position(pos);
    match d.i64() {
        Ok(v) => Ok((v, d.position())),
        Err(e) if e.is_end_of_input() => Err(ReadError::EndOfInput),
        Err(_) => Err(ReadError::Unexpected),
    }
}

/// What `Decoder::int` returns at `pos` of `input`: the integer,
/// and the position behind what was read.
pub uninterp spec fn int_at(input: Seq<u8>, pos: usize) -> Result<(i128, usize), ReadError>;

/// `minicbor::Decoder::int`: any CBOR integer, widened to 128 bits.
/// The result is the named one; a successful read has consumed at least one
/// byte and no byte beyond the input.
#[verifier::external_body]
pub(crate) fn read_int(input: &[u8], pos: usize) -> (r: Result<(i128, usize), ReadError>)
    ensures
        r == int_at(input@, pos),
        advances(pos, r, input@.len()),
{
    let mut d = Decoder::new(input);
    d.set_position(pos);
    match d.int() {
        Ok(v) => Ok((i128::from(v), d.position())),
        Err(e) if e.is_end_of_input() => Err(ReadError::EndOfInput),
        Err(_) => Err(ReadError::Unexpected),
    }
}

/// What `Decoder::bytes` returns at `pos` of `input`: the bytes,
/// and the position behind what was read.
pub uninterp spec fn bytes_at(input: Seq<u8>, pos: usize) -> Result<(Seq<u8>, usize), ReadError>;

/// `minicbor::Decoder::bytes`: a byte string of definite length, copied out of
/// the input. What the copy holds, and the position behind the string, are the
/// named result; a successful read has consumed at least one byte and no byte
/// beyond the input.
#[verifier::external_body]
pub(crate) fn read_bytes(input: &[u8], pos: usize) -> (r: Result<(Vec<u8>, usize), ReadError>)
    ensures
        viewed(r) == bytes_at(input@, pos),
        advances(pos, r, input@.len()),
{
    let mut d = Decoder::new(input);
    d.set_position(pos);
    match d.bytes() {
        Ok(v) => Ok((v.to_vec(), d.position())),
        Err(e) if e.is_end_of_input() => Err(ReadError::EndOfInput),
        Err(_) => Err(ReadError::Unexpected),
    }
}

/// What `Decoder::str` returns at `pos` of `input`: nothing of the text,
/// and the position behind what was read.
pub uninterp spec fn text_at(input: Seq<u8>, pos: usize) -> Result<((), usize), ReadError>;

/// `minicbor::Decoder::str`: a text string of definite length; the text itself is not kept.
/// The result is the named one; a successful read has consumed at least one
/// byte and no byte beyond the input.
#[verifier::external_body]
pub(crate) fn read_text(input: &[u8], pos: usize) -> (r: Result<((), usize), ReadError>)
    ensures
        r == text_at(input@, pos),
        advances(pos, r, input@.len()),
{
    let mut d = Decoder::new(input);
    d.set_position(pos);
    match d.str() {
        Ok(_) => Ok(((), d.position())),
        Err(e) if e.is_end_of_input() => Err(ReadError::EndOfInput),
        Err(_) => Err(ReadError::Unexpected),
    }
}

/// What `Decoder::tag` returns at `pos` of `input`: the tag's number,
/// and the position behind what was read.
pub uninterp spec fn tag_at(input: Seq<u8>, pos: usize) -> Result<(u64, usize), ReadError>;

/// `minicbor::Decoder::tag`: the number of a tag.
/// The result is the named one; a successful read has consumed at least one
/// byte and no byte beyond the input.
#[verifier::external_body]
pub(crate) fn read_tag(input: &[u8], pos: usize) -> (r: Result<(u64, usize), ReadError>)
    ensures
        r == tag_at(input@, pos),
        advances(pos, r, input@.len()),
{
    let mut d = Decoder::new(input);
    d.set_position(pos);
    match d.tag() {
        Ok(v) => Ok((v.as_u64(), d.position())),
        Err(e) if e.is_end_of_input() => Err(ReadError::EndOfInput),
        Err(_) => Err(ReadError::Unexpected),
    }
}

/// What `Decoder::simple` returns at `pos` of `input`: the simple value,
/// and the position behind what was read.
pub uninterp spec fn simple_at(input: Seq<u8>, pos: usize) -> Result<(u8, usize), ReadError>;

/// `minicbor::Decoder::simple`: a simple value.
/// The result is the named one; a successful read has consumed at least one
/// byte and no byte beyond the input.
#[verifier::external_body]
pub(crate) fn read_simple(input: &[u8], pos: usize) -> (r: Result<(u8, usize), ReadError>)
    ensures
        r == simple_at(input@, pos),
        advances(pos, r, input@.len()),
{
    let mut d = Decoder::new(input);
    d.set_position(pos);
    match d.simple() {
        Ok(v) => Ok((v, d.position())),
        Err(e) if e.is_end_of_input() => Err(ReadError::EndOfInput),
        Err(_) => Err(ReadError::Unexpected),
    }
}

/// What `Decoder::array` returns at `pos` of `input`: the length, `None` for an indefinite array,
/// and the position behind what was read.
pub uninterp spec fn array_at(input: Seq<u8>, pos: usize) -> Result<(Option<u64>, usize), ReadError>;

/// `minicbor::Decoder::array`: the head of an array.
/// The result is the named one; a successful read has consumed at least one
/// byte and no byte beyond the input.
#[verifier::external_body]
pub(crate) fn read_array(input: &[u8], pos: usize) -> (r: Result<(Option<u64>, usize), ReadError>)
    ensures
        r == array_at(input@, pos),
        advances(pos, r, input@.len()),
{
    let mut d = Decoder::new(input);
    d.set_position(pos);
    match d.array() {
        Ok(v) => Ok((v, d.position())),
        Err(e) if e.is_end_of_input() => Err(ReadError::EndOfInput),
        Err(_) => Err(ReadError::Unexpected),
    }
}

/// What `Decoder::map` returns at `pos` of `input`: the number of pairs, `None` for an indefinite map,
/// and the position behind what was read.
pub uninterp spec fn map_at(input: Seq<u8>, pos: usize) -> Result<(Option<u64>, usize), ReadError>;

/// `minicbor::Decoder::map`: the head of a map.
/// The result is the named one; a successful read has consumed at least one
/// byte and no byte beyond the input.
#[verifier::external_body]
pub(crate) fn read_map(input: &[u8], pos: usize) -> (r: Result<(Option<u64>, usize), ReadError>)
    ensures
        r == map_at(input@, pos),
        advances(pos, r, input@.len()),
{
    let mut d = Decoder::new(input);
    d.set_position(pos);
    match d.map() {
        Ok(v) => Ok((v, d.position())),
        Err(e) if e.is_end_of_input() => Err(ReadError::EndOfInput),
        Err(_) => Err(ReadError::Unexpected),
    }
}

} // verus!
