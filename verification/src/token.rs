//! Tokens: one decoded unit of the input, whatever its kind.
//!
//! A token is a scalar, the head of a definite collection with its length, the
//! opening marker of an indefinite collection, or the close marker. Tokens are
//! what skipping and resynchronising work on.

use crate::cbor::{
    array_at, bool_at, bytes_at, datatype_at, i16_at, i32_at, i64_at, i8_at, int_at, map_at,
    read_array, read_bool, read_bytes, read_datatype, read_i16, read_i32, read_i64, read_i8,
    read_int, read_map, read_simple, read_tag, read_text, read_u16, read_u32, read_u64, read_u8,
    simple_at, tag_at, text_at, u16_at, u32_at, u64_at, u8_at, Kind,
};
use crate::cursor::Cursor;
use crate::error::DecodeError;
use vstd::prelude::*;

verus! {

/// One decoded unit. Byte strings, text strings and floating-point numbers are
/// recognised and measured, but what they hold is not kept.
#[derive(Debug, Clone, Copy, PartialEq, Eq, Structural)]
pub enum Token {
    Bool(bool),
    U8(u8),
    U16(u16),
    U32(u32),
    U64(u64),
    I8(i8),
    I16(i16),
    I32(i32),
    I64(i64),
    Int(i128),
    F16,
    F32,
    F64,
    Bytes,
    Text,
    /// The head of an array of the given length.
    ArrayDef(u64),
    /// The head of a map of the given number of pairs.
    MapDef(u64),
    Tag(u64),
    Simple(u8),
    Break,
    Null,
    Undefined,
    BeginBytes,
    BeginText,
    BeginArray,
    BeginMap,
}

/// A token of fixed width: it is there if the input holds `width` more bytes.
pub open spec fn fixed(input: Seq<u8>, pos: usize, width: nat, token: Token) -> Result<
    (Token, usize),
    DecodeError,
> {
    if pos + width <= input.len() && pos + width <= usize::MAX {
        Ok((token, (pos + width) as usize))
    } else {
        Err(DecodeError::Incomplete)
    }
}

/// What the primitive cursor reads at `pos`: the kind of the item decides which
/// read is made.
#[verifier::opaque]
pub open spec fn head_at(input: Seq<u8>, pos: usize) -> Result<(Token, usize), DecodeError> {
    match datatype_at(input, pos) {
        None => Err(DecodeError::Incomplete),
        Some(kind) => match kind {
            Kind::Bool => match bool_at(input, pos) {
                Ok(v) => Ok((Token::Bool(v.0), v.1)),
                Err(e) => Err(DecodeError::of_read(e)),
            },
            Kind::U8 => match u8_at(input, pos) {
                Ok(v) => Ok((Token::U8(v.0), v.1)),
                Err(e) => Err(DecodeError::of_read(e)),
            },
            Kind::U16 => match u16_at(input, pos) {
                Ok(v) => Ok((Token::U16(v.0), v.1)),
                Err(e) => Err(DecodeError::of_read(e)),
            },
            Kind::U32 => match u32_at(input, pos) {
                Ok(v) => Ok((Token::U32(v.0), v.1)),
                Err(e) => Err(DecodeError::of_read(e)),
            },
            Kind::U64 => match u64_at(input, pos) {
                Ok(v) => Ok((Token::U64(v.0), v.1)),
                Err(e) => Err(DecodeError::of_read(e)),
            },
            Kind::I8 => match i8_at(input, pos) {
                Ok(v) => Ok((Token::I8(v.0), v.1)),
                Err(e) => Err(DecodeError::of_read(e)),
            },
            Kind::I16 => match i16_at(input, pos) {
                Ok(v) => Ok((Token::I16(v.0), v.1)),
                Err(e) => Err(DecodeError::of_read(e)),
            },
            Kind::I32 => match i32_at(input, pos) {
                Ok(v) => Ok((Token::I32(v.0), v.1)),
                Err(e) => Err(DecodeError::of_read(e)),
            },
            Kind::I64 => match i64_at(input, pos) {
                Ok(v) => Ok((Token::I64(v.0), v.1)),
                Err(e) => Err(DecodeError::of_read(e)),
            },
            Kind::Int => match int_at(input, pos) {
                Ok(v) => Ok((Token::Int(v.0), v.1)),
                Err(e) => Err(DecodeError::of_read(e)),
            },
            Kind::F16 => fixed(input, pos, 3, Token::F16),
            Kind::F32 => fixed(input, pos, 5, Token::F32),
            Kind::F64 => fixed(input, pos, 9, Token::F64),
            Kind::Bytes => match bytes_at(input, pos) {
                Ok(v) => Ok((Token::Bytes, v.1)),
                Err(e) => Err(DecodeError::of_read(e)),
            },
            Kind::Text => match text_at(input, pos) {
                Ok(v) => Ok((Token::Text, v.1)),
                Err(e) => Err(DecodeError::of_read(e)),
            },
            Kind::Tag => match tag_at(input, pos) {
                Ok(v) => Ok((Token::Tag(v.0), v.1)),
                Err(e) => Err(DecodeError::of_read(e)),
            },
            Kind::Simple => match simple_at(input, pos) {
                Ok(v) => Ok((Token::Simple(v.0), v.1)),
                Err(e) => Err(DecodeError::of_read(e)),
            },
            Kind::ArrayDef => match array_at(input, pos) {
                Ok((Some(n), next)) => Ok((Token::ArrayDef(n), next)),
                Ok((None, _)) => Err(DecodeError::Malformed),
                Err(e) => Err(DecodeError::of_read(e)),
            },
            Kind::MapDef => match map_at(input, pos) {
                Ok((Some(n), next)) => Ok((Token::MapDef(n), next)),
                Ok((None, _)) => Err(DecodeError::Malformed),
                Err(e) => Err(DecodeError::of_read(e)),
            },
            Kind::BytesIndef => fixed(input, pos, 1, Token::BeginBytes),
            Kind::TextIndef => fixed(input, pos, 1, Token::BeginText),
            Kind::ArrayIndef => fixed(input, pos, 1, Token::BeginArray),
            Kind::MapIndef => fixed(input, pos, 1, Token::BeginMap),
            Kind::Null => fixed(input, pos, 1, Token::Null),
            Kind::Undefined => fixed(input, pos, 1, Token::Undefined),
            Kind::Break => fixed(input, pos, 1, Token::Break),
            Kind::Unknown => Err(DecodeError::Malformed),
        },
    }
}

/// The token at `pos` and the position behind it. A token spans at least one
/// byte and ends inside the input.
pub open spec fn token_at(input: Seq<u8>, pos: usize) -> Result<(Token, usize), DecodeError> {
    match head_at(input, pos) {
        Ok((t, next)) => if pos < next <= input.len() {
            Ok((t, next))
        } else {
            Err(DecodeError::Malformed)
        },
        Err(e) => Err(e),
    }
}

/// The kind of item that a token is read from.
pub open spec fn kind_of(t: Token) -> Kind {
    match t {
        Token::Bool(_) => Kind::Bool,
        Token::U8(_) => Kind::U8,
        Token::U16(_) => Kind::U16,
        Token::U32(_) => Kind::U32,
        Token::U64(_) => Kind::U64,
        Token::I8(_) => Kind::I8,
        Token::I16(_) => Kind::I16,
        Token::I32(_) => Kind::I32,
        Token::I64(_) => Kind::I64,
        Token::Int(_) => Kind::Int,
        Token::F16 => Kind::F16,
        Token::F32 => Kind::F32,
        Token::F64 => Kind::F64,
        Token::Bytes => Kind::Bytes,
        Token::Text => Kind::Text,
        Token::ArrayDef(_) => Kind::ArrayDef,
        Token::MapDef(_) => Kind::MapDef,
        Token::Tag(_) => Kind::Tag,
        Token::Simple(_) => Kind::Simple,
        Token::Break => Kind::Break,
        Token::Null => Kind::Null,
        Token::Undefined => Kind::Undefined,
        Token::BeginBytes => Kind::BytesIndef,
        Token::BeginText => Kind::TextIndef,
        Token::BeginArray => Kind::ArrayIndef,
        Token::BeginMap => Kind::MapIndef,
    }
}

/// A token is read from an item of its kind, and fails to be read only for
/// want of bytes or on bytes that are no token.
pub proof fn lemma_token_kind(input: Seq<u8>, pos: usize)
    ensures
        token_at(input, pos) matches Ok(read) ==> datatype_at(input, pos) == Some(kind_of(read.0)),
        token_at(input, pos) matches Err(e) ==> e is Incomplete || e is Malformed,
{
    reveal(head_at);
    // one case for each kind keeps every case small
    match datatype_at(input, pos) {
        None => {},
        Some(kind) => match kind {
            Kind::Bool => {},
            Kind::Null => {},
            Kind::Undefined => {},
            Kind::U8 => {},
            Kind::U16 => {},
            Kind::U32 => {},
            Kind::U64 => {},
            Kind::I8 => {},
            Kind::I16 => {},
            Kind::I32 => {},
            Kind::I64 => {},
            Kind::Int => {},
            Kind::F16 => {},
            Kind::F32 => {},
            Kind::F64 => {},
            Kind::Simple => {},
            Kind::Bytes => {},
            Kind::BytesIndef => {},
            Kind::Text => {},
            Kind::TextIndef => {},
            Kind::ArrayDef => {},
            Kind::ArrayIndef => {},
            Kind::MapDef => {},
            Kind::MapIndef => {},
            Kind::Tag => {},
            Kind::Break => {},
            Kind::Unknown => {},
        },
    }
}

fn fixed_width(input: &[u8], pos: usize, width: usize, token: Token) -> (r: Result<
    (Token, usize),
    DecodeError,
>)
    requires
        pos < input@.len(),
    ensures
        r == fixed(input@, pos, width as nat, token),
{
    if width <= input.len() - pos {
        Ok((token, pos + width))
    } else {
        Err(DecodeError::Incomplete)
    }
}

/// The token at the cursor and the position behind it; the cursor stays.
pub fn peek_token(d: &Cursor) -> (r: Result<(Token, usize), DecodeError>)
    ensures
        r == token_at(d.input@, d.pos),
{
    let input = d.input;
    let pos = d.pos;
    proof {
        reveal(head_at);
    }
    let kind = match read_datatype(input, pos) {
        Some(kind) => kind,
        None => { return Err(DecodeError::Incomplete); },
    };
    match kind {
        Kind::Bool => match read_bool(input, pos) {
            Ok(v) => Ok((Token::Bool(v.0), v.1)),
            Err(e) => Err(DecodeError::from_read(e)),
        },
        Kind::U8 => match read_u8(input, pos) {
            Ok(v) => Ok((Token::U8(v.0), v.1)),
            Err(e) => Err(DecodeError::from_read(e)),
        },
        Kind::U16 => match read_u16(input, pos) {
            Ok(v) => Ok((Token::U16(v.0), v.1)),
            Err(e) => Err(DecodeError::from_read(e)),
        },
        Kind::U32 => match read_u32(input, pos) {
            Ok(v) => Ok((Token::U32(v.0), v.1)),
            Err(e) => Err(DecodeError::from_read(e)),
        },
        Kind::U64 => match read_u64(input, pos) {
            Ok(v) => Ok((Token::U64(v.0), v.1)),
            Err(e) => Err(DecodeError::from_read(e)),
        },
        Kind::I8 => match read_i8(input, pos) {
            Ok(v) => Ok((Token::I8(v.0), v.1)),
            Err(e) => Err(DecodeError::from_read(e)),
        },
        Kind::I16 => match read_i16(input, pos) {
            Ok(v) => Ok((Token::I16(v.0), v.1)),
            Err(e) => Err(DecodeError::from_read(e)),
        },
        Kind::I32 => match read_i32(input, pos) {
            Ok(v) => Ok((Token::I32(v.0), v.1)),
            Err(e) => Err(DecodeError::from_read(e)),
        },
        Kind::I64 => match read_i64(input, pos) {
            Ok(v) => Ok((Token::I64(v.0), v.1)),
            Err(e) => Err(DecodeError::from_read(e)),
        },
        Kind::Int => match read_int(input, pos) {
            Ok(v) => Ok((Token::Int(v.0), v.1)),
            Err(e) => Err(DecodeError::from_read(e)),
        },
        Kind::F16 => fixed_width(input, pos, 3, Token::F16),
        Kind::F32 => fixed_width(input, pos, 5, Token::F32),
        Kind::F64 => fixed_width(input, pos, 9, Token::F64),
        Kind::Bytes => match read_bytes(input, pos) {
            Ok(v) => Ok((Token::Bytes, v.1)),
            Err(e) => Err(DecodeError::from_read(e)),
        },
        Kind::Text => match read_text(input, pos) {
            Ok(v) => Ok((Token::Text, v.1)),
            Err(e) => Err(DecodeError::from_read(e)),
        },
        Kind::Tag => match read_tag(input, pos) {
            Ok(v) => Ok((Token::Tag(v.0), v.1)),
            Err(e) => Err(DecodeError::from_read(e)),
        },
        Kind::Simple => match read_simple(input, pos) {
            Ok(v) => Ok((Token::Simple(v.0), v.1)),
            Err(e) => Err(DecodeError::from_read(e)),
        },
        Kind::ArrayDef => match read_array(input, pos) {
            Ok((Some(n), next)) => Ok((Token::ArrayDef(n), next)),
            Ok((None, _)) => Err(DecodeError::Malformed),
            Err(e) => Err(DecodeError::from_read(e)),
        },
        Kind::MapDef => match read_map(input, pos) {
            Ok((Some(n), next)) => Ok((Token::MapDef(n), next)),
            Ok((None, _)) => Err(DecodeError::Malformed),
            Err(e) => Err(DecodeError::from_read(e)),
        },
        Kind::BytesIndef => fixed_width(input, pos, 1, Token::BeginBytes),
        Kind::TextIndef => fixed_width(input, pos, 1, Token::BeginText),
        Kind::ArrayIndef => fixed_width(input, pos, 1, Token::BeginArray),
        Kind::MapIndef => fixed_width(input, pos, 1, Token::BeginMap),
        Kind::Null => fixed_width(input, pos, 1, Token::Null),
        Kind::Undefined => fixed_width(input, pos, 1, Token::Undefined),
        Kind::Break => fixed_width(input, pos, 1, Token::Break),
        Kind::Unknown => Err(DecodeError::Malformed),
    }
}

/// Consumes the token at the cursor. Where none can be read, the cursor stays.
pub fn next_token(d: &mut Cursor) -> (r: Result<Token, DecodeError>)
    ensures
        final(d).input@ == old(d).input@,
        match token_at(old(d).input@, old(d).pos) {
            Ok((t, next)) => r == Ok::<Token, DecodeError>(t) && final(d).pos == next,
            Err(e) => r == Err::<Token, DecodeError>(e) && final(d).pos == old(d).pos,
        },
{
    match peek_token(d) {
        Ok((t, next)) => {
            d.pos = next;
            Ok(t)
        },
        Err(e) => Err(e),
    }
}

} // verus!
