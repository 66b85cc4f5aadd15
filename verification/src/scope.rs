//! The scope stack and the structural primitives that keep it in step with the
//! cursor.
//!
//! The stack lists the collections that are open at the cursor, innermost last.
//! Every primitive that consumes a token updates the stack by the same rule,
//! [`step`]: the innermost scope loses one item, and a collection that the token
//! opens becomes the new innermost scope. Draining repeats that rule until no
//! scope is open.

use crate::cbor::{datatype_at, read_array, read_bytes, read_datatype, read_u16, read_u32, read_u64, read_u8};
use crate::cbor::{bytes_at, Kind};
use crate::cursor::Cursor;
use crate::error::DecodeError;
use crate::token::{head_at, lemma_token_kind, peek_token, token_at, Token};
use vstd::prelude::*;

verus! {

/// One open collection around the cursor.
#[derive(Debug, Clone, Copy, PartialEq, Eq, Structural)]
pub enum OuterScope {
    /// A collection of definite length; the number counts the items that are
    /// still to be consumed in it, the one at the cursor included.
    Definite(u64),
    /// A collection that ends with a close marker.
    Indefinite,
}

/// Where a decode step ended: what it returned, and the cursor and the scope
/// stack that it left.
#[verifier::ext_equal]
pub ghost struct Parsed<T> {
    pub result: Result<T, DecodeError>,
    pub pos: usize,
    pub stack: Seq<OuterScope>,
}

/// A step that failed at `pos` without consuming anything.
pub open spec fn failed<T>(e: DecodeError, pos: usize, stack: Seq<OuterScope>) -> Parsed<T> {
    Parsed { result: Err(e), pos, stack }
}

/// That an executable step ended as `p` says.
pub open spec fn ends_as<T>(
    r: Result<T, DecodeError>,
    d: Cursor,
    ctx: Vec<OuterScope>,
    p: Parsed<T>,
) -> bool {
    r == p.result && d.pos == p.pos && ctx@ =~= p.stack
}

/// The views of a run of values.
pub open spec fn views_of<T: View>(items: Seq<T>) -> Seq<T::V> {
    items.map_values(|x: T| x@)
}

/// That an executable step ended as `p` says, where `p` speaks of the view of
/// what was decoded.
pub open spec fn decodes_as<T: View>(
    r: Result<T, DecodeError>,
    d: Cursor,
    ctx: Vec<OuterScope>,
    p: Parsed<T::V>,
) -> bool {
    &&& d.pos == p.pos
    &&& ctx@ =~= p.stack
    &&& match r {
        Ok(v) => p.result == Ok::<T::V, DecodeError>(v@),
        Err(e) => p.result == Err::<T::V, DecodeError>(e),
    }
}

/// That an executable step that decodes a list ended as `p` says, where `p`
/// speaks of the views of the items of the list.
pub open spec fn lists_as<T: View>(
    r: Result<Vec<T>, DecodeError>,
    d: Cursor,
    ctx: Vec<OuterScope>,
    p: Parsed<Seq<T::V>>,
) -> bool {
    &&& d.pos == p.pos
    &&& ctx@ =~= p.stack
    &&& match r {
        Ok(v) => p.result == Ok::<Seq<T::V>, DecodeError>(views_of(v@)),
        Err(e) => p.result == Err::<Seq<T::V>, DecodeError>(e),
    }
}

/// The stack after one item of the innermost collection has been consumed. A
/// definite scope with more than one item left counts down; with one item left
/// (or none) it is closed. An indefinite scope stays. An empty stack stays empty.
pub open spec fn consumed_one(stack: Seq<OuterScope>) -> Seq<OuterScope> {
    if stack.len() == 0 {
        stack
    } else {
        match stack.last() {
            OuterScope::Definite(n) => if n > 1 {
                stack.drop_last().push(OuterScope::Definite((n - 1) as u64))
            } else {
                stack.drop_last()
            },
            OuterScope::Indefinite => stack,
        }
    }
}

/// The number of items behind the head of a map of `pairs` pairs: a key and a
/// value for each, as far as 64 bits hold it.
pub open spec fn map_items(pairs: u64) -> u64 {
    if pairs <= u64::MAX / 2 {
        (2 * pairs) as u64
    } else {
        u64::MAX
    }
}

/// The scope that a token opens, if it opens one. An empty collection is closed
/// as soon as it is opened, so it opens none.
pub open spec fn opened_by(t: Token) -> Option<OuterScope> {
    match t {
        Token::ArrayDef(n) => if n > 0 {
            Some(OuterScope::Definite(n))
        } else {
            None
        },
        Token::MapDef(n) => if n > 0 {
            Some(OuterScope::Definite(map_items(n)))
        } else {
            None
        },
        Token::BeginArray => Some(OuterScope::Indefinite),
        Token::BeginMap => Some(OuterScope::Indefinite),
        Token::BeginBytes => Some(OuterScope::Indefinite),
        Token::BeginText => Some(OuterScope::Indefinite),
        _ => None,
    }
}

/// The stack after a token other than the close marker has been consumed.
pub open spec fn entered(stack: Seq<OuterScope>, t: Token) -> Seq<OuterScope> {
    match opened_by(t) {
        Some(scope) => consumed_one(stack).push(scope),
        None => consumed_one(stack),
    }
}

/// The stack after `t` has been consumed. The close marker closes the innermost
/// scope, which has to be indefinite; a close marker anywhere else shows that
/// stack and input have come apart.
pub open spec fn step(stack: Seq<OuterScope>, t: Token) -> Result<Seq<OuterScope>, DecodeError> {
    if t is Break {
        if stack.len() > 0 && stack.last() is Indefinite {
            Ok(stack.drop_last())
        } else {
            Err(DecodeError::Desynchronized)
        }
    } else {
        Ok(entered(stack, t))
    }
}

/// One token consumed and tracked. Where no token can be read, or the token is
/// a close marker that closes nothing, cursor and stack stay.
pub open spec fn skip_token(input: Seq<u8>, pos: usize, stack: Seq<OuterScope>) -> Parsed<()> {
    match token_at(input, pos) {
        Err(e) => failed(e, pos, stack),
        Ok((t, next)) => match step(stack, t) {
            Err(e) => failed(e, pos, stack),
            Ok(s) => Parsed { result: Ok(()), pos: next, stack: s },
        },
    }
}

/// An item of another kind than the expected one: it is skipped as one token,
/// and the step fails.
pub open spec fn rejected<T>(input: Seq<u8>, pos: usize, stack: Seq<OuterScope>) -> Parsed<T> {
    let p = skip_token(input, pos, stack);
    Parsed {
        result: match p.result {
            Ok(_) => Err(DecodeError::UnexpectedShape),
            Err(e) => Err(e),
        },
        pos: p.pos,
        stack: p.stack,
    }
}

/// Whether a layer accepts an array of length `len`: any length where it lists
/// none.
pub open spec fn accepts(allowed: Seq<u64>, len: u64) -> bool {
    allowed.len() == 0 || allowed.contains(len)
}

/// An array of definite length is expected. Its head is consumed and its scope
/// opened whatever its length; a length that is not accepted fails after that.
pub open spec fn definite_array(
    input: Seq<u8>,
    pos: usize,
    stack: Seq<OuterScope>,
    allowed: Seq<u64>,
) -> Parsed<u64> {
    match token_at(input, pos) {
        Ok((Token::ArrayDef(len), next)) => Parsed {
            result: if accepts(allowed, len) {
                Ok(len)
            } else {
                Err(DecodeError::ShapeMismatch { found: len })
            },
            pos: next,
            stack: entered(stack, Token::ArrayDef(len)),
        },
        _ => rejected(input, pos, stack),
    }
}

/// The value of a token that is an unsigned integer.
pub open spec fn unsigned_value(t: Token) -> Option<u64> {
    match t {
        Token::U8(v) => Some(v as u64),
        Token::U16(v) => Some(v as u64),
        Token::U32(v) => Some(v as u64),
        Token::U64(v) => Some(v),
        _ => None,
    }
}

/// An unsigned integer that fits 8 bits is expected, in any of its encodings.
pub open spec fn small_unsigned(input: Seq<u8>, pos: usize, stack: Seq<OuterScope>) -> Parsed<u8> {
    match token_at(input, pos) {
        Ok((t, next)) => match unsigned_value(t) {
            Some(v) => if v <= u8::MAX {
                Parsed { result: Ok(v as u8), pos: next, stack: consumed_one(stack) }
            } else {
                rejected(input, pos, stack)
            },
            None => rejected(input, pos, stack),
        },
        _ => rejected(input, pos, stack),
    }
}

/// An unsigned integer of at most 64 bits is expected.
pub open spec fn unsigned(input: Seq<u8>, pos: usize, stack: Seq<OuterScope>) -> Parsed<u64> {
    match token_at(input, pos) {
        Ok((t, next)) => match unsigned_value(t) {
            Some(v) => Parsed { result: Ok(v), pos: next, stack: consumed_one(stack) },
            None => rejected(input, pos, stack),
        },
        _ => rejected(input, pos, stack),
    }
}

/// A byte string of definite length is expected; its bytes are what the
/// primitive cursor reads at `pos`.
pub open spec fn byte_string(input: Seq<u8>, pos: usize, stack: Seq<OuterScope>) -> Parsed<
    Seq<u8>,
> {
    match (token_at(input, pos), bytes_at(input, pos)) {
        (Ok((Token::Bytes, next)), Ok(read)) => Parsed {
            result: Ok(read.0),
            pos: next,
            stack: consumed_one(stack),
        },
        _ => rejected(input, pos, stack),
    }
}

/// Tokens are consumed and tracked until no scope is open. The stack is empty
/// afterwards, also where draining fails; the cursor then stays at the token
/// that could not be consumed.
pub open spec fn drain(input: Seq<u8>, pos: usize, stack: Seq<OuterScope>) -> Parsed<()>
    decreases input.len() - pos,
{
    if stack.len() == 0 {
        Parsed { result: Ok(()), pos, stack: Seq::empty() }
    } else {
        let p = skip_token(input, pos, stack);
        match p.result {
            Ok(_) => if pos < p.pos <= input.len() {
                drain(input, p.pos, p.stack)
            } else {
                failed(DecodeError::Malformed, pos, Seq::empty())
            },
            Err(e) => failed(e, pos, Seq::empty()),
        }
    }
}

pub(crate) fn consume_one(ctx: &mut Vec<OuterScope>)
    ensures
        final(ctx)@ =~= consumed_one(old(ctx)@),
{
    match ctx.pop() {
        Some(OuterScope::Definite(n)) => {
            if n > 1 {
                ctx.push(OuterScope::Definite(n - 1));
            }
        },
        Some(OuterScope::Indefinite) => {
            ctx.push(OuterScope::Indefinite);
        },
        None => {},
    }
}

fn scope_of(t: Token) -> (r: Option<OuterScope>)
    ensures
        r == opened_by(t),
{
    match t {
        Token::ArrayDef(n) => if n > 0 {
            Some(OuterScope::Definite(n))
        } else {
            None
        },
        Token::MapDef(n) => if n > 0 {
            Some(OuterScope::Definite(if n <= u64::MAX / 2 { 2 * n } else { u64::MAX }))
        } else {
            None
        },
        Token::BeginArray => Some(OuterScope::Indefinite),
        Token::BeginMap => Some(OuterScope::Indefinite),
        Token::BeginBytes => Some(OuterScope::Indefinite),
        Token::BeginText => Some(OuterScope::Indefinite),
        _ => None,
    }
}

fn enter(ctx: &mut Vec<OuterScope>, t: Token)
    ensures
        final(ctx)@ =~= entered(old(ctx)@, t),
{
    consume_one(ctx);
    match scope_of(t) {
        Some(scope) => {
            ctx.push(scope);
        },
        None => {},
    }
}

fn track(ctx: &mut Vec<OuterScope>, t: Token) -> (r: Result<(), DecodeError>)
    ensures
        match step(old(ctx)@, t) {
            Ok(s) => r is Ok && final(ctx)@ =~= s,
            Err(e) => r == Err::<(), DecodeError>(e) && final(ctx)@ =~= old(ctx)@,
        },
{
    match t {
        Token::Break => {
            let n = ctx.len();
            if n > 0 {
                match ctx[n - 1] {
                    OuterScope::Indefinite => {
                        ctx.pop();
                        Ok(())
                    },
                    OuterScope::Definite(_) => Err(DecodeError::Desynchronized),
                }
            } else {
                Err(DecodeError::Desynchronized)
            }
        },
        _ => {
            enter(ctx, t);
            Ok(())
        },
    }
}

/// Consumes the token at the cursor and tracks it: the innermost scope loses one
/// item, and a collection that the token opens becomes the innermost scope.
pub fn add_collection_token_to_context(d: &mut Cursor, ctx: &mut Vec<OuterScope>) -> (r: Result<
    (),
    DecodeError,
>)
    ensures
        final(d).input@ == old(d).input@,
        ends_as(r, *final(d), *final(ctx), skip_token(old(d).input@, old(d).pos, old(ctx)@)),
{
    match peek_token(d) {
        Ok((t, next)) => match track(ctx, t) {
            Ok(()) => {
                d.pos = next;
                Ok(())
            },
            Err(e) => Err(e),
        },
        Err(e) => Err(e),
    }
}

fn reject<T>(d: &mut Cursor, ctx: &mut Vec<OuterScope>) -> (r: Result<T, DecodeError>)
    ensures
        final(d).input@ == old(d).input@,
        ends_as(r, *final(d), *final(ctx), rejected::<T>(old(d).input@, old(d).pos, old(ctx)@)),
{
    match add_collection_token_to_context(d, ctx) {
        Ok(()) => Err(DecodeError::UnexpectedShape),
        Err(e) => Err(e),
    }
}

fn is_accepted(possible_lengths: &Vec<u64>, len: u64) -> (b: bool)
    ensures
        b == accepts(possible_lengths@, len),
{
    if possible_lengths.len() == 0 {
        return true;
    }
    let mut i: usize = 0;
    while i < possible_lengths.len()
        invariant
            i <= possible_lengths@.len(),
            forall|j: int| 0 <= j < i ==> possible_lengths@[j] != len,
        decreases possible_lengths@.len() - i,
    {
        if possible_lengths[i] == len {
            return true;
        }
        i += 1;
    }
    false
}

/// Expects an array of definite length whose length is one of
/// `possible_lengths` (any length, where the list is empty), and opens its scope.
///
/// The head of an array of another length is consumed and tracked too, before
/// `ShapeMismatch` is returned. Any other item is skipped as one token, and
/// `UnexpectedShape` is returned. Where no token can be read, nothing changes.
pub fn expect_definite_array(
    possible_lengths: Vec<u64>,
    d: &mut Cursor,
    ctx: &mut Vec<OuterScope>,
) -> (r: Result<u64, DecodeError>)
    ensures
        final(d).input@ == old(d).input@,
        ends_as(
            r,
            *final(d),
            *final(ctx),
            definite_array(old(d).input@, old(d).pos, old(ctx)@, possible_lengths@),
        ),
{
    proof {
        lemma_token_kind(d.input@, d.pos);
    }
    match read_datatype(d.input, d.pos) {
        Some(Kind::ArrayDef) => {
            proof {
                reveal(head_at);
            }
            match read_array(d.input, d.pos) {
                Ok((Some(len), next)) => {
                    enter(ctx, Token::ArrayDef(len));
                    d.pos = next;
                    if is_accepted(&possible_lengths, len) {
                        Ok(len)
                    } else {
                        Err(DecodeError::ShapeMismatch { found: len })
                    }
                },
                Ok((None, _)) => Err(DecodeError::Malformed),
                Err(e) => Err(DecodeError::from_read(e)),
            }
        },
        _ => reject(d, ctx),
    }
}

/// That `r` is what an attempt to read an unsigned integer at `pos` has to
/// find: the value of the token there if it is one, the failure to read a token,
/// or nothing where the token is no unsigned integer.
pub open spec fn unsigned_read(
    r: Option<Result<(u64, usize), DecodeError>>,
    input: Seq<u8>,
    pos: usize,
) -> bool {
    match r {
        Some(Ok(v)) => token_at(input, pos) matches Ok(read) && unsigned_value(read.0) == Some(v.0)
            && read.1 == v.1,
        Some(Err(e)) => token_at(input, pos) == Err::<(Token, usize), DecodeError>(e),
        None => token_at(input, pos) matches Ok(read) ==> unsigned_value(read.0) is None,
    }
}

fn read_unsigned_8(input: &[u8], pos: usize) -> (r: Option<Result<(u64, usize), DecodeError>>)
    requires
        datatype_at(input@, pos) == Some(Kind::U8),
    ensures
        r is Some,
        unsigned_read(r, input@, pos),
{
    proof {
        reveal(head_at);
    }
    match read_u8(input, pos) {
        Ok((v, next)) => Some(Ok((v as u64, next))),
        Err(e) => Some(Err(DecodeError::from_read(e))),
    }
}

fn read_unsigned_16(input: &[u8], pos: usize) -> (r: Option<Result<(u64, usize), DecodeError>>)
    requires
        datatype_at(input@, pos) == Some(Kind::U16),
    ensures
        r is Some,
        unsigned_read(r, input@, pos),
{
    proof {
        reveal(head_at);
    }
    match read_u16(input, pos) {
        Ok((v, next)) => Some(Ok((v as u64, next))),
        Err(e) => Some(Err(DecodeError::from_read(e))),
    }
}

fn read_unsigned_32(input: &[u8], pos: usize) -> (r: Option<Result<(u64, usize), DecodeError>>)
    requires
        datatype_at(input@, pos) == Some(Kind::U32),
    ensures
        r is Some,
        unsigned_read(r, input@, pos),
{
    proof {
        reveal(head_at);
    }
    match read_u32(input, pos) {
        Ok((v, next)) => Some(Ok((v as u64, next))),
        Err(e) => Some(Err(DecodeError::from_read(e))),
    }
}

fn read_unsigned_64(input: &[u8], pos: usize) -> (r: Option<Result<(u64, usize), DecodeError>>)
    requires
        datatype_at(input@, pos) == Some(Kind::U64),
    ensures
        r is Some,
        unsigned_read(r, input@, pos),
{
    proof {
        reveal(head_at);
    }
    match read_u64(input, pos) {
        Ok((v, next)) => Some(Ok((v, next))),
        Err(e) => Some(Err(DecodeError::from_read(e))),
    }
}

fn read_unsigned(input: &[u8], pos: usize) -> (r: Option<Result<(u64, usize), DecodeError>>)
    ensures
        unsigned_read(r, input@, pos),
{
    proof {
        lemma_token_kind(input@, pos);
    }
    match read_datatype(input, pos) {
        Some(Kind::U8) => read_unsigned_8(input, pos),
        Some(Kind::U16) => read_unsigned_16(input, pos),
        Some(Kind::U32) => read_unsigned_32(input, pos),
        Some(Kind::U64) => read_unsigned_64(input, pos),
        _ => None,
    }
}

/// Expects an unsigned integer of at most 64 bits. Any other item is skipped as
/// one token, and `UnexpectedShape` is returned.
pub fn expect_u64(d: &mut Cursor, ctx: &mut Vec<OuterScope>) -> (r: Result<u64, DecodeError>)
    ensures
        final(d).input@ == old(d).input@,
        ends_as(r, *final(d), *final(ctx), unsigned(old(d).input@, old(d).pos, old(ctx)@)),
{
    match read_unsigned(d.input, d.pos) {
        Some(Ok((v, next))) => {
            consume_one(ctx);
            d.pos = next;
            Ok(v)
        },
        Some(Err(e)) => Err(e),
        None => reject(d, ctx),
    }
}

/// Expects an unsigned integer that fits 8 bits, in any of its encodings: the
/// tag at the head of a `[tag, ..]` collection. Any other item, a larger
/// unsigned integer too, is skipped as one token, and `UnexpectedShape` is
/// returned.
pub fn expect_u8(d: &mut Cursor, ctx: &mut Vec<OuterScope>) -> (r: Result<u8, DecodeError>)
    ensures
        final(d).input@ == old(d).input@,
        ends_as(r, *final(d), *final(ctx), small_unsigned(old(d).input@, old(d).pos, old(ctx)@)),
{
    match read_unsigned(d.input, d.pos) {
        Some(Ok((v, next))) => {
            if v <= 255 {
                consume_one(ctx);
                d.pos = next;
                Ok(v as u8)
            } else {
                reject(d, ctx)
            }
        },
        Some(Err(e)) => Err(e),
        None => reject(d, ctx),
    }
}

/// Expects a byte string of definite length. Any other item is skipped as one
/// token, and `UnexpectedShape` is returned.
pub fn expect_bytes(d: &mut Cursor, ctx: &mut Vec<OuterScope>) -> (r: Result<Vec<u8>, DecodeError>)
    ensures
        final(d).input@ == old(d).input@,
        decodes_as(r, *final(d), *final(ctx), byte_string(old(d).input@, old(d).pos, old(ctx)@)),
{
    proof {
        lemma_token_kind(d.input@, d.pos);
    }
    match read_datatype(d.input, d.pos) {
        Some(Kind::Bytes) => {
            proof {
                reveal(head_at);
            }
            match read_bytes(d.input, d.pos) {
                Ok((v, next)) => {
                    consume_one(ctx);
                    d.pos = next;
                    Ok(v)
                },
                Err(e) => Err(DecodeError::from_read(e)),
            }
        },
        _ => reject(d, ctx),
    }
}

/// Drains the scope stack: consumes and tracks tokens until no scope is open,
/// which moves the cursor behind everything that the open scopes still held.
///
/// The stack is empty afterwards in every case. Draining fails where a token
/// cannot be read or a close marker closes nothing; the cursor then stays at
/// that token.
pub fn clear_unknown_entity(d: &mut Cursor, ctx: &mut Vec<OuterScope>) -> (r: Result<
    (),
    DecodeError,
>)
    ensures
        final(d).input@ == old(d).input@,
        final(ctx)@.len() == 0,
        ends_as(r, *final(d), *final(ctx), drain(old(d).input@, old(d).pos, old(ctx)@)),
{
    let ghost input = d.input@;
    let ghost whole = drain(d.input@, d.pos, ctx@);
    while ctx.len() > 0
        invariant
            d.input@ == input,
            input == old(d).input@,
            whole == drain(old(d).input@, old(d).pos, old(ctx)@),
            drain(input, d.pos, ctx@) == whole,
        decreases input.len() - d.pos,
    {
        match add_collection_token_to_context(d, ctx) {
            Ok(()) => {},
            Err(e) => {
                ctx.clear();
                return Err(e);
            },
        }
    }
    Ok(())
}

} // verus!
