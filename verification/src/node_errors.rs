//! Decoders for the hierarchy of ledger failures, and for the list of rejection
//! entries that a node sends.
//!
//! Every layer has the same shape: an array `[tag, payload]`, where the tag says
//! how to read the payload. A layer reads the tags that it models and fails on
//! the others with `Unsupported`. Where a layer fails itself, because its head
//! is refused, its tag is not modelled or its payload cannot be read, it drains
//! the scope stack before it reports the error; the failure of a layer below is
//! handed on as it comes, so the stack is drained once for a failed entry. All
//! reading goes through the structural primitives, so the scope stack follows
//! the cursor on every path.

use crate::cursor::Cursor;
use crate::error::DecodeError;
use crate::failures::{
    AlonzoUtxoPredFailure, AlonzoUtxoPredFailureView, AlonzoUtxowPredFailure,
    AlonzoUtxowPredFailureView, BabbageUtxoPredFailure, BabbageUtxoPredFailureView,
    BabbageUtxowPredFailure, BabbageUtxowPredFailureView, ShelleyLedgerPredFailure,
    ShelleyLedgerPredFailureView, ShelleyUtxowPredFailure, ShelleyUtxowPredFailureView,
};
use crate::scope::{
    clear_unknown_entity, decodes_as, definite_array, drain, ends_as, expect_definite_array,
    expect_u8, failed, small_unsigned, views_of, OuterScope, Parsed,
};
use crate::token::{peek_token, token_at, Token};
use crate::value::{
    carry, conway_value, decode_conway_value, decode_hash_list, decode_input_list, expect_list,
    hash_list, input_list, list_head, TxInputView, Value, ValueView,
};
use vstd::prelude::*;

verus! {

/// A step that succeeded, with its result put into a larger one.
pub open spec fn wrap<T, U>(p: Parsed<T>, make: spec_fn(T) -> U) -> Parsed<U> {
    Parsed {
        result: match p.result {
            Ok(v) => Ok(make(v)),
            Err(e) => Err(e),
        },
        pos: p.pos,
        stack: p.stack,
    }
}

/// A layer gives up at `pos` with the error `e`: the scope stack is drained
/// from there, which moves the cursor behind everything that was still open.
/// The error of the layer is reported, unless draining fails itself.
pub open spec fn drained<T>(input: Seq<u8>, e: DecodeError, pos: usize, stack: Seq<OuterScope>) -> Parsed<
    T,
> {
    let rest = drain(input, pos, stack);
    Parsed {
        result: match rest.result {
            Ok(_) => Err(e),
            Err(f) => Err(f),
        },
        pos: rest.pos,
        stack: rest.stack,
    }
}

/// A payload of the layer's own: its result is put into the layer's, and where
/// it fails the layer gives up.
pub open spec fn payload<T, U>(input: Seq<u8>, p: Parsed<T>, make: spec_fn(T) -> U) -> Parsed<U> {
    match p.result {
        Ok(v) => Parsed { result: Ok(make(v)), pos: p.pos, stack: p.stack },
        Err(e) => drained(input, e, p.pos, p.stack),
    }
}

/// Drains the scope stack for a layer that gives up with `e`, and hands back
/// the error to report.
pub fn give_up(e: DecodeError, d: &mut Cursor, ctx: &mut Vec<OuterScope>) -> (f: DecodeError)
    ensures
        final(d).input@ == old(d).input@,
        final(ctx)@.len() == 0,
        ends_as(
            Err::<(), DecodeError>(f),
            *final(d),
            *final(ctx),
            drained::<()>(old(d).input@, e, old(d).pos, old(ctx)@),
        ),
{
    match clear_unknown_entity(d, ctx) {
        Ok(()) => e,
        Err(f) => f,
    }
}

/// The head of a tagged collection: an array whose length is among `allowed`,
/// and the small unsigned integer that is its first item. The length and the
/// tag are handed back.
#[verifier::opaque]
pub open spec fn tagged(input: Seq<u8>, pos: usize, stack: Seq<OuterScope>, allowed: Seq<u64>) -> Parsed<
    (u64, u8),
> {
    let a = definite_array(input, pos, stack, allowed);
    match a.result {
        Err(_) => carry(a),
        Ok(len) => {
            let t = small_unsigned(input, a.pos, a.stack);
            match t.result {
                Err(_) => carry(t),
                Ok(tag) => Parsed { result: Ok((len, tag)), pos: t.pos, stack: t.stack },
            }
        },
    }
}

/// Expects the head of a tagged collection: an array of one of the lengths
/// given, and its tag.
pub fn expect_tagged(possible_lengths: Vec<u64>, d: &mut Cursor, ctx: &mut Vec<OuterScope>) -> (r:
    Result<(u64, u8), DecodeError>)
    ensures
        final(d).input@ == old(d).input@,
        ends_as(
            r,
            *final(d),
            *final(ctx),
            tagged(old(d).input@, old(d).pos, old(ctx)@, possible_lengths@),
        ),
{
    proof {
        reveal(tagged);
    }
    let len = expect_definite_array(possible_lengths, d, ctx)?;
    let tag = expect_u8(d, ctx)?;
    Ok((len, tag))
}

fn pair() -> (v: Vec<u64>)
    ensures
        v@ == seq![2u64],
{
    let v = vec![2];
    assert(v@ =~= seq![2u64]);
    v
}

impl ShelleyUtxowPredFailure {
    /// `[1, hashes]` are the key witnesses that are missing, `[2, hashes]` the
    /// script witnesses that are missing. Where the layer fails itself (its head
    /// is refused, its tag is not modelled, its payload cannot be read), the
    /// scope stack is drained.
    #[verifier::opaque]
    pub open spec fn parse(input: Seq<u8>, pos: usize, stack: Seq<OuterScope>) -> Parsed<
        ShelleyUtxowPredFailureView,
    > {
        let h = tagged(input, pos, stack, seq![2u64]);
        match h.result {
            Err(e) => drained(input, e, h.pos, h.stack),
            Ok((len, tag)) => if tag == 1 {
                payload(
                    input,
                    hash_list(input, h.pos, h.stack),
                    |v: Seq<Seq<u8>>| ShelleyUtxowPredFailureView::MissingVKeyWitnessesUTXOW(v),
                )
            } else if tag == 2 {
                payload(
                    input,
                    hash_list(input, h.pos, h.stack),
                    |v: Seq<Seq<u8>>| ShelleyUtxowPredFailureView::MissingScriptWitnessesUTXOW(v),
                )
            } else {
                drained(input, DecodeError::Unsupported { tag }, h.pos, h.stack)
            },
        }
    }

    /// Decodes one failure of this layer. Where that fails, the scope stack
    /// has been drained and is empty.
    pub fn decode(d: &mut Cursor, ctx: &mut Vec<OuterScope>) -> (r: Result<Self, DecodeError>)
        ensures
            final(d).input@ == old(d).input@,
            r is Err ==> final(ctx)@.len() == 0,
            decodes_as(r, *final(d), *final(ctx), Self::parse(old(d).input@, old(d).pos, old(ctx)@)),
    {
        proof {
            reveal(ShelleyUtxowPredFailure::parse);
        }
        let head = expect_tagged(pair(), d, ctx);
        let (len, tag) = match head {
            Ok(found) => found,
            Err(e) => {
                return Err(give_up(e, d, ctx));
            },
        };
        if tag == 1 {
            match decode_hash_list(d, ctx) {
                Ok(found) => Ok(ShelleyUtxowPredFailure::MissingVKeyWitnessesUTXOW(found)),
                Err(e) => Err(give_up(e, d, ctx)),
            }
        } else if tag == 2 {
            match decode_hash_list(d, ctx) {
                Ok(found) => Ok(ShelleyUtxowPredFailure::MissingScriptWitnessesUTXOW(found)),
                Err(e) => Err(give_up(e, d, ctx)),
            }
        } else {
            Err(give_up(DecodeError::Unsupported { tag }, d, ctx))
        }
    }
}

impl AlonzoUtxowPredFailure {
    /// `[0, failure]` is a failure of the rules taken over from Shelley,
    /// `[5, hashes]` the required signers that are missing. Where the layer
    /// fails itself, the scope stack is drained; a failure of the layer below
    /// is handed on as it comes.
    #[verifier::opaque]
    pub open spec fn parse(input: Seq<u8>, pos: usize, stack: Seq<OuterScope>) -> Parsed<
        AlonzoUtxowPredFailureView,
    > {
        let h = tagged(input, pos, stack, seq![2u64]);
        match h.result {
            Err(e) => drained(input, e, h.pos, h.stack),
            Ok((len, tag)) => if tag == 0 {
                wrap(
                    ShelleyUtxowPredFailure::parse(input, h.pos, h.stack),
                    |v: ShelleyUtxowPredFailureView| AlonzoUtxowPredFailureView::ShelleyInAlonzoUtxowPredfailure(v),
                )
            } else if tag == 5 {
                payload(
                    input,
                    hash_list(input, h.pos, h.stack),
                    |v: Seq<Seq<u8>>| AlonzoUtxowPredFailureView::MissingRequiredSigners(v),
                )
            } else {
                drained(input, DecodeError::Unsupported { tag }, h.pos, h.stack)
            },
        }
    }

    /// Decodes one failure of this layer. Where that fails, the scope stack
    /// has been drained and is empty.
    pub fn decode(d: &mut Cursor, ctx: &mut Vec<OuterScope>) -> (r: Result<Self, DecodeError>)
        ensures
            final(d).input@ == old(d).input@,
            r is Err ==> final(ctx)@.len() == 0,
            decodes_as(r, *final(d), *final(ctx), Self::parse(old(d).input@, old(d).pos, old(ctx)@)),
    {
        proof {
            reveal(AlonzoUtxowPredFailure::parse);
        }
        let head = expect_tagged(pair(), d, ctx);
        let (len, tag) = match head {
            Ok(found) => found,
            Err(e) => {
                return Err(give_up(e, d, ctx));
            },
        };
        if tag == 0 {
            match ShelleyUtxowPredFailure::decode(d, ctx) {
                Ok(failure) => Ok(AlonzoUtxowPredFailure::ShelleyInAlonzoUtxowPredfailure(failure)),
                Err(e) => Err(e),
            }
        } else if tag == 5 {
            match decode_hash_list(d, ctx) {
                Ok(found) => Ok(AlonzoUtxowPredFailure::MissingRequiredSigners(found)),
                Err(e) => Err(give_up(e, d, ctx)),
            }
        } else {
            Err(give_up(DecodeError::Unsupported { tag }, d, ctx))
        }
    }
}

/// The two values of a failure to conserve value: what the transaction
/// consumes, then what it produces.
#[verifier::opaque]
pub open spec fn value_pair(input: Seq<u8>, pos: usize, stack: Seq<OuterScope>) -> Parsed<
    (ValueView, ValueView),
> {
    let c = conway_value(input, pos, stack);
    match c.result {
        Err(_) => carry(c),
        Ok(consumed_value) => {
            let p = conway_value(input, c.pos, c.stack);
            match p.result {
                Err(_) => carry(p),
                Ok(produced_value) => Parsed {
                    result: Ok((consumed_value, produced_value)),
                    pos: p.pos,
                    stack: p.stack,
                },
            }
        },
    }
}

/// That a pair of values was decoded as `p` says.
pub open spec fn pair_decoded_as(
    r: Result<(Value, Value), DecodeError>,
    d: Cursor,
    ctx: Vec<OuterScope>,
    p: Parsed<(ValueView, ValueView)>,
) -> bool {
    &&& d.pos == p.pos
    &&& ctx@ =~= p.stack
    &&& match r {
        Ok(v) => p.result == Ok::<(ValueView, ValueView), DecodeError>((v.0@, v.1@)),
        Err(e) => p.result == Err::<(ValueView, ValueView), DecodeError>(e),
    }
}

/// Decodes two values in a row: what a transaction consumes, then what it
/// produces.
pub fn decode_value_pair(d: &mut Cursor, ctx: &mut Vec<OuterScope>) -> (r: Result<
    (Value, Value),
    DecodeError,
>)
    ensures
        final(d).input@ == old(d).input@,
        pair_decoded_as(
            r,
            *final(d),
            *final(ctx),
            value_pair(old(d).input@, old(d).pos, old(ctx)@),
        ),
{
    proof {
        reveal(value_pair);
    }
    let consumed_value = decode_conway_value(d, ctx)?;
    let produced_value = decode_conway_value(d, ctx)?;
    Ok((consumed_value, produced_value))
}

impl AlonzoUtxoPredFailure {
    /// `[0, inputs]` are inputs that are bad, `[5, consumed, produced]` two
    /// values that do not balance. The length of the array has to fit the tag.
    /// Where the layer fails itself, the scope stack is drained.
    #[verifier::opaque]
    pub open spec fn parse(input: Seq<u8>, pos: usize, stack: Seq<OuterScope>) -> Parsed<
        AlonzoUtxoPredFailureView,
    > {
        let h = tagged(input, pos, stack, seq![2u64, 3u64]);
        match h.result {
            Err(e) => drained(input, e, h.pos, h.stack),
            Ok((len, tag)) => if tag == 0 && len == 2 {
                payload(
                    input,
                    input_list(input, h.pos, h.stack),
                    |v: Seq<TxInputView>| AlonzoUtxoPredFailureView::BadInputsUtxo(v),
                )
            } else if tag == 5 && len == 3 {
                payload(
                    input,
                    value_pair(input, h.pos, h.stack),
                    |v: (ValueView, ValueView)| AlonzoUtxoPredFailureView::ValueNotConservedUTxO {
                        consumed_value: v.0,
                        produced_value: v.1,
                    },
                )
            } else {
                drained(input, DecodeError::Unsupported { tag }, h.pos, h.stack)
            },
        }
    }

    /// Decodes one failure of this layer. Where that fails, the scope stack
    /// has been drained and is empty.
    pub fn decode(d: &mut Cursor, ctx: &mut Vec<OuterScope>) -> (r: Result<Self, DecodeError>)
        ensures
            final(d).input@ == old(d).input@,
            r is Err ==> final(ctx)@.len() == 0,
            decodes_as(r, *final(d), *final(ctx), Self::parse(old(d).input@, old(d).pos, old(ctx)@)),
    {
        proof {
            reveal(AlonzoUtxoPredFailure::parse);
        }
        let allowed = vec![2, 3];
        assert(allowed@ =~= seq![2u64, 3u64]);
        let head = expect_tagged(allowed, d, ctx);
        let (len, tag) = match head {
            Ok(found) => found,
            Err(e) => {
                return Err(give_up(e, d, ctx));
            },
        };
        if tag == 0 && len == 2 {
            match decode_input_list(d, ctx) {
                Ok(found) => Ok(AlonzoUtxoPredFailure::BadInputsUtxo(found)),
                Err(e) => Err(give_up(e, d, ctx)),
            }
        } else if tag == 5 && len == 3 {
            match decode_value_pair(d, ctx) {
                Ok((consumed_value, produced_value)) => Ok(
                    AlonzoUtxoPredFailure::ValueNotConservedUTxO { consumed_value, produced_value },
                ),
                Err(e) => Err(give_up(e, d, ctx)),
            }
        } else {
            Err(give_up(DecodeError::Unsupported { tag }, d, ctx))
        }
    }
}

impl BabbageUtxoPredFailure {
    /// `[1, failure]` is a failure of the rules taken over from Alonzo. Where
    /// the layer fails itself, the scope stack is drained; a failure of the
    /// layer below is handed on as it comes.
    #[verifier::opaque]
    pub open spec fn parse(input: Seq<u8>, pos: usize, stack: Seq<OuterScope>) -> Parsed<
        BabbageUtxoPredFailureView,
    > {
        let h = tagged(input, pos, stack, seq![2u64]);
        match h.result {
            Err(e) => drained(input, e, h.pos, h.stack),
            Ok((len, tag)) => if tag == 1 {
                wrap(
                    AlonzoUtxoPredFailure::parse(input, h.pos, h.stack),
                    |v: AlonzoUtxoPredFailureView| BabbageUtxoPredFailureView::AlonzoInBabbageUtxoPredFailure(v),
                )
            } else {
                drained(input, DecodeError::Unsupported { tag }, h.pos, h.stack)
            },
        }
    }

    /// Decodes one failure of this layer. Where that fails, the scope stack
    /// has been drained and is empty.
    pub fn decode(d: &mut Cursor, ctx: &mut Vec<OuterScope>) -> (r: Result<Self, DecodeError>)
        ensures
            final(d).input@ == old(d).input@,
            r is Err ==> final(ctx)@.len() == 0,
            decodes_as(r, *final(d), *final(ctx), Self::parse(old(d).input@, old(d).pos, old(ctx)@)),
    {
        proof {
            reveal(BabbageUtxoPredFailure::parse);
        }
        let head = expect_tagged(pair(), d, ctx);
        let (len, tag) = match head {
            Ok(found) => found,
            Err(e) => {
                return Err(give_up(e, d, ctx));
            },
        };
        if tag == 1 {
            match AlonzoUtxoPredFailure::decode(d, ctx) {
                Ok(failure) => Ok(BabbageUtxoPredFailure::AlonzoInBabbageUtxoPredFailure(failure)),
                Err(e) => Err(e),
            }
        } else {
            Err(give_up(DecodeError::Unsupported { tag }, d, ctx))
        }
    }
}

impl BabbageUtxowPredFailure {
    /// `[1, failure]` is a failure of the witness rules taken over from Alonzo,
    /// `[2, failure]` a failure of the UTxO rules. Where the layer fails
    /// itself, the scope stack is drained; a failure of the layer below is
    /// handed on as it comes.
    #[verifier::opaque]
    pub open spec fn parse(input: Seq<u8>, pos: usize, stack: Seq<OuterScope>) -> Parsed<
        BabbageUtxowPredFailureView,
    > {
        let h = tagged(input, pos, stack, seq![2u64]);
        match h.result {
            Err(e) => drained(input, e, h.pos, h.stack),
            Ok((len, tag)) => if tag == 1 {
                wrap(
                    AlonzoUtxowPredFailure::parse(input, h.pos, h.stack),
                    |v: AlonzoUtxowPredFailureView| BabbageUtxowPredFailureView::AlonzoInBabbageUtxowPredFailure(v),
                )
            } else if tag == 2 {
                wrap(
                    BabbageUtxoPredFailure::parse(input, h.pos, h.stack),
                    |v: BabbageUtxoPredFailureView| BabbageUtxowPredFailureView::UtxoFailure(v),
                )
            } else {
                drained(input, DecodeError::Unsupported { tag }, h.pos, h.stack)
            },
        }
    }

    /// Decodes one failure of this layer. Where that fails, the scope stack
    /// has been drained and is empty.
    pub fn decode(d: &mut Cursor, ctx: &mut Vec<OuterScope>) -> (r: Result<Self, DecodeError>)
        ensures
            final(d).input@ == old(d).input@,
            r is Err ==> final(ctx)@.len() == 0,
            decodes_as(r, *final(d), *final(ctx), Self::parse(old(d).input@, old(d).pos, old(ctx)@)),
    {
        proof {
            reveal(BabbageUtxowPredFailure::parse);
        }
        let head = expect_tagged(pair(), d, ctx);
        let (len, tag) = match head {
            Ok(found) => found,
            Err(e) => {
                return Err(give_up(e, d, ctx));
            },
        };
        if tag == 1 {
            match AlonzoUtxowPredFailure::decode(d, ctx) {
                Ok(failure) => Ok(BabbageUtxowPredFailure::AlonzoInBabbageUtxowPredFailure(failure)),
                Err(e) => Err(e),
            }
        } else if tag == 2 {
            match BabbageUtxoPredFailure::decode(d, ctx) {
                Ok(failure) => Ok(BabbageUtxowPredFailure::UtxoFailure(failure)),
                Err(e) => Err(e),
            }
        } else {
            Err(give_up(DecodeError::Unsupported { tag }, d, ctx))
        }
    }
}

impl ShelleyLedgerPredFailure {
    /// One rejection entry: `[0, failure]` is a failure of the witness rules.
    /// Where the layer fails itself, the scope stack is drained; a failure of
    /// the layer below is handed on as it comes, so the stack is drained once
    /// for an entry that fails.
    #[verifier::opaque]
    pub open spec fn parse(input: Seq<u8>, pos: usize, stack: Seq<OuterScope>) -> Parsed<
        ShelleyLedgerPredFailureView,
    > {
        let h = tagged(input, pos, stack, seq![2u64]);
        match h.result {
            Err(e) => drained(input, e, h.pos, h.stack),
            Ok((len, tag)) => if tag == 0 {
                wrap(
                    BabbageUtxowPredFailure::parse(input, h.pos, h.stack),
                    |v: BabbageUtxowPredFailureView| ShelleyLedgerPredFailureView::UtxowFailure(v),
                )
            } else {
                drained(input, DecodeError::Unsupported { tag }, h.pos, h.stack)
            },
        }
    }

    /// Decodes one failure of this layer. Where that fails, the scope stack
    /// has been drained and is empty.
    pub fn decode(d: &mut Cursor, ctx: &mut Vec<OuterScope>) -> (r: Result<Self, DecodeError>)
        ensures
            final(d).input@ == old(d).input@,
            r is Err ==> final(ctx)@.len() == 0,
            decodes_as(r, *final(d), *final(ctx), Self::parse(old(d).input@, old(d).pos, old(ctx)@)),
    {
        proof {
            reveal(ShelleyLedgerPredFailure::parse);
        }
        let head = expect_tagged(pair(), d, ctx);
        let (len, tag) = match head {
            Ok(found) => found,
            Err(e) => {
                return Err(give_up(e, d, ctx));
            },
        };
        if tag == 0 {
            match BabbageUtxowPredFailure::decode(d, ctx) {
                Ok(failure) => Ok(ShelleyLedgerPredFailure::UtxowFailure(failure)),
                Err(e) => Err(e),
            }
        } else {
            Err(give_up(DecodeError::Unsupported { tag }, d, ctx))
        }
    }
}

/// What a node says of a transaction that it rejects: the entries that were
/// decoded, in the order of the wire, and for each entry that was skipped the
/// reason why.
#[derive(Debug, Clone, PartialEq, Eq)]
pub struct TxApplyErrors {
    pub non_script_errors: Vec<ShelleyLedgerPredFailure>,
    pub skipped: Vec<DecodeError>,
}

/// What a [`TxApplyErrors`] holds, as sequences.
pub ghost struct TxApplyErrorsView {
    pub non_script_errors: Seq<ShelleyLedgerPredFailureView>,
    pub skipped: Seq<DecodeError>,
}

impl View for TxApplyErrors {
    type V = TxApplyErrorsView;

    open spec fn view(&self) -> TxApplyErrorsView {
        TxApplyErrorsView {
            non_script_errors: views_of(self.non_script_errors@),
            skipped: self.skipped@,
        }
    }
}

/// The envelope around the entries: `[2, [[tag, entries]]]`, where `entries`
/// opens an indefinite array. The inner tag may be any small unsigned integer.
pub open spec fn envelope(input: Seq<u8>, pos: usize, stack: Seq<OuterScope>) -> Parsed<()> {
    let outer = tagged(input, pos, stack, seq![2u64]);
    match outer.result {
        Err(_) => carry(outer),
        Ok((_, tag)) => if tag != 2 {
            Parsed { result: Err(DecodeError::Unsupported { tag }), pos: outer.pos, stack: outer.stack }
        } else {
            let wrapper = definite_array(input, outer.pos, outer.stack, seq![1u64]);
            match wrapper.result {
                Err(_) => carry(wrapper),
                Ok(_) => {
                    let inner = tagged(input, wrapper.pos, wrapper.stack, seq![2u64]);
                    match inner.result {
                        Err(_) => carry(inner),
                        Ok(_) => {
                            let list = list_head(input, inner.pos, inner.stack);
                            match list.result {
                                Err(_) => carry(list),
                                Ok(Some(_)) => Parsed {
                                    result: Err(DecodeError::UnexpectedShape),
                                    pos: list.pos,
                                    stack: list.stack,
                                },
                                Ok(None) => Parsed {
                                    result: Ok(()),
                                    pos: list.pos,
                                    stack: list.stack,
                                },
                            }
                        },
                    }
                },
            }
        },
    }
}

/// The entries from `pos` up to the close marker, after `decoded` and `skipped`.
/// Every entry is decoded on an empty scope stack. An entry that fails in a way
/// that can be recovered from is recorded as skipped; a fatal failure ends the
/// whole decode, and so does an entry that consumes nothing.
pub open spec fn entries(
    input: Seq<u8>,
    pos: usize,
    decoded: Seq<ShelleyLedgerPredFailureView>,
    skipped: Seq<DecodeError>,
) -> Parsed<TxApplyErrorsView>
    decreases input.len() - pos,
{
    match token_at(input, pos) {
        Err(e) => failed(e, pos, Seq::empty()),
        Ok((Token::Break, next)) => Parsed {
            result: Ok(TxApplyErrorsView { non_script_errors: decoded, skipped }),
            pos: next,
            stack: Seq::empty(),
        },
        Ok(_) => {
            let p = ShelleyLedgerPredFailure::parse(input, pos, Seq::empty());
            match p.result {
                Err(e) => if e.is_fatal() {
                    failed(e, p.pos, Seq::empty())
                } else if pos < p.pos <= input.len() {
                    entries(input, p.pos, decoded, skipped.push(e))
                } else {
                    failed(DecodeError::Malformed, pos, Seq::empty())
                },
                Ok(v) => if pos < p.pos <= input.len() {
                    entries(input, p.pos, decoded.push(v), skipped)
                } else {
                    failed(DecodeError::Malformed, pos, Seq::empty())
                },
            }
        },
    }
}

impl TxApplyErrors {
    /// The whole answer: the envelope, then the entries up to the close marker.
    pub open spec fn parse(input: Seq<u8>, pos: usize, stack: Seq<OuterScope>) -> Parsed<
        TxApplyErrorsView,
    > {
        let e = envelope(input, pos, stack);
        match e.result {
            Err(_) => carry(e),
            Ok(_) => entries(input, e.pos, Seq::empty(), Seq::empty()),
        }
    }

    /// Expects the envelope, up to and including the opening marker of the
    /// entries.
    pub fn expect_envelope(d: &mut Cursor, ctx: &mut Vec<OuterScope>) -> (r: Result<(), DecodeError>)
        ensures
            final(d).input@ == old(d).input@,
            ends_as(r, *final(d), *final(ctx), envelope(old(d).input@, old(d).pos, old(ctx)@)),
    {
        let (_, tag) = expect_tagged(pair(), d, ctx)?;
        if tag != 2 {
            return Err(DecodeError::Unsupported { tag });
        }
        let one = vec![1];
        assert(one@ =~= seq![1u64]);
        expect_definite_array(one, d, ctx)?;
        expect_tagged(pair(), d, ctx)?;
        match expect_list(d, ctx)? {
            Some(_) => Err(DecodeError::UnexpectedShape),
            None => Ok(()),
        }
    }

    /// Decodes what a node says of a rejected transaction.
    ///
    /// The scope stack is reset after every entry, so an entry that cannot be
    /// decoded does not touch the ones behind it. The decode succeeds when the
    /// close marker of the entries is reached; the stack is empty then. It
    /// fails on an envelope of another shape, where the input ends before the
    /// close marker (`Incomplete`), and on bytes that no token can be read from.
    pub fn decode(d: &mut Cursor, ctx: &mut Vec<OuterScope>) -> (r: Result<Self, DecodeError>)
        ensures
            final(d).input@ == old(d).input@,
            r is Ok ==> final(ctx)@.len() == 0,
            decodes_as(r, *final(d), *final(ctx), Self::parse(old(d).input@, old(d).pos, old(ctx)@)),
    {
        Self::expect_envelope(d, ctx)?;
        ctx.clear();
        let ghost input = d.input@;
        let ghost whole = entries(input, d.pos, Seq::empty(), Seq::empty());
        let mut non_script_errors: Vec<ShelleyLedgerPredFailure> = Vec::new();
        let mut skipped: Vec<DecodeError> = Vec::new();
        assert(views_of(non_script_errors@) =~= Seq::<ShelleyLedgerPredFailureView>::empty());
        loop
            invariant
                d.input@ == input,
                input == old(d).input@,
                whole == Self::parse(old(d).input@, old(d).pos, old(ctx)@),
                ctx@.len() == 0,
                entries(input, d.pos, views_of(non_script_errors@), skipped@) == whole,
            decreases input.len() - d.pos,
        {
            let start = d.pos;
            match peek_token(d) {
                Err(e) => {
                    return Err(e);
                },
                Ok((Token::Break, next)) => {
                    d.pos = next;
                    return Ok(TxApplyErrors { non_script_errors, skipped });
                },
                Ok(_) => {},
            }
            assert(ctx@ =~= Seq::<OuterScope>::empty());
            let entry = ShelleyLedgerPredFailure::decode(d, ctx);
            ctx.clear();
            match entry {
                Err(e) => {
                    if e.fatal() {
                        return Err(e);
                    }
                    if d.pos <= start || d.pos > d.input.len() {
                        d.pos = start;
                        return Err(DecodeError::Malformed);
                    }
                    skipped.push(e);
                },
                Ok(failure) => {
                    if d.pos <= start || d.pos > d.input.len() {
                        d.pos = start;
                        return Err(DecodeError::Malformed);
                    }
                    let ghost before = non_script_errors@;
                    let ghost found = failure@;
                    non_script_errors.push(failure);
                    assert(views_of(non_script_errors@) =~= views_of(before).push(found));
                },
            }
        }
    }
}

} // verus!
