//! Staying in step: the proof that decoding an entry never loses its place.
//!
//! Draining is the yardstick. A decode step stays in step if draining from
//! where it ended gives what draining from where it began would have given: the
//! step has then consumed tokens exactly as draining would have, so whatever
//! happens later, a drain still ends behind the same item. Every structural
//! primitive stays in step, and so does every decoder built from them. For a
//! rejection entry this means that the cursor is behind the entry afterwards,
//! whether the entry was decoded or skipped.

use crate::error::DecodeError;
use crate::failures::{
    AlonzoUtxoPredFailure, AlonzoUtxowPredFailure, BabbageUtxoPredFailure, BabbageUtxowPredFailure,
    ShelleyLedgerPredFailure, ShelleyLedgerPredFailureView, ShelleyUtxowPredFailure,
};
use crate::grammar::{drain_of_one_item, item_end, lemma_item_span, rest_count, rest_end};
use crate::failures::{
    AlonzoUtxoPredFailureView, AlonzoUtxowPredFailureView, BabbageUtxoPredFailureView,
    BabbageUtxowPredFailureView, ShelleyUtxowPredFailureView,
};
use crate::node_errors::{drained, entries, tagged, value_pair};
use crate::scope::{
    accepts, consumed_one, definite_array, drain, entered, opened_by, rejected, skip_token,
    small_unsigned, step, unsigned, OuterScope, Parsed,
};
use crate::token::{lemma_token_kind, token_at, Token};
use crate::value::{
    assets, conway_value, hash_list, hashes_counted, hashes_to_break, input_list, inputs_counted,
    inputs_to_break, list_end, list_head, sized_bytes, whole_item, TxInput, TxInputView,
    KEY_HASH_SIZE, TX_HASH_SIZE,
};
use vstd::prelude::*;

verus! {

/// Draining from the later state gives what draining from the earlier one gives.
pub open spec fn kept(
    input: Seq<u8>,
    from: usize,
    before: Seq<OuterScope>,
    to: usize,
    after: Seq<OuterScope>,
) -> bool {
    from <= to && drain(input, to, after) == drain(input, from, before)
}

/// The step `p` from `pos` and `stack` stayed in step. A step that ends in a
/// fatal error is in step if draining would have failed too.
pub open spec fn in_step<T>(input: Seq<u8>, pos: usize, stack: Seq<OuterScope>, p: Parsed<T>) -> bool {
    match p.result {
        Ok(_) => kept(input, pos, stack, p.pos, p.stack),
        Err(e) => if e.is_fatal() {
            drain(input, pos, stack).result is Err
        } else {
            kept(input, pos, stack, p.pos, p.stack)
        },
    }
}

/// The step `p` stayed in step, and where it succeeded it consumed exactly one
/// item of the innermost scope.
pub open spec fn one_item<T>(input: Seq<u8>, pos: usize, stack: Seq<OuterScope>, p: Parsed<T>) -> bool {
    in_step(input, pos, stack, p) && (p.result is Ok ==> p.stack =~= consumed_one(stack))
}

/// A step that succeeded has moved the cursor forward, inside the input.
pub open spec fn advanced<T>(input: Seq<u8>, pos: usize, p: Parsed<T>) -> bool {
    p.result is Ok ==> pos < p.pos <= input.len()
}

/// Draining never moves the cursor back, and fails only fatally.
pub proof fn lemma_drain_bounds(input: Seq<u8>, pos: usize, stack: Seq<OuterScope>)
    ensures
        pos <= drain(input, pos, stack).pos,
        pos <= input.len() ==> drain(input, pos, stack).pos <= input.len(),
        drain(input, pos, stack).stack.len() == 0,
        drain(input, pos, stack).result matches Err(e) ==> e.is_fatal(),
        drain(input, pos, stack).result is Ok ==> drain(input, pos, stack).result == Ok::<
            (),
            DecodeError,
        >(()),
    decreases input.len() - pos,
{
    lemma_token_kind(input, pos);
    if stack.len() > 0 {
        let p = skip_token(input, pos, stack);
        if p.result is Ok && pos < p.pos <= input.len() {
            lemma_drain_bounds(input, p.pos, p.stack);
        }
    }
}

/// Skipping a token stays in step.
pub proof fn lemma_skip_token(input: Seq<u8>, pos: usize, stack: Seq<OuterScope>)
    requires
        stack.len() > 0,
    ensures
        in_step(input, pos, stack, skip_token(input, pos, stack)),
        skip_token(input, pos, stack).result matches Err(e) ==> e.is_fatal(),
{
    lemma_token_kind(input, pos);
}

/// Skipping an item that was not expected stays in step.
pub proof fn lemma_rejected<T>(input: Seq<u8>, pos: usize, stack: Seq<OuterScope>)
    requires
        stack.len() > 0,
    ensures
        in_step(input, pos, stack, rejected::<T>(input, pos, stack)),
        rejected::<T>(input, pos, stack).result is Err,
{
    lemma_skip_token(input, pos, stack);
}

/// Expecting an array stays in step; an accepted array has opened its scope.
pub proof fn lemma_definite_array(
    input: Seq<u8>,
    pos: usize,
    stack: Seq<OuterScope>,
    allowed: Seq<u64>,
)
    requires
        stack.len() > 0,
    ensures
        in_step(input, pos, stack, definite_array(input, pos, stack, allowed)),
        advanced(input, pos, definite_array(input, pos, stack, allowed)),
        definite_array(input, pos, stack, allowed).result matches Ok(len) ==> accepts(allowed, len)
            && definite_array(input, pos, stack, allowed).stack =~= entered(
            stack,
            Token::ArrayDef(len),
        ),
{
    lemma_skip_token(input, pos, stack);
    lemma_rejected::<u64>(input, pos, stack);
}

/// Expecting a tag consumes one item in step.
pub proof fn lemma_small_unsigned(input: Seq<u8>, pos: usize, stack: Seq<OuterScope>)
    requires
        stack.len() > 0,
    ensures
        one_item(input, pos, stack, small_unsigned(input, pos, stack)),
        advanced(input, pos, small_unsigned(input, pos, stack)),
{
    lemma_skip_token(input, pos, stack);
    lemma_rejected::<u8>(input, pos, stack);
}

/// Expecting an unsigned integer consumes one item in step.
pub proof fn lemma_unsigned(input: Seq<u8>, pos: usize, stack: Seq<OuterScope>)
    requires
        stack.len() > 0,
    ensures
        one_item(input, pos, stack, unsigned(input, pos, stack)),
        advanced(input, pos, unsigned(input, pos, stack)),
{
    lemma_skip_token(input, pos, stack);
    lemma_rejected::<u64>(input, pos, stack);
}

/// Expecting a byte string consumes one item in step, whatever its size.
pub proof fn lemma_sized_bytes(input: Seq<u8>, pos: usize, stack: Seq<OuterScope>, size: nat)
    requires
        stack.len() > 0,
    ensures
        one_item(input, pos, stack, sized_bytes(input, pos, stack, size)),
        advanced(input, pos, sized_bytes(input, pos, stack, size)),
{
    lemma_skip_token(input, pos, stack);
    lemma_rejected::<Seq<u8>>(input, pos, stack);
}

/// Expecting the head of a list stays in step, and opens the scope of the list.
pub proof fn lemma_list_head(input: Seq<u8>, pos: usize, stack: Seq<OuterScope>)
    requires
        stack.len() > 0,
    ensures
        in_step(input, pos, stack, list_head(input, pos, stack)),
        advanced(input, pos, list_head(input, pos, stack)),
        list_head(input, pos, stack).result matches Ok(Some(n)) ==> list_head(
            input,
            pos,
            stack,
        ).stack =~= entered(stack, Token::ArrayDef(n)),
        list_head(input, pos, stack).result matches Ok(None) ==> list_head(input, pos, stack).stack
            =~= consumed_one(stack).push(OuterScope::Indefinite),
{
    lemma_skip_token(input, pos, stack);
    lemma_rejected::<Option<u64>>(input, pos, stack);
}

/// Looking for the end of a list stays in step: the close marker closes the
/// scope of the list, anything else is left where it is.
pub proof fn lemma_list_end(input: Seq<u8>, pos: usize, stack: Seq<OuterScope>)
    requires
        stack.len() > 0,
    ensures
        in_step(input, pos, stack, list_end(input, pos, stack)),
        list_end(input, pos, stack).result matches Ok(true) ==> list_end(input, pos, stack).stack
            =~= stack.drop_last(),
        list_end(input, pos, stack).result matches Ok(false) ==> list_end(input, pos, stack).pos
            == pos && list_end(input, pos, stack).stack == stack,
        list_end(input, pos, stack).result matches Err(e) ==> e.is_fatal(),
{
    lemma_skip_token(input, pos, stack);
}

/// Draining a stack in two parts: the scopes on top are drained first, and
/// draining goes on below them where they end. Where the top cannot be drained,
/// neither can the whole.
pub proof fn lemma_drain_in_parts(
    input: Seq<u8>,
    pos: usize,
    below: Seq<OuterScope>,
    top: Seq<OuterScope>,
)
    ensures
        match drain(input, pos, top).result {
            Ok(_) => drain(input, pos, below + top) == drain(
                input,
                drain(input, pos, top).pos,
                below,
            ),
            Err(e) => drain(input, pos, below + top).result == Err::<(), DecodeError>(e),
        },
    decreases input.len() - pos,
{
    if top.len() == 0 {
        assert(below + top =~= below);
    } else {
        let whole = below + top;
        assert(whole.last() == top.last());
        assert(whole.drop_last() =~= below + top.drop_last());
        assert(consumed_one(whole) =~= below + consumed_one(top));
        match token_at(input, pos) {
            Err(_) => {},
            Ok((t, next)) => {
                match step(top, t) {
                    Err(_) => {},
                    Ok(s) => {
                        assert(step(whole, t) == Ok::<Seq<OuterScope>, DecodeError>(below + s)) by {
                            if t is Break {
                            } else {
                                match opened_by(t) {
                                    Some(scope) => {
                                        assert(consumed_one(whole).push(scope) =~= below
                                            + consumed_one(top).push(scope));
                                    },
                                    None => {},
                                }
                            }
                        }
                        lemma_drain_in_parts(input, next, below, s);
                    },
                }
            },
        }
    }
}

/// Skipping a whole item inside a definite scope consumes one item in step.
pub proof fn lemma_whole_item(input: Seq<u8>, pos: usize, stack: Seq<OuterScope>)
    requires
        stack.len() > 0,
        stack.last() is Definite,
    ensures
        one_item(input, pos, stack, whole_item(input, pos, stack)),
        whole_item(input, pos, stack).result matches Err(e) ==> e.is_fatal(),
        whole_item(input, pos, stack).result is Ok ==> whole_item(input, pos, stack).pos
            <= input.len(),
{
    let one = seq![OuterScope::Definite(1)];
    let below = consumed_one(stack);
    lemma_token_kind(input, pos);
    lemma_drain_bounds(input, pos, one);
    assert(consumed_one(one) =~= Seq::<OuterScope>::empty());
    match token_at(input, pos) {
        Err(_) => {},
        Ok((t, next)) => {
            if t is Break {
            } else {
                let top = entered(one, t);
                assert(entered(stack, t) =~= below + top);
                lemma_drain_in_parts(input, next, below, top);
                lemma_drain_bounds(input, next, top);
            }
        },
    }
}

/// Which lengths a layer accepts that asks for two items, or for two or three.
pub proof fn lemma_accepted_lengths(len: u64)
    ensures
        accepts(seq![1u64], len) <==> len == 1,
        accepts(seq![2u64], len) <==> len == 2,
        accepts(seq![2u64, 3u64], len) <==> len == 2 || len == 3,
{
    let one = seq![1u64];
    let two = seq![2u64];
    let both = seq![2u64, 3u64];
    assert(one[0] == 1 && two[0] == 2 && both[0] == 2 && both[1] == 3);
}

/// Decoding the assets of a value consumes one item in step, also where the
/// item turns out to be no multi-asset map.
pub proof fn lemma_assets(input: Seq<u8>, pos: usize, stack: Seq<OuterScope>)
    requires
        stack.len() > 0,
        stack.last() is Definite,
    ensures
        one_item(input, pos, stack, assets(input, pos, stack)),
{
    reveal(assets);
    lemma_whole_item(input, pos, stack);
}

/// Decoding a value consumes one item in step.
pub proof fn lemma_conway_value(input: Seq<u8>, pos: usize, stack: Seq<OuterScope>)
    requires
        stack.len() > 0,
    ensures
        one_item(input, pos, stack, conway_value(input, pos, stack)),
{
    reveal(conway_value);
    lemma_unsigned(input, pos, stack);
    let below = consumed_one(stack);
    match token_at(input, pos) {
        Ok((Token::ArrayDef(_), _)) => {
            let a = definite_array(input, pos, stack, seq![2u64]);
            lemma_definite_array(input, pos, stack, seq![2u64]);
            if a.result is Ok {
                lemma_accepted_lengths(a.result->Ok_0);
                assert(a.stack =~= below.push(OuterScope::Definite(2)));
                let c = unsigned(input, a.pos, a.stack);
                lemma_unsigned(input, a.pos, a.stack);
                if c.result is Ok {
                    assert(c.stack =~= below.push(OuterScope::Definite(1)));
                    lemma_assets(input, c.pos, c.stack);
                    assert(consumed_one(c.stack) =~= below);
                }
            }
        },
        _ => {},
    }
}

/// Decoding a transaction input consumes one item in step.
pub proof fn lemma_tx_input(input: Seq<u8>, pos: usize, stack: Seq<OuterScope>)
    requires
        stack.len() > 0,
    ensures
        one_item(input, pos, stack, TxInput::parse(input, pos, stack)),
        advanced(input, pos, TxInput::parse(input, pos, stack)),
{
    reveal(TxInput::parse);
    let below = consumed_one(stack);
    let a = definite_array(input, pos, stack, seq![2u64]);
    lemma_definite_array(input, pos, stack, seq![2u64]);
    if a.result is Ok {
        lemma_accepted_lengths(a.result->Ok_0);
        assert(a.stack =~= below.push(OuterScope::Definite(2)));
        let h = sized_bytes(input, a.pos, a.stack, TX_HASH_SIZE as nat);
        lemma_sized_bytes(input, a.pos, a.stack, TX_HASH_SIZE as nat);
        if h.result is Ok {
            assert(h.stack =~= below.push(OuterScope::Definite(1)));
            lemma_unsigned(input, h.pos, h.stack);
            assert(consumed_one(h.stack) =~= below);
        }
    }
}

/// Decoding the inputs that a definite list still holds stays in step, and
/// closes the scope of the list where it succeeds.
pub proof fn lemma_inputs_counted(
    input: Seq<u8>,
    pos: usize,
    stack: Seq<OuterScope>,
    count: nat,
    found: Seq<TxInputView>,
)
    requires
        count <= u64::MAX,
        count > 0 ==> stack.len() > 0 && stack.last() == OuterScope::Definite(count as u64),
    ensures
        in_step(input, pos, stack, inputs_counted(input, pos, stack, count, found)),
        inputs_counted(input, pos, stack, count, found).result is Ok ==> inputs_counted(
            input,
            pos,
            stack,
            count,
            found,
        ).stack =~= (if count > 0 {
            stack.drop_last()
        } else {
            stack
        }),
    decreases count,
{
    if count > 0 {
        let i = TxInput::parse(input, pos, stack);
        lemma_tx_input(input, pos, stack);
        if i.result is Ok {
            if count > 1 {
                assert(i.stack =~= stack.drop_last().push(
                    OuterScope::Definite((count - 1) as u64),
                ));
                assert(i.stack.drop_last() =~= stack.drop_last());
            } else {
                assert(i.stack =~= stack.drop_last());
            }
            lemma_inputs_counted(input, i.pos, i.stack, (count - 1) as nat, found.push(i.result->Ok_0));
        }
    }
}

/// Decoding inputs up to the close marker stays in step, and closes the scope
/// of the list where it succeeds.
pub proof fn lemma_inputs_to_break(
    input: Seq<u8>,
    pos: usize,
    stack: Seq<OuterScope>,
    found: Seq<TxInputView>,
)
    requires
        stack.len() > 0,
        stack.last() is Indefinite,
    ensures
        in_step(input, pos, stack, inputs_to_break(input, pos, stack, found)),
        inputs_to_break(input, pos, stack, found).result is Ok ==> inputs_to_break(
            input,
            pos,
            stack,
            found,
        ).stack =~= stack.drop_last(),
    decreases input.len() - pos,
{
    let end = list_end(input, pos, stack);
    lemma_list_end(input, pos, stack);
    if end.result == Ok::<bool, DecodeError>(false) {
        let i = TxInput::parse(input, pos, stack);
        lemma_tx_input(input, pos, stack);
        if i.result is Ok {
            assert(i.stack =~= stack);
            lemma_inputs_to_break(input, i.pos, i.stack, found.push(i.result->Ok_0));
        }
    }
}

/// Decoding a list of inputs consumes one item in step.
pub proof fn lemma_input_list(input: Seq<u8>, pos: usize, stack: Seq<OuterScope>)
    requires
        stack.len() > 0,
    ensures
        one_item(input, pos, stack, input_list(input, pos, stack)),
{
    reveal(input_list);
    let below = consumed_one(stack);
    let head = list_head(input, pos, stack);
    lemma_list_head(input, pos, stack);
    match head.result {
        Ok(Some(n)) => {
            if n > 0 {
                assert(head.stack =~= below.push(OuterScope::Definite(n)));
                assert(head.stack.drop_last() =~= below);
            }
            lemma_inputs_counted(input, head.pos, head.stack, n as nat, Seq::empty());
        },
        Ok(None) => {
            assert(head.stack.drop_last() =~= below);
            lemma_inputs_to_break(input, head.pos, head.stack, Seq::empty());
        },
        Err(_) => {},
    }
}

/// Decoding the hashes that a definite list still holds stays in step, and
/// closes the scope of the list where it succeeds.
pub proof fn lemma_hashes_counted(
    input: Seq<u8>,
    pos: usize,
    stack: Seq<OuterScope>,
    count: nat,
    found: Seq<Seq<u8>>,
)
    requires
        count <= u64::MAX,
        count > 0 ==> stack.len() > 0 && stack.last() == OuterScope::Definite(count as u64),
    ensures
        in_step(input, pos, stack, hashes_counted(input, pos, stack, count, found)),
        hashes_counted(input, pos, stack, count, found).result is Ok ==> hashes_counted(
            input,
            pos,
            stack,
            count,
            found,
        ).stack =~= (if count > 0 {
            stack.drop_last()
        } else {
            stack
        }),
    decreases count,
{
    if count > 0 {
        let h = sized_bytes(input, pos, stack, KEY_HASH_SIZE as nat);
        lemma_sized_bytes(input, pos, stack, KEY_HASH_SIZE as nat);
        if h.result is Ok {
            if count > 1 {
                assert(h.stack =~= stack.drop_last().push(
                    OuterScope::Definite((count - 1) as u64),
                ));
                assert(h.stack.drop_last() =~= stack.drop_last());
            } else {
                assert(h.stack =~= stack.drop_last());
            }
            lemma_hashes_counted(input, h.pos, h.stack, (count - 1) as nat, found.push(h.result->Ok_0));
        }
    }
}

/// Decoding hashes up to the close marker stays in step, and closes the scope
/// of the list where it succeeds.
pub proof fn lemma_hashes_to_break(
    input: Seq<u8>,
    pos: usize,
    stack: Seq<OuterScope>,
    found: Seq<Seq<u8>>,
)
    requires
        stack.len() > 0,
        stack.last() is Indefinite,
    ensures
        in_step(input, pos, stack, hashes_to_break(input, pos, stack, found)),
        hashes_to_break(input, pos, stack, found).result is Ok ==> hashes_to_break(
            input,
            pos,
            stack,
            found,
        ).stack =~= stack.drop_last(),
    decreases input.len() - pos,
{
    let end = list_end(input, pos, stack);
    lemma_list_end(input, pos, stack);
    if end.result == Ok::<bool, DecodeError>(false) {
        let h = sized_bytes(input, pos, stack, KEY_HASH_SIZE as nat);
        lemma_sized_bytes(input, pos, stack, KEY_HASH_SIZE as nat);
        if h.result is Ok {
            assert(h.stack =~= stack);
            lemma_hashes_to_break(input, h.pos, h.stack, found.push(h.result->Ok_0));
        }
    }
}

/// Decoding a list of hashes consumes one item in step.
pub proof fn lemma_hash_list(input: Seq<u8>, pos: usize, stack: Seq<OuterScope>)
    requires
        stack.len() > 0,
    ensures
        one_item(input, pos, stack, hash_list(input, pos, stack)),
{
    reveal(hash_list);
    let below = consumed_one(stack);
    let head = list_head(input, pos, stack);
    lemma_list_head(input, pos, stack);
    match head.result {
        Ok(Some(n)) => {
            if n > 0 {
                assert(head.stack =~= below.push(OuterScope::Definite(n)));
                assert(head.stack.drop_last() =~= below);
            }
            lemma_hashes_counted(input, head.pos, head.stack, n as nat, Seq::empty());
        },
        Ok(None) => {
            assert(head.stack.drop_last() =~= below);
            lemma_hashes_to_break(input, head.pos, head.stack, Seq::empty());
        },
        Err(_) => {},
    }
}

/// The stack behind the head of a layer: the array of the layer is open, with
/// its tag consumed.
pub open spec fn behind_tag(stack: Seq<OuterScope>, len: u64) -> Seq<OuterScope> {
    consumed_one(stack).push(OuterScope::Definite((len - 1) as u64))
}

/// Reading the head of a layer stays in step, and leaves the array of the layer
/// open with its tag consumed.
pub proof fn lemma_tagged(input: Seq<u8>, pos: usize, stack: Seq<OuterScope>, allowed: Seq<u64>)
    requires
        stack.len() > 0,
        !accepts(allowed, 0),
        !accepts(allowed, 1),
    ensures
        in_step(input, pos, stack, tagged(input, pos, stack, allowed)),
        advanced(input, pos, tagged(input, pos, stack, allowed)),
        tagged(input, pos, stack, allowed).result matches Ok(head) ==> accepts(allowed, head.0)
            && head.0 >= 2 && tagged(input, pos, stack, allowed).stack =~= behind_tag(
            stack,
            head.0,
        ),
{
    reveal(tagged);
    let a = definite_array(input, pos, stack, allowed);
    lemma_definite_array(input, pos, stack, allowed);
    if a.result is Ok {
        let len = a.result->Ok_0;
        assert(a.stack =~= consumed_one(stack).push(OuterScope::Definite(len)));
        lemma_small_unsigned(input, a.pos, a.stack);
        assert(consumed_one(a.stack) =~= behind_tag(stack, len));
    }
}

/// The step `p` consumed one item in step where it succeeded, and where it
/// failed the scope stack has been drained.
pub open spec fn layer_step<T>(input: Seq<u8>, pos: usize, stack: Seq<OuterScope>, p: Parsed<T>) -> bool {
    one_item(input, pos, stack, p) && (p.result is Err ==> p.stack.len() == 0)
}

/// A layer that gives up stays in step: draining after a step that was in
/// step ends where draining from the start of the layer would have ended.
pub proof fn lemma_drained<T>(
    input: Seq<u8>,
    from: usize,
    before: Seq<OuterScope>,
    e: DecodeError,
    pos: usize,
    stack: Seq<OuterScope>,
)
    requires
        if e.is_fatal() {
            drain(input, from, before).result is Err
        } else {
            kept(input, from, before, pos, stack)
        },
    ensures
        layer_step(input, from, before, drained::<T>(input, e, pos, stack)),
        drained::<T>(input, e, pos, stack).result is Err,
{
    lemma_drain_bounds(input, pos, stack);
    let rest = drain(input, pos, stack);
    if rest.result is Ok && !e.is_fatal() {
        assert(rest.stack =~= Seq::<OuterScope>::empty());
        assert(drain(input, rest.pos, rest.stack) == rest);
    }
}

/// Decoding a failure of the Shelley witness rules consumes one item in step, or
/// drains the stack in step.
pub proof fn lemma_shelley_utxow(input: Seq<u8>, pos: usize, stack: Seq<OuterScope>)
    requires
        stack.len() > 0,
    ensures
        layer_step(input, pos, stack, ShelleyUtxowPredFailure::parse(input, pos, stack)),
{
    reveal(ShelleyUtxowPredFailure::parse);
    let h = tagged(input, pos, stack, seq![2u64]);
    lemma_accepted_lengths(0);
    lemma_accepted_lengths(1);
    lemma_tagged(input, pos, stack, seq![2u64]);
    match h.result {
        Err(e) => {
            lemma_drained::<ShelleyUtxowPredFailureView>(input, pos, stack, e, h.pos, h.stack);
        },
        Ok((len, tag)) => {
            lemma_accepted_lengths(len);
            lemma_drained::<ShelleyUtxowPredFailureView>(
                input,
                pos,
                stack,
                DecodeError::Unsupported { tag },
                h.pos,
                h.stack,
            );
            let own = hash_list(input, h.pos, h.stack);
            lemma_hash_list(input, h.pos, h.stack);
            assert(consumed_one(h.stack) =~= consumed_one(stack));
            if own.result is Err {
                lemma_drained::<ShelleyUtxowPredFailureView>(input, pos, stack, own.result->Err_0, own.pos, own.stack);
            }
        },
    }
}

/// Decoding a failure of the Alonzo witness rules consumes one item in step, or
/// drains the stack in step.
pub proof fn lemma_alonzo_utxow(input: Seq<u8>, pos: usize, stack: Seq<OuterScope>)
    requires
        stack.len() > 0,
    ensures
        layer_step(input, pos, stack, AlonzoUtxowPredFailure::parse(input, pos, stack)),
{
    reveal(AlonzoUtxowPredFailure::parse);
    let h = tagged(input, pos, stack, seq![2u64]);
    lemma_accepted_lengths(0);
    lemma_accepted_lengths(1);
    lemma_tagged(input, pos, stack, seq![2u64]);
    match h.result {
        Err(e) => {
            lemma_drained::<AlonzoUtxowPredFailureView>(input, pos, stack, e, h.pos, h.stack);
        },
        Ok((len, tag)) => {
            lemma_accepted_lengths(len);
            lemma_drained::<AlonzoUtxowPredFailureView>(
                input,
                pos,
                stack,
                DecodeError::Unsupported { tag },
                h.pos,
                h.stack,
            );
            let own = hash_list(input, h.pos, h.stack);
            lemma_hash_list(input, h.pos, h.stack);
            assert(consumed_one(h.stack) =~= consumed_one(stack));
            if own.result is Err {
                lemma_drained::<AlonzoUtxowPredFailureView>(input, pos, stack, own.result->Err_0, own.pos, own.stack);
            }
            lemma_shelley_utxow(input, h.pos, h.stack);
        },
    }
}

/// Decoding two values in a row consumes two items in step.
pub proof fn lemma_value_pair(input: Seq<u8>, pos: usize, stack: Seq<OuterScope>)
    requires
        stack.len() > 0,
        stack.last() == OuterScope::Definite(2),
    ensures
        in_step(input, pos, stack, value_pair(input, pos, stack)),
        value_pair(input, pos, stack).result is Ok ==> value_pair(input, pos, stack).stack
            =~= stack.drop_last(),
{
    reveal(value_pair);
    let c = conway_value(input, pos, stack);
    lemma_conway_value(input, pos, stack);
    if c.result is Ok {
        assert(c.stack =~= stack.drop_last().push(OuterScope::Definite(1)));
        lemma_conway_value(input, c.pos, c.stack);
        assert(consumed_one(c.stack) =~= stack.drop_last());
    }
}

/// Decoding a failure of the Alonzo UTxO rules consumes one item in step, or
/// drains the stack in step.
pub proof fn lemma_alonzo_utxo(input: Seq<u8>, pos: usize, stack: Seq<OuterScope>)
    requires
        stack.len() > 0,
    ensures
        layer_step(input, pos, stack, AlonzoUtxoPredFailure::parse(input, pos, stack)),
{
    reveal(AlonzoUtxoPredFailure::parse);
    let h = tagged(input, pos, stack, seq![2u64, 3u64]);
    lemma_accepted_lengths(0);
    lemma_accepted_lengths(1);
    lemma_tagged(input, pos, stack, seq![2u64, 3u64]);
    match h.result {
        Err(e) => {
            lemma_drained::<AlonzoUtxoPredFailureView>(input, pos, stack, e, h.pos, h.stack);
        },
        Ok((len, tag)) => {
            lemma_accepted_lengths(len);
            lemma_drained::<AlonzoUtxoPredFailureView>(
                input,
                pos,
                stack,
                DecodeError::Unsupported { tag },
                h.pos,
                h.stack,
            );
            assert(h.stack.drop_last() =~= consumed_one(stack));
            if len == 2 {
                let own = input_list(input, h.pos, h.stack);
                lemma_input_list(input, h.pos, h.stack);
                assert(consumed_one(h.stack) =~= consumed_one(stack));
                if own.result is Err {
                    lemma_drained::<AlonzoUtxoPredFailureView>(
                        input,
                        pos,
                        stack,
                        own.result->Err_0,
                        own.pos,
                        own.stack,
                    );
                }
            } else {
                let own = value_pair(input, h.pos, h.stack);
                lemma_value_pair(input, h.pos, h.stack);
                if own.result is Err {
                    lemma_drained::<AlonzoUtxoPredFailureView>(
                        input,
                        pos,
                        stack,
                        own.result->Err_0,
                        own.pos,
                        own.stack,
                    );
                }
            }
        },
    }
}

/// Decoding a failure of the Babbage UTxO rules consumes one item in step, or
/// drains the stack in step.
pub proof fn lemma_babbage_utxo(input: Seq<u8>, pos: usize, stack: Seq<OuterScope>)
    requires
        stack.len() > 0,
    ensures
        layer_step(input, pos, stack, BabbageUtxoPredFailure::parse(input, pos, stack)),
{
    reveal(BabbageUtxoPredFailure::parse);
    let h = tagged(input, pos, stack, seq![2u64]);
    lemma_accepted_lengths(0);
    lemma_accepted_lengths(1);
    lemma_tagged(input, pos, stack, seq![2u64]);
    match h.result {
        Err(e) => {
            lemma_drained::<BabbageUtxoPredFailureView>(input, pos, stack, e, h.pos, h.stack);
        },
        Ok((len, tag)) => {
            lemma_accepted_lengths(len);
            lemma_drained::<BabbageUtxoPredFailureView>(
                input,
                pos,
                stack,
                DecodeError::Unsupported { tag },
                h.pos,
                h.stack,
            );
            lemma_alonzo_utxo(input, h.pos, h.stack);
            assert(consumed_one(h.stack) =~= consumed_one(stack));
        },
    }
}

/// Decoding a failure of the Babbage witness rules consumes one item in step,
/// or drains the stack in step.
pub proof fn lemma_babbage_utxow(input: Seq<u8>, pos: usize, stack: Seq<OuterScope>)
    requires
        stack.len() > 0,
    ensures
        layer_step(input, pos, stack, BabbageUtxowPredFailure::parse(input, pos, stack)),
{
    reveal(BabbageUtxowPredFailure::parse);
    let h = tagged(input, pos, stack, seq![2u64]);
    lemma_accepted_lengths(0);
    lemma_accepted_lengths(1);
    lemma_tagged(input, pos, stack, seq![2u64]);
    match h.result {
        Err(e) => {
            lemma_drained::<BabbageUtxowPredFailureView>(input, pos, stack, e, h.pos, h.stack);
        },
        Ok((len, tag)) => {
            lemma_accepted_lengths(len);
            lemma_drained::<BabbageUtxowPredFailureView>(
                input,
                pos,
                stack,
                DecodeError::Unsupported { tag },
                h.pos,
                h.stack,
            );
            lemma_alonzo_utxow(input, h.pos, h.stack);
            lemma_babbage_utxo(input, h.pos, h.stack);
            assert(consumed_one(h.stack) =~= consumed_one(stack));
        },
    }
}

/// Decoding an entry consumes one item in step, or drains the stack in step.
pub proof fn lemma_entry(input: Seq<u8>, pos: usize, stack: Seq<OuterScope>)
    requires
        stack.len() > 0,
    ensures
        layer_step(input, pos, stack, ShelleyLedgerPredFailure::parse(input, pos, stack)),
{
    reveal(ShelleyLedgerPredFailure::parse);
    let h = tagged(input, pos, stack, seq![2u64]);
    lemma_accepted_lengths(0);
    lemma_accepted_lengths(1);
    lemma_tagged(input, pos, stack, seq![2u64]);
    match h.result {
        Err(e) => {
            lemma_drained::<ShelleyLedgerPredFailureView>(input, pos, stack, e, h.pos, h.stack);
        },
        Ok((len, tag)) => {
            lemma_accepted_lengths(len);
            lemma_drained::<ShelleyLedgerPredFailureView>(
                input,
                pos,
                stack,
                DecodeError::Unsupported { tag },
                h.pos,
                h.stack,
            );
            lemma_babbage_utxow(input, h.pos, h.stack);
            assert(consumed_one(h.stack) =~= consumed_one(stack));
        },
    }
}

/// An entry is decoded on an empty stack as it is inside a scope of one item:
/// the first token gives the same stack in both.
pub proof fn lemma_entry_on_empty_stack(input: Seq<u8>, pos: usize)
    requires
        item_end(input, pos) is Some,
    ensures
        ShelleyLedgerPredFailure::parse(input, pos, Seq::empty())
            == ShelleyLedgerPredFailure::parse(input, pos, seq![OuterScope::Definite(1)]),
{
    reveal(ShelleyLedgerPredFailure::parse);
    reveal(tagged);
    let none = Seq::<OuterScope>::empty();
    let one = seq![OuterScope::Definite(1)];
    assert(consumed_one(one) =~= none);
    assert(consumed_one(none) =~= none);
    let a = definite_array(input, pos, none, seq![2u64]);
    let b = definite_array(input, pos, one, seq![2u64]);
    assert(a.stack =~= b.stack);
    assert(a == b);
}

/// What the decode of one entry comes to, where the entry is a whole item: the
/// cursor is exactly behind the entry, no scope is open, and the entry was
/// either decoded or failed in a way that can be recovered from.
pub proof fn entry_is_decoded_or_skipped(input: Seq<u8>, pos: usize)
    requires
        item_end(input, pos) is Some,
    ensures
        ShelleyLedgerPredFailure::parse(input, pos, Seq::empty()).pos == item_end(input, pos)->0,
        ShelleyLedgerPredFailure::parse(input, pos, Seq::empty()).stack.len() == 0,
        ShelleyLedgerPredFailure::parse(input, pos, Seq::empty()).result matches Err(e)
            ==> !e.is_fatal(),
        pos < item_end(input, pos)->0 <= input.len(),
{
    let one = seq![OuterScope::Definite(1)];
    drain_of_one_item(input, pos);
    lemma_item_span(input, pos);
    lemma_entry_on_empty_stack(input, pos);
    lemma_entry(input, pos, one);
    assert(consumed_one(one) =~= Seq::<OuterScope>::empty());
    let p = ShelleyLedgerPredFailure::parse(input, pos, one);
    assert(p.stack =~= Seq::<OuterScope>::empty());
}

/// Graceful degradation. Where a whole item stands at the place of an entry,
/// the entry is either decoded or recorded as skipped, exactly one of the two,
/// and the entries behind it are decoded from exactly behind it. So an entry
/// with a tag that is not modelled, or of a wrong shape, between two entries
/// that decode, leaves both of them in the result and counts as one skipped
/// entry.
pub proof fn graceful_degradation(
    input: Seq<u8>,
    pos: usize,
    decoded: Seq<ShelleyLedgerPredFailureView>,
    skipped: Seq<DecodeError>,
)
    requires
        item_end(input, pos) is Some,
    ensures
        entries(input, pos, decoded, skipped) == (match ShelleyLedgerPredFailure::parse(
            input,
            pos,
            Seq::empty(),
        ).result {
            Ok(v) => entries(input, item_end(input, pos)->0, decoded.push(v), skipped),
            Err(e) => entries(input, item_end(input, pos)->0, decoded, skipped.push(e)),
        }),
{
    entry_is_decoded_or_skipped(input, pos);
}

/// Every entry is accounted for. Where the entries are whole items up to the
/// close marker, the decode succeeds and ends exactly behind the marker; each
/// entry has then been added either to the entries that were decoded or to the
/// ones that were skipped, and what was there before stays in front, in order.
pub proof fn every_entry_is_accounted_for(
    input: Seq<u8>,
    pos: usize,
    decoded: Seq<ShelleyLedgerPredFailureView>,
    skipped: Seq<DecodeError>,
)
    requires
        rest_end(input, pos) is Some,
    ensures
        entries(input, pos, decoded, skipped).pos == rest_end(input, pos)->0,
        entries(input, pos, decoded, skipped).stack.len() == 0,
        entries(input, pos, decoded, skipped).result matches Ok(found) && found.non_script_errors.len()
            + found.skipped.len() == decoded.len() + skipped.len() + rest_count(input, pos)
            && decoded.is_prefix_of(found.non_script_errors) && skipped.is_prefix_of(found.skipped),
    decreases input.len() - pos,
{
    match token_at(input, pos) {
        Ok((Token::Break, _)) => {},
        _ => {
            let next = item_end(input, pos)->0;
            graceful_degradation(input, pos, decoded, skipped);
            entry_is_decoded_or_skipped(input, pos);
            match ShelleyLedgerPredFailure::parse(input, pos, Seq::empty()).result {
                Ok(v) => {
                    every_entry_is_accounted_for(input, next, decoded.push(v), skipped);
                    let found = entries(input, pos, decoded, skipped).result->Ok_0;
                    assert(decoded.is_prefix_of(found.non_script_errors)) by {
                        assert(decoded.push(v).subrange(0, decoded.len() as int) =~= decoded);
                    }
                },
                Err(e) => {
                    every_entry_is_accounted_for(input, next, decoded, skipped.push(e));
                    let found = entries(input, pos, decoded, skipped).result->Ok_0;
                    assert(skipped.is_prefix_of(found.skipped)) by {
                        assert(skipped.push(e).subrange(0, skipped.len() as int) =~= skipped);
                    }
                },
            }
        },
    }
}

} // verus!
