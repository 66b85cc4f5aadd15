//! The item grammar, and the proof that the scope stack follows it.
//!
//! An item is a scalar token, the head of a definite collection followed by as
//! many items as it announces (two for each pair of a map), or the opening
//! marker of an indefinite collection followed by items up to the close marker.
//! The functions here say where an item ends by recursion over that structure.
//! The scope stack of [`crate::scope`] walks the same input token by token; the
//! lemmas show that both agree on where items end.

use crate::scope::{
    consumed_one, drain, entered, opened_by, skip_token, step, OuterScope, Parsed,
};
use crate::token::{token_at, Token};
use vstd::prelude::*;

verus! {

/// The position behind the item that starts at `pos`, if a whole item is there.
pub open spec fn item_end(input: Seq<u8>, pos: usize) -> Option<usize>
    decreases input.len() - pos, 0nat,
{
    match token_at(input, pos) {
        Err(_) => None,
        Ok((t, next)) => if pos < next <= input.len() {
            match t {
                Token::Break => None,
                Token::ArrayDef(n) => items_end(input, next, n as nat),
                Token::MapDef(n) => items_end(input, next, 2 * (n as nat)),
                Token::BeginArray => rest_end(input, next),
                Token::BeginMap => rest_end(input, next),
                Token::BeginBytes => rest_end(input, next),
                Token::BeginText => rest_end(input, next),
                _ => Some(next),
            }
        } else {
            None
        },
    }
}

/// The position behind `count` items that start at `pos`, if they are all there.
pub open spec fn items_end(input: Seq<u8>, pos: usize, count: nat) -> Option<usize>
    decreases input.len() - pos, 1nat,
{
    if count == 0 {
        Some(pos)
    } else {
        match item_end(input, pos) {
            Some(next) => if pos < next <= input.len() {
                items_end(input, next, (count - 1) as nat)
            } else {
                None
            },
            None => None,
        }
    }
}

/// The position behind the close marker of the indefinite collection whose
/// content starts at `pos`, if items follow each other up to such a marker.
pub open spec fn rest_end(input: Seq<u8>, pos: usize) -> Option<usize>
    decreases input.len() - pos, 1nat,
{
    match token_at(input, pos) {
        Ok((Token::Break, next)) => Some(next),
        _ => match item_end(input, pos) {
            Some(next) => if pos < next <= input.len() {
                rest_end(input, next)
            } else {
                None
            },
            None => None,
        },
    }
}

/// The number of items between `pos` and the close marker of the indefinite
/// collection whose content starts at `pos`.
pub open spec fn rest_count(input: Seq<u8>, pos: usize) -> nat
    decreases input.len() - pos,
{
    match token_at(input, pos) {
        Ok((Token::Break, _)) => 0,
        _ => match item_end(input, pos) {
            Some(next) => if pos < next <= input.len() {
                1 + rest_count(input, next)
            } else {
                0
            },
            None => 0,
        },
    }
}

/// An item spans at least one byte and ends inside the input.
pub proof fn lemma_item_span(input: Seq<u8>, pos: usize)
    ensures
        item_end(input, pos) matches Some(end) ==> pos < end <= input.len(),
    decreases input.len() - pos, 0nat,
{
    match token_at(input, pos) {
        Err(_) => {},
        Ok((t, next)) => {
            if pos < next <= input.len() {
                match t {
                    Token::ArrayDef(n) => lemma_items_span(input, next, n as nat),
                    Token::MapDef(n) => lemma_items_span(input, next, 2 * (n as nat)),
                    Token::BeginArray => lemma_rest_span(input, next),
                    Token::BeginMap => lemma_rest_span(input, next),
                    Token::BeginBytes => lemma_rest_span(input, next),
                    Token::BeginText => lemma_rest_span(input, next),
                    _ => {},
                }
            }
        },
    }
}

/// `count` items span at least `count` bytes.
pub proof fn lemma_items_span(input: Seq<u8>, pos: usize, count: nat)
    ensures
        items_end(input, pos, count) matches Some(end) ==> pos + count <= end && (pos
            <= input.len() ==> end <= input.len()),
    decreases input.len() - pos, 1nat,
{
    if count > 0 {
        lemma_item_span(input, pos);
        match item_end(input, pos) {
            Some(next) => {
                if pos < next <= input.len() {
                    lemma_items_span(input, next, (count - 1) as nat);
                }
            },
            None => {},
        }
    }
}

/// The content of an indefinite collection, close marker included, spans at
/// least one byte and ends inside the input.
pub proof fn lemma_rest_span(input: Seq<u8>, pos: usize)
    ensures
        rest_end(input, pos) matches Some(end) ==> pos < end <= input.len(),
    decreases input.len() - pos, 1nat,
{
    match token_at(input, pos) {
        Ok((Token::Break, next)) => {},
        _ => {
            lemma_item_span(input, pos);
            match item_end(input, pos) {
                Some(next) => {
                    if pos < next <= input.len() {
                        lemma_rest_span(input, next);
                    }
                },
                None => {},
            }
        },
    }
}

/// Skipping the first token of an item and draining from there ends where
/// draining from behind the item ends, with one item less in the innermost scope.
pub proof fn lemma_skip_item(input: Seq<u8>, pos: usize, stack: Seq<OuterScope>)
    requires
        item_end(input, pos) is Some,
    ensures
        skip_token(input, pos, stack).result is Ok,
        pos < skip_token(input, pos, stack).pos <= input.len(),
        drain(input, skip_token(input, pos, stack).pos, skip_token(input, pos, stack).stack)
            == drain(input, item_end(input, pos)->0, consumed_one(stack)),
    decreases input.len() - pos, 0nat,
{
    let end = item_end(input, pos)->0;
    let read = token_at(input, pos)->Ok_0;
    let t = read.0;
    let next = read.1;
    let rest = consumed_one(stack);
    match t {
        Token::ArrayDef(n) => {
            if n > 0 {
                lemma_drain_items(input, next, n as nat, rest);
            }
        },
        Token::MapDef(n) => {
            if n > 0 {
                lemma_items_span(input, next, 2 * (n as nat));
                lemma_drain_items(input, next, 2 * (n as nat), rest);
            }
        },
        Token::BeginArray => lemma_drain_rest(input, next, rest),
        Token::BeginMap => lemma_drain_rest(input, next, rest),
        Token::BeginBytes => lemma_drain_rest(input, next, rest),
        Token::BeginText => lemma_drain_rest(input, next, rest),
        _ => {},
    }
}

/// Draining a definite scope of `count` items that are all there ends where
/// draining from behind them ends.
pub proof fn lemma_drain_items(input: Seq<u8>, pos: usize, count: nat, base: Seq<OuterScope>)
    requires
        1 <= count <= u64::MAX,
        items_end(input, pos, count) is Some,
    ensures
        drain(input, pos, base.push(OuterScope::Definite(count as u64))) == drain(
            input,
            items_end(input, pos, count)->0,
            base,
        ),
    decreases input.len() - pos, 1nat,
{
    let stack = base.push(OuterScope::Definite(count as u64));
    let next = item_end(input, pos)->0;
    lemma_skip_item(input, pos, stack);
    assert(stack.drop_last() =~= base);
    if count > 1 {
        assert(consumed_one(stack) =~= base.push(OuterScope::Definite((count - 1) as u64)));
        lemma_drain_items(input, next, (count - 1) as nat, base);
    } else {
        assert(consumed_one(stack) =~= base);
    }
}

/// Draining an indefinite scope whose content is there up to the close marker
/// ends where draining from behind the marker ends.
pub proof fn lemma_drain_rest(input: Seq<u8>, pos: usize, base: Seq<OuterScope>)
    requires
        rest_end(input, pos) is Some,
    ensures
        drain(input, pos, base.push(OuterScope::Indefinite)) == drain(
            input,
            rest_end(input, pos)->0,
            base,
        ),
    decreases input.len() - pos, 1nat,
{
    let stack = base.push(OuterScope::Indefinite);
    assert(stack.drop_last() =~= base);
    match token_at(input, pos) {
        Ok((Token::Break, next)) => {},
        _ => {
            let next = item_end(input, pos)->0;
            lemma_skip_item(input, pos, stack);
            assert(consumed_one(stack) =~= stack);
            lemma_drain_rest(input, next, base);
        },
    }
}

/// Skipping is exact. Where a whole item starts at the cursor (a scalar, a
/// definite collection or an indefinite one), skipping its first token succeeds, and
/// draining what the skip has opened leaves the cursor exactly behind the item,
/// at the start of its next sibling, with the scopes that were open before and
/// one item less in the innermost of them. A scalar is behind the cursor at once.
pub proof fn skip_lands_on_next_sibling(input: Seq<u8>, pos: usize, stack: Seq<OuterScope>)
    requires
        item_end(input, pos) is Some,
    ensures
        skip_token(input, pos, stack).result is Ok,
        drain(input, skip_token(input, pos, stack).pos, skip_token(input, pos, stack).stack)
            == drain(input, item_end(input, pos)->0, consumed_one(stack)),
        opened_by(token_at(input, pos)->Ok_0.0) is None ==> skip_token(input, pos, stack).pos
            == item_end(input, pos)->0 && skip_token(input, pos, stack).stack == consumed_one(
            stack,
        ),
        stack.len() == 0 ==> drain(
            input,
            skip_token(input, pos, stack).pos,
            skip_token(input, pos, stack).stack,
        ) == (Parsed { result: Ok(()), pos: item_end(input, pos)->0, stack: Seq::empty() }),
{
    lemma_skip_item(input, pos, stack);
}

/// An item that is all there is skipped as a whole by draining a scope of one
/// item: the cursor ends exactly behind it.
pub proof fn drain_of_one_item(input: Seq<u8>, pos: usize)
    requires
        item_end(input, pos) is Some,
    ensures
        drain(input, pos, seq![OuterScope::Definite(1)]) == (Parsed {
            result: Ok(()),
            pos: item_end(input, pos)->0,
            stack: Seq::empty(),
        }),
{
    lemma_item_span(input, pos);
    let end = item_end(input, pos)->0;
    assert(items_end(input, end, 0) == Some(end));
    assert(items_end(input, pos, 1) == Some(end));
    assert(seq![OuterScope::Definite(1)] =~= Seq::<OuterScope>::empty().push(
        OuterScope::Definite(1),
    ));
    lemma_drain_items(input, pos, 1, Seq::empty());
}

/// A stack as the primitives build it: no definite scope is open without an
/// item left in it.
pub open spec fn counts_items(stack: Seq<OuterScope>) -> bool {
    forall|i: int| 0 <= i < stack.len() ==> !(#[trigger] stack[i] matches OuterScope::Definite(0))
}

/// The position behind everything that the open scopes still hold, innermost
/// first: the items that a definite scope counts, the items up to the close
/// marker of an indefinite one.
pub open spec fn scopes_end(input: Seq<u8>, pos: usize, stack: Seq<OuterScope>) -> Option<usize>
    decreases stack.len(),
{
    if stack.len() == 0 {
        Some(pos)
    } else {
        let inner = match stack.last() {
            OuterScope::Definite(n) => items_end(input, pos, n as nat),
            OuterScope::Indefinite => rest_end(input, pos),
        };
        match inner {
            Some(next) => scopes_end(input, next, stack.drop_last()),
            None => None,
        }
    }
}

/// Consuming one item of the innermost scope leaves the same end for the scopes.
proof fn lemma_scopes_after_item(input: Seq<u8>, pos: usize, stack: Seq<OuterScope>)
    requires
        stack.len() > 0,
        counts_items(stack),
        item_end(input, pos) is Some,
        !(token_at(input, pos) matches Ok((Token::Break, _))),
    ensures
        scopes_end(input, pos, stack) == scopes_end(
            input,
            item_end(input, pos)->0,
            consumed_one(stack),
        ),
        counts_items(consumed_one(stack)),
{
    let next = item_end(input, pos)->0;
    let below = stack.drop_last();
    lemma_item_span(input, pos);
    match stack.last() {
        OuterScope::Definite(n) => {
            assert(stack[stack.len() - 1] == OuterScope::Definite(n));
            if n > 1 {
                let rest = below.push(OuterScope::Definite((n - 1) as u64));
                assert(consumed_one(stack) =~= rest);
                assert(rest.drop_last() =~= below);
                assert(rest.last() == OuterScope::Definite((n - 1) as u64));
                assert forall|i: int| 0 <= i < rest.len() implies !(#[trigger] rest[i]
                    matches OuterScope::Definite(0)) by {
                    if i < below.len() {
                        assert(rest[i] == stack[i]);
                    }
                }
            } else {
                assert(items_end(input, next, 0) == Some(next));
                assert(consumed_one(stack) =~= below);
                assert forall|i: int| 0 <= i < below.len() implies !(#[trigger] below[i]
                    matches OuterScope::Definite(0)) by {
                    assert(below[i] == stack[i]);
                }
            }
        },
        OuterScope::Indefinite => {
            assert(consumed_one(stack) =~= stack);
        },
    }
}

/// Draining ends where the open scopes end. Where draining succeeds, the
/// cursor is exactly behind what the scopes held, and all of it was there.
pub proof fn lemma_drain_ends_with_the_scopes(input: Seq<u8>, pos: usize, stack: Seq<OuterScope>)
    requires
        counts_items(stack),
        drain(input, pos, stack).result is Ok,
    ensures
        scopes_end(input, pos, stack) == Some(drain(input, pos, stack).pos),
    decreases input.len() - pos,
{
    if stack.len() > 0 {
        let read = token_at(input, pos)->Ok_0;
        let t = read.0;
        let next = read.1;
        let after = step(stack, t)->Ok_0;
        let below = stack.drop_last();
        if t is Break {
            assert forall|i: int| 0 <= i < below.len() implies !(#[trigger] below[i]
                matches OuterScope::Definite(0)) by {
                assert(below[i] == stack[i]);
            }
            lemma_drain_ends_with_the_scopes(input, next, after);
        } else {
            let rest = consumed_one(stack);
            match opened_by(t) {
                None => {
                    assert(items_end(input, next, 0) == Some(next));
                    assert(item_end(input, pos) == Some(next));
                    lemma_scopes_after_item(input, pos, stack);
                    lemma_drain_ends_with_the_scopes(input, next, after);
                },
                Some(scope) => {
                    // what the token opens is drained first; that is the item
                    assert(after =~= rest.push(scope));
                    assert(after.drop_last() =~= rest);
                    assert(after.last() == scope);
                    assert(counts_items(after)) by {
                        lemma_counts_after_token(stack, t);
                    }
                    lemma_drain_ends_with_the_scopes(input, next, after);
                    let inner = match scope {
                        OuterScope::Definite(n) => items_end(input, next, n as nat),
                        OuterScope::Indefinite => rest_end(input, next),
                    };
                    assert(inner is Some);
                    assert(item_end(input, pos) == inner) by {
                        if let Token::MapDef(n) = t {
                            if n > u64::MAX / 2 {
                                lemma_items_span(input, next, u64::MAX as nat);
                            }
                        }
                    }
                    lemma_scopes_after_item(input, pos, stack);
                },
            }
        }
    }
}

/// A token that is consumed keeps the stack free of definite scopes without
/// items.
proof fn lemma_counts_after_token(stack: Seq<OuterScope>, t: Token)
    requires
        counts_items(stack),
        !(t is Break),
    ensures
        counts_items(entered(stack, t)),
{
    let rest = consumed_one(stack);
    assert(counts_items(rest)) by {
        if stack.len() > 0 {
            let below = stack.drop_last();
            assert forall|i: int| 0 <= i < rest.len() implies !(#[trigger] rest[i]
                matches OuterScope::Definite(0)) by {
                if i < below.len() {
                    assert(rest[i] == stack[i]);
                } else {
                    assert(stack[stack.len() - 1] == stack.last());
                }
            }
        }
    }
    match opened_by(t) {
        Some(scope) => {
            let after = rest.push(scope);
            assert forall|i: int| 0 <= i < after.len() implies !(#[trigger] after[i]
                matches OuterScope::Definite(0)) by {
                if i < rest.len() {
                    assert(after[i] == rest[i]);
                }
            }
        },
        None => {},
    }
}

/// Skipping a whole item succeeds exactly where a whole item is: draining a
/// scope of one item succeeds if and only if an item starts at the cursor and
/// is all there, and the cursor is then behind it.
pub proof fn an_item_is_skipped_exactly_where_one_is(input: Seq<u8>, pos: usize)
    ensures
        drain(input, pos, seq![OuterScope::Definite(1)]).result is Ok <==> item_end(input, pos)
            is Some,
        item_end(input, pos) matches Some(end) ==> drain(
            input,
            pos,
            seq![OuterScope::Definite(1)],
        ).pos == end,
{
    let one = seq![OuterScope::Definite(1)];
    if item_end(input, pos) is Some {
        drain_of_one_item(input, pos);
    }
    if drain(input, pos, one).result is Ok {
        assert(one[0] == OuterScope::Definite(1));
        lemma_drain_ends_with_the_scopes(input, pos, one);
        assert(one.drop_last() =~= Seq::<OuterScope>::empty());
        let end = items_end(input, pos, 1);
        assert(end is Some);
        assert(item_end(input, pos) is Some);
    }
}

} // verus!
