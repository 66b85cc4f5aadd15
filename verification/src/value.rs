//! The payloads that rejection entries carry: transaction inputs, hashes and
//! values, and the lists of them.

use crate::cbor::ReadError;
use crate::cursor::Cursor;
use crate::error::DecodeError;
use crate::scope::{
    add_collection_token_to_context, byte_string, clear_unknown_entity, consume_one, consumed_one,
    decodes_as, definite_array, drain, ends_as, entered, lists_as, views_of,
    expect_bytes, expect_definite_array, expect_u64, failed, rejected, step, unsigned,
    OuterScope, Parsed,
};
use crate::token::{peek_token, token_at, Token};
use pallas_codec::minicbor::Decoder;
use pallas_codec::utils::PositiveCoin;
use pallas_primitives::conway::Multiasset;
use vstd::prelude::*;

verus! {

/// The number of bytes of a transaction hash.
pub const TX_HASH_SIZE: usize = 32;

/// The number of bytes of a key hash or a script hash.
pub const KEY_HASH_SIZE: usize = 28;

/// A reference to an output of a transaction: the hash of the transaction, which
/// has [`TX_HASH_SIZE`] bytes, and the index of the output.
#[derive(Debug, Clone, PartialEq, Eq)]
pub struct TxInput {
    pub tx_hash: Vec<u8>,
    pub index: u64,
}

/// What a [`TxInput`] holds.
pub ghost struct TxInputView {
    pub tx_hash: Seq<u8>,
    pub index: u64,
}

impl View for TxInput {
    type V = TxInputView;

    open spec fn view(&self) -> TxInputView {
        TxInputView { tx_hash: self.tx_hash@, index: self.index }
    }
}

/// A quantity of one asset of a policy.
#[derive(Debug, Clone, PartialEq, Eq)]
pub struct Asset {
    pub name: Vec<u8>,
    pub quantity: u64,
}

/// What an [`Asset`] holds.
pub ghost struct AssetView {
    pub name: Seq<u8>,
    pub quantity: u64,
}

impl View for Asset {
    type V = AssetView;

    open spec fn view(&self) -> AssetView {
        AssetView { name: self.name@, quantity: self.quantity }
    }
}

/// The assets of one minting policy.
#[derive(Debug, Clone, PartialEq, Eq)]
pub struct PolicyAssets {
    pub policy: Vec<u8>,
    pub assets: Vec<Asset>,
}

/// What a [`PolicyAssets`] holds.
pub ghost struct PolicyAssetsView {
    pub policy: Seq<u8>,
    pub assets: Seq<AssetView>,
}

impl View for PolicyAssets {
    type V = PolicyAssetsView;

    open spec fn view(&self) -> PolicyAssetsView {
        PolicyAssetsView { policy: self.policy@, assets: views_of(self.assets@) }
    }
}

/// An amount: lovelace alone, or lovelace together with other assets.
#[derive(Debug, Clone, PartialEq, Eq)]
pub enum Value {
    Coin(u64),
    Multiasset(u64, Vec<PolicyAssets>),
}

/// What a [`Value`] holds.
pub ghost enum ValueView {
    Coin(u64),
    Multiasset(u64, Seq<PolicyAssetsView>),
}

impl View for Value {
    type V = ValueView;

    open spec fn view(&self) -> ValueView {
        match self {
            Value::Coin(coin) => ValueView::Coin(*coin),
            Value::Multiasset(coin, assets) => ValueView::Multiasset(*coin, views_of(assets@)),
        }
    }
}

/// A step that has failed, seen as a step of another result type.
pub open spec fn carry<T, U>(p: Parsed<T>) -> Parsed<U>
    recommends
        p.result is Err,
{
    Parsed { result: Err(p.result->Err_0), pos: p.pos, stack: p.stack }
}

/// What decoding a conway multi-asset map at `pos` of `input` gives: the assets
/// by policy, and the position behind the map.
pub uninterp spec fn multiasset_at(input: Seq<u8>, pos: usize) -> Result<
    (Seq<PolicyAssetsView>, usize),
    ReadError,
>;

/// A decoded multi-asset map, seen by what it holds.
pub open spec fn assets_read(r: Result<(Vec<PolicyAssets>, usize), ReadError>) -> Result<
    (Seq<PolicyAssetsView>, usize),
    ReadError,
> {
    match r {
        Ok(v) => Ok((views_of(v.0@), v.1)),
        Err(e) => Err(e),
    }
}

/// `minicbor::Decoder::decode` at `pallas_primitives::conway::Multiasset<PositiveCoin>`:
/// a map from policy, a hash of 28 bytes, to a map from asset name to quantity,
/// handed back policy by policy and asset by asset in the order of the map. The
/// decode takes any unsigned quantity of 64 bits, zero too. What the map holds,
/// and the position behind it, are the named result.
#[verifier::external_body]
pub(crate) fn read_multiasset(input: &[u8], pos: usize) -> (r: Result<
    (Vec<PolicyAssets>, usize),
    ReadError,
>)
    ensures
        assets_read(r) == multiasset_at(input@, pos),
{
    let mut d = Decoder::new(input);
    d.set_position(pos);
    match d.decode::<Multiasset<PositiveCoin>>() {
        Ok(m) => Ok((m.into_iter().map(|(p, a)| PolicyAssets {
            policy: p.to_vec(),
            assets: a.into_iter().map(|(n, q)| Asset { name: n.into(), quantity: q.into() }).collect(),
        }).collect(), d.position())),
        Err(e) if e.is_end_of_input() => Err(ReadError::EndOfInput),
        Err(_) => Err(ReadError::Unexpected),
    }
}

/// One whole item is skipped, with all that it holds, and counted in the
/// innermost scope. Where the item is not all there, the stack stays and the
/// cursor is left at the token that could not be consumed.
pub open spec fn whole_item(input: Seq<u8>, pos: usize, stack: Seq<OuterScope>) -> Parsed<()> {
    let p = drain(input, pos, seq![OuterScope::Definite(1)]);
    Parsed {
        result: p.result,
        pos: p.pos,
        stack: if p.result is Ok {
            consumed_one(stack)
        } else {
            stack
        },
    }
}

/// Skips the item at the cursor as a whole, whatever it holds, and counts it in
/// the innermost scope.
pub fn skip_item(d: &mut Cursor, ctx: &mut Vec<OuterScope>) -> (r: Result<(), DecodeError>)
    ensures
        final(d).input@ == old(d).input@,
        ends_as(r, *final(d), *final(ctx), whole_item(old(d).input@, old(d).pos, old(ctx)@)),
{
    let mut inner: Vec<OuterScope> = Vec::new();
    inner.push(OuterScope::Definite(1));
    assert(inner@ =~= seq![OuterScope::Definite(1)]);
    let r = clear_unknown_entity(d, &mut inner);
    if r.is_ok() {
        consume_one(ctx);
    }
    r
}

/// A byte string of exactly `size` bytes is expected. A byte string of another
/// length is consumed, and fails as an invalid value.
pub open spec fn sized_bytes(input: Seq<u8>, pos: usize, stack: Seq<OuterScope>, size: nat) -> Parsed<
    Seq<u8>,
> {
    let b = byte_string(input, pos, stack);
    match b.result {
        Ok(v) => if v.len() == size {
            b
        } else {
            Parsed { result: Err(DecodeError::InvalidValue), pos: b.pos, stack: b.stack }
        },
        Err(_) => b,
    }
}

/// Expects a byte string of exactly `size` bytes, such as a hash.
pub fn expect_sized_bytes(size: usize, d: &mut Cursor, ctx: &mut Vec<OuterScope>) -> (r: Result<
    Vec<u8>,
    DecodeError,
>)
    ensures
        final(d).input@ == old(d).input@,
        decodes_as(
            r,
            *final(d),
            *final(ctx),
            sized_bytes(old(d).input@, old(d).pos, old(ctx)@, size as nat),
        ),
{
    let bytes = expect_bytes(d, ctx)?;
    if bytes.len() == size {
        Ok(bytes)
    } else {
        Err(DecodeError::InvalidValue)
    }
}

impl TxInput {
    /// A transaction input is an array of two items: the hash of the
    /// transaction, a byte string of [`TX_HASH_SIZE`] bytes, and the index of
    /// the output, an unsigned integer.
    #[verifier::opaque]
    pub open spec fn parse(input: Seq<u8>, pos: usize, stack: Seq<OuterScope>) -> Parsed<
        TxInputView,
    > {
        let a = definite_array(input, pos, stack, seq![2u64]);
        if a.result is Err {
            carry(a)
        } else {
            let h = sized_bytes(input, a.pos, a.stack, TX_HASH_SIZE as nat);
            match h.result {
                Err(_) => carry(h),
                Ok(tx_hash) => {
                    let i = unsigned(input, h.pos, h.stack);
                    match i.result {
                        Err(_) => carry(i),
                        Ok(index) => Parsed {
                            result: Ok(TxInputView { tx_hash, index }),
                            pos: i.pos,
                            stack: i.stack,
                        },
                    }
                },
            }
        }
    }

    /// Decodes a transaction input. An item that is not of the expected kind
    /// is behind the cursor when the error is returned.
    pub fn decode(d: &mut Cursor, ctx: &mut Vec<OuterScope>) -> (r: Result<TxInput, DecodeError>)
        ensures
            final(d).input@ == old(d).input@,
            decodes_as(r, *final(d), *final(ctx), Self::parse(old(d).input@, old(d).pos, old(ctx)@)),
    {
        proof {
            reveal(TxInput::parse);
        }
        let allowed = vec![2];
        assert(allowed@ =~= seq![2u64]);
        expect_definite_array(allowed, d, ctx)?;
        let tx_hash = expect_sized_bytes(TX_HASH_SIZE, d, ctx)?;
        let index = expect_u64(d, ctx)?;
        Ok(TxInput { tx_hash, index })
    }
}

/// The scope that the head of a list opens: a definite array with its length,
/// or an indefinite array.
pub open spec fn list_head(input: Seq<u8>, pos: usize, stack: Seq<OuterScope>) -> Parsed<
    Option<u64>,
> {
    match token_at(input, pos) {
        Ok((Token::ArrayDef(n), next)) => Parsed {
            result: Ok(Some(n)),
            pos: next,
            stack: entered(stack, Token::ArrayDef(n)),
        },
        Ok((Token::BeginArray, next)) => Parsed {
            result: Ok(None),
            pos: next,
            stack: entered(stack, Token::BeginArray),
        },
        _ => rejected(input, pos, stack),
    }
}

/// Whether the close marker is at `pos`; if so, the scope that it closes is
/// closed, and the position behind the marker is handed back.
pub open spec fn list_end(input: Seq<u8>, pos: usize, stack: Seq<OuterScope>) -> Parsed<bool> {
    match token_at(input, pos) {
        Ok((Token::Break, next)) => match step(stack, Token::Break) {
            Ok(s) => Parsed { result: Ok(true), pos: next, stack: s },
            Err(e) => failed(e, pos, stack),
        },
        Ok(_) => Parsed { result: Ok(false), pos, stack },
        Err(e) => failed(e, pos, stack),
    }
}

/// Expects the head of a list: an array, definite or indefinite. The length of
/// a definite array is handed back.
pub fn expect_list(d: &mut Cursor, ctx: &mut Vec<OuterScope>) -> (r: Result<
    Option<u64>,
    DecodeError,
>)
    ensures
        final(d).input@ == old(d).input@,
        ends_as(r, *final(d), *final(ctx), list_head(old(d).input@, old(d).pos, old(ctx)@)),
{
    match peek_token(d) {
        Ok((Token::ArrayDef(n), _)) => {
            match expect_definite_array(Vec::new(), d, ctx) {
                Ok(len) => Ok(Some(len)),
                Err(e) => Err(e),
            }
        },
        Ok((Token::BeginArray, _)) => {
            match add_collection_token_to_context(d, ctx) {
                Ok(()) => Ok(None),
                Err(e) => Err(e),
            }
        },
        _ => match add_collection_token_to_context(d, ctx) {
            Ok(()) => Err(DecodeError::UnexpectedShape),
            Err(e) => Err(e),
        },
    }
}

/// Consumes the close marker if it is at the cursor, and says whether it was.
pub fn at_list_end(d: &mut Cursor, ctx: &mut Vec<OuterScope>) -> (r: Result<bool, DecodeError>)
    ensures
        final(d).input@ == old(d).input@,
        ends_as(r, *final(d), *final(ctx), list_end(old(d).input@, old(d).pos, old(ctx)@)),
{
    match peek_token(d) {
        Ok((Token::Break, _)) => {
            match add_collection_token_to_context(d, ctx) {
                Ok(()) => Ok(true),
                Err(e) => Err(e),
            }
        },
        Ok(_) => Ok(false),
        Err(e) => Err(e),
    }
}

/// `count` hashes in a row, appended to `found`.
pub open spec fn hashes_counted(
    input: Seq<u8>,
    pos: usize,
    stack: Seq<OuterScope>,
    count: nat,
    found: Seq<Seq<u8>>,
) -> Parsed<Seq<Seq<u8>>>
    decreases count,
{
    if count == 0 {
        Parsed { result: Ok(found), pos, stack }
    } else {
        let h = sized_bytes(input, pos, stack, KEY_HASH_SIZE as nat);
        match h.result {
            Err(_) => carry(h),
            Ok(v) => hashes_counted(input, h.pos, h.stack, (count - 1) as nat, found.push(v)),
        }
    }
}

/// Hashes up to the close marker, appended to `found`.
pub open spec fn hashes_to_break(
    input: Seq<u8>,
    pos: usize,
    stack: Seq<OuterScope>,
    found: Seq<Seq<u8>>,
) -> Parsed<Seq<Seq<u8>>>
    decreases input.len() - pos,
{
    let end = list_end(input, pos, stack);
    match end.result {
        Err(_) => carry(end),
        Ok(true) => Parsed { result: Ok(found), pos: end.pos, stack: end.stack },
        Ok(false) => {
            let h = sized_bytes(input, pos, stack, KEY_HASH_SIZE as nat);
            match h.result {
                Err(_) => carry(h),
                Ok(v) => if pos < h.pos <= input.len() {
                    hashes_to_break(input, h.pos, h.stack, found.push(v))
                } else {
                    failed(DecodeError::Malformed, pos, stack)
                },
            }
        },
    }
}

/// A list of hashes of [`KEY_HASH_SIZE`] bytes each: an array, definite or
/// indefinite, of byte strings.
#[verifier::opaque]
pub open spec fn hash_list(input: Seq<u8>, pos: usize, stack: Seq<OuterScope>) -> Parsed<
    Seq<Seq<u8>>,
> {
    let head = list_head(input, pos, stack);
    match head.result {
        Err(_) => carry(head),
        Ok(Some(n)) => hashes_counted(input, head.pos, head.stack, n as nat, Seq::empty()),
        Ok(None) => hashes_to_break(input, head.pos, head.stack, Seq::empty()),
    }
}

/// Decodes a list of hashes of [`KEY_HASH_SIZE`] bytes each.
pub fn decode_hash_list(d: &mut Cursor, ctx: &mut Vec<OuterScope>) -> (r: Result<
    Vec<Vec<u8>>,
    DecodeError,
>)
    ensures
        final(d).input@ == old(d).input@,
        lists_as(r, *final(d), *final(ctx), hash_list(old(d).input@, old(d).pos, old(ctx)@)),
{
    proof {
        reveal(hash_list);
    }
    let ghost input = d.input@;
    let ghost whole = hash_list(d.input@, d.pos, ctx@);
    let mut found: Vec<Vec<u8>> = Vec::new();
    assert(views_of(found@) =~= Seq::<Seq<u8>>::empty());
    match expect_list(d, ctx)? {
        Some(count) => {
            let mut left = count;
            while left > 0
                invariant
                    d.input@ == input,
                    input == old(d).input@,
                    whole == hash_list(old(d).input@, old(d).pos, old(ctx)@),
                    hashes_counted(input, d.pos, ctx@, left as nat, views_of(found@)) == whole,
                decreases left,
            {
                let hash = expect_sized_bytes(KEY_HASH_SIZE, d, ctx)?;
                let ghost before = found@;
                let ghost added = hash@;
                found.push(hash);
                assert(views_of(found@) =~= views_of(before).push(added));
                left -= 1;
            }
            Ok(found)
        },
        None => {
            loop
                invariant
                    d.input@ == input,
                    input == old(d).input@,
                    whole == hash_list(old(d).input@, old(d).pos, old(ctx)@),
                    hashes_to_break(input, d.pos, ctx@, views_of(found@)) == whole,
                decreases input.len() - d.pos,
            {
                if at_list_end(d, ctx)? {
                    return Ok(found);
                }
                let hash = expect_sized_bytes(KEY_HASH_SIZE, d, ctx)?;
                let ghost before = found@;
                let ghost added = hash@;
                found.push(hash);
                assert(views_of(found@) =~= views_of(before).push(added));
            }
        },
    }
}

/// `count` transaction inputs in a row, appended to `found`.
pub open spec fn inputs_counted(
    input: Seq<u8>,
    pos: usize,
    stack: Seq<OuterScope>,
    count: nat,
    found: Seq<TxInputView>,
) -> Parsed<Seq<TxInputView>>
    decreases count,
{
    if count == 0 {
        Parsed { result: Ok(found), pos, stack }
    } else {
        let i = TxInput::parse(input, pos, stack);
        match i.result {
            Err(_) => carry(i),
            Ok(v) => inputs_counted(input, i.pos, i.stack, (count - 1) as nat, found.push(v)),
        }
    }
}

/// Transaction inputs up to the close marker, appended to `found`.
pub open spec fn inputs_to_break(
    input: Seq<u8>,
    pos: usize,
    stack: Seq<OuterScope>,
    found: Seq<TxInputView>,
) -> Parsed<Seq<TxInputView>>
    decreases input.len() - pos,
{
    let end = list_end(input, pos, stack);
    match end.result {
        Err(_) => carry(end),
        Ok(true) => Parsed { result: Ok(found), pos: end.pos, stack: end.stack },
        Ok(false) => {
            let i = TxInput::parse(input, pos, stack);
            match i.result {
                Err(_) => carry(i),
                Ok(v) => if pos < i.pos <= input.len() {
                    inputs_to_break(input, i.pos, i.stack, found.push(v))
                } else {
                    failed(DecodeError::Malformed, pos, stack)
                },
            }
        },
    }
}

/// A list of transaction inputs: an array, definite or indefinite.
#[verifier::opaque]
pub open spec fn input_list(input: Seq<u8>, pos: usize, stack: Seq<OuterScope>) -> Parsed<
    Seq<TxInputView>,
> {
    let head = list_head(input, pos, stack);
    match head.result {
        Err(_) => carry(head),
        Ok(Some(n)) => inputs_counted(input, head.pos, head.stack, n as nat, Seq::empty()),
        Ok(None) => inputs_to_break(input, head.pos, head.stack, Seq::empty()),
    }
}

/// Decodes a list of transaction inputs.
pub fn decode_input_list(d: &mut Cursor, ctx: &mut Vec<OuterScope>) -> (r: Result<
    Vec<TxInput>,
    DecodeError,
>)
    ensures
        final(d).input@ == old(d).input@,
        lists_as(r, *final(d), *final(ctx), input_list(old(d).input@, old(d).pos, old(ctx)@)),
{
    proof {
        reveal(input_list);
    }
    let ghost input = d.input@;
    let ghost whole = input_list(d.input@, d.pos, ctx@);
    let mut found: Vec<TxInput> = Vec::new();
    assert(views_of(found@) =~= Seq::<TxInputView>::empty());
    match expect_list(d, ctx)? {
        Some(count) => {
            let mut left = count;
            while left > 0
                invariant
                    d.input@ == input,
                    input == old(d).input@,
                    whole == input_list(old(d).input@, old(d).pos, old(ctx)@),
                    inputs_counted(input, d.pos, ctx@, left as nat, views_of(found@)) == whole,
                decreases left,
            {
                let tx_input = TxInput::decode(d, ctx)?;
                let ghost before = found@;
                let ghost added = tx_input@;
                found.push(tx_input);
                assert(views_of(found@) =~= views_of(before).push(added));
                left -= 1;
            }
            Ok(found)
        },
        None => {
            loop
                invariant
                    d.input@ == input,
                    input == old(d).input@,
                    whole == input_list(old(d).input@, old(d).pos, old(ctx)@),
                    inputs_to_break(input, d.pos, ctx@, views_of(found@)) == whole,
                decreases input.len() - d.pos,
            {
                if at_list_end(d, ctx)? {
                    return Ok(found);
                }
                proof {
                    reveal(TxInput::parse);
                }
                let tx_input = TxInput::decode(d, ctx)?;
                let ghost before = found@;
                let ghost added = tx_input@;
                found.push(tx_input);
                assert(views_of(found@) =~= views_of(before).push(added));
            }
        },
    }
}

/// The assets of a value: the item at `pos` is skipped as a whole, and it has to
/// be a multi-asset map that ends where the item ends.
#[verifier::opaque]
pub open spec fn assets(input: Seq<u8>, pos: usize, stack: Seq<OuterScope>) -> Parsed<
    Seq<PolicyAssetsView>,
> {
    let item = whole_item(input, pos, stack);
    match item.result {
        Err(_) => carry(item),
        Ok(_) => Parsed {
            result: match multiasset_at(input, pos) {
                Ok(read) => if read.1 == item.pos {
                    Ok(read.0)
                } else {
                    Err(DecodeError::InvalidValue)
                },
                Err(_) => Err(DecodeError::InvalidValue),
            },
            pos: item.pos,
            stack: item.stack,
        },
    }
}

/// Decodes the multi-asset map of a value. Whatever the item at the cursor is,
/// it is behind the cursor afterwards, unless it is not all there.
pub fn decode_assets(d: &mut Cursor, ctx: &mut Vec<OuterScope>) -> (r: Result<
    Vec<PolicyAssets>,
    DecodeError,
>)
    ensures
        final(d).input@ == old(d).input@,
        lists_as(r, *final(d), *final(ctx), assets(old(d).input@, old(d).pos, old(ctx)@)),
{
    proof {
        reveal(assets);
    }
    let start = d.pos;
    skip_item(d, ctx)?;
    match read_multiasset(d.input, start) {
        Ok((found, next)) => if next == d.pos {
            Ok(found)
        } else {
            Err(DecodeError::InvalidValue)
        },
        Err(_) => Err(DecodeError::InvalidValue),
    }
}

/// A value is an unsigned integer, the lovelace, or an array of two items: the
/// lovelace and a multi-asset map. Anything else is skipped as one token.
#[verifier::opaque]
pub open spec fn conway_value(input: Seq<u8>, pos: usize, stack: Seq<OuterScope>) -> Parsed<
    ValueView,
> {
    match token_at(input, pos) {
        Ok((Token::ArrayDef(_), _)) => {
            let a = definite_array(input, pos, stack, seq![2u64]);
            if a.result is Err {
                carry(a)
            } else {
                let c = unsigned(input, a.pos, a.stack);
                match c.result {
                    Err(_) => carry(c),
                    Ok(coin) => {
                        let m = assets(input, c.pos, c.stack);
                        match m.result {
                            Err(_) => carry(m),
                            Ok(found) => Parsed {
                                result: Ok(ValueView::Multiasset(coin, found)),
                                pos: m.pos,
                                stack: m.stack,
                            },
                        }
                    },
                }
            }
        },
        _ => {
            let c = unsigned(input, pos, stack);
            match c.result {
                Err(_) => carry(c),
                Ok(coin) => Parsed { result: Ok(ValueView::Coin(coin)), pos: c.pos, stack: c.stack },
            }
        },
    }
}

/// Decodes a value.
pub fn decode_conway_value(d: &mut Cursor, ctx: &mut Vec<OuterScope>) -> (r: Result<
    Value,
    DecodeError,
>)
    ensures
        final(d).input@ == old(d).input@,
        decodes_as(r, *final(d), *final(ctx), conway_value(old(d).input@, old(d).pos, old(ctx)@)),
{
    proof {
        reveal(conway_value);
    }
    match peek_token(d) {
        Ok((Token::ArrayDef(_), _)) => {
            let allowed = vec![2];
            assert(allowed@ =~= seq![2u64]);
            expect_definite_array(allowed, d, ctx)?;
            let coin = expect_u64(d, ctx)?;
            let found = decode_assets(d, ctx)?;
            Ok(Value::Multiasset(coin, found))
        },
        _ => {
            let coin = expect_u64(d, ctx)?;
            Ok(Value::Coin(coin))
        },
    }
}

} // verus!
