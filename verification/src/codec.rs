//! The wire form of the messages, and the decoding of rejections that arrive
//! in more than one piece.

use crate::cbor::{array_at, bytes_at, read_array, read_bytes, read_tag, read_u16, tag_at, u16_at};
use crate::cursor::Cursor;
use crate::error::DecodeError;
use crate::node_errors::TxApplyErrors;
use crate::protocol::{
    flattened, EraTx, Message, RejectReason, RejectReasonBytes, RejectReasonView,
    TxRejectionReasons,
};
use crate::scope::views_of;
use pallas_codec::minicbor::data::Tag;
use pallas_codec::minicbor::Encoder;
use vstd::prelude::*;

verus! {

/// The number of the tag that marks a byte string as encoded CBOR.
pub const CBOR_TAG: u64 = 24;

/// The two bytes of `x`, the more significant first.
pub open spec fn be2(x: u64) -> Seq<u8> {
    seq![((x / 0x100) % 0x100) as u8, (x % 0x100) as u8]
}

/// The four bytes of `x`, the most significant first.
pub open spec fn be4(x: u64) -> Seq<u8> {
    seq![
        ((x / 0x100_0000) % 0x100) as u8,
        ((x / 0x1_0000) % 0x100) as u8,
        ((x / 0x100) % 0x100) as u8,
        (x % 0x100) as u8,
    ]
}

/// The eight bytes of `x`, the most significant first.
pub open spec fn be8(x: u64) -> Seq<u8> {
    seq![
        ((x / 0x100_0000_0000_0000) % 0x100) as u8,
        ((x / 0x1_0000_0000_0000) % 0x100) as u8,
        ((x / 0x100_0000_0000) % 0x100) as u8,
        ((x / 0x1_0000_0000) % 0x100) as u8,
        ((x / 0x100_0000) % 0x100) as u8,
        ((x / 0x1_0000) % 0x100) as u8,
        ((x / 0x100) % 0x100) as u8,
        (x % 0x100) as u8,
    ]
}

/// The head of an item: its major type, which fills the upper three bits of
/// the first byte, and its argument in the shortest of the five forms.
pub open spec fn head(major: u8, x: u64) -> Seq<u8> {
    if x <= 0x17 {
        seq![(major + x) as u8]
    } else if x <= 0xff {
        seq![(major + 24) as u8, x as u8]
    } else if x <= 0xffff {
        seq![(major + 25) as u8] + be2(x)
    } else if x <= 0xffff_ffff {
        seq![(major + 26) as u8] + be4(x)
    } else {
        seq![(major + 27) as u8] + be8(x)
    }
}

/// The bytes that `Encoder::array` writes for an array of `len` items.
pub open spec fn array_head(len: u64) -> Seq<u8> {
    head(0x80, len)
}

/// The bytes that `Encoder::u16` writes for `value`.
pub open spec fn u16_item(value: u16) -> Seq<u8> {
    head(0x00, value as u64)
}

/// The bytes that `Encoder::tag` writes for the tag of number `number`.
pub open spec fn tag_head(number: u64) -> Seq<u8> {
    head(0xc0, number)
}

/// The bytes that `Encoder::bytes` writes for the byte string `content`.
pub open spec fn bytes_item(content: Seq<u8>) -> Seq<u8> {
    head(0x40, content.len() as u64) + content
}

/// `minicbor::Encoder::array` on a vector: the head of an array of `len` items
/// is appended, with major type 4 and the length in its shortest form.
#[verifier::external_body]
fn write_array(out: &mut Vec<u8>, len: u64)
    ensures
        final(out)@ == old(out)@ + array_head(len),
{
    let _ = Encoder::new(out).array(len);
}

/// `minicbor::Encoder::u16` on a vector: the unsigned integer is appended in
/// its shortest form.
#[verifier::external_body]
fn write_u16(out: &mut Vec<u8>, value: u16)
    ensures
        final(out)@ == old(out)@ + u16_item(value),
{
    let _ = Encoder::new(out).u16(value);
}

/// `minicbor::Encoder::tag` on a vector: the head of a tag is appended, with
/// major type 6 and the number in its shortest form.
#[verifier::external_body]
fn write_tag(out: &mut Vec<u8>, number: u64)
    ensures
        final(out)@ == old(out)@ + tag_head(number),
{
    let _ = Encoder::new(out).tag(Tag::new(number));
}

/// `minicbor::Encoder::bytes` on a vector: a byte string of definite length is
/// appended, its head with major type 2 and the length, then the bytes.
#[verifier::external_body]
fn write_bytes(out: &mut Vec<u8>, content: &[u8])
    ensures
        final(out)@ == old(out)@ + bytes_item(content@),
{
    let _ = Encoder::new(out).bytes(content);
}

impl EraTx {
    /// The wire form: `[era, 24(bytes)]`.
    pub open spec fn encoding(self) -> Seq<u8> {
        array_head(2) + u16_item(self.0) + tag_head(CBOR_TAG) + bytes_item(self.1@)
    }

    /// Appends the wire form to `out`.
    pub fn encode(&self, out: &mut Vec<u8>)
        ensures
            final(out)@ == old(out)@ + self.encoding(),
    {
        write_array(out, 2);
        write_u16(out, self.0);
        write_tag(out, CBOR_TAG);
        write_bytes(out, self.1.as_slice());
        assert(out@ =~= old(out)@ + self.encoding());
    }

    /// What stands at `pos`, read as the wire form: the head of an array, the
    /// era, the tag for encoded CBOR and a byte string.
    pub open spec fn parse(input: Seq<u8>, pos: usize) -> Result<
        ((u16, Seq<u8>), usize),
        DecodeError,
    > {
        match array_at(input, pos) {
            Err(e) => Err(DecodeError::of_read(e)),
            Ok(head) => match u16_at(input, head.1) {
                Err(e) => Err(DecodeError::of_read(e)),
                Ok(era) => match tag_at(input, era.1) {
                    Err(e) => Err(DecodeError::of_read(e)),
                    Ok(tag) => if tag.0 != CBOR_TAG {
                        Err(DecodeError::InvalidValue)
                    } else {
                        match bytes_at(input, tag.1) {
                            Err(e) => Err(DecodeError::of_read(e)),
                            Ok(body) => Ok(((era.0, body.0), body.1)),
                        }
                    },
                },
            },
        }
    }

    /// Decodes the wire form. Where that fails, the cursor stays.
    pub fn decode(d: &mut Cursor) -> (r: Result<EraTx, DecodeError>)
        ensures
            final(d).input@ == old(d).input@,
            match Self::parse(old(d).input@, old(d).pos) {
                Ok(found) => r matches Ok(tx) && tx@ == found.0 && final(d).pos == found.1,
                Err(e) => r == Err::<EraTx, DecodeError>(e) && final(d).pos == old(d).pos,
            },
    {
        let (_, after_head) = match read_array(d.input, d.pos) {
            Ok(v) => v,
            Err(e) => { return Err(DecodeError::from_read(e)); },
        };
        let (era, after_era) = match read_u16(d.input, after_head) {
            Ok(v) => v,
            Err(e) => { return Err(DecodeError::from_read(e)); },
        };
        let (tag, after_tag) = match read_tag(d.input, after_era) {
            Ok(v) => v,
            Err(e) => { return Err(DecodeError::from_read(e)); },
        };
        if tag != CBOR_TAG {
            return Err(DecodeError::InvalidValue);
        }
        let (body, end) = match read_bytes(d.input, after_tag) {
            Ok(v) => v,
            Err(e) => { return Err(DecodeError::from_read(e)); },
        };
        d.pos = end;
        Ok(EraTx(era, body))
    }
}

impl RejectReasonBytes {
    /// Appends the raw bytes to `out`, as they are.
    pub fn encode(&self, out: &mut Vec<u8>)
        ensures
            final(out)@ == old(out)@ + self.0@,
    {
        out.extend_from_slice(self.0.as_slice());
    }

    /// The raw reason is the whole input, wherever the cursor stands.
    pub fn decode(d: &Cursor) -> (r: RejectReasonBytes)
        ensures
            r.0@ == d.input@,
    {
        let mut bytes: Vec<u8> = Vec::new();
        bytes.extend_from_slice(d.input);
        RejectReasonBytes(bytes)
    }
}

impl Message<EraTx, RejectReasonBytes> {
    /// The wire form: `[0, tx]` submits, `[1]` accepts, `[2, reason]` rejects
    /// and `[3]` ends.
    pub open spec fn encoding(self) -> Seq<u8> {
        match self {
            Message::SubmitTx(tx) => array_head(2) + u16_item(0) + tx.encoding(),
            Message::AcceptTx => array_head(1) + u16_item(1),
            Message::RejectTx(rejection) => array_head(2) + u16_item(2) + rejection.0@,
            Message::Done => array_head(1) + u16_item(3),
        }
    }

    /// Appends the wire form to `out`.
    pub fn encode(&self, out: &mut Vec<u8>)
        ensures
            final(out)@ == old(out)@ + self.encoding(),
    {
        match self {
            Message::SubmitTx(tx) => {
                write_array(out, 2);
                write_u16(out, 0);
                tx.encode(out);
            },
            Message::AcceptTx => {
                write_array(out, 1);
                write_u16(out, 1);
            },
            Message::RejectTx(rejection) => {
                write_array(out, 2);
                write_u16(out, 2);
                rejection.encode(out);
            },
            Message::Done => {
                write_array(out, 1);
                write_u16(out, 3);
            },
        }
        assert(out@ =~= old(out)@ + self.encoding());
    }
}

/// The wire forms of the messages, byte by byte: `[1]` accepts, `[3]` ends,
/// `[2, ..]` rejects and `[0, ..]` submits, each an array with its label first.
pub proof fn wire_forms(tx: EraTx, rejection: RejectReasonBytes)
    ensures
        Message::<EraTx, RejectReasonBytes>::AcceptTx.encoding() =~= seq![0x81u8, 0x01u8],
        Message::<EraTx, RejectReasonBytes>::Done.encoding() =~= seq![0x81u8, 0x03u8],
        Message::<EraTx, RejectReasonBytes>::RejectTx(rejection).encoding() =~= seq![0x82u8, 0x02u8]
            + rejection.0@,
        Message::<EraTx, RejectReasonBytes>::SubmitTx(tx).encoding() =~= seq![0x82u8, 0x00u8]
            + tx.encoding(),
        tx.encoding() =~= seq![0x82u8] + u16_item(tx.0) + seq![0xd8u8, 0x18u8] + bytes_item(tx.1@),
{
}

/// How far the decoding of a rejection got.
#[derive(Debug, PartialEq, Eq)]
pub enum DecodingResult<Reject> {
    /// The rejection is all there; these are its reasons.
    Complete(Vec<Reject>),
    /// More bytes are needed; these are the reasons found so far.
    Incomplete(Vec<Reject>),
}

/// The signal that a rejection is not all there yet.
#[derive(Debug, PartialEq, Eq)]
pub struct IncompleteDecoding<Reject> {
    pub processed_reasons: Vec<Reject>,
}

impl<Reject> From<Vec<Reject>> for IncompleteDecoding<Reject> {
    fn from(value: Vec<Reject>) -> (r: IncompleteDecoding<Reject>) {
        IncompleteDecoding { processed_reasons: value }
    }
}

impl<Reject> vstd::std_specs::convert::FromSpecImpl<Vec<Reject>> for IncompleteDecoding<Reject> {
    open spec fn obeys_from_spec() -> bool {
        true
    }

    open spec fn from_spec(value: Vec<Reject>) -> IncompleteDecoding<Reject> {
        IncompleteDecoding { processed_reasons: value }
    }
}

/// A decoder of entities whose bytes may arrive in more than one piece.
pub trait DecodeCBORSplitPayload {
    /// What is decoded.
    type Entity;

    /// Tries to decode the entities, given the bytes that are there now.
    fn try_decode_with_new_bytes(&mut self, bytes: &[u8]) -> DecodingResult<Self::Entity>;

    /// Whether bytes of an entity are still to be decoded.
    fn has_undecoded_bytes(&self) -> bool;
}

/// Why a message could not be decoded.
#[derive(Debug, PartialEq, Eq)]
pub enum MessageError<Reject> {
    /// A rejection is not all there yet: more bytes have to be supplied.
    Incomplete(IncompleteDecoding<Reject>),
    /// The bytes are not the head of a message, for another reason than that
    /// they end too early.
    Decode(DecodeError),
    /// The message has a label that the protocol does not know.
    UnknownLabel(u16),
}

/// What the bytes at the cursor ask for.
#[derive(Debug, PartialEq, Eq)]
pub enum Route {
    /// The input goes to the decoder of split payloads.
    Rejection,
    /// A transaction is submitted; the position is the one behind it.
    Submit(EraTx, usize),
    Accept,
    Done,
    UnknownLabel(u16),
    Fail(DecodeError),
}

/// What a [`Route`] holds.
pub ghost enum RouteView {
    Rejection,
    Submit((u16, Seq<u8>), usize),
    Accept,
    Done,
    UnknownLabel(u16),
    Fail(DecodeError),
}

impl View for Route {
    type V = RouteView;

    open spec fn view(&self) -> RouteView {
        match self {
            Route::Rejection => RouteView::Rejection,
            Route::Submit(tx, next) => RouteView::Submit(tx@, *next),
            Route::Accept => RouteView::Accept,
            Route::Done => RouteView::Done,
            Route::UnknownLabel(label) => RouteView::UnknownLabel(*label),
            Route::Fail(e) => RouteView::Fail(*e),
        }
    }
}

/// The label of the message at `pos`: the unsigned integer behind the head of
/// an array.
pub open spec fn label_at(input: Seq<u8>, pos: usize) -> Result<(u16, usize), DecodeError> {
    match array_at(input, pos) {
        Err(e) => Err(DecodeError::of_read(e)),
        Ok(head) => match u16_at(input, head.1) {
            Err(e) => Err(DecodeError::of_read(e)),
            Ok(label) => Ok(label),
        },
    }
}

/// What the input asks for. While bytes of a rejection are outstanding, all
/// input belongs to it, before any other message is considered.
pub open spec fn route(input: Seq<u8>, pos: usize, undecoded: bool) -> RouteView {
    if undecoded {
        RouteView::Rejection
    } else {
        match label_at(input, pos) {
            Err(e) => RouteView::Fail(e),
            Ok(label) => if label.0 == 0 {
                match EraTx::parse(input, label.1) {
                    Ok(found) => RouteView::Submit(found.0, found.1),
                    Err(e) => RouteView::Fail(e),
                }
            } else if label.0 == 1 {
                RouteView::Accept
            } else if label.0 == 2 {
                RouteView::Rejection
            } else if label.0 == 3 {
                RouteView::Done
            } else {
                RouteView::UnknownLabel(label.0)
            },
        }
    }
}

fn peek_label(d: &Cursor) -> (r: Result<(u16, usize), DecodeError>)
    ensures
        r == label_at(d.input@, d.pos),
{
    match read_array(d.input, d.pos) {
        Err(e) => Err(DecodeError::from_read(e)),
        Ok((_, after_head)) => match read_u16(d.input, after_head) {
            Err(e) => Err(DecodeError::from_read(e)),
            Ok(label) => Ok(label),
        },
    }
}

/// Decides what the input at the cursor asks for, given whether bytes of a
/// rejection are outstanding.
pub fn classify(d: &Cursor, undecoded: bool) -> (r: Route)
    ensures
        r@ == route(d.input@, d.pos, undecoded),
{
    if undecoded {
        return Route::Rejection;
    }
    let (label, after_label) = match peek_label(d) {
        Ok(v) => v,
        Err(e) => { return Route::Fail(e); },
    };
    match label {
        0 => {
            let mut body = Cursor { input: d.input, pos: after_label };
            match EraTx::decode(&mut body) {
                Ok(tx) => Route::Submit(tx, body.pos),
                Err(e) => Route::Fail(e),
            }
        },
        1 => Route::Accept,
        2 => Route::Rejection,
        3 => Route::Done,
        _ => Route::UnknownLabel(label),
    }
}

/// That a decode of a message ended as its route asks. On the route of a
/// rejection the decoder of split payloads decides between the rejection and
/// the signal for more bytes; every other route fixes the result. A message
/// whose head is not all there gives the signal for more bytes, with no
/// reasons; any other failure to read the head is an error.
pub open spec fn routed<Reject>(
    r: Result<Message<EraTx, Vec<Reject>>, MessageError<Reject>>,
    start: usize,
    end: usize,
    way: RouteView,
) -> bool {
    match way {
        RouteView::Rejection => end == start && (r matches Ok(m) ==> m is RejectTx) && (r matches Err(
            e,
        ) ==> e is Incomplete),
        RouteView::Submit(tx, next) => r matches Ok(Message::SubmitTx(found)) && found@ == tx && end
            == next,
        RouteView::Accept => r == Ok::<Message<EraTx, Vec<Reject>>, MessageError<Reject>>(
            Message::AcceptTx,
        ) && end == start,
        RouteView::Done => r == Ok::<Message<EraTx, Vec<Reject>>, MessageError<Reject>>(
            Message::Done,
        ) && end == start,
        RouteView::UnknownLabel(label) => r == Err::<
            Message<EraTx, Vec<Reject>>,
            MessageError<Reject>,
        >(MessageError::UnknownLabel(label)) && end == start,
        RouteView::Fail(e) => end == start && if e is Incomplete {
            r matches Err(MessageError::Incomplete(found)) && found.processed_reasons@.len() == 0
        } else {
            r == Err::<Message<EraTx, Vec<Reject>>, MessageError<Reject>>(MessageError::Decode(e))
        },
    }
}

impl<Reject> Message<EraTx, Vec<Reject>> {
    /// The message that the outcome of decoding a rejection stands for: the
    /// rejection with its reasons where it is complete, the signal for more
    /// bytes where it is not.
    pub open spec fn made_of(outcome: DecodingResult<Reject>) -> Result<
        Message<EraTx, Vec<Reject>>,
        MessageError<Reject>,
    > {
        match outcome {
            DecodingResult::Complete(reasons) => Ok(Message::RejectTx(reasons)),
            DecodingResult::Incomplete(reasons) => Err(
                MessageError::Incomplete(IncompleteDecoding { processed_reasons: reasons }),
            ),
        }
    }

    /// What a head that cannot be read comes to: the signal for more bytes
    /// where the input ends too early, an error otherwise.
    pub fn failed_head(e: DecodeError) -> (r: Result<
        Message<EraTx, Vec<Reject>>,
        MessageError<Reject>,
    >)
        ensures
            if e is Incomplete {
                r matches Err(MessageError::Incomplete(found)) && found.processed_reasons@.len() == 0
            } else {
                r == Err::<Message<EraTx, Vec<Reject>>, MessageError<Reject>>(
                    MessageError::Decode(e),
                )
            },
    {
        match e {
            DecodeError::Incomplete => Err(
                MessageError::Incomplete(IncompleteDecoding::from(Vec::new())),
            ),
            _ => Err(MessageError::Decode(e)),
        }
    }

    /// Makes the message of the outcome of decoding a rejection.
    pub fn from_decoding_result(outcome: DecodingResult<Reject>) -> (r: Result<
        Message<EraTx, Vec<Reject>>,
        MessageError<Reject>,
    >)
        ensures
            r == Self::made_of(outcome),
    {
        match outcome {
            DecodingResult::Complete(reasons) => Ok(Message::RejectTx(reasons)),
            DecodingResult::Incomplete(reasons) => Err(
                MessageError::Incomplete(IncompleteDecoding::from(reasons)),
            ),
        }
    }

    /// Decodes the message at the cursor.
    ///
    /// `ctx` is asked whether bytes of a rejection are outstanding, and the
    /// input is routed as [`classify`] says for its answer. On the route of a
    /// rejection `ctx` is handed the whole input, the cursor stays, and the
    /// result is what [`Message::from_decoding_result`] makes of what `ctx`
    /// returns. A submitted transaction is consumed. For the two messages
    /// without content, and on failure, the cursor stays. `ctx` is changed on
    /// the route of a rejection only.
    pub fn decode<C: DecodeCBORSplitPayload<Entity = Reject>>(d: &mut Cursor, ctx: &mut C) -> (r:
        Result<Message<EraTx, Vec<Reject>>, MessageError<Reject>>)
        ensures
            final(d).input@ == old(d).input@,
            exists|undecoded: bool|
                {
                    &&& call_ensures(C::has_undecoded_bytes, (&*old(ctx),), undecoded)
                    &&& routed(
                        r,
                        old(d).pos,
                        final(d).pos,
                        #[trigger] route(old(d).input@, old(d).pos, undecoded),
                    )
                    &&& route(old(d).input@, old(d).pos, undecoded) !is Rejection ==> *final(ctx)
                        == *old(ctx)
                    &&& route(old(d).input@, old(d).pos, undecoded) is Rejection ==> exists|
                        handed: &mut C,
                        outcome: DecodingResult<Reject>,
                    |
                        #![trigger call_ensures(C::try_decode_with_new_bytes, (handed, old(d).input), outcome)]
                        *handed == *old(ctx) && *final(handed) == *final(ctx) && call_ensures(
                            C::try_decode_with_new_bytes,
                            (handed, old(d).input),
                            outcome,
                        ) && r == Self::made_of(outcome)
                },
    {
        let undecoded = ctx.has_undecoded_bytes();
        let ghost way = route(d.input@, d.pos, undecoded);
        let r = match classify(d, undecoded) {
            Route::Rejection => {
                let outcome = ctx.try_decode_with_new_bytes(d.input);
                let made = Self::from_decoding_result(outcome);
                assert(made == Self::made_of(outcome));
                made
            },
            Route::Submit(tx, next) => {
                d.pos = next;
                Ok(Message::SubmitTx(tx))
            },
            Route::Accept => Ok(Message::AcceptTx),
            Route::Done => Ok(Message::Done),
            Route::UnknownLabel(label) => Err(MessageError::UnknownLabel(label)),
            Route::Fail(e) => Self::failed_head(e),
        };
        assert(routed(r, old(d).pos, d.pos, way) && (way !is Rejection ==> *ctx == *old(ctx)));
        r
    }
}

/// A decoder of the reasons of a rejection whose bytes may arrive in more than
/// one piece. It is handed all bytes that have arrived so far, and decodes them
/// from their start each time; what it keeps is only whether the last attempt
/// ran out of bytes.
#[derive(Debug)]
pub struct NodeErrorDecoder {
    pub pending: bool,
}

/// The one reason that stands for a rejection that cannot be read.
pub open spec fn unreadable() -> Seq<RejectReasonView> {
    seq![RejectReasonView::Unknown("unreadable rejection"@)]
}

impl NodeErrorDecoder {
    /// A decoder with nothing outstanding.
    pub fn new() -> (r: NodeErrorDecoder)
        ensures
            !r.pending,
    {
        NodeErrorDecoder { pending: false }
    }

    /// What decoding `bytes` gives, whatever was decoded before: the reasons of
    /// the entries where the rejection is all there, the signal for more bytes
    /// where the input ends too early, and one unknown reason where the bytes
    /// cannot be read as a rejection at all.
    pub open spec fn outcome(bytes: Seq<u8>, r: DecodingResult<RejectReason>) -> bool {
        match TxApplyErrors::parse(bytes, 0, Seq::empty()).result {
            Ok(errors) => r matches DecodingResult::Complete(reasons) && views_of(reasons@)
                == flattened(errors.non_script_errors),
            Err(DecodeError::Incomplete) => r matches DecodingResult::Incomplete(reasons)
                && reasons@.len() == 0,
            Err(_) => r matches DecodingResult::Complete(reasons) && views_of(reasons@)
                == unreadable(),
        }
    }
}

/// Whether two outcomes say the same: both complete or both incomplete, with
/// the same reasons.
pub open spec fn same_outcome(
    a: DecodingResult<RejectReason>,
    b: DecodingResult<RejectReason>,
) -> bool {
    match (a, b) {
        (DecodingResult::Complete(x), DecodingResult::Complete(y)) => views_of(x@)
            == views_of(y@),
        (DecodingResult::Incomplete(x), DecodingResult::Incomplete(y)) => views_of(x@)
            == views_of(y@),
        _ => false,
    }
}

/// A rejection that arrives in pieces is decoded as in one. Whatever the
/// decoder was handed before, an attempt on all the bytes gives what a first
/// attempt on them gives: the same reasons, or the same signal for more bytes.
pub proof fn resumed_decode_is_the_single_decode(
    bytes: Seq<u8>,
    resumed: DecodingResult<RejectReason>,
    single: DecodingResult<RejectReason>,
)
    requires
        NodeErrorDecoder::outcome(bytes, resumed),
        NodeErrorDecoder::outcome(bytes, single),
    ensures
        same_outcome(resumed, single),
{
    match (resumed, single) {
        (DecodingResult::Incomplete(x), DecodingResult::Incomplete(y)) => {
            assert(views_of(x@) =~= views_of(y@));
        },
        _ => {},
    }
}

/// The message of a rejection takes the same route whether bytes are
/// outstanding or not, so the codec hands the decoder the same input on a
/// resumed attempt as on a first one.
pub proof fn a_rejection_is_routed_alike(input: Seq<u8>, pos: usize)
    requires
        label_at(input, pos) matches Ok(label) && label.0 == 2,
    ensures
        route(input, pos, true) == RouteView::Rejection,
        route(input, pos, false) == RouteView::Rejection,
{
}

impl Message<EraTx, Vec<RejectReason>> {
    /// Decodes the message at the cursor with the decoder of node errors.
    ///
    /// This is [`Message::decode`] where the decoder of split payloads is
    /// known, so what it returns is known too: on the route of a rejection
    /// the result is what [`Message::from_decoding_result`] makes of the
    /// outcome of decoding the whole input, and bytes are outstanding
    /// afterwards exactly where that outcome is incomplete. On every other
    /// route the decoder is left as it was.
    pub fn decode_node_message(d: &mut Cursor, ctx: &mut NodeErrorDecoder) -> (r: Result<
        Message<EraTx, Vec<RejectReason>>,
        MessageError<RejectReason>,
    >)
        ensures
            final(d).input@ == old(d).input@,
            match route(old(d).input@, old(d).pos, old(ctx).pending) {
                RouteView::Rejection => final(d).pos == old(d).pos && final(ctx).pending == (r is Err)
                    && match r {
                    Ok(Message::RejectTx(reasons)) => NodeErrorDecoder::outcome(
                        old(d).input@,
                        DecodingResult::Complete(reasons),
                    ),
                    Err(MessageError::Incomplete(found)) => NodeErrorDecoder::outcome(
                        old(d).input@,
                        DecodingResult::Incomplete(found.processed_reasons),
                    ),
                    _ => false,
                },
                way => routed(r, old(d).pos, final(d).pos, way) && final(ctx).pending == old(
                    ctx,
                ).pending,
            },
    {
        match classify(d, ctx.has_undecoded_bytes()) {
            Route::Rejection => Self::from_decoding_result(ctx.try_decode_with_new_bytes(d.input)),
            Route::Submit(tx, next) => {
                d.pos = next;
                Ok(Message::SubmitTx(tx))
            },
            Route::Accept => Ok(Message::AcceptTx),
            Route::Done => Ok(Message::Done),
            Route::UnknownLabel(label) => Err(MessageError::UnknownLabel(label)),
            Route::Fail(e) => Self::failed_head(e),
        }
    }
}

impl DecodeCBORSplitPayload for NodeErrorDecoder {
    type Entity = RejectReason;

    /// Decodes `bytes` from their start. The result depends on `bytes` alone,
    /// so an attempt on all bytes gives what it would give without any attempt
    /// before it. Bytes are outstanding afterwards exactly where the result is
    /// `Incomplete`.
    fn try_decode_with_new_bytes(&mut self, bytes: &[u8]) -> (r: DecodingResult<RejectReason>)
        ensures
            NodeErrorDecoder::outcome(bytes@, r),
            final(self).pending == (r is Incomplete),
    {
        match TxRejectionReasons::decode(bytes) {
            Ok(found) => {
                self.pending = false;
                DecodingResult::Complete(found.reasons)
            },
            Err(DecodeError::Incomplete) => {
                self.pending = true;
                DecodingResult::Incomplete(Vec::new())
            },
            Err(_) => {
                self.pending = false;
                let mut reasons: Vec<RejectReason> = Vec::new();
                reasons.push(RejectReason::Unknown("unreadable rejection".to_owned()));
                assert(views_of(reasons@) =~= unreadable());
                DecodingResult::Complete(reasons)
            },
        }
    }

    fn has_undecoded_bytes(&self) -> (b: bool)
        ensures
            b == self.pending,
    {
        self.pending
    }
}

} // verus!
