use localtxsubmission::codec::{
    classify, DecodeCBORSplitPayload, DecodingResult, IncompleteDecoding, MessageError,
    NodeErrorDecoder, Route,
};
use localtxsubmission::cursor::Cursor;
use localtxsubmission::error::DecodeError;
use localtxsubmission::protocol::{
    EraTx, Message, RejectReason, RejectReasonBytes, TxRejectionReasons,
};

struct CBORDecoder;

impl DecodeCBORSplitPayload for CBORDecoder {
    type Entity = RejectReasonBytes;

    fn try_decode_with_new_bytes(&mut self, bytes: &[u8]) -> DecodingResult<Self::Entity> {
        let decoder = Cursor::new(bytes);
        let reason = RejectReasonBytes::decode(&decoder);
        DecodingResult::Complete(vec![reason])
    }

    fn has_undecoded_bytes(&self) -> bool {
        false
    }
}

const RAW_REJECT_RESPONSE: &str =
    "82028182059f820082018200820a81581c3b890fb5449baedf5342a48ee9c9ec6acbc995641be92ad21f08c686\
    8200820183038158202628ce6ff8cc7ff0922072d930e4a693c17f991748dedece0be64819a2f9ef7782582031d\
    54ce8d7e8cb262fc891282f44e9d24c3902dc38fac63fd469e8bf3006376b5820750852fdaf0f2dd724291ce007\
    b8e76d74bcf28076ed0c494cd90c0cfe1c9ca582008201820782000000018200820183048158201a547638b4cf4\
    a3cec386e2f898ac6bc987fadd04277e1d3c8dab5c505a5674e8158201457e4107607f83a80c3c4ffeb70910c2b\
    a3a35cf1699a2a7375f50fcc54a931820082028201830500821a00636185a2581c6f1a1f0c7ccf632cc9ff4b796\
    87ed13ffe5b624cce288b364ebdce50a144414749581b000000032a9f8800581c795ecedb09821cb922c13060c8\
    f6377c3344fa7692551e865d86ac5da158205399c766fb7c494cddb2f7ae53cc01285474388757bc05bd575c14a\
    713a432a901820082028201820085825820497fe6401e25733c073c01164c7f2a1a05de8c95e36580f9d1b05123\
    70040def028258207911ba2b7d91ac56b05ea351282589fe30f4717a707a1b9defaf282afe5ba44200825820791\
    1ba2b7d91ac56b05ea351282589fe30f4717a707a1b9defaf282afe5ba44201825820869bcb6f35e6b7912c25e5\
    cb33fb9906b097980a83f2b8ef40b51c4ef52eccd402825820efc267ad2c15c34a117535eecc877241ed836eb3e\
    643ec90de21ca1b12fd79c20282008202820181148200820283023a000f0f6d1a004944ce820082028201830d3a\
    000f0f6d1a00106253820082028201830182811a02409e10811a024138c01a0255e528ff";

#[test]
fn decode_reject_message() {
    let bytes = hex::decode(RAW_REJECT_RESPONSE).unwrap();
    let mut decoder = Cursor::new(&bytes);
    let maybe_msg: Message<EraTx, Vec<RejectReasonBytes>> =
        Message::decode(&mut decoder, &mut CBORDecoder).unwrap();
    match maybe_msg {
        Message::RejectTx(reasons) => {
            assert_eq!(reasons.len(), 1);
            assert_eq!(reasons[0].0, bytes);
        }
        _ => panic!("expected a rejection"),
    }
}

fn encoded(message: &Message<EraTx, RejectReasonBytes>) -> Vec<u8> {
    let mut out = vec![];
    message.encode(&mut out);
    out
}

#[test]
fn messages_are_encoded_as_labelled_arrays() {
    assert_eq!(
        encoded(&Message::SubmitTx(EraTx(5, vec![1, 2, 3]))),
        vec![0x82, 0x00, 0x82, 0x05, 0xd8, 0x18, 0x43, 0x01, 0x02, 0x03]
    );
    assert_eq!(encoded(&Message::AcceptTx), vec![0x81, 0x01]);
    assert_eq!(
        encoded(&Message::RejectTx(RejectReasonBytes(vec![0x9f, 0xff]))),
        vec![0x82, 0x02, 0x9f, 0xff]
    );
    assert_eq!(encoded(&Message::Done), vec![0x81, 0x03]);
}

#[test]
fn encoding_appends_to_what_is_there() {
    let mut out = vec![0xaa];
    EraTx(300, vec![0; 24]).encode(&mut out);
    let mut expected = vec![0xaa, 0x82, 0x19, 0x01, 0x2c, 0xd8, 0x18, 0x58, 0x18];
    expected.extend_from_slice(&[0; 24]);
    assert_eq!(out, expected);
    RejectReasonBytes(vec![1, 2]).encode(&mut out);
    assert_eq!(out[expected.len()..], [1, 2]);
}

#[test]
fn a_transaction_is_decoded_as_it_was_encoded() {
    let tx = EraTx(6, vec![0x84, 0xa0, 0xa0, 0xf5, 0xf6]);
    let mut bytes = vec![];
    tx.encode(&mut bytes);
    bytes.push(0x00);
    let mut d = Cursor::new(&bytes);
    assert_eq!(EraTx::decode(&mut d), Ok(tx.clone()));
    assert_eq!(d.position(), bytes.len() - 1);

    let message = encoded(&Message::SubmitTx(tx.clone()));
    let mut d = Cursor::new(&message);
    let decoded: Result<Message<EraTx, Vec<RejectReasonBytes>>, _> =
        Message::decode(&mut d, &mut CBORDecoder);
    assert_eq!(decoded, Ok(Message::SubmitTx(tx)));
    assert_eq!(d.position(), message.len());
}

#[test]
fn a_transaction_without_the_tag_is_refused() {
    let mut d = Cursor::new(&[0x82, 0x05, 0xd8, 0x19, 0x41, 0x00]);
    assert_eq!(EraTx::decode(&mut d), Err(DecodeError::InvalidValue));
    assert_eq!(d.position(), 0);
    let mut d = Cursor::new(&[0x82, 0x05, 0x41, 0x00]);
    assert_eq!(EraTx::decode(&mut d), Err(DecodeError::Malformed));
    let mut d = Cursor::new(&[0x82, 0x05, 0xd8, 0x18, 0x42, 0x00]);
    assert_eq!(EraTx::decode(&mut d), Err(DecodeError::Incomplete));
    assert_eq!(d.position(), 0);
}

#[test]
fn messages_without_content_are_recognised() {
    let mut d = Cursor::new(&[0x81, 0x01]);
    let decoded: Result<Message<EraTx, Vec<RejectReasonBytes>>, _> =
        Message::decode(&mut d, &mut CBORDecoder);
    assert_eq!(decoded, Ok(Message::AcceptTx));
    assert_eq!(d.position(), 0);
    let mut d = Cursor::new(&[0x81, 0x03]);
    let decoded: Result<Message<EraTx, Vec<RejectReasonBytes>>, _> =
        Message::decode(&mut d, &mut CBORDecoder);
    assert_eq!(decoded, Ok(Message::Done));
}

#[test]
fn what_is_no_message_is_refused() {
    let mut d = Cursor::new(&[0x81, 0x04]);
    let decoded: Result<Message<EraTx, Vec<RejectReasonBytes>>, _> =
        Message::decode(&mut d, &mut CBORDecoder);
    assert_eq!(decoded, Err(MessageError::UnknownLabel(4)));
    let mut d = Cursor::new(&[0x01]);
    let decoded: Result<Message<EraTx, Vec<RejectReasonBytes>>, _> =
        Message::decode(&mut d, &mut CBORDecoder);
    assert_eq!(decoded, Err(MessageError::Decode(DecodeError::Malformed)));
    let mut d = Cursor::new(&[0x82]);
    let decoded: Result<Message<EraTx, Vec<RejectReasonBytes>>, _> =
        Message::decode(&mut d, &mut CBORDecoder);
    assert_eq!(
        decoded,
        Err(MessageError::Incomplete(IncompleteDecoding { processed_reasons: vec![] }))
    );
    let mut d = Cursor::new(&[0x82, 0x00, 0x82, 0x05, 0xd8, 0x18, 0x42, 0x00]);
    let decoded: Result<Message<EraTx, Vec<RejectReasonBytes>>, _> =
        Message::decode(&mut d, &mut CBORDecoder);
    assert_eq!(
        decoded,
        Err(MessageError::Incomplete(IncompleteDecoding { processed_reasons: vec![] }))
    );
    assert_eq!(d.position(), 0);
    let mut d = Cursor::new(&[0x82, 0x00, 0x82, 0x05, 0x00]);
    let decoded: Result<Message<EraTx, Vec<RejectReasonBytes>>, _> =
        Message::decode(&mut d, &mut CBORDecoder);
    assert_eq!(decoded, Err(MessageError::Decode(DecodeError::Malformed)));
    assert_eq!(d.position(), 0);
}

#[test]
fn the_input_is_routed_by_its_label() {
    assert_eq!(classify(&Cursor::new(&[0x81, 0x01]), false), Route::Accept);
    assert_eq!(classify(&Cursor::new(&[0x81, 0x01]), true), Route::Rejection);
    assert_eq!(classify(&Cursor::new(&[0x82, 0x02, 0x00]), false), Route::Rejection);
    assert_eq!(classify(&Cursor::new(&[0x81, 0x03]), false), Route::Done);
    assert_eq!(classify(&Cursor::new(&[0x81, 0x19, 0x01, 0x00]), false), Route::UnknownLabel(256));
    assert_eq!(classify(&Cursor::new(&[]), false), Route::Fail(DecodeError::Incomplete));
    assert_eq!(
        classify(&Cursor::new(&[0x82, 0x00, 0x82, 0x01, 0xd8, 0x18, 0x41, 0x09]), false),
        Route::Submit(EraTx(1, vec![9]), 8)
    );
}

#[test]
fn the_outcome_of_a_split_decode_becomes_a_message() {
    let complete: Result<Message<EraTx, Vec<u8>>, MessageError<u8>> =
        Message::from_decoding_result(DecodingResult::Complete(vec![1, 2]));
    assert_eq!(complete, Ok(Message::RejectTx(vec![1, 2])));
    let incomplete: Result<Message<EraTx, Vec<u8>>, MessageError<u8>> =
        Message::from_decoding_result(DecodingResult::Incomplete(vec![3]));
    assert_eq!(
        incomplete,
        Err(MessageError::Incomplete(IncompleteDecoding { processed_reasons: vec![3] }))
    );
    assert_eq!(IncompleteDecoding::from(vec![4u8]), IncompleteDecoding { processed_reasons: vec![4] });
}

#[test]
fn the_reference_response_is_decoded_into_reasons() {
    let bytes = hex::decode(RAW_REJECT_RESPONSE).unwrap();
    let found = TxRejectionReasons::decode(&bytes).unwrap();
    assert!(!found.reasons.is_empty());
    let mut d = Cursor::new(&bytes);
    let mut ctx = NodeErrorDecoder::new();
    let message = Message::decode(&mut d, &mut ctx);
    assert_eq!(message, Ok(Message::RejectTx(found.reasons)));
    assert!(!ctx.has_undecoded_bytes());
}

#[test]
fn a_rejection_that_arrives_in_two_pieces_is_decoded_as_in_one() {
    let bytes = hex::decode(RAW_REJECT_RESPONSE).unwrap();
    let whole = match NodeErrorDecoder::new().try_decode_with_new_bytes(&bytes) {
        DecodingResult::Complete(reasons) => reasons,
        DecodingResult::Incomplete(_) => panic!("the whole response is complete"),
    };
    assert!(!whole.is_empty());
    for cut in 0..bytes.len() {
        let mut ctx = NodeErrorDecoder::new();
        assert_eq!(
            ctx.try_decode_with_new_bytes(&bytes[..cut]),
            DecodingResult::Incomplete(vec![]),
            "cut at {}",
            cut
        );
        assert!(ctx.has_undecoded_bytes());
        assert_eq!(ctx.try_decode_with_new_bytes(&bytes), DecodingResult::Complete(whole.clone()));
        assert!(!ctx.has_undecoded_bytes());
    }
}

#[test]
fn the_codec_asks_for_more_bytes_and_resumes() {
    let bytes = hex::decode(RAW_REJECT_RESPONSE).unwrap();
    let whole = TxRejectionReasons::decode(&bytes).unwrap().reasons;
    for cut in 0..bytes.len() {
        let mut ctx = NodeErrorDecoder::new();
        let mut d = Cursor::new(&bytes[..cut]);
        let first = Message::decode(&mut d, &mut ctx);
        assert_eq!(
            first,
            Err(MessageError::Incomplete(IncompleteDecoding { processed_reasons: vec![] })),
            "cut at {}",
            cut
        );
        // the head of the message is read without the decoder of rejections
        assert_eq!(ctx.has_undecoded_bytes(), cut >= 2);
        let mut d = Cursor::new(&bytes);
        assert_eq!(Message::decode(&mut d, &mut ctx), Ok(Message::RejectTx(whole.clone())));
        assert!(!ctx.has_undecoded_bytes());
    }
}

#[test]
fn while_bytes_are_outstanding_all_input_belongs_to_the_rejection() {
    let mut ctx = NodeErrorDecoder::new();
    assert_eq!(
        ctx.try_decode_with_new_bytes(&[0x82, 0x02, 0x81]),
        DecodingResult::Incomplete(vec![])
    );
    // the bytes of an accept message are taken for a rejection now
    let mut d = Cursor::new(&[0x81, 0x01]);
    assert_eq!(
        Message::decode(&mut d, &mut ctx),
        Ok(Message::RejectTx(vec![RejectReason::Unknown("unreadable rejection".to_string())]))
    );
    assert!(!ctx.has_undecoded_bytes());
    let mut d = Cursor::new(&[0x81, 0x01]);
    assert_eq!(Message::decode(&mut d, &mut ctx), Ok(Message::AcceptTx));
}

#[test]
fn a_rejection_that_cannot_be_read_has_one_unknown_reason() {
    let mut ctx = NodeErrorDecoder::new();
    assert_eq!(
        ctx.try_decode_with_new_bytes(&[0x82, 0x03, 0x80]),
        DecodingResult::Complete(vec![RejectReason::Unknown("unreadable rejection".to_string())])
    );
    assert!(!ctx.has_undecoded_bytes());
}

#[test]
fn the_known_decoder_tells_whether_bytes_are_outstanding() {
    let bytes = hex::decode(RAW_REJECT_RESPONSE).unwrap();
    let whole = TxRejectionReasons::decode(&bytes).unwrap();
    assert!(!whole.fully_decoded());
    assert_eq!(whole.unparsed(), whole.skipped.len());
    let mut ctx = NodeErrorDecoder::new();
    let mut d = Cursor::new(&bytes[..bytes.len() - 1]);
    assert_eq!(
        Message::decode_node_message(&mut d, &mut ctx),
        Err(MessageError::Incomplete(IncompleteDecoding { processed_reasons: vec![] }))
    );
    assert!(ctx.pending);
    assert_eq!(d.position(), 0);
    let mut d = Cursor::new(&bytes);
    assert_eq!(
        Message::decode_node_message(&mut d, &mut ctx),
        Ok(Message::RejectTx(whole.reasons))
    );
    assert!(!ctx.pending);
    let mut d = Cursor::new(&[0x81, 0x03]);
    assert_eq!(Message::decode_node_message(&mut d, &mut ctx), Ok(Message::Done));
    assert!(!ctx.pending);
}

#[test]
fn heads_are_written_in_their_shortest_form() {
    for (era, head) in [
        (0u16, vec![0x00]),
        (23, vec![0x17]),
        (24, vec![0x18, 0x18]),
        (255, vec![0x18, 0xff]),
        (256, vec![0x19, 0x01, 0x00]),
        (65535, vec![0x19, 0xff, 0xff]),
    ] {
        let mut out = vec![];
        EraTx(era, vec![]).encode(&mut out);
        let mut expected = vec![0x82];
        expected.extend_from_slice(&head);
        expected.extend_from_slice(&[0xd8, 0x18, 0x40]);
        assert_eq!(out, expected);
    }
    for (len, head) in [
        (23usize, vec![0x57]),
        (24, vec![0x58, 0x18]),
        (255, vec![0x58, 0xff]),
        (256, vec![0x59, 0x01, 0x00]),
        (65535, vec![0x59, 0xff, 0xff]),
        (65536, vec![0x5a, 0x00, 0x01, 0x00, 0x00]),
        (16909060, vec![0x5a, 0x01, 0x02, 0x03, 0x04]),
    ] {
        let mut out = vec![];
        EraTx(1, vec![7; len]).encode(&mut out);
        let mut expected = vec![0x82, 0x01, 0xd8, 0x18];
        expected.extend_from_slice(&head);
        expected.extend_from_slice(&vec![7; len]);
        assert_eq!(out, expected);
        let mut d = Cursor::new(&out);
        assert_eq!(EraTx::decode(&mut d), Ok(EraTx(1, vec![7; len])));
    }
}
