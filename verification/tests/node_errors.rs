use localtxsubmission::cursor::Cursor;
use localtxsubmission::error::DecodeError;
use localtxsubmission::failures::{
    AlonzoUtxoPredFailure, AlonzoUtxowPredFailure, BabbageUtxoPredFailure, BabbageUtxowPredFailure,
    ShelleyLedgerPredFailure, ShelleyUtxowPredFailure,
};
use localtxsubmission::node_errors::{expect_tagged, TxApplyErrors};
use localtxsubmission::protocol::{RejectReason, TxRejectionReasons};
use localtxsubmission::scope::OuterScope;
use localtxsubmission::value::{Asset, PolicyAssets, TxInput, Value};
use pallas_codec::minicbor::encode::write::EndOfSlice;
use pallas_codec::minicbor::encode::Error;
use pallas_codec::minicbor::Encoder;

fn encode_trace() -> Result<[u8; 1280], Error<EndOfSlice>> {
    let mut buffer = [0u8; 1280];
    let mut encoder = Encoder::new(&mut buffer[..]);

    let _e = encoder
        .array(2)?
        .u8(2)?
        .array(1)?
        .array(2)?
        .u8(5)?
        .begin_array()?
        // Encode ledger errors
        .array(2)?
        .u8(0)? // Tag for BabbageUtxowPredFailure
        .array(2)?
        .u8(2)? // Tag for BabbageUtxoPredFailure
        .array(2)?
        .u8(1)? // Tag for AlonzoUtxoPredFailure
        .array(2)?
        .u8(100)? // Unsupported Tag
        .array(1)? // dummy value
        .array(1)? // dummy value
        .array(1)? // dummy value
        .array(1)? // dummy value
        .array(1)? // dummy value
        .array(1)? // dummy value
        .u8(200)?
        .end()?;

    Ok(buffer)
}

#[test]
fn test_decode_malformed_error() {
    let buffer = encode_trace().unwrap();
    let mut decoder = Cursor::new(&buffer);
    let a = TxApplyErrors::decode(&mut decoder, &mut vec![]).unwrap();
    assert!(a.non_script_errors.is_empty());
}

const SPLASH_BOT: &str = "82028182059f820082018207830000000100028200820282018207820181820382018258200faddf00919ef15d38ac07684199e69be95a003a15f757bf77701072b050c1f500820082028201830500821a06760d80a1581cfd10da3e6a578708c877e14b6aaeda8dc3a36f666a346eec52a30b3aa14974657374746f6b656e1a0001fbd08200820282018200838258200faddf00919ef15d38ac07684199e69be95a003a15f757bf77701072b050c1f5008258205f85cf7db4713466bc8d9d32a84b5b6bfd2f34a76b5f8cf5a5cb04b4d6d6f0380082582096eb39b8d909373c8275c611fae63792f5e3d0a67c1eee5b3afb91fdcddc859100ff";

const SPLASH_DAO: &str = "82028182059f820082018200820281581cfdaaeb99e53be5f626fb210239ece94127401d7f395a097d0a5d18ef82008201820783000001000300820082018200820181581c28c58c07ecd2012c6c683b44ce9691ea9b0fdb9b868125a2ac29382382008201820581581c0bbd6545f014f95a65b9df462088c6600d9b2bb6cee3fe20b53241ea820082028201820782018182038201825820e54d54359cd0da7b5ee800c3c83b3f108894d4ef76bde10df66f87c429600e88018200820282018305821a002dc6c0a2581cadf2425c138138efce80fd0b2ed8f227caf052f9ec44b8a92e942dfaa14653504c4153481b00001d1a94a20000581cfdaaeb99e53be5f626fb210239ece94127401d7f395a097d0a5d18efa15820378d0caaaa3855f1b38693c1d6ef004fd118691c95c959d4efa950d6d6fcf7c101821a00765cada1581cadf2425c138138efce80fd0b2ed8f227caf052f9ec44b8a92e942dfaa14653504c4153481b00001d1a94a20000820082028201820081825820e54d54359cd0da7b5ee800c3c83b3f108894d4ef76bde10df66f87c429600e880182018201a1581de028c58c07ecd2012c6c683b44ce9691ea9b0fdb9b868125a2ac29382300ff";

#[test]
fn test_decode_splash_bot_example() {
    let hex_str = SPLASH_BOT;
    let bytes = hex::decode(hex_str).unwrap();

    let mut decoder = Cursor::new(&bytes);
    let a = TxApplyErrors::decode(&mut decoder, &mut vec![]).unwrap();
    assert!(!a.non_script_errors.is_empty());
}

#[test]
fn test_decode_splash_dao_example() {
    let hex_str = SPLASH_DAO;
    let bytes = hex::decode(hex_str).unwrap();

    let mut decoder = Cursor::new(&bytes);
    let a = TxApplyErrors::decode(&mut decoder, &mut vec![]).unwrap();
    assert!(!a.non_script_errors.is_empty());
}


const ENVELOPE: [u8; 6] = [0x82, 0x02, 0x81, 0x82, 0x05, 0x9f];

fn hash(size: usize, first: u8) -> Vec<u8> {
    (0..size).map(|i| first.wrapping_add(i as u8)).collect()
}

fn bytes_item(content: &[u8]) -> Vec<u8> {
    let mut out = vec![0x58, content.len() as u8];
    out.extend_from_slice(content);
    out
}

// [0, [2, [1, [0, [[hash, index]]]]]]
fn bad_input_entry(first: u8, index: u8) -> Vec<u8> {
    let mut out = vec![0x82, 0x00, 0x82, 0x02, 0x82, 0x01, 0x82, 0x00, 0x81, 0x82];
    out.extend_from_slice(&bytes_item(&hash(32, first)));
    out.push(index);
    out
}

// [0, [1, [0, [1, [hash]]]]]
fn missing_key_entry(first: u8) -> Vec<u8> {
    let mut out = vec![0x82, 0x00, 0x82, 0x01, 0x82, 0x00, 0x82, 0x01, 0x81];
    out.extend_from_slice(&bytes_item(&hash(28, first)));
    out
}

fn message(entries: &[Vec<u8>]) -> Vec<u8> {
    let mut out = ENVELOPE.to_vec();
    for entry in entries {
        out.extend_from_slice(entry);
    }
    out.push(0xff);
    out
}

fn decode(bytes: &[u8]) -> (Result<TxApplyErrors, DecodeError>, usize, Vec<OuterScope>) {
    let mut d = Cursor::new(bytes);
    let mut ctx = vec![];
    let r = TxApplyErrors::decode(&mut d, &mut ctx);
    (r, d.position(), ctx)
}

fn bad_input(first: u8, index: u64) -> ShelleyLedgerPredFailure {
    ShelleyLedgerPredFailure::UtxowFailure(BabbageUtxowPredFailure::UtxoFailure(
        BabbageUtxoPredFailure::AlonzoInBabbageUtxoPredFailure(
            AlonzoUtxoPredFailure::BadInputsUtxo(vec![TxInput { tx_hash: hash(32, first), index }]),
        ),
    ))
}

fn missing_key(first: u8) -> ShelleyLedgerPredFailure {
    ShelleyLedgerPredFailure::UtxowFailure(
        BabbageUtxowPredFailure::AlonzoInBabbageUtxowPredFailure(
            AlonzoUtxowPredFailure::ShelleyInAlonzoUtxowPredfailure(
                ShelleyUtxowPredFailure::MissingVKeyWitnessesUTXOW(vec![hash(28, first)]),
            ),
        ),
    )
}

#[test]
fn the_malformed_trace_counts_one_skipped_entry() {
    let buffer = encode_trace().unwrap();
    let (r, pos, ctx) = decode(&buffer);
    let errors = r.unwrap();
    assert_eq!(errors.skipped, vec![DecodeError::Unsupported { tag: 100 }]);
    assert_eq!(pos, 24);
    assert_eq!(ctx, vec![]);
}

#[test]
fn an_empty_sequence_of_entries_gives_no_reasons() {
    let bytes = message(&[]);
    assert_eq!(bytes, vec![0x82, 0x02, 0x81, 0x82, 0x05, 0x9f, 0xff]);
    let (r, pos, ctx) = decode(&bytes);
    assert_eq!(r, Ok(TxApplyErrors { non_script_errors: vec![], skipped: vec![] }));
    assert_eq!(pos, 7);
    assert_eq!(ctx, vec![]);
    let reasons = TxRejectionReasons::decode(&bytes).unwrap();
    assert!(reasons.reasons.is_empty());
    assert!(reasons.skipped.is_empty());
}

#[test]
fn entries_are_decoded_in_the_order_of_the_wire() {
    let bytes = message(&[bad_input_entry(7, 3), missing_key_entry(9), bad_input_entry(1, 0)]);
    let (r, pos, ctx) = decode(&bytes);
    assert_eq!(
        r,
        Ok(TxApplyErrors {
            non_script_errors: vec![bad_input(7, 3), missing_key(9), bad_input(1, 0)],
            skipped: vec![],
        })
    );
    assert_eq!(pos, bytes.len());
    assert_eq!(ctx, vec![]);
}

#[test]
fn an_entry_with_an_unknown_tag_is_skipped_between_two_good_ones() {
    // [0, [2, [9, [1, 2, {3: [4]}]]]]
    let unknown = vec![0x82, 0x00, 0x82, 0x02, 0x82, 0x09, 0x83, 0x01, 0x02, 0xa1, 0x03, 0x81, 0x04];
    let bytes = message(&[bad_input_entry(7, 3), unknown, missing_key_entry(9)]);
    let (r, pos, _) = decode(&bytes);
    assert_eq!(
        r,
        Ok(TxApplyErrors {
            non_script_errors: vec![bad_input(7, 3), missing_key(9)],
            skipped: vec![DecodeError::Unsupported { tag: 9 }],
        })
    );
    assert_eq!(pos, bytes.len());
}

#[test]
fn an_entry_of_a_wrong_shape_is_skipped_between_two_good_ones() {
    let shapes: Vec<(Vec<u8>, DecodeError)> = vec![
        (vec![0x83, 0x00, 0x01, 0x02], DecodeError::ShapeMismatch { found: 3 }),
        (vec![0x80], DecodeError::ShapeMismatch { found: 0 }),
        (vec![0x18, 0x2a], DecodeError::UnexpectedShape),
        (vec![0x9f, 0x00, 0x9f, 0xff, 0xff], DecodeError::UnexpectedShape),
        (vec![0xa1, 0x00, 0x82, 0x01, 0x02], DecodeError::UnexpectedShape),
        (vec![0x82, 0x81, 0x00, 0x00], DecodeError::UnexpectedShape),
        (vec![0x82, 0x00, 0x05], DecodeError::UnexpectedShape),
        (vec![0x82, 0x00, 0x82, 0x02, 0x82, 0x01, 0x83, 0x00, 0x80, 0x00], DecodeError::Unsupported { tag: 0 }),
        (vec![0x82, 0x00, 0x82, 0x02, 0x82, 0x01, 0x82, 0x05, 0x00], DecodeError::Unsupported { tag: 5 }),
    ];
    for (entry, error) in shapes {
        let bytes = message(&[missing_key_entry(1), entry, bad_input_entry(2, 2)]);
        let (r, pos, _) = decode(&bytes);
        assert_eq!(
            r,
            Ok(TxApplyErrors {
                non_script_errors: vec![missing_key(1), bad_input(2, 2)],
                skipped: vec![error],
            })
        );
        assert_eq!(pos, bytes.len());
    }
}

#[test]
fn a_hash_of_a_wrong_size_makes_the_entry_invalid() {
    let mut entry = vec![0x82, 0x00, 0x82, 0x01, 0x82, 0x00, 0x82, 0x01, 0x82];
    entry.extend_from_slice(&bytes_item(&hash(27, 0)));
    entry.extend_from_slice(&bytes_item(&hash(28, 0)));
    let bytes = message(&[entry, bad_input_entry(2, 2)]);
    let (r, pos, _) = decode(&bytes);
    assert_eq!(
        r,
        Ok(TxApplyErrors {
            non_script_errors: vec![bad_input(2, 2)],
            skipped: vec![DecodeError::InvalidValue],
        })
    );
    assert_eq!(pos, bytes.len());

    let mut input = vec![0x82];
    input.extend_from_slice(&bytes_item(&hash(31, 0)));
    input.push(0x00);
    let mut d = Cursor::new(&input);
    let mut ctx = vec![OuterScope::Definite(1)];
    assert_eq!(TxInput::decode(&mut d, &mut ctx), Err(DecodeError::InvalidValue));
    assert_eq!(d.position(), 34);
    assert_eq!(ctx, vec![OuterScope::Definite(1)]);
}

#[test]
fn lists_may_be_of_indefinite_length() {
    // [0, [1, [0, [2, [_ hash, hash]]]]]
    let mut entry = vec![0x82, 0x00, 0x82, 0x01, 0x82, 0x00, 0x82, 0x02, 0x9f];
    entry.extend_from_slice(&bytes_item(&hash(28, 1)));
    entry.extend_from_slice(&bytes_item(&hash(28, 2)));
    entry.push(0xff);
    // [0, [2, [1, [0, [_ [hash, 1], [hash, 500]]]]]]
    let mut inputs = vec![0x82, 0x00, 0x82, 0x02, 0x82, 0x01, 0x82, 0x00, 0x9f];
    inputs.push(0x82);
    inputs.extend_from_slice(&bytes_item(&hash(32, 3)));
    inputs.push(0x01);
    inputs.push(0x82);
    inputs.extend_from_slice(&bytes_item(&hash(32, 4)));
    inputs.extend_from_slice(&[0x19, 0x01, 0xf4]);
    inputs.push(0xff);
    let bytes = message(&[entry, inputs]);
    let (r, pos, _) = decode(&bytes);
    let errors = r.unwrap();
    assert_eq!(pos, bytes.len());
    assert!(errors.skipped.is_empty());
    let reasons: Vec<RejectReason> =
        errors.non_script_errors.into_iter().map(RejectReason::from).collect();
    assert_eq!(
        reasons,
        vec![
            RejectReason::MissingScriptWitnesses(vec![hash(28, 1), hash(28, 2)]),
            RejectReason::BadInputsUtxo(vec![
                TxInput { tx_hash: hash(32, 3), index: 1 },
                TxInput { tx_hash: hash(32, 4), index: 500 },
            ]),
        ]
    );
}

#[test]
fn an_empty_list_is_a_list() {
    let entry = vec![0x82, 0x00, 0x82, 0x01, 0x82, 0x00, 0x82, 0x01, 0x80];
    let bytes = message(&[entry]);
    let (r, pos, _) = decode(&bytes);
    assert_eq!(pos, bytes.len());
    let reasons: Vec<RejectReason> =
        r.unwrap().non_script_errors.into_iter().map(RejectReason::from).collect();
    assert_eq!(reasons, vec![RejectReason::MissingVKeyWitnesses(vec![])]);
}

#[test]
fn an_envelope_of_another_shape_is_refused() {
    assert_eq!(decode(&[0x82, 0x03, 0x80]).0, Err(DecodeError::Unsupported { tag: 3 }));
    assert_eq!(decode(&[0x83, 0x02, 0x80]).0, Err(DecodeError::ShapeMismatch { found: 3 }));
    assert_eq!(decode(&[0x02]).0, Err(DecodeError::UnexpectedShape));
    assert_eq!(decode(&[0x82, 0x02, 0x82]).0, Err(DecodeError::ShapeMismatch { found: 2 }));
    assert_eq!(decode(&[0x82, 0x02, 0x81, 0x81]).0, Err(DecodeError::ShapeMismatch { found: 1 }));
    assert_eq!(
        decode(&[0x82, 0x02, 0x81, 0x82, 0x05, 0x80]).0,
        Err(DecodeError::UnexpectedShape)
    );
    assert_eq!(
        decode(&[0x82, 0x02, 0x81, 0x82, 0x05, 0x00]).0,
        Err(DecodeError::UnexpectedShape)
    );
}

#[test]
fn the_inner_tag_of_the_envelope_may_be_any_small_number() {
    let (r, pos, _) = decode(&[0x82, 0x02, 0x81, 0x82, 0x06, 0x9f, 0xff]);
    assert_eq!(r, Ok(TxApplyErrors { non_script_errors: vec![], skipped: vec![] }));
    assert_eq!(pos, 7);
}

#[test]
fn input_that_ends_before_the_close_marker_is_incomplete() {
    let bytes = message(&[bad_input_entry(7, 3), missing_key_entry(9)]);
    for cut in 0..bytes.len() {
        assert_eq!(decode(&bytes[..cut]).0, Err(DecodeError::Incomplete), "cut at {}", cut);
    }
    assert!(decode(&bytes).0.is_ok());
}

#[test]
fn bytes_that_are_no_token_end_the_decode() {
    let bytes = message(&[bad_input_entry(7, 3), vec![0x1c], missing_key_entry(9)]);
    let (r, pos, ctx) = decode(&bytes);
    assert_eq!(r, Err(DecodeError::Malformed));
    assert_eq!(pos, 6 + bad_input_entry(7, 3).len());
    assert_eq!(ctx, vec![]);
}

#[test]
fn a_close_marker_inside_a_definite_array_ends_the_decode() {
    let bytes = message(&[vec![0x82, 0x00, 0xff], missing_key_entry(9)]);
    let (r, _, ctx) = decode(&bytes);
    assert_eq!(r, Err(DecodeError::Desynchronized));
    assert_eq!(ctx, vec![]);
}

#[test]
fn the_head_of_a_layer_is_an_array_and_a_tag() {
    let mut d = Cursor::new(&[0x83, 0x05, 0x00, 0x00]);
    let mut ctx = vec![OuterScope::Definite(1)];
    assert_eq!(expect_tagged(vec![2, 3], &mut d, &mut ctx), Ok((3, 5)));
    assert_eq!(d.position(), 2);
    assert_eq!(ctx, vec![OuterScope::Definite(2)]);
}

#[test]
fn every_layer_keeps_the_tag_that_it_does_not_model() {
    let mut ctx = vec![];
    let mut d = Cursor::new(&[0x82, 0x03, 0x00]);
    assert_eq!(ShelleyUtxowPredFailure::decode(&mut d, &mut ctx), Err(DecodeError::Unsupported { tag: 3 }));
    let mut d = Cursor::new(&[0x82, 0x07, 0x00]);
    assert_eq!(AlonzoUtxowPredFailure::decode(&mut d, &mut ctx), Err(DecodeError::Unsupported { tag: 7 }));
    let mut d = Cursor::new(&[0x82, 0x01, 0x00]);
    assert_eq!(AlonzoUtxoPredFailure::decode(&mut d, &mut ctx), Err(DecodeError::Unsupported { tag: 1 }));
    let mut d = Cursor::new(&[0x82, 0x02, 0x00]);
    assert_eq!(BabbageUtxoPredFailure::decode(&mut d, &mut ctx), Err(DecodeError::Unsupported { tag: 2 }));
    let mut d = Cursor::new(&[0x82, 0x00, 0x00]);
    assert_eq!(BabbageUtxowPredFailure::decode(&mut d, &mut ctx), Err(DecodeError::Unsupported { tag: 0 }));
    let mut d = Cursor::new(&[0x82, 0x18, 0xc8, 0x00]);
    assert_eq!(ShelleyLedgerPredFailure::decode(&mut d, &mut ctx), Err(DecodeError::Unsupported { tag: 200 }));
    assert_eq!(d.position(), 4);
    assert_eq!(ctx, vec![]);
}

#[test]
fn a_layer_that_does_not_model_a_tag_drains_the_stack() {
    // [100, 0], then a sibling
    let bytes = [0x82, 0x18, 0x64, 0x00, 0x05];
    let mut d = Cursor::new(&bytes);
    let mut ctx = vec![];
    assert_eq!(
        AlonzoUtxoPredFailure::decode(&mut d, &mut ctx),
        Err(DecodeError::Unsupported { tag: 100 })
    );
    assert!(ctx.is_empty());
    assert_eq!(d.position(), 4);

    let mut d = Cursor::new(&bytes);
    let mut ctx = vec![];
    assert_eq!(
        ShelleyUtxowPredFailure::decode(&mut d, &mut ctx),
        Err(DecodeError::Unsupported { tag: 100 })
    );
    assert!(ctx.is_empty());
    assert_eq!(d.position(), 4);
}

#[test]
fn a_layer_whose_head_or_payload_fails_drains_the_stack() {
    // an array of three where two are expected: [1, [2], 3], then a sibling
    let mut d = Cursor::new(&[0x83, 0x01, 0x81, 0x02, 0x03, 0x05]);
    let mut ctx = vec![];
    assert_eq!(
        BabbageUtxoPredFailure::decode(&mut d, &mut ctx),
        Err(DecodeError::ShapeMismatch { found: 3 })
    );
    assert!(ctx.is_empty());
    assert_eq!(d.position(), 5);

    // [1, [7, 8]]: key witnesses that are no byte strings, then a sibling
    let mut d = Cursor::new(&[0x82, 0x01, 0x82, 0x07, 0x08, 0x05]);
    let mut ctx = vec![];
    assert_eq!(ShelleyUtxowPredFailure::decode(&mut d, &mut ctx), Err(DecodeError::UnexpectedShape));
    assert!(ctx.is_empty());
    assert_eq!(d.position(), 5);

    // the scopes around the layer are drained with it
    let mut d = Cursor::new(&[0x82, 0x09, 0x00, 0x01, 0x02, 0x05]);
    let mut ctx = vec![OuterScope::Definite(3)];
    assert_eq!(
        AlonzoUtxowPredFailure::decode(&mut d, &mut ctx),
        Err(DecodeError::Unsupported { tag: 9 })
    );
    assert!(ctx.is_empty());
    assert_eq!(d.position(), 5);

    // draining that runs out of bytes reports that
    let mut d = Cursor::new(&[0x82, 0x09]);
    let mut ctx = vec![];
    assert_eq!(AlonzoUtxowPredFailure::decode(&mut d, &mut ctx), Err(DecodeError::Incomplete));
    assert!(ctx.is_empty());
    assert_eq!(d.position(), 2);
}

#[test]
fn a_failure_of_a_nested_layer_is_handed_on_as_it_comes() {
    // [1, [2, [1, [9, 0]]]] is a Babbage failure around an Alonzo tag that is not modelled
    let bytes = [0x82, 0x02, 0x82, 0x01, 0x82, 0x09, 0x00, 0x05];
    let mut d = Cursor::new(&bytes);
    let mut ctx = vec![];
    assert_eq!(
        BabbageUtxowPredFailure::decode(&mut d, &mut ctx),
        Err(DecodeError::Unsupported { tag: 9 })
    );
    assert!(ctx.is_empty());
    assert_eq!(d.position(), 7);
}

#[test]
fn required_signers_are_decoded_and_have_no_reason_of_their_own() {
    let mut entry = vec![0x82, 0x00, 0x82, 0x01, 0x82, 0x05, 0x81];
    entry.extend_from_slice(&bytes_item(&hash(28, 5)));
    let mut d = Cursor::new(&entry);
    let mut ctx = vec![];
    let failure = ShelleyLedgerPredFailure::decode(&mut d, &mut ctx).unwrap();
    assert_eq!(
        failure,
        ShelleyLedgerPredFailure::UtxowFailure(
            BabbageUtxowPredFailure::AlonzoInBabbageUtxowPredFailure(
                AlonzoUtxowPredFailure::MissingRequiredSigners(vec![hash(28, 5)])
            )
        )
    );
    assert_eq!(d.position(), entry.len());
    assert_eq!(ctx, vec![]);
    assert_eq!(RejectReason::from(failure), RejectReason::Unknown("MissingRequiredSigners".to_string()));
}

fn value_entry(first: &[u8], second: &[u8]) -> Vec<u8> {
    let mut out = vec![0x82, 0x00, 0x82, 0x02, 0x82, 0x01, 0x83, 0x05];
    out.extend_from_slice(first);
    out.extend_from_slice(second);
    out
}

// [108400000, {policy: {"testtoken": 130000}}]
fn token_value() -> Vec<u8> {
    let mut out = vec![0x82, 0x1a, 0x06, 0x76, 0x0d, 0x80, 0xa1];
    out.extend_from_slice(&[0x58, 0x1c]);
    out.extend_from_slice(&hash(28, 0xfd));
    out.extend_from_slice(&[0xa1, 0x49]);
    out.extend_from_slice(b"testtoken");
    out.extend_from_slice(&[0x1a, 0x00, 0x01, 0xfb, 0xd0]);
    out
}

#[test]
fn values_that_do_not_balance_are_decoded() {
    let bytes = message(&[value_entry(&[0x00], &token_value())]);
    let (r, pos, _) = decode(&bytes);
    assert_eq!(pos, bytes.len());
    let reasons: Vec<RejectReason> =
        r.unwrap().non_script_errors.into_iter().map(RejectReason::from).collect();
    assert_eq!(
        reasons,
        vec![RejectReason::ValueNotConserved {
            consumed: Value::Coin(0),
            produced: Value::Multiasset(
                108400000,
                vec![PolicyAssets {
                    policy: hash(28, 0xfd),
                    assets: vec![Asset { name: b"testtoken".to_vec(), quantity: 130000 }],
                }]
            ),
        }]
    );
}

#[test]
fn a_value_that_is_no_value_makes_the_entry_invalid() {
    let cases: Vec<(Vec<u8>, Vec<u8>, DecodeError)> = vec![
        // the assets are no map
        (vec![0x82, 0x01, 0x82, 0x00, 0x00], vec![0x00], DecodeError::InvalidValue),
        // a policy that is no hash of 28 bytes
        (
            vec![0x82, 0x01, 0xa1, 0x41, 0x00, 0xa1, 0x41, 0x00, 0x01],
            vec![0x00],
            DecodeError::InvalidValue,
        ),
        // a negative amount
        (vec![0x20], vec![0x00], DecodeError::UnexpectedShape),
        // three items where two are expected
        (vec![0x83, 0x01, 0xa0, 0x00], vec![0x00], DecodeError::ShapeMismatch { found: 3 }),
    ];
    for (first, second, error) in cases {
        let bytes = message(&[value_entry(&first, &second), missing_key_entry(1)]);
        let (r, pos, _) = decode(&bytes);
        assert_eq!(
            r,
            Ok(TxApplyErrors { non_script_errors: vec![missing_key(1)], skipped: vec![error] })
        );
        assert_eq!(pos, bytes.len());
    }
}

#[test]
fn the_first_reference_payload_gives_reasons() {
    let bytes = hex::decode(SPLASH_BOT).unwrap();
    let (r, pos, ctx) = decode(&bytes);
    let errors = r.unwrap();
    assert_eq!(pos, bytes.len());
    assert_eq!(ctx, vec![]);
    assert_eq!(errors.non_script_errors.len(), 2);
    assert_eq!(
        errors.skipped,
        vec![
            DecodeError::Unsupported { tag: 7 },
            DecodeError::UnexpectedShape,
            DecodeError::UnexpectedShape,
            DecodeError::UnexpectedShape,
            DecodeError::Unsupported { tag: 7 },
        ]
    );
    let reasons: Vec<RejectReason> =
        errors.non_script_errors.into_iter().map(RejectReason::from).collect();
    match &reasons[0] {
        RejectReason::ValueNotConserved { consumed, produced } => {
            assert_eq!(consumed, &Value::Coin(0));
            match produced {
                Value::Multiasset(coin, assets) => {
                    assert_eq!(*coin, 108400000);
                    assert_eq!(assets.len(), 1);
                    assert_eq!(assets[0].assets, vec![Asset { name: b"testtoken".to_vec(), quantity: 130000 }]);
                }
                other => panic!("unexpected value {:?}", other),
            }
        }
        other => panic!("unexpected reason {:?}", other),
    }
    match &reasons[1] {
        RejectReason::BadInputsUtxo(inputs) => {
            assert_eq!(inputs.len(), 3);
            assert_eq!(inputs[0].index, 0);
            assert_eq!(inputs[2].tx_hash[..4], [0x96, 0xeb, 0x39, 0xb8]);
        }
        other => panic!("unexpected reason {:?}", other),
    }
}

fn coin(value: &Value) -> u64 {
    match value {
        Value::Coin(coin) => *coin,
        Value::Multiasset(coin, _) => *coin,
    }
}

#[test]
fn the_second_reference_payload_holds_values_that_do_not_balance() {
    let bytes = hex::decode(SPLASH_DAO).unwrap();
    let found = TxRejectionReasons::try_from(
        localtxsubmission::protocol::RejectReasonBytes(bytes),
    )
    .unwrap();
    assert_eq!(found.reasons.len(), 5);
    assert_eq!(found.skipped.len(), 6);
    let mut unbalanced = 0;
    for reason in &found.reasons {
        if let RejectReason::ValueNotConserved { consumed, produced } = reason {
            unbalanced += 1;
            assert_eq!(coin(consumed), 3000000);
            assert_eq!(coin(produced), 7756973);
            assert!(coin(produced) > coin(consumed));
        }
    }
    assert_eq!(unbalanced, 1);
    assert!(matches!(found.reasons[0], RejectReason::MissingScriptWitnesses(_)));
    assert!(matches!(found.reasons[1], RejectReason::MissingVKeyWitnesses(_)));
    assert_eq!(found.reasons[2], RejectReason::Unknown("MissingRequiredSigners".to_string()));
    assert!(matches!(found.reasons[4], RejectReason::BadInputsUtxo(_)));
}

#[test]
fn every_entry_is_either_decoded_or_skipped() {
    let good = || bad_input_entry(3, 1);
    let odd = || vec![0x82, 0x00, 0x82, 0x01, 0x82, 0x09, 0xbf, 0x01, 0x9f, 0xff, 0xff];
    for pattern in 0..16u32 {
        let entries: Vec<Vec<u8>> =
            (0..4).map(|i| if pattern & (1 << i) == 0 { good() } else { odd() }).collect();
        let bytes = message(&entries);
        let (r, pos, ctx) = decode(&bytes);
        let errors = r.unwrap();
        assert_eq!(pos, bytes.len());
        assert_eq!(ctx, vec![]);
        assert_eq!(errors.skipped.len() as u32, pattern.count_ones());
        assert_eq!(errors.non_script_errors.len() as u32, 4 - pattern.count_ones());
        assert!(errors.skipped.iter().all(|e| *e == DecodeError::Unsupported { tag: 9 }));
        assert!(errors.non_script_errors.iter().all(|e| *e == bad_input(3, 1)));
    }
}

#[test]
fn a_quantity_of_zero_is_decoded_as_it_stands() {
    let mut value = vec![0x82, 0x01, 0xa1, 0x58, 0x1c];
    value.extend_from_slice(&hash(28, 1));
    value.extend_from_slice(&[0xa1, 0x41, 0x61, 0x00]);
    let bytes = message(&[value_entry(&value, &[0x02])]);
    let (r, pos, _) = decode(&bytes);
    assert_eq!(pos, bytes.len());
    let reasons: Vec<RejectReason> =
        r.unwrap().non_script_errors.into_iter().map(RejectReason::from).collect();
    assert_eq!(
        reasons,
        vec![RejectReason::ValueNotConserved {
            consumed: Value::Multiasset(
                1,
                vec![PolicyAssets {
                    policy: hash(28, 1),
                    assets: vec![Asset { name: vec![0x61], quantity: 0 }],
                }]
            ),
            produced: Value::Coin(2),
        }]
    );
}
