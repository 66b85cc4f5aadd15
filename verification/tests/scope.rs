use localtxsubmission::cursor::Cursor;
use localtxsubmission::error::DecodeError;
use localtxsubmission::scope::{
    add_collection_token_to_context, clear_unknown_entity, expect_bytes, expect_definite_array,
    expect_u64, expect_u8, OuterScope,
};
use localtxsubmission::value::skip_item;

use OuterScope::{Definite, Indefinite};

#[test]
fn an_array_of_an_accepted_length_opens_its_scope() {
    let bytes = [0x82, 0x00, 0x00];
    let mut d = Cursor::new(&bytes);
    let mut ctx = vec![];
    assert_eq!(expect_definite_array(vec![2], &mut d, &mut ctx), Ok(2));
    assert_eq!(d.position(), 1);
    assert_eq!(ctx, vec![Definite(2)]);
}

#[test]
fn an_array_counts_in_the_scope_around_it() {
    let bytes = [0x83];
    for (before, after) in [
        (vec![Definite(3)], vec![Definite(2), Definite(3)]),
        (vec![Definite(1)], vec![Definite(3)]),
        (vec![Definite(0)], vec![Definite(3)]),
        (vec![Indefinite], vec![Indefinite, Definite(3)]),
        (vec![Indefinite, Definite(2)], vec![Indefinite, Definite(1), Definite(3)]),
    ] {
        let mut d = Cursor::new(&bytes);
        let mut ctx = before;
        assert_eq!(expect_definite_array(vec![2, 3], &mut d, &mut ctx), Ok(3));
        assert_eq!(ctx, after);
    }
}

#[test]
fn an_array_of_another_length_is_entered_and_refused() {
    let bytes = [0x83, 0x00];
    let mut d = Cursor::new(&bytes);
    let mut ctx = vec![Definite(2)];
    assert_eq!(
        expect_definite_array(vec![2], &mut d, &mut ctx),
        Err(DecodeError::ShapeMismatch { found: 3 })
    );
    assert_eq!(d.position(), 1);
    assert_eq!(ctx, vec![Definite(1), Definite(3)]);
}

#[test]
fn any_length_is_accepted_where_none_is_listed() {
    let bytes = [0x98, 0x19];
    let mut d = Cursor::new(&bytes);
    let mut ctx = vec![];
    assert_eq!(expect_definite_array(vec![], &mut d, &mut ctx), Ok(25));
    assert_eq!(d.position(), 2);
    assert_eq!(ctx, vec![Definite(25)]);
}

#[test]
fn an_empty_array_opens_no_scope() {
    let bytes = [0x80];
    let mut d = Cursor::new(&bytes);
    let mut ctx = vec![Definite(2)];
    assert_eq!(expect_definite_array(vec![], &mut d, &mut ctx), Ok(0));
    assert_eq!(ctx, vec![Definite(1)]);
}

#[test]
fn what_is_no_definite_array_is_skipped_as_one_token() {
    let mut d = Cursor::new(&[0x18, 0x64, 0x00]);
    let mut ctx = vec![Definite(2)];
    assert_eq!(expect_definite_array(vec![2], &mut d, &mut ctx), Err(DecodeError::UnexpectedShape));
    assert_eq!(d.position(), 2);
    assert_eq!(ctx, vec![Definite(1)]);

    let mut d = Cursor::new(&[0x9f, 0x00]);
    let mut ctx = vec![Definite(2)];
    assert_eq!(expect_definite_array(vec![2], &mut d, &mut ctx), Err(DecodeError::UnexpectedShape));
    assert_eq!(d.position(), 1);
    assert_eq!(ctx, vec![Definite(1), Indefinite]);

    let mut d = Cursor::new(&[0xa2, 0x00]);
    let mut ctx = vec![];
    assert_eq!(expect_definite_array(vec![2], &mut d, &mut ctx), Err(DecodeError::UnexpectedShape));
    assert_eq!(d.position(), 1);
    assert_eq!(ctx, vec![Definite(4)]);
}

#[test]
fn nothing_changes_where_no_token_can_be_read() {
    let mut d = Cursor::new(&[]);
    let mut ctx = vec![Definite(2)];
    assert_eq!(expect_definite_array(vec![2], &mut d, &mut ctx), Err(DecodeError::Incomplete));
    assert_eq!(expect_u8(&mut d, &mut ctx), Err(DecodeError::Incomplete));
    assert_eq!(expect_u64(&mut d, &mut ctx), Err(DecodeError::Incomplete));
    assert_eq!(expect_bytes(&mut d, &mut ctx), Err(DecodeError::Incomplete));
    assert_eq!(add_collection_token_to_context(&mut d, &mut ctx), Err(DecodeError::Incomplete));
    assert_eq!(d.position(), 0);
    assert_eq!(ctx, vec![Definite(2)]);

    let mut d = Cursor::new(&[0x1c]);
    assert_eq!(expect_u8(&mut d, &mut ctx), Err(DecodeError::Malformed));
    assert_eq!(d.position(), 0);
    assert_eq!(ctx, vec![Definite(2)]);
}

#[test]
fn a_small_unsigned_integer_is_read_as_a_tag() {
    let mut d = Cursor::new(&[0x18, 0x64]);
    let mut ctx = vec![Definite(2)];
    assert_eq!(expect_u8(&mut d, &mut ctx), Ok(100));
    assert_eq!(d.position(), 2);
    assert_eq!(ctx, vec![Definite(1)]);

    let mut d = Cursor::new(&[0x00]);
    let mut ctx = vec![Definite(1)];
    assert_eq!(expect_u8(&mut d, &mut ctx), Ok(0));
    assert_eq!(ctx, vec![]);
}

#[test]
fn a_tag_may_come_in_any_encoding_that_holds_it() {
    for bytes in [
        vec![0x05],
        vec![0x18, 0x05],
        vec![0x19, 0x00, 0x05],
        vec![0x1a, 0x00, 0x00, 0x00, 0x05],
        vec![0x1b, 0x00, 0x00, 0x00, 0x00, 0x00, 0x00, 0x00, 0x05],
    ] {
        let mut d = Cursor::new(&bytes);
        let mut ctx = vec![Definite(2)];
        assert_eq!(expect_u8(&mut d, &mut ctx), Ok(5));
        assert_eq!(d.position(), bytes.len());
        assert_eq!(ctx, vec![Definite(1)]);
    }
    let mut d = Cursor::new(&[0x19, 0x00, 0xff]);
    assert_eq!(expect_u8(&mut d, &mut vec![]), Ok(255));
}

#[test]
fn a_tag_has_to_fit_eight_bits() {
    let mut d = Cursor::new(&[0x19, 0x01, 0x00]);
    let mut ctx = vec![Definite(2)];
    assert_eq!(expect_u8(&mut d, &mut ctx), Err(DecodeError::UnexpectedShape));
    assert_eq!(d.position(), 3);
    assert_eq!(ctx, vec![Definite(1)]);

    let mut d = Cursor::new(&[0x82, 0x00]);
    let mut ctx = vec![Definite(2)];
    assert_eq!(expect_u8(&mut d, &mut ctx), Err(DecodeError::UnexpectedShape));
    assert_eq!(d.position(), 1);
    assert_eq!(ctx, vec![Definite(1), Definite(2)]);

    let mut d = Cursor::new(&[0x20]);
    let mut ctx = vec![Definite(2)];
    assert_eq!(expect_u8(&mut d, &mut ctx), Err(DecodeError::UnexpectedShape));
    assert_eq!(ctx, vec![Definite(1)]);
}

#[test]
fn unsigned_integers_of_every_width_are_read() {
    for (bytes, value) in [
        (vec![0x17], 23u64),
        (vec![0x18, 0xff], 255),
        (vec![0x19, 0x01, 0x00], 256),
        (vec![0x1a, 0x00, 0x76, 0x5c, 0xad], 7756973),
        (vec![0x1b, 0x00, 0x00, 0x1d, 0x1a, 0x94, 0xa2, 0x00, 0x00], 32000000000000),
        (vec![0x1b, 0xff, 0xff, 0xff, 0xff, 0xff, 0xff, 0xff, 0xff], u64::MAX),
    ] {
        let mut d = Cursor::new(&bytes);
        let mut ctx = vec![Definite(3)];
        assert_eq!(expect_u64(&mut d, &mut ctx), Ok(value));
        assert_eq!(d.position(), bytes.len());
        assert_eq!(ctx, vec![Definite(2)]);
    }
}

#[test]
fn a_negative_integer_is_no_unsigned_integer() {
    let mut d = Cursor::new(&[0x20]);
    let mut ctx = vec![Definite(3)];
    assert_eq!(expect_u64(&mut d, &mut ctx), Err(DecodeError::UnexpectedShape));
    assert_eq!(d.position(), 1);
    assert_eq!(ctx, vec![Definite(2)]);
}

#[test]
fn a_byte_string_is_copied_out() {
    let mut d = Cursor::new(&[0x43, 0x0a, 0x0b, 0x0c, 0x00]);
    let mut ctx = vec![Definite(2)];
    assert_eq!(expect_bytes(&mut d, &mut ctx), Ok(vec![0x0a, 0x0b, 0x0c]));
    assert_eq!(d.position(), 4);
    assert_eq!(ctx, vec![Definite(1)]);

    let mut d = Cursor::new(&[0x63, 0x61, 0x62, 0x63]);
    assert_eq!(expect_bytes(&mut d, &mut ctx), Err(DecodeError::UnexpectedShape));
    assert_eq!(d.position(), 4);
    assert_eq!(ctx, vec![]);
}

#[test]
fn a_token_is_tracked_by_what_it_opens() {
    for (bytes, before, after) in [
        (vec![0x05], vec![Definite(2)], vec![Definite(1)]),
        (vec![0x05], vec![], vec![]),
        (vec![0x83], vec![Definite(2)], vec![Definite(1), Definite(3)]),
        (vec![0x80], vec![Definite(2)], vec![Definite(1)]),
        (vec![0xa2], vec![Definite(1)], vec![Definite(4)]),
        (vec![0xa0], vec![Indefinite], vec![Indefinite]),
        (vec![0x9f], vec![Definite(2)], vec![Definite(1), Indefinite]),
        (vec![0xbf], vec![Indefinite], vec![Indefinite, Indefinite]),
        (vec![0x5f], vec![], vec![Indefinite]),
        (vec![0x7f], vec![], vec![Indefinite]),
        (vec![0xff], vec![Definite(2), Indefinite], vec![Definite(2)]),
        (vec![0xc1], vec![Definite(2)], vec![Definite(1)]),
    ] {
        let mut d = Cursor::new(&bytes);
        let mut ctx = before;
        assert_eq!(add_collection_token_to_context(&mut d, &mut ctx), Ok(()));
        assert_eq!(d.position(), 1);
        assert_eq!(ctx, after);
    }
}

#[test]
fn a_map_counts_two_items_for_each_pair() {
    let mut d = Cursor::new(&[0xb8, 0x20]);
    let mut ctx = vec![];
    assert_eq!(add_collection_token_to_context(&mut d, &mut ctx), Ok(()));
    assert_eq!(ctx, vec![Definite(64)]);

    let mut d = Cursor::new(&[0xbb, 0x80, 0, 0, 0, 0, 0, 0, 0]);
    let mut ctx = vec![];
    assert_eq!(add_collection_token_to_context(&mut d, &mut ctx), Ok(()));
    assert_eq!(ctx, vec![Definite(u64::MAX)]);

    let mut d = Cursor::new(&[0xbb, 0x7f, 0xff, 0xff, 0xff, 0xff, 0xff, 0xff, 0xff]);
    let mut ctx = vec![];
    assert_eq!(add_collection_token_to_context(&mut d, &mut ctx), Ok(()));
    assert_eq!(ctx, vec![Definite(u64::MAX - 1)]);
}

#[test]
fn a_close_marker_that_closes_nothing_is_fatal() {
    for before in [vec![], vec![Definite(2)], vec![Indefinite, Definite(1)]] {
        let mut d = Cursor::new(&[0xff]);
        let mut ctx = before.clone();
        assert_eq!(
            add_collection_token_to_context(&mut d, &mut ctx),
            Err(DecodeError::Desynchronized)
        );
        assert_eq!(d.position(), 0);
        assert_eq!(ctx, before);
    }
}

// [1, [2, 3], {4: [5]}], then 0x18 0x2a
const NESTED: [u8; 11] = [0x83, 0x01, 0x82, 0x02, 0x03, 0xa1, 0x04, 0x81, 0x05, 0x18, 0x2a];

#[test]
fn draining_consumes_what_the_open_scopes_hold() {
    let mut d = Cursor::new(&NESTED);
    let mut ctx = vec![Definite(1)];
    assert_eq!(clear_unknown_entity(&mut d, &mut ctx), Ok(()));
    assert_eq!(d.position(), 9);
    assert_eq!(ctx, vec![]);

    let mut d = Cursor::new(&NESTED);
    d.set_position(3);
    let mut ctx = vec![Definite(1), Definite(2)];
    assert_eq!(clear_unknown_entity(&mut d, &mut ctx), Ok(()));
    assert_eq!(d.position(), 9);
    assert_eq!(ctx, vec![]);
}

#[test]
fn draining_an_empty_stack_does_nothing() {
    let mut d = Cursor::new(&NESTED);
    let mut ctx = vec![];
    assert_eq!(clear_unknown_entity(&mut d, &mut ctx), Ok(()));
    assert_eq!(d.position(), 0);
    assert_eq!(ctx, vec![]);
}

#[test]
fn the_stack_is_empty_after_draining_also_where_it_fails() {
    let mut d = Cursor::new(&NESTED[..7]);
    let mut ctx = vec![Definite(5), Definite(1)];
    assert_eq!(clear_unknown_entity(&mut d, &mut ctx), Err(DecodeError::Incomplete));
    assert_eq!(d.position(), 7);
    assert_eq!(ctx, vec![]);

    let mut d = Cursor::new(&[0x82, 0x00, 0xff]);
    let mut ctx = vec![Definite(1)];
    assert_eq!(clear_unknown_entity(&mut d, &mut ctx), Err(DecodeError::Desynchronized));
    assert_eq!(d.position(), 2);
    assert_eq!(ctx, vec![]);

    let mut d = Cursor::new(&[0x82, 0x00, 0x1c]);
    let mut ctx = vec![Definite(1)];
    assert_eq!(clear_unknown_entity(&mut d, &mut ctx), Err(DecodeError::Malformed));
    assert_eq!(d.position(), 2);
    assert_eq!(ctx, vec![]);
}

fn items() -> Vec<Vec<u8>> {
    vec![
        vec![0x05],
        vec![0x39, 0x01, 0x00],
        vec![0x44, 1, 2, 3, 4],
        vec![0xf9, 0x3c, 0x00],
        vec![0x80],
        vec![0xa0],
        vec![0x83, 0x01, 0x82, 0x02, 0x03, 0xa1, 0x04, 0x81, 0x05],
        vec![0x9f, 0x01, 0x82, 0x02, 0x03, 0xff],
        vec![0x9f, 0xff],
        vec![0xbf, 0x01, 0x9f, 0xff, 0xff],
        vec![0x5f, 0x41, 0x00, 0x42, 0x01, 0x02, 0xff],
        vec![0x7f, 0x61, 0x61, 0xff],
        vec![0x82, 0x9f, 0x80, 0xff, 0xa1, 0x00, 0x9f, 0x81, 0x00, 0xff],
    ]
}

#[test]
fn skipping_an_item_and_draining_lands_on_its_next_sibling() {
    for item in items() {
        let mut bytes = item.clone();
        bytes.extend_from_slice(&[0x18, 0x2a]);
        let mut d = Cursor::new(&bytes);
        let mut ctx = vec![];
        assert_eq!(add_collection_token_to_context(&mut d, &mut ctx), Ok(()));
        assert_eq!(clear_unknown_entity(&mut d, &mut ctx), Ok(()));
        assert_eq!(d.position(), item.len());
        assert_eq!(expect_u8(&mut d, &mut ctx), Ok(42));
    }
}

#[test]
fn skipping_inside_a_scope_keeps_the_rest_of_the_scope() {
    for item in items() {
        let mut bytes = item.clone();
        bytes.extend_from_slice(&[0x18, 0x2a, 0x18, 0x2b]);
        let mut d = Cursor::new(&bytes);
        let mut ctx = vec![Indefinite, Definite(3)];
        assert_eq!(skip_item(&mut d, &mut ctx), Ok(()));
        assert_eq!(d.position(), item.len());
        assert_eq!(ctx, vec![Indefinite, Definite(2)]);
        assert_eq!(clear_unknown_entity(&mut d, &mut vec![Definite(2)]), Ok(()));
        assert_eq!(d.position(), bytes.len());
    }
}

#[test]
fn an_item_that_is_not_all_there_is_not_skipped() {
    let mut d = Cursor::new(&[0x82, 0x00]);
    let mut ctx = vec![Definite(3)];
    assert_eq!(skip_item(&mut d, &mut ctx), Err(DecodeError::Incomplete));
    assert_eq!(d.position(), 2);
    assert_eq!(ctx, vec![Definite(3)]);
}
