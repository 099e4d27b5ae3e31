use itch_feed::context::Context;
use itch_feed::cursor::Cursor;
use itch_feed::error::DecodeError;
use itch_feed::message::{
    read_replace_order, AddOrder, CancelOrder, DeleteOrder, ExecuteOrder, ReadMessage,
};
use itch_feed::order::{OrderState, Side};
use itch_feed::version::Version;

const CLOCK: u32 = 3;

/// The message with the header put in behind its first `tag_len` bytes.
fn with_header(message: &[u8], tag_len: usize) -> Vec<u8> {
    let mut bytes = message[..tag_len].to_vec();
    bytes.extend_from_slice(&[0x12, 0x34, 0x56, 0x78]);
    bytes.extend_from_slice(&message[tag_len..]);
    bytes
}

fn session() -> Context {
    let mut context = Context::new();
    context.set_clock(CLOCK);
    context.insert(
        5,
        OrderState {
            side: Side::Sell,
            shares: 250,
            ticker: String::from("TSLA"),
            price: 2_000_000,
        },
    );
    context
}

fn body(timestamp: u64, refno: u64) -> Vec<u8> {
    let mut bytes = timestamp.to_be_bytes()[2..].to_vec();
    bytes.extend_from_slice(&refno.to_be_bytes());
    bytes
}

#[test]
fn add_with_header_is_the_same_add_four_bytes_later() {
    let mut plain = body(77, 9);
    plain.push(b'B');
    plain.extend_from_slice(&40u32.to_be_bytes());
    plain.extend_from_slice(b"NFLX    ");
    plain.extend_from_slice(&5_000_000u32.to_be_bytes());
    let framed = with_header(&plain, 0);

    let mut without = session();
    let mut with = session();
    let mut plain_cursor = Cursor::new(&plain);
    let mut framed_cursor = Cursor::new(&framed);
    let a = AddOrder::read(&mut plain_cursor, &Version::V41, &mut without).unwrap();
    let b = AddOrder::read(&mut framed_cursor, &Version::V50, &mut with).unwrap();
    assert_eq!(framed_cursor.position(), plain_cursor.position() + 4);
    assert_eq!(*a.nanoseconds(), 3_000_000_077);
    assert_eq!(*b.nanoseconds(), 77);
    assert_eq!(a.refno(), b.refno());
    assert_eq!(a.side(), b.side());
    assert_eq!(a.shares(), b.shares());
    assert_eq!(a.ticker(), b.ticker());
    assert_eq!(a.price(), b.price());
    assert_eq!(a.kind(), b.kind());
    assert_eq!(without.get(9), with.get(9));
    assert_eq!(with.get(9).unwrap().shares, 40);
}

#[test]
fn add_with_header_and_unknown_side_names_the_later_offset() {
    let mut plain = body(77, 9);
    plain.push(b'?');
    plain.extend_from_slice(&40u32.to_be_bytes());
    plain.extend_from_slice(b"NFLX    ");
    plain.extend_from_slice(&5_000_000u32.to_be_bytes());
    let framed = with_header(&plain, 0);
    let a = AddOrder::read(&mut Cursor::new(&plain), &Version::V41, &mut session());
    let b = AddOrder::read(&mut Cursor::new(&framed), &Version::V50, &mut session());
    assert_eq!(a.unwrap_err(), DecodeError::InvalidSide { offset: 14, code: b'?' });
    assert_eq!(b.unwrap_err(), DecodeError::InvalidSide { offset: 18, code: b'?' });
}

#[test]
fn delete_with_header_is_the_same_delete_four_bytes_later() {
    let plain = body(77, 5);
    let framed = with_header(&plain, 0);
    let mut without = session();
    let mut with = session();
    let mut plain_cursor = Cursor::new(&plain);
    let mut framed_cursor = Cursor::new(&framed);
    let a = DeleteOrder::read(&mut plain_cursor, &Version::V41, &mut without).unwrap();
    let b = DeleteOrder::read(&mut framed_cursor, &Version::V50, &mut with).unwrap();
    assert_eq!(plain_cursor.position(), 14);
    assert_eq!(framed_cursor.position(), 18);
    assert_eq!(*a.nanoseconds(), 3_000_000_077);
    assert_eq!(*b.nanoseconds(), 77);
    assert_eq!(a.refno(), b.refno());
    assert_eq!(a.shares(), b.shares());
    assert_eq!(a.ticker(), b.ticker());
    assert_eq!(a.side(), b.side());
    assert_eq!(a.price(), b.price());
    assert_eq!(without.get(5), None);
    assert_eq!(with.get(5), None);
}

#[test]
fn cancel_with_header_is_the_same_cancel_four_bytes_later() {
    let mut plain = vec![b'X'];
    plain.extend(body(77, 5));
    plain.extend_from_slice(&50u32.to_be_bytes());
    let framed = with_header(&plain, 1);
    let mut without = session();
    let mut with = session();
    let mut plain_cursor = Cursor::new(&plain);
    let mut framed_cursor = Cursor::new(&framed);
    let a = CancelOrder::read(&mut plain_cursor, &Version::V41, &mut without).unwrap();
    let b = CancelOrder::read(&mut framed_cursor, &Version::V50, &mut with).unwrap();
    assert_eq!(plain_cursor.position(), 19);
    assert_eq!(framed_cursor.position(), 23);
    assert_eq!(*a.nanoseconds(), 3_000_000_077);
    assert_eq!(*b.nanoseconds(), 77);
    assert_eq!(a.kind(), b.kind());
    assert_eq!(a.refno(), b.refno());
    assert_eq!(a.shares(), b.shares());
    assert_eq!(without.get(5), with.get(5));
    assert_eq!(with.get(5).unwrap().shares, 200);
}

#[test]
fn execute_with_header_is_the_same_execute_four_bytes_later() {
    let mut plain = vec![b'C'];
    plain.extend(body(77, 5));
    plain.extend_from_slice(&50u32.to_be_bytes());
    plain.extend_from_slice(&[9u8; 8]);
    plain.push(b'Y');
    plain.extend_from_slice(&2_000_500u32.to_be_bytes());
    let framed = with_header(&plain, 1);
    let mut without = session();
    let mut with = session();
    let mut plain_cursor = Cursor::new(&plain);
    let mut framed_cursor = Cursor::new(&framed);
    let a = ExecuteOrder::read(&mut plain_cursor, &Version::V41, &mut without).unwrap();
    let b = ExecuteOrder::read(&mut framed_cursor, &Version::V50, &mut with).unwrap();
    assert_eq!(plain_cursor.position(), 32);
    assert_eq!(framed_cursor.position(), 36);
    assert_eq!(*a.nanoseconds(), 3_000_000_077);
    assert_eq!(*b.nanoseconds(), 77);
    assert_eq!(a.kind(), b.kind());
    assert_eq!(a.refno(), b.refno());
    assert_eq!(a.shares(), b.shares());
    assert_eq!(a.printable(), b.printable());
    assert_eq!(a.execution_price(), b.execution_price());
    assert_eq!(*b.execution_price(), Some(2_000_500));
    assert_eq!(without.get(5), with.get(5));
}

#[test]
fn replace_with_header_is_the_same_replace_four_bytes_later() {
    let mut plain = vec![b'U'];
    plain.extend(body(77, 5));
    plain.extend_from_slice(&6u64.to_be_bytes());
    plain.extend_from_slice(&50u32.to_be_bytes());
    plain.extend_from_slice(&2_000_500u32.to_be_bytes());
    let framed = with_header(&plain, 1);
    let mut without = session();
    let mut with = session();
    let mut plain_cursor = Cursor::new(&plain);
    let mut framed_cursor = Cursor::new(&framed);
    let (a_delete, a_add) =
        read_replace_order(&mut plain_cursor, &Version::V41, &mut without).unwrap();
    let (b_delete, b_add) =
        read_replace_order(&mut framed_cursor, &Version::V50, &mut with).unwrap();
    assert_eq!(plain_cursor.position(), 31);
    assert_eq!(framed_cursor.position(), 35);
    assert_eq!(*a_delete.nanoseconds(), 3_000_000_077);
    assert_eq!(*b_delete.nanoseconds(), 77);
    assert_eq!(a_delete.refno(), b_delete.refno());
    assert_eq!(a_delete.shares(), b_delete.shares());
    assert_eq!(a_add.refno(), b_add.refno());
    assert_eq!(a_add.shares(), b_add.shares());
    assert_eq!(a_add.price(), b_add.price());
    assert_eq!(without.get(6), with.get(6));
    assert_eq!(with.get(6).unwrap().price, 2_000_500);
}
