use itch_feed::context::Context;
use itch_feed::cursor::Cursor;
use itch_feed::error::DecodeError;
use itch_feed::message::{AddOrder, ReadMessage};
use itch_feed::order::{OrderState, Side};
use itch_feed::version::Version;

fn add_message(
    version: Version,
    timestamp: u64,
    refno: u64,
    side: u8,
    shares: u32,
    ticker: &[u8; 8],
    price: u32,
) -> Vec<u8> {
    let mut bytes = Vec::new();
    if version == Version::V50 {
        bytes.extend_from_slice(&[0x00, 0x2a, 0x00, 0x07]);
    }
    bytes.extend_from_slice(&timestamp.to_be_bytes()[2..]);
    bytes.extend_from_slice(&refno.to_be_bytes());
    bytes.push(side);
    bytes.extend_from_slice(&shares.to_be_bytes());
    bytes.extend_from_slice(ticker);
    bytes.extend_from_slice(&price.to_be_bytes());
    bytes
}

#[test]
fn add_decodes_every_field_from_the_wire() {
    let bytes = add_message(
        Version::V50,
        34_200_000_000_123,
        0x0102_0304_0506_0708,
        b'B',
        300,
        b"MSFT    ",
        1_234_500,
    );
    assert_eq!(bytes.len(), 35);
    let mut cursor = Cursor::new(&bytes);
    let mut context = Context::new();
    let add = AddOrder::read(&mut cursor, &Version::V50, &mut context).unwrap();
    assert_eq!(*add.nanoseconds(), 34_200_000_000_123);
    assert_eq!(*add.kind(), 'A');
    assert_eq!(add.ticker(), "MSFT");
    assert_eq!(*add.side(), Side::Buy);
    assert_eq!(*add.price(), 1_234_500);
    assert_eq!(*add.shares(), 300);
    assert_eq!(*add.refno(), 0x0102_0304_0506_0708);
    assert_eq!(*add.from_replace(), None);
    assert_eq!(*add.mpid(), None);
    assert_eq!(cursor.position(), 35);
    assert_eq!(cursor.remaining(), 0);
}

#[test]
fn add_without_header_is_four_bytes_shorter() {
    let bytes = add_message(Version::V41, 123, 9, b'S', 1, b"A       ", 10_000);
    assert_eq!(bytes.len(), 31);
    let mut cursor = Cursor::new(&bytes);
    let mut context = Context::new();
    context.set_clock(34_200);
    let add = AddOrder::read(&mut cursor, &Version::V41, &mut context).unwrap();
    assert_eq!(*add.nanoseconds(), 34_200_000_000_123);
    assert_eq!(*add.side(), Side::Sell);
    assert_eq!(add.ticker(), "A");
    assert_eq!(*add.refno(), 9);
    assert_eq!(cursor.position(), 31);
    assert_eq!(context.clock(), 34_200);
}

#[test]
fn add_opens_the_order_in_the_registry() {
    let bytes = add_message(Version::V50, 1, 42, b'S', 500, b"GOOG    ", 7_000_000);
    let mut cursor = Cursor::new(&bytes);
    let mut context = Context::new();
    AddOrder::read(&mut cursor, &Version::V50, &mut context).unwrap();
    assert_eq!(
        context.get(42),
        Some(&OrderState {
            side: Side::Sell,
            shares: 500,
            ticker: String::from("GOOG"),
            price: 7_000_000
        })
    );
    assert_eq!(context.get(41), None);
}

#[test]
fn add_overwrites_a_stale_entry() {
    let mut context = Context::new();
    let first = add_message(Version::V50, 1, 42, b'S', 500, b"GOOG    ", 7_000_000);
    let second = add_message(Version::V50, 2, 42, b'B', 20, b"IBM     ", 1_000_000);
    AddOrder::read(&mut Cursor::new(&first), &Version::V50, &mut context).unwrap();
    AddOrder::read(&mut Cursor::new(&second), &Version::V50, &mut context).unwrap();
    assert_eq!(
        context.get(42),
        Some(&OrderState {
            side: Side::Buy,
            shares: 20,
            ticker: String::from("IBM"),
            price: 1_000_000
        })
    );
}

#[test]
fn add_starts_where_the_cursor_stands_and_stops_at_the_next_message() {
    let mut bytes = vec![0xaa, 0xbb];
    bytes.extend(add_message(Version::V50, 5, 1, b'B', 10, b"AA      ", 100));
    bytes.extend(add_message(Version::V50, 6, 2, b'S', 20, b"BB      ", 200));
    let mut cursor = Cursor::new(&bytes);
    cursor.skip(2).unwrap();
    let mut context = Context::new();
    let first = AddOrder::read(&mut cursor, &Version::V50, &mut context).unwrap();
    assert_eq!(cursor.position(), 37);
    let second = AddOrder::read(&mut cursor, &Version::V50, &mut context).unwrap();
    assert_eq!(cursor.position(), 72);
    assert_eq!(*first.refno(), 1);
    assert_eq!(*second.refno(), 2);
    assert_eq!(second.ticker(), "BB");
    assert_eq!(*second.nanoseconds(), 6);
}

#[test]
fn add_of_a_short_input_fails_and_changes_nothing() {
    let mut bytes = add_message(Version::V50, 1, 42, b'S', 500, b"GOOG    ", 7_000_000);
    bytes.pop();
    let mut cursor = Cursor::new(&bytes);
    let mut context = Context::new();
    let failed = AddOrder::read(&mut cursor, &Version::V50, &mut context);
    assert_eq!(failed.unwrap_err(), DecodeError::UnexpectedEof { offset: 0, needed: 35 });
    assert_eq!(cursor.position(), 0);
    assert_eq!(context.get(42), None);
}

#[test]
fn add_of_an_empty_input_fails() {
    let bytes: Vec<u8> = Vec::new();
    let mut cursor = Cursor::new(&bytes);
    let mut context = Context::new();
    let failed = AddOrder::read(&mut cursor, &Version::V41, &mut context);
    assert_eq!(failed.unwrap_err(), DecodeError::UnexpectedEof { offset: 0, needed: 31 });
}

#[test]
fn add_with_an_unknown_side_fails_and_changes_nothing() {
    let mut bytes = vec![0u8; 3];
    bytes.extend(add_message(Version::V50, 1, 42, b'Q', 500, b"GOOG    ", 7_000_000));
    let mut cursor = Cursor::new(&bytes);
    cursor.skip(3).unwrap();
    let mut context = Context::new();
    let failed = AddOrder::read(&mut cursor, &Version::V50, &mut context);
    assert_eq!(failed.unwrap_err(), DecodeError::InvalidSide { offset: 21, code: b'Q' });
    assert_eq!(cursor.position(), 3);
    assert_eq!(context.get(42), None);
}

#[test]
fn add_that_is_short_and_has_an_unknown_side_reports_the_short_input() {
    let mut bytes = add_message(Version::V41, 1, 42, b'Q', 500, b"GOOG    ", 7_000_000);
    bytes.truncate(30);
    let mut cursor = Cursor::new(&bytes);
    let mut context = Context::new();
    let failed = AddOrder::read(&mut cursor, &Version::V41, &mut context);
    assert_eq!(failed.unwrap_err(), DecodeError::UnexpectedEof { offset: 0, needed: 31 });
}

#[test]
fn add_built_from_parts_keeps_them() {
    let add = AddOrder::new(
        5,
        'A',
        String::from("IBM"),
        Side::Sell,
        10,
        20,
        30,
        Some(true),
        Some(String::from("NITE")),
    );
    assert_eq!(*add.nanoseconds(), 5);
    assert_eq!(*add.kind(), 'A');
    assert_eq!(add.ticker(), "IBM");
    assert_eq!(*add.side(), Side::Sell);
    assert_eq!(*add.price(), 10);
    assert_eq!(*add.shares(), 20);
    assert_eq!(*add.refno(), 30);
    assert_eq!(*add.from_replace(), Some(true));
    assert_eq!(*add.mpid(), Some(String::from("NITE")));
}

#[test]
fn add_is_measured_by_its_format() {
    let bytes = [0u8; 35];
    assert_eq!(AddOrder::measure(&Cursor::new(&bytes), &Version::V50), Ok(35));
    assert_eq!(AddOrder::measure(&Cursor::new(&bytes), &Version::V41), Ok(31));
    let mut cursor = Cursor::new(&bytes);
    cursor.skip(1).unwrap();
    assert_eq!(
        AddOrder::measure(&cursor, &Version::V50),
        Err(DecodeError::UnexpectedEof { offset: 1, needed: 35 })
    );
    assert_eq!(AddOrder::measure(&cursor, &Version::V41), Ok(31));
    assert_eq!(cursor.position(), 1);
}
