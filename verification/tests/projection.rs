use itch_feed::context::Context;
use itch_feed::cursor::Cursor;
use itch_feed::message::{
    read_replace_order, AddOrder, CancelOrder, DeleteOrder, ExecuteOrder, IntoOrderMessage,
    OrderMessage, ReadMessage,
};
use itch_feed::order::{OrderState, Side};
use itch_feed::version::Version;

fn session() -> Context {
    let mut context = Context::new();
    context.insert(
        5,
        OrderState {
            side: Side::Sell,
            shares: 250,
            ticker: String::from("TSLA"),
            price: 2_000_000,
        },
    );
    context
}

fn tagged(kind: u8, timestamp: u64, refno: u64) -> Vec<u8> {
    let mut bytes = vec![kind, 0, 0, 0, 0];
    bytes.extend_from_slice(&timestamp.to_be_bytes()[2..]);
    bytes.extend_from_slice(&refno.to_be_bytes());
    bytes
}

#[test]
fn cancel_flattens_without_optional_fields() {
    let mut bytes = tagged(b'X', 77, 5);
    bytes.extend_from_slice(&50u32.to_be_bytes());
    let cancel =
        CancelOrder::read(&mut Cursor::new(&bytes), &Version::V50, &mut session()).unwrap();
    let record = cancel.into_order_message(String::from("2019-05-30"));
    assert_eq!(
        record,
        OrderMessage {
            date: String::from("2019-05-30"),
            nanoseconds: 77,
            kind: 'X',
            ticker: String::from("TSLA"),
            side: Side::Sell,
            price: 2_000_000,
            shares: 50,
            refno: 5,
            from_replace: None,
            mpid: None,
            printable: None,
            execution_price: None,
        }
    );
}

#[test]
fn plain_execution_flattens_without_optional_fields() {
    let mut bytes = tagged(b'E', 77, 5);
    bytes.extend_from_slice(&50u32.to_be_bytes());
    bytes.extend_from_slice(&[0u8; 8]);
    let execute =
        ExecuteOrder::read(&mut Cursor::new(&bytes), &Version::V50, &mut session()).unwrap();
    let record = execute.into_order_message(String::from("2019-05-30"));
    assert_eq!(
        record,
        OrderMessage {
            date: String::from("2019-05-30"),
            nanoseconds: 77,
            kind: 'E',
            ticker: String::from("TSLA"),
            side: Side::Sell,
            price: 2_000_000,
            shares: 50,
            refno: 5,
            from_replace: None,
            mpid: None,
            printable: None,
            execution_price: None,
        }
    );
}

#[test]
fn priced_execution_flattens_with_flag_and_price() {
    let mut bytes = tagged(b'C', 77, 5);
    bytes.extend_from_slice(&50u32.to_be_bytes());
    bytes.extend_from_slice(&[0u8; 8]);
    bytes.push(b'N');
    bytes.extend_from_slice(&0u32.to_be_bytes());
    let execute =
        ExecuteOrder::read(&mut Cursor::new(&bytes), &Version::V50, &mut session()).unwrap();
    let record = execute.into_order_message(String::new());
    assert_eq!(
        record,
        OrderMessage {
            date: String::new(),
            nanoseconds: 77,
            kind: 'C',
            ticker: String::from("TSLA"),
            side: Side::Sell,
            price: 2_000_000,
            shares: 50,
            refno: 5,
            from_replace: None,
            mpid: None,
            printable: Some(false),
            execution_price: Some(0),
        }
    );
}

#[test]
fn events_of_a_replace_flatten_with_their_mark() {
    let mut bytes = tagged(b'U', 77, 5);
    bytes.extend_from_slice(&6u64.to_be_bytes());
    bytes.extend_from_slice(&0u32.to_be_bytes());
    bytes.extend_from_slice(&0u32.to_be_bytes());
    let (delete, add) =
        read_replace_order(&mut Cursor::new(&bytes), &Version::V50, &mut session()).unwrap();
    assert_eq!(
        delete.into_order_message(String::from("2019-05-30")),
        OrderMessage {
            date: String::from("2019-05-30"),
            nanoseconds: 77,
            kind: 'D',
            ticker: String::from("TSLA"),
            side: Side::Sell,
            price: 2_000_000,
            shares: 250,
            refno: 5,
            from_replace: Some(true),
            mpid: None,
            printable: None,
            execution_price: None,
        }
    );
    assert_eq!(
        add.into_order_message(String::from("2019-05-30")),
        OrderMessage {
            date: String::from("2019-05-30"),
            nanoseconds: 77,
            kind: 'A',
            ticker: String::from("TSLA"),
            side: Side::Sell,
            price: 0,
            shares: 0,
            refno: 6,
            from_replace: Some(true),
            mpid: None,
            printable: None,
            execution_price: None,
        }
    );
}

#[test]
fn plain_delete_and_add_flatten_without_a_mark() {
    let mut context = session();
    let mut bytes = tagged(b'D', 77, 5);
    bytes.remove(0);
    let delete = DeleteOrder::read(&mut Cursor::new(&bytes), &Version::V50, &mut context).unwrap();
    let record = delete.into_order_message(String::from("d"));
    assert_eq!(record.from_replace, None);
    assert_eq!(record.mpid, None);
    assert_eq!(record.printable, None);
    assert_eq!(record.execution_price, None);
    assert_eq!(record.kind, 'D');
    assert_eq!(record.shares, 250);

    let mut bytes = tagged(b'A', 78, 8);
    bytes.remove(0);
    bytes.push(b'B');
    bytes.extend_from_slice(&0u32.to_be_bytes());
    bytes.extend_from_slice(b"        ");
    bytes.extend_from_slice(&0u32.to_be_bytes());
    let add = AddOrder::read(&mut Cursor::new(&bytes), &Version::V50, &mut context).unwrap();
    let record = add.into_order_message(String::from("d"));
    assert_eq!(
        record,
        OrderMessage {
            date: String::from("d"),
            nanoseconds: 78,
            kind: 'A',
            ticker: String::new(),
            side: Side::Buy,
            price: 0,
            shares: 0,
            refno: 8,
            from_replace: None,
            mpid: None,
            printable: None,
            execution_price: None,
        }
    );
}

#[test]
fn add_with_a_market_participant_keeps_it() {
    let add = AddOrder::new(
        1,
        'F',
        String::from("IBM"),
        Side::Buy,
        2,
        3,
        4,
        Some(false),
        Some(String::from("NITE")),
    );
    let record = add.into_order_message(String::from("d"));
    assert_eq!(record.kind, 'F');
    assert_eq!(record.from_replace, Some(false));
    assert_eq!(record.mpid, Some(String::from("NITE")));
    assert_eq!(record.printable, None);
    assert_eq!(record.execution_price, None);
}
