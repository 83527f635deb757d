use coffee_machine::blocking_queue::BlockingQueue;
use coffee_machine::order::Order;
use coffee_machine::order_reader::orders_from_input;
use coffee_machine::order_reader::parse_quantity;
use coffee_machine::order_reader::OrderReader;
use coffee_machine::utils::Message;
use coffee_machine::utils::Resource;

#[test]
fn order_exposes_its_quantities() {
    let order = Order::new(8, 5, 3);
    assert_eq!(*order.get_coffee(), 8);
    assert_eq!(*order.get_milk(), 5);
    assert_eq!(*order.get_water(), 3);
    assert!(order.requires_coffee());
    assert!(order.requires_milk());
    assert!(order.requires_water());
    let empty = Order::new(0, 0, 0);
    assert!(!empty.requires_coffee());
    assert!(!empty.requires_milk());
    assert!(!empty.requires_water());
}

#[test]
fn resource_index_gives_record_columns() {
    assert_eq!(Resource::Coffee.index(), 0);
    assert_eq!(Resource::Milk.index(), 1);
    assert_eq!(Resource::Water.index(), 2);
}

#[test]
fn parse_quantity_reads_decimal_fields() {
    assert_eq!(parse_quantity("0"), Some(0));
    assert_eq!(parse_quantity("123"), Some(123));
    assert_eq!(parse_quantity("+7"), Some(7));
    assert_eq!(parse_quantity("18446744073709551615"), Some(u64::MAX));
}

#[test]
fn parse_quantity_rejects_malformed_fields() {
    assert_eq!(parse_quantity(""), None);
    assert_eq!(parse_quantity("+"), None);
    assert_eq!(parse_quantity("abc"), None);
    assert_eq!(parse_quantity("12a"), None);
    assert_eq!(parse_quantity("-3"), None);
    assert_eq!(parse_quantity(" 12"), None);
    assert_eq!(parse_quantity("1 2"), None);
}

#[test]
fn parse_quantity_rejects_values_beyond_u64() {
    assert_eq!(parse_quantity("18446744073709551616"), None);
    assert_eq!(parse_quantity("99999999999999999999999"), None);
}

#[test]
fn orders_from_input_parses_each_record() {
    let orders = orders_from_input(b"1,2,3\n40,50,60\n").expect("well-formed input");
    assert_eq!(orders.len(), 2);
    assert_eq!(*orders[0].get_coffee(), 1);
    assert_eq!(*orders[0].get_milk(), 2);
    assert_eq!(*orders[0].get_water(), 3);
    assert_eq!(*orders[1].get_coffee(), 40);
    assert_eq!(*orders[1].get_milk(), 50);
    assert_eq!(*orders[1].get_water(), 60);
}

#[test]
fn orders_from_input_accepts_empty_input() {
    let orders = orders_from_input(b"").expect("empty input holds no records");
    assert_eq!(orders.len(), 0);
}

#[test]
fn orders_from_input_rejects_short_records() {
    assert!(orders_from_input(b"1,2\n").is_none());
}

#[test]
fn orders_from_input_rejects_non_numeric_fields() {
    assert!(orders_from_input(b"a,b,c\n").is_none());
    assert!(orders_from_input(b"1,2,x\n").is_none());
}

#[test]
fn order_reader_pushes_one_job_per_record_in_order() {
    let mut reader = OrderReader::new(BlockingQueue::new());
    assert!(reader.read_from(b"8,0,5\n0,6,0\n"));
    let mut queue = reader.into_queue();
    assert_eq!(queue.len(), 2);
    match queue.pop_front() {
        Message::Job(order) => {
            assert_eq!(*order.get_coffee(), 8);
            assert_eq!(*order.get_milk(), 0);
            assert_eq!(*order.get_water(), 5);
        },
        Message::Shutdown => panic!("expected a job"),
    }
    match queue.pop_front() {
        Message::Job(order) => {
            assert_eq!(*order.get_coffee(), 0);
            assert_eq!(*order.get_milk(), 6);
            assert_eq!(*order.get_water(), 0);
        },
        Message::Shutdown => panic!("expected a job"),
    }
}

#[test]
fn order_reader_pushes_nothing_on_malformed_input() {
    let mut reader = OrderReader::new(BlockingQueue::new());
    assert!(!reader.read_from(b"8,0\n"));
    let queue = reader.into_queue();
    assert!(queue.is_empty());
}
