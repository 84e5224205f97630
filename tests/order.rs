use order_manager::{boxes_needed, Date, NewOrder, Order, OrderColumnKind, OrderRow};

#[test]
fn test_boxes_needed() {
    assert_eq!(boxes_needed(26), 2);
}

#[test]
fn test_boxes_needed_zero() {
    assert_eq!(boxes_needed(0), 0);
}

#[test]
fn test_boxes_needed_exact() {
    assert_eq!(boxes_needed(30), 2);
}

#[test]
fn boxes_needed_rounds_up() {
    assert_eq!(boxes_needed(1), 1);
    assert_eq!(boxes_needed(25), 1);
    assert_eq!(boxes_needed(50), 2);
    assert_eq!(boxes_needed(51), 3);
    assert_eq!(boxes_needed(500), 20);
    assert_eq!(boxes_needed(i32::MAX), 85899346);
    assert_eq!(boxes_needed(-1), 0);
    assert_eq!(boxes_needed(-25), -1);
    assert_eq!(boxes_needed(-26), -1);
    assert_eq!(boxes_needed(i32::MIN), -85899345);
}

fn date(year: i32, month: u32, day: u32) -> Date {
    Date::from_ymd(year, month, day).unwrap()
}

#[test]
fn new_order_computes_boxes_and_draws_raffle() {
    for _ in 0..200 {
        let order = NewOrder::new(
            "Test Person".to_string(),
            15,
            "Test Item".to_string(),
            26,
            date(2025, 3, 23),
            date(2025, 3, 23),
        );
        assert_eq!(order.customer_name, "Test Person");
        assert_eq!(order.receipt_number, 15);
        assert_eq!(order.item_hired, "Test Item");
        assert_eq!(order.how_many, 26);
        assert_eq!(order.boxes_needed, 2);
        assert!((0..=1000).contains(&order.raffle_number));
    }
}

#[test]
fn with_raffle_number_keeps_the_number() {
    let order = NewOrder::with_raffle_number(
        "Test Person".to_string(),
        15,
        "Test Item".to_string(),
        75,
        date(2025, 3, 23),
        date(2025, 4, 2),
        617,
    );
    assert_eq!(order.raffle_number, 617);
    assert_eq!(order.boxes_needed, 3);
    assert_eq!(order.return_on, date(2025, 4, 2));
}

#[test]
fn dates_from_year_month_day() {
    assert!(Date::from_ymd(2024, 2, 29).is_some());
    assert!(Date::from_ymd(2023, 2, 29).is_none());
    assert!(Date::from_ymd(2000, 2, 29).is_some());
    assert!(Date::from_ymd(1900, 2, 29).is_none());
    assert!(Date::from_ymd(-4, 2, 29).is_some());
    assert!(Date::from_ymd(2025, 4, 31).is_none());
    assert!(Date::from_ymd(2025, 12, 31).is_some());
    assert!(Date::from_ymd(2025, 13, 1).is_none());
    assert!(Date::from_ymd(2025, 0, 1).is_none());
    assert!(Date::from_ymd(2025, 1, 0).is_none());
    assert!(Date::from_ymd(262142, 12, 31).is_some());
    assert!(Date::from_ymd(262143, 1, 1).is_none());
    assert!(Date::from_ymd(-262143, 1, 1).is_some());
    assert!(Date::from_ymd(-262144, 12, 31).is_none());
    assert!(!Date { year: 2025, month: 2, day: 29 }.is_valid());
    assert!(Date { year: 2025, month: 2, day: 28 }.is_valid());
}

#[test]
fn dates_are_written_as_iso_text() {
    assert_eq!(date(2025, 3, 5).to_iso_string(), "2025-03-05");
    assert_eq!(date(1, 1, 2).to_iso_string(), "0001-01-02");
    assert_eq!(date(2024, 12, 31).to_iso_string(), "2024-12-31");
    assert_eq!(date(0, 1, 1).to_iso_string(), "0000-01-01");
    assert_eq!(date(9999, 12, 31).to_iso_string(), "9999-12-31");
    assert_eq!(date(10000, 1, 1).to_iso_string(), "+10000-01-01");
    assert_eq!(date(-1, 1, 1).to_iso_string(), "-0001-01-01");
    assert_eq!(date(-262143, 1, 1).to_iso_string(), "-262143-01-01");
}

fn row(hired_on: &str, return_on: &str) -> OrderRow {
    OrderRow {
        id: 7,
        customer_name: "Test Person".to_string(),
        receipt_number: 15,
        item_hired: "Test Item".to_string(),
        how_many: 26,
        hired_on: hired_on.to_string(),
        return_on: return_on.to_string(),
        boxes_needed: 2,
        raffle_number: 12,
    }
}

#[test]
fn orders_are_read_from_rows() {
    let order = Order::from_row(row("2025-03-23", "2025-04-01")).unwrap();
    assert_eq!(order.id, 7);
    assert_eq!(order.customer_name, "Test Person");
    assert_eq!(order.receipt_number, 15);
    assert_eq!(order.item_hired, "Test Item");
    assert_eq!(order.how_many, 26);
    assert_eq!(order.hired_on, date(2025, 3, 23));
    assert_eq!(order.return_on, date(2025, 4, 1));
    assert_eq!(order.boxes_needed, 2);
    assert_eq!(order.raffle_number, 12);
    assert!(Order::from_row(row("2025-03-23", "soon")).is_none());
    assert!(Order::from_row(row("2025/03/23", "2025-04-01")).is_none());
}

#[test]
fn rows_round_trip_through_iso_text() {
    let d = date(2025, 3, 5);
    let order = Order::from_row(row(&d.to_iso_string(), &d.to_iso_string())).unwrap();
    assert_eq!(order.hired_on, d);
    assert_eq!(order.return_on, d);
}

#[test]
fn parsed_rows_need_both_dates() {
    let d = date(2025, 3, 5);
    assert!(Order::from_parsed_row(row("", ""), Some(d), None).is_none());
    assert!(Order::from_parsed_row(row("", ""), None, Some(d)).is_none());
    let order = Order::from_parsed_row(row("", ""), Some(d), Some(date(2025, 3, 6))).unwrap();
    assert_eq!(order.hired_on, d);
    assert_eq!(order.return_on, date(2025, 3, 6));
}

#[test]
fn column_headers() {
    assert_eq!(OrderColumnKind::CustomerName.header_text(), "Customer Name");
    assert_eq!(OrderColumnKind::RecieptNumber.header_text(), "Reciept No.");
    assert_eq!(OrderColumnKind::BoxesNeeded.header_text(), "Boxes");
    assert_eq!(OrderColumnKind::Delete.header_text(), "");
}
