use order_manager::{Date, FormField, OrderBuilder, OrderForm};

#[test]
fn test_get_valid_customer_name() {
    let mut form = OrderForm::default();
    form.customer_name = "Testing".to_string();

    assert!(form.get_valid_customer_name().is_ok());
}

#[test]
fn test_get_valid_customer_name_empty() {
    let form = OrderForm::default();

    assert!(form.get_valid_customer_name().is_err());
}

#[test]
fn test_get_valid_customer_name_too_short() {
    let mut form = OrderForm::default();
    form.customer_name = "aa".to_string();

    assert!(form.get_valid_customer_name().is_err());
}

#[test]
fn test_get_valid_customer_name_too_long() {
    let mut form = OrderForm::default();
    form.customer_name = "aaaaaaaaaaaaaaaaaaaaaaaaaaaaaaa".to_string();

    assert!(form.get_valid_customer_name().is_err());
}

#[test]
fn test_get_valid_receipt_number() {
    let mut form = OrderForm::default();
    form.receipt_number = "123".to_string();

    assert!(form.get_valid_receipt_number().is_ok());
}

#[test]
fn test_get_valid_receipt_number_empty() {
    let form = OrderForm::default();

    assert!(form.get_valid_receipt_number().is_err());
}

#[test]
fn test_get_valid_receipt_number_not_a_number() {
    let mut form = OrderForm::default();
    form.receipt_number = "hello".to_string();

    assert!(form.get_valid_receipt_number().is_err());
}

#[test]
fn test_get_valid_item_hired() {
    let mut form = OrderForm::default();
    form.item_hired = "Test Item".to_string();

    assert!(form.get_valid_item_hired().is_ok())
}

#[test]
fn test_get_valid_item_hired_empty() {
    let form = OrderForm::default();

    assert!(form.get_valid_item_hired().is_err())
}

#[test]
fn test_get_valid_item_hired_too_short() {
    let mut form = OrderForm::default();
    form.item_hired = "aa".to_string();

    assert!(form.get_valid_item_hired().is_err())
}

#[test]
fn test_get_valid_item_hired_too_long() {
    let mut form = OrderForm::default();
    form.item_hired = "aaaaaaaaaaaaaaaaaaaaaaaaaaaaaaa".to_string();

    assert!(form.get_valid_item_hired().is_err())
}

#[test]
fn test_get_valid_how_many() {
    let mut form = OrderForm::default();
    form.how_many = "250".to_string();

    assert!(form.get_valid_how_many().is_ok());
}

#[test]
fn test_get_valid_how_many_empty() {
    let form = OrderForm::default();

    assert!(form.get_valid_how_many().is_err());
}

#[test]
fn test_get_valid_how_many_not_an_int() {
    let mut form = OrderForm::default();
    form.how_many = "asdf".to_string();

    assert!(form.get_valid_how_many().is_err());
}

#[test]
fn test_get_valid_how_many_too_small() {
    let mut form = OrderForm::default();
    form.how_many = "-24".to_string();

    assert!(form.get_valid_how_many().is_err());
}

#[test]
fn test_get_valid_how_many_too_big() {
    let mut form = OrderForm::default();
    form.how_many = "21442".to_string();

    assert!(form.get_valid_how_many().is_err());
}

#[test]
fn test_get_valid_hired_on() {
    let mut form = OrderForm::default();
    form.hired_on = "2024-03-24".to_string();

    assert!(form.get_valid_hired_on().is_ok());
}

#[test]
fn test_get_valid_hired_on_empty() {
    let form = OrderForm::default();

    assert!(form.get_valid_hired_on().is_err());
}

#[test]
fn test_get_valid_hired_on_invalid_format() {
    let mut form = OrderForm::default();
    form.hired_on = "2024/03-asdf".to_string();

    assert!(form.get_valid_hired_on().is_err());
}

#[test]
fn test_get_valid_return_on() {
    let mut form = OrderForm::default();
    form.return_on = "2024-03-24".to_string();

    assert!(form.get_valid_return_on().is_ok());
}

#[test]
fn test_get_valid_return_on_empty() {
    let form = OrderForm::default();

    assert!(form.get_valid_return_on().is_err());
}

#[test]
fn test_get_valid_return_on_invalid_format() {
    let mut form = OrderForm::default();
    form.return_on = "2024/03-asdf".to_string();

    assert!(form.get_valid_return_on().is_err());
}

#[test]
fn test_form_create_order() {
    let mut form = OrderForm::default();
    form.customer_name = "Test".to_string();
    form.receipt_number = "123".to_string();
    form.item_hired = "Test Item".to_string();
    form.how_many = "123".to_string();
    form.hired_on = "1-1-1".to_string();
    form.return_on = "1-1-2".to_string();

    assert!(form.create_order().is_ok());
}

#[test]
fn test_form_create_order_invalid() {
    let mut form = OrderForm::default();
    form.customer_name = "Test".to_string();
    form.receipt_number = "12asdf3".to_string();
    form.item_hired = "Test Item".to_string();
    form.how_many = "123asdf".to_string();
    form.hired_on = "1-1-1".to_string();
    form.return_on = "1-1-2".to_string();

    assert!(form.create_order().is_err());
}

fn filled_form() -> OrderForm {
    let mut form = OrderForm::default();
    form.customer_name = "Test".to_string();
    form.receipt_number = "123".to_string();
    form.item_hired = "Test Item".to_string();
    form.how_many = "123".to_string();
    form.hired_on = "2025-03-23".to_string();
    form.return_on = "2025-04-01".to_string();
    form
}

#[test]
fn create_order_carries_the_typed_values() {
    let order = filled_form().create_order().unwrap();
    assert_eq!(order.customer_name, "Test");
    assert_eq!(order.receipt_number, 123);
    assert_eq!(order.item_hired, "Test Item");
    assert_eq!(order.how_many, 123);
    assert_eq!(order.hired_on, Date { year: 2025, month: 3, day: 23 });
    assert_eq!(order.return_on, Date { year: 2025, month: 4, day: 1 });
    assert_eq!(order.boxes_needed, 5);
    assert!(order.raffle_number >= 0 && order.raffle_number <= 1000);
}

#[test]
fn create_order_gives_the_first_error() {
    let mut form = filled_form();
    form.receipt_number = "12asdf3".to_string();
    form.how_many = "123asdf".to_string();
    assert_eq!(
        form.create_order().unwrap_err(),
        "Receipt number must be a 64-bit integer"
    );
    form.customer_name = String::new();
    assert_eq!(form.create_order().unwrap_err(), "Customer name is required");
}

#[test]
fn create_order_reports_each_field_in_turn() {
    let mut form = filled_form();
    form.item_hired = "ab".to_string();
    assert_eq!(form.create_order().unwrap_err(), "Item hired must be at least 3 characters");
    form.item_hired = "abc".to_string();
    form.how_many = "0".to_string();
    assert_eq!(form.create_order().unwrap_err(), "How many must be at least 1");
    form.how_many = "1".to_string();
    form.hired_on = "2025-02-30".to_string();
    assert_eq!(
        form.create_order().unwrap_err(),
        "Hired on date must be formatted as YYYY-MM-DD e.g. 2025-03-18"
    );
    form.hired_on = "2024-02-29".to_string();
    form.return_on = String::new();
    assert_eq!(form.create_order().unwrap_err(), "Return on date is required");
}

#[test]
fn customer_name_messages() {
    let mut form = OrderForm::default();
    assert_eq!(form.get_valid_customer_name().unwrap_err(), "Customer name is required");
    form.customer_name = "aa".to_string();
    assert_eq!(
        form.get_valid_customer_name().unwrap_err(),
        "Customer name must be at least 3 characters"
    );
    form.customer_name = "a".repeat(31);
    assert_eq!(
        form.get_valid_customer_name().unwrap_err(),
        "Customer name must be less than 30 characters"
    );
    form.customer_name = "a".repeat(30);
    assert_eq!(form.get_valid_customer_name().unwrap(), "a".repeat(30));
    form.customer_name = "abc".to_string();
    assert_eq!(form.get_valid_customer_name().unwrap(), "abc");
}

#[test]
fn name_length_counts_characters() {
    let mut form = OrderForm::default();
    // two bytes each in UTF-8, one character each
    form.customer_name = "é".repeat(16);
    assert_eq!(form.get_valid_customer_name().unwrap(), "é".repeat(16));
    form.customer_name = "é".repeat(30);
    assert!(form.get_valid_customer_name().is_ok());
    form.customer_name = "é".repeat(31);
    assert_eq!(
        form.get_valid_customer_name().unwrap_err(),
        "Customer name must be less than 30 characters"
    );
    form.item_hired = "éé".to_string();
    assert_eq!(form.get_valid_item_hired().unwrap_err(), "Item hired must be at least 3 characters");
    form.item_hired = "ééé".to_string();
    assert!(form.get_valid_item_hired().is_ok());
    form.item_hired = "日本語の品物".repeat(5);
    assert!(form.get_valid_item_hired().is_ok());
    form.item_hired = "日本語の品物".repeat(6);
    assert_eq!(
        form.get_valid_item_hired().unwrap_err(),
        "Item hired must be less than 30 characters"
    );
}

#[test]
fn item_hired_messages() {
    let mut form = OrderForm::default();
    assert_eq!(form.get_valid_item_hired().unwrap_err(), "Item hired is required");
    form.item_hired = "a".repeat(31);
    assert_eq!(
        form.get_valid_item_hired().unwrap_err(),
        "Item hired must be less than 30 characters"
    );
}

#[test]
fn receipt_number_reads_like_i64() {
    let mut form = OrderForm::default();
    assert_eq!(form.get_valid_receipt_number().unwrap_err(), "Receipt number is required");
    form.receipt_number = "9223372036854775807".to_string();
    assert_eq!(form.get_valid_receipt_number().unwrap(), i64::MAX);
    form.receipt_number = "-9223372036854775808".to_string();
    assert_eq!(form.get_valid_receipt_number().unwrap(), i64::MIN);
    form.receipt_number = "9223372036854775808".to_string();
    assert_eq!(
        form.get_valid_receipt_number().unwrap_err(),
        "Receipt number must be a 64-bit integer"
    );
    form.receipt_number = "+42".to_string();
    assert_eq!(form.get_valid_receipt_number().unwrap(), 42);
    form.receipt_number = "0007".to_string();
    assert_eq!(form.get_valid_receipt_number().unwrap(), 7);
    for bad in ["-", "+", " 1", "1 ", "1.0", "--1", "1e3", "٣"] {
        form.receipt_number = bad.to_string();
        assert!(form.get_valid_receipt_number().is_err(), "{bad}");
        assert_eq!(form.get_valid_receipt_number().is_err(), bad.parse::<i64>().is_err());
    }
}

#[test]
fn how_many_bounds() {
    let mut form = OrderForm::default();
    assert_eq!(form.get_valid_how_many().unwrap_err(), "How many is required");
    form.how_many = "1".to_string();
    assert_eq!(form.get_valid_how_many().unwrap(), 1);
    form.how_many = "500".to_string();
    assert_eq!(form.get_valid_how_many().unwrap(), 500);
    form.how_many = "501".to_string();
    assert_eq!(form.get_valid_how_many().unwrap_err(), "How many must not be more than 500");
    form.how_many = "0".to_string();
    assert_eq!(form.get_valid_how_many().unwrap_err(), "How many must be at least 1");
    form.how_many = "-2147483648".to_string();
    assert_eq!(form.get_valid_how_many().unwrap_err(), "How many must be at least 1");
    form.how_many = "2147483648".to_string();
    assert_eq!(form.get_valid_how_many().unwrap_err(), "How many must be an integer");
    form.how_many = "asdf".to_string();
    assert_eq!(form.get_valid_how_many().unwrap_err(), "How many must be an integer");
}

#[test]
fn date_fields_read_iso_dates() {
    let mut form = OrderForm::default();
    assert_eq!(form.get_valid_hired_on().unwrap_err(), "Hired on date is required");
    assert_eq!(form.get_valid_return_on().unwrap_err(), "Return on date is required");
    form.hired_on = "2024-03-24".to_string();
    assert_eq!(form.get_valid_hired_on().unwrap(), Date { year: 2024, month: 3, day: 24 });
    form.return_on = "1-1-2".to_string();
    assert_eq!(form.get_valid_return_on().unwrap(), Date { year: 1, month: 1, day: 2 });
    form.return_on = "2023-02-29".to_string();
    assert_eq!(
        form.get_valid_return_on().unwrap_err(),
        "Return on date must be formatted as YYYY-MM-DD e.g. 2025-03-18"
    );
}

#[test]
fn visible_errors_follow_the_flags() {
    let mut form = OrderForm::default();
    assert_eq!(form.get_visible_field_error("customer_name"), None);
    form.customer_name_show_error = true;
    assert_eq!(
        form.get_visible_field_error("customer_name"),
        Some("Customer name is required".to_string())
    );
    form.customer_name = "Valid Name".to_string();
    assert_eq!(form.get_visible_field_error("customer_name"), None);

    form.return_on_show_error = true;
    assert_eq!(
        form.get_visible_field_error("return_on"),
        Some("Return on date is required".to_string())
    );
    assert_eq!(form.get_visible_field_error("hired_on"), None);
    form.hired_on_show_error = true;
    assert_eq!(
        form.get_visible_field_error("hired_on"),
        Some("Hired on date is required".to_string())
    );
    form.receipt_number_show_error = true;
    form.item_hired_show_error = true;
    form.how_many_show_error = true;
    assert_eq!(
        form.get_visible_field_error("receipt_number"),
        Some("Receipt number is required".to_string())
    );
    assert_eq!(
        form.get_visible_field_error("item_hired"),
        Some("Item hired is required".to_string())
    );
    assert_eq!(
        form.get_visible_field_error("how_many"),
        Some("How many is required".to_string())
    );
    assert_eq!(form.get_visible_field_error("nonsense"), None);
    assert_eq!(form.get_visible_field_error(""), None);
}

#[test]
fn field_names() {
    assert_eq!(FormField::from_name("customer_name"), Some(FormField::CustomerName));
    assert_eq!(FormField::from_name("receipt_number"), Some(FormField::ReceiptNumber));
    assert_eq!(FormField::from_name("item_hired"), Some(FormField::ItemHired));
    assert_eq!(FormField::from_name("how_many"), Some(FormField::HowMany));
    assert_eq!(FormField::from_name("hired_on"), Some(FormField::HiredOn));
    assert_eq!(FormField::from_name("return_on"), Some(FormField::ReturnOn));
    assert_eq!(FormField::from_name("return_o"), None);
    assert_eq!(FormField::from_name("Customer_name"), None);
}

#[test]
fn set_field_shows_its_error() {
    let mut form = OrderForm::default();
    form.set_field(FormField::HowMany, "7".to_string());
    assert_eq!(form.how_many, "7");
    assert!(form.how_many_show_error);
    assert!(!form.customer_name_show_error);
    form.show_all_errors();
    assert!(form.customer_name_show_error && form.receipt_number_show_error);
    assert!(form.item_hired_show_error && form.hired_on_show_error && form.return_on_show_error);
}

#[test]
fn builder_checks_like_the_form() {
    let mut builder = OrderBuilder::default();
    assert!(builder.get_valid_customer_name().is_err());
    assert!(builder.get_valid_receipt_number().is_err());
    assert!(builder.get_valid_item_hired().is_err());
    assert!(builder.get_valid_how_many().is_err());
    assert!(builder.get_valid_hired_on().is_err());
    assert!(builder.get_valid_return_on().is_err());
    builder.return_on_show_error = true;
    assert_eq!(
        builder.get_visible_field_error("return_on"),
        Some("Return on date is required".to_string())
    );
    assert_eq!(builder.get_visible_field_error("hired_on"), None);
    builder.customer_name = "Test".to_string();
    builder.receipt_number = "15".to_string();
    builder.item_hired = "Test Item".to_string();
    builder.how_many = "26".to_string();
    builder.hired_on = "2025-03-23".to_string();
    builder.return_on = "2025-03-23".to_string();
    let order = builder.create_order().unwrap();
    assert_eq!(order.boxes_needed, 2);
    assert_eq!(order.receipt_number, 15);
}
