use invoicing::date::Date;
use invoicing::decimal::{to_cents, Dec};
use invoicing::error::StorageError;
use invoicing::invoice_forms::format_amount;
use invoicing::invoice_store::{compute_total, decode_item_records, decode_summary_row, encode_item_records, ItemRecord, SummaryRow};
use invoicing::models::{Currency, InvoiceStage, Item, ItemId, PaidStatus, Quantity};
use invoicing::numbers::{chars_of, parse_i64, parse_u16};
use invoicing::status::{decode_stage, decode_status, encode_status, flatten_status, parse_status_form};
use invoicing::text::is_blank;

fn ymd(y: i32, m: u32, d: u32) -> Date {
    Date::from_ymd(y, m, d).unwrap()
}

#[test]
fn from_ymd_accepts_exactly_calendar_dates() {
    assert!(Date::from_ymd(2024, 2, 29).is_some());
    assert!(Date::from_ymd(2023, 2, 29).is_none());
    assert!(Date::from_ymd(1900, 2, 29).is_none());
    assert!(Date::from_ymd(2000, 2, 29).is_some());
    assert!(Date::from_ymd(2024, 4, 31).is_none());
    assert!(Date::from_ymd(2024, 13, 1).is_none());
    assert!(Date::from_ymd(2024, 1, 0).is_none());
    assert!(Date::from_ymd(262142, 12, 31).is_some());
    assert!(Date::from_ymd(262143, 1, 1).is_none());
    assert!(Date::from_ymd(-262143, 1, 1).is_some());
    assert!(Date::from_ymd(-262144, 1, 1).is_none());
    let d = ymd(2024, 1, 31);
    assert_eq!((d.year(), d.month(), d.day()), (2024, 1, 31));
}

fn failed_on(d: Date) -> PaidStatus {
    PaidStatus::Failed { date: d }
}

fn summary_due(date: &str, terms_due: i64) -> Result<Date, StorageError> {
    let row = SummaryRow {
        id: 1,
        date: date.into(),
        status: "Waiting".into(),
        status_date: None,
        total: 0,
        client_name: "Acme".into(),
        terms_due,
    };
    decode_summary_row(row).map(|s| s.due)
}

fn record(quantity: &str) -> Vec<ItemRecord> {
    vec![ItemRecord { item_id: 1, quantity: quantity.into() }]
}

fn rate_item(cents: i64) -> Item {
    Item { id: ItemId(1), name: "Hour".into(), rate: Currency::from_cents(cents) }
}

#[test]
fn dates_format_in_both_layouts() {
    assert_eq!(encode_status(&failed_on(ymd(2024, 1, 31))).1, Some("20240131".to_string()));
    assert_eq!(flatten_status(&failed_on(ymd(2024, 1, 31))).1, Some("2024-01-31".to_string()));
    assert_eq!(encode_status(&failed_on(ymd(42, 7, 4))).1, Some("00420704".to_string()));
}

#[test]
fn formatted_dates_parse_back() {
    let today = ymd(2000, 6, 15);
    for d in [ymd(2024, 1, 31), ymd(1, 1, 1), ymd(9999, 12, 31), ymd(0, 2, 29)] {
        let s = failed_on(d);
        let (name, date, check) = encode_status(&s);
        assert_eq!(decode_status(&name, date, check), Ok(s.clone()));
        let (name, date, check) = flatten_status(&s);
        assert_eq!(parse_status_form(name, date.as_deref(), check.as_deref(), today), s);
    }
}

#[test]
fn dates_that_do_not_parse() {
    let today = ymd(2000, 6, 15);
    assert_eq!(decode_status("Failed", Some("20240230".into()), None), Err(StorageError::InvalidDate));
    assert_eq!(decode_status("Failed", Some("yesterday".into()), None), Err(StorageError::InvalidDate));
    assert_eq!(decode_status("Failed", Some("2024-01-31".into()), None), Err(StorageError::InvalidDate));
    assert_eq!(parse_status_form("Failed", Some("2024-02-30"), None, today), failed_on(today));
    assert_eq!(parse_status_form("Failed", Some(""), None, today), failed_on(today));
    assert_eq!(parse_status_form("Failed", Some("20240131"), None, today), failed_on(today));
}

#[test]
fn days_are_added_on_the_calendar() {
    assert_eq!(summary_due("20240131", 30), Ok(ymd(2024, 3, 1)));
    assert_eq!(summary_due("20230131", 30), Ok(ymd(2023, 3, 2)));
    assert_eq!(summary_due("20240301", -1), Ok(ymd(2024, 2, 29)));
    assert_eq!(summary_due("20240301", 0), Ok(ymd(2024, 3, 1)));
    assert_eq!(summary_due("00010101", -100_000_000), Err(StorageError::DueDateOutOfRange));
    assert_eq!(summary_due("20240301", i64::MAX), Err(StorageError::DueDateOutOfRange));
}

#[test]
fn decimals_parse_with_their_scale() {
    let q = decode_item_records(&record("1.50")).unwrap()[0].quantity.inner();
    assert_eq!((q.mantissa(), q.scale()), (150, 2));
    let q = decode_item_records(&record("0.005")).unwrap()[0].quantity.inner();
    assert_eq!((q.mantissa(), q.scale()), (5, 3));
    assert_eq!(decode_item_records(&record("-0.005")), Err(StorageError::NonPositiveQuantity));
    assert_eq!(decode_item_records(&record("abc")), Err(StorageError::InvalidQuantity));
    assert_eq!(decode_item_records(&record("")), Err(StorageError::InvalidQuantity));
}

#[test]
fn decimals_print_and_parse_back() {
    for (m, s) in [(150i128, 2u32), (1, 0), (12345, 3), (79228162514264337593543950335, 0), (1, 28)] {
        let q = Quantity::new(Dec::new(m, s).unwrap()).unwrap();
        let recs = encode_item_records(&vec![(ItemId(9), q)]);
        let back = decode_item_records(&recs).unwrap();
        assert_eq!(back[0].quantity, q, "{}", recs[0].quantity);
    }
    let q = Quantity::new(Dec::new(150, 2).unwrap()).unwrap();
    assert_eq!(encode_item_records(&vec![(ItemId(9), q)])[0].quantity, "1.50");
    assert!(Dec::new(1, 29).is_none());
    assert!(Dec::new(79228162514264337593543950336, 0).is_none());
}

#[test]
fn amounts_print_with_two_places() {
    assert_eq!(format_amount(Currency::from_cents(-5)), "-0.05");
    assert_eq!(format_amount(Currency::from_cents(123456)), "1234.56");
    assert_eq!(format_amount(Currency::from_cents(700)), "7.00");
}

#[test]
fn decimal_arithmetic_is_that_of_rust_decimal() {
    let q = Quantity::new(Dec::new(15, 1).unwrap()).unwrap();
    // 3.33 * 1.5 = 4.995, which rounds to 5.00
    assert_eq!(compute_total(&vec![(rate_item(333), q)]), Some(500));
    // 4.995 + 4.995 = 9.990
    assert_eq!(compute_total(&vec![(rate_item(333), q), (rate_item(333), q)]), Some(999));
    let big = Quantity::new(Dec::new(79228162514264337593543950335, 0).unwrap()).unwrap();
    assert_eq!(compute_total(&vec![(rate_item(200), big)]), None);
    assert_eq!(compute_total(&vec![(rate_item(100), big), (rate_item(100), big)]), None);
}

#[test]
fn cents_round_half_to_even() {
    assert_eq!(to_cents(Dec::new(12345, 3).unwrap()), Some(1234));
    assert_eq!(to_cents(Dec::new(12355, 3).unwrap()), Some(1236));
    assert_eq!(to_cents(Dec::new(12346, 3).unwrap()), Some(1235));
    assert_eq!(to_cents(Dec::new(-12345, 3).unwrap()), Some(-1234));
    assert_eq!(to_cents(Dec::new(-12355, 3).unwrap()), Some(-1236));
    assert_eq!(to_cents(Dec::new(7, 0).unwrap()), Some(700));
    assert_eq!(to_cents(Dec::new(4995, 3).unwrap()), Some(500));
    assert_eq!(to_cents(Dec::new(79228162514264337593543950335, 0).unwrap()), None);
    assert_eq!(to_cents(Dec::new(-9223372036854775808, 2).unwrap()), Some(i64::MIN));
    assert_eq!(to_cents(Dec::new(9223372036854775808, 2).unwrap()), None);
}

#[test]
fn u16_parses_as_str_parse_does() {
    for text in ["587", "+80", "0", "65535", "65536", "", "+", "-1", " 1", "1 ", "12a", "00080", "99999999999999999999"] {
        assert_eq!(parse_u16(text), text.parse::<u16>().ok(), "{:?}", text);
    }
}

#[test]
fn i64_parses_as_str_parse_does() {
    for text in [
        "42", "-42", "+42", "-0", "", "-", "+", "9223372036854775807", "9223372036854775808",
        "-9223372036854775808", "-9223372036854775809", "1_000", "٣", "12 ",
    ] {
        assert_eq!(parse_i64(text), text.parse::<i64>().ok(), "{:?}", text);
    }
}

#[test]
fn text_helpers() {
    assert_eq!(chars_of("héllo"), vec!['h', 'é', 'l', 'l', 'o']);
    assert!(is_blank(""));
    assert!(is_blank(" \t\n\u{3000}"));
    assert!(!is_blank(" a "));
    assert_eq!(decode_stage("Quote"), Ok(InvoiceStage::Quote));
    assert_eq!(decode_stage("quote"), Err(StorageError::UnknownStage));
}

#[test]
fn white_space_is_that_of_char() {
    for n in 0u32..=0x10FFFF {
        if let Some(c) = char::from_u32(n) {
            assert_eq!(is_blank(&c.to_string()), c.is_whitespace(), "{:X}", n);
        }
    }
}
