use invoicing::date::Date;
use invoicing::error::StorageError;
use invoicing::models::{InvoiceStage, PaidStatus};
use invoicing::status::{
    decode_stage, decode_status, encode_stage, encode_status, flatten_status, parse_stage_form, parse_status_form,
};

fn ymd(y: i32, m: u32, d: u32) -> Date {
    Date::from_ymd(y, m, d).unwrap()
}

fn all_statuses() -> Vec<PaidStatus> {
    vec![
        PaidStatus::Waiting,
        PaidStatus::PastDue,
        PaidStatus::Paid { date: ymd(2024, 5, 6), check: Some("1042".to_string()) },
        PaidStatus::Paid { date: ymd(2024, 5, 6), check: None },
        PaidStatus::Failed { date: ymd(1999, 12, 31) },
        PaidStatus::Refunded { date: ymd(2024, 2, 29) },
    ]
}

#[test]
fn stages_are_stored_by_name() {
    assert_eq!(encode_stage(InvoiceStage::Quote), "Quote");
    assert_eq!(encode_stage(InvoiceStage::Invoice), "Invoice");
    assert_eq!(decode_stage("Quote"), Ok(InvoiceStage::Quote));
    assert_eq!(decode_stage("Invoice"), Ok(InvoiceStage::Invoice));
    assert_eq!(decode_stage("quote"), Err(StorageError::UnknownStage));
    assert_eq!(decode_stage(""), Err(StorageError::UnknownStage));
}

#[test]
fn stage_form_defaults_to_invoice() {
    assert_eq!(parse_stage_form("Quote"), InvoiceStage::Quote);
    assert_eq!(parse_stage_form("Invoice"), InvoiceStage::Invoice);
    assert_eq!(parse_stage_form("anything"), InvoiceStage::Invoice);
}

#[test]
fn statuses_are_stored_as_name_date_and_check() {
    assert_eq!(encode_status(&PaidStatus::Waiting), ("Waiting".to_string(), None, None));
    assert_eq!(encode_status(&PaidStatus::PastDue), ("Past Due".to_string(), None, None));
    assert_eq!(
        encode_status(&PaidStatus::Paid { date: ymd(2024, 5, 6), check: Some("1042".into()) }),
        ("Paid".to_string(), Some("20240506".to_string()), Some("1042".to_string()))
    );
    assert_eq!(
        encode_status(&PaidStatus::Refunded { date: ymd(2024, 2, 29) }),
        ("Refunded".to_string(), Some("20240229".to_string()), None)
    );
}

#[test]
fn stored_statuses_read_back() {
    for s in all_statuses() {
        let (name, date, check) = encode_status(&s);
        assert_eq!(decode_status(&name, date, check), Ok(s));
    }
}

#[test]
fn stored_status_errors() {
    assert_eq!(decode_status("Unknown", None, None), Err(StorageError::UnknownStatus));
    assert_eq!(decode_status("PastDue", None, None), Err(StorageError::UnknownStatus));
    assert_eq!(decode_status("Paid", None, Some("1".into())), Err(StorageError::MissingStatusDate));
    assert_eq!(decode_status("Failed", Some("2024-05-06".into()), None), Err(StorageError::InvalidDate));
    assert_eq!(decode_status("Waiting", Some("garbage".into()), Some("x".into())), Ok(PaidStatus::Waiting));
    assert_eq!(
        decode_status("Failed", Some("20240506".into()), Some("ignored".into())),
        Ok(PaidStatus::Failed { date: ymd(2024, 5, 6) })
    );
}

#[test]
fn statuses_flatten_for_the_forms() {
    assert_eq!(flatten_status(&PaidStatus::PastDue), ("PastDue", None, None));
    assert_eq!(
        flatten_status(&PaidStatus::Paid { date: ymd(2024, 5, 6), check: Some("77".into()) }),
        ("Paid", Some("2024-05-06".to_string()), Some("77".to_string()))
    );
}

#[test]
fn flattened_statuses_read_back_from_the_form() {
    let today = ymd(2030, 1, 1);
    for s in all_statuses() {
        let (name, date, check) = flatten_status(&s);
        assert_eq!(parse_status_form(name, date.as_deref(), check.as_deref(), today), s);
    }
}

#[test]
fn status_form_defaults() {
    let today = ymd(2030, 1, 1);
    assert_eq!(parse_status_form("Bogus", None, None, today), PaidStatus::Waiting);
    assert_eq!(
        parse_status_form("Paid", Some("not a date"), Some("   "), today),
        PaidStatus::Paid { date: today, check: None }
    );
    assert_eq!(parse_status_form("Failed", None, None, today), PaidStatus::Failed { date: today });
    assert_eq!(
        parse_status_form("Refunded", Some("2024-02-29"), Some("5"), today),
        PaidStatus::Refunded { date: ymd(2024, 2, 29) }
    );
}
