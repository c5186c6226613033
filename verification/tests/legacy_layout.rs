use invoicing::legacy::{
    assemble_legacy_invoice, decode_flag, decode_legacy_invoice_row, decode_legacy_stage, decode_legacy_status,
    shortlist_query, LegacyError, LegacyInvoiceRow, LegacyStatus,
};
use invoicing::models::{
    Client, ClientId, Company, CompanyId, Contact, Currency, InvoiceStage, Item, ItemId, Template, TemplateId, Terms,
    TermsId,
};

fn row() -> LegacyInvoiceRow {
    LegacyInvoiceRow {
        id: 1,
        template_id: 2,
        date: "2023-04-05".into(),
        show_methods: 1,
        show_notes: 0,
        stage: "Quote".into(),
        status: "Paid".into(),
        status_date: None,
        status_check: Some("12".into()),
        notes: None,
        items: Some(vec![(7, 2), (8, 1), (7, 5)]),
    }
}

fn item(id: i64) -> Item {
    Item { id: ItemId(id), name: format!("item {}", id), rate: Currency::from_cents(100 * id) }
}

fn template() -> Template {
    let c = Contact { phone: None, email: None, addr1: None, addr2: None, city: None, state: None, zip: None };
    Template {
        id: TemplateId(2),
        name: "T".into(),
        company: Company { id: CompanyId(1), name: "Me".into(), logo: None, contact: c.clone() },
        client: Client { id: ClientId(1), name: "You".into(), contact: c },
        terms: Terms { id: TermsId(1), name: "Now".into(), due: 0 },
        method: vec![],
    }
}

#[test]
fn flags_are_zero_or_one() {
    assert_eq!(decode_flag(0), Ok(false));
    assert_eq!(decode_flag(1), Ok(true));
    assert_eq!(decode_flag(2), Err(LegacyError::InvalidQuery));
    assert_eq!(decode_flag(-1), Err(LegacyError::InvalidQuery));
}

#[test]
fn legacy_stage_and_status() {
    assert_eq!(decode_legacy_stage("Invoice"), Ok(InvoiceStage::Invoice));
    assert_eq!(decode_legacy_stage("Quote"), Ok(InvoiceStage::Quote));
    assert_eq!(decode_legacy_stage("Draft"), Err(LegacyError::InvalidQuery));
    assert_eq!(
        decode_legacy_status("Paid", None, Some("9".into())),
        Ok(LegacyStatus::Paid { date: "Unknown".into(), check: Some("9".into()) })
    );
    assert_eq!(
        decode_legacy_status("Failed", Some("yesterday".into()), None),
        Ok(LegacyStatus::Failed { date: "yesterday".into() })
    );
    assert_eq!(decode_legacy_status("Refunded", None, None), Ok(LegacyStatus::Refunded { date: "Unknown".into() }));
    assert_eq!(decode_legacy_status("Past Due", None, None), Ok(LegacyStatus::PastDue));
    assert_eq!(decode_legacy_status("Waiting", None, None), Ok(LegacyStatus::Waiting));
    assert_eq!(decode_legacy_status("PastDue", None, None), Err(LegacyError::InvalidQuery));
}

#[test]
fn legacy_rows_read_in_order() {
    let head = decode_legacy_invoice_row(row()).unwrap();
    assert!(head.attributes.show_methods && !head.attributes.show_notes);
    assert_eq!(head.attributes.stage, InvoiceStage::Quote);
    assert_eq!(head.items, vec![(7, 2), (8, 1), (7, 5)]);
    let mut r = row();
    r.show_notes = 3;
    r.stage = "Draft".into();
    assert_eq!(decode_legacy_invoice_row(r), Err(LegacyError::InvalidQuery));
    let mut r = row();
    r.items = None;
    assert_eq!(decode_legacy_invoice_row(r), Err(LegacyError::InvalidItems));
    let mut r = row();
    r.items = None;
    r.status = "Gone".into();
    assert_eq!(decode_legacy_invoice_row(r), Err(LegacyError::InvalidQuery));
}

#[test]
fn legacy_invoices_collect_lines_by_item() {
    let head = decode_legacy_invoice_row(row()).unwrap();
    let found = vec![(item(7), 2), (item(8), 1), (item(7), 5)];
    let inv = assemble_legacy_invoice(head, template(), found);
    assert_eq!(inv.items, vec![(item(7), 5), (item(8), 1)]);
    assert_eq!(inv.date, "2023-04-05");
}

#[test]
fn shortlist_queries() {
    assert_eq!(shortlist_query("invoices"), "SELECT id, date FROM invoices");
    assert_eq!(shortlist_query("client"), "SELECT id, name FROM client");
}
