use invoicing::date::Date;
use invoicing::decimal::Dec;
use invoicing::error::StorageError;
use invoicing::invoice_store::{
    apply_invoice_patch, assemble_invoice, build_invoice_insert, compute_total,
    decode_invoice_row, decode_item_records, encode_items_json, decode_summary_row, encode_invoice_update, encode_item_records,
    CreateInvoice, InvoiceRow, ItemRecord, SummaryRow, UpdateInvoice,
};
use invoicing::models::{
    Client, ClientId, Company, CompanyId, Contact, Currency, InvoiceAttrs, InvoiceId, InvoiceItemSkel, InvoiceSkel,
    InvoiceStage, Item, ItemId, PaidStatus, Quantity, Template, TemplateId, Terms, TermsId,
};

fn ymd(y: i32, m: u32, d: u32) -> Date {
    Date::from_ymd(y, m, d).unwrap()
}

fn qty(text: &str) -> Quantity {
    let (whole, frac) = text.split_once('.').unwrap_or((text, ""));
    let mantissa: i128 = format!("{}{}", whole, frac).parse().unwrap();
    Quantity::new(Dec::new(mantissa, frac.len() as u32).unwrap()).unwrap()
}

fn item(id: i64, name: &str, cents: i64) -> Item {
    Item { id: ItemId(id), name: name.into(), rate: Currency::from_cents(cents) }
}

fn no_contact() -> Contact {
    Contact { phone: None, email: None, addr1: None, addr2: None, city: None, state: None, zip: None }
}

fn template() -> Template {
    Template {
        id: TemplateId(3),
        name: "Monthly".into(),
        company: Company { id: CompanyId(1), name: "Me".into(), logo: None, contact: no_contact() },
        client: Client { id: ClientId(2), name: "Acme".into(), contact: no_contact() },
        terms: Terms { id: TermsId(4), name: "Net 30".into(), due: 30 },
        method: vec![],
    }
}

fn create_input() -> CreateInvoice {
    CreateInvoice {
        template: TemplateId(3),
        date: ymd(2024, 1, 31),
        attributes: InvoiceAttrs {
            show_methods: true,
            show_notes: false,
            stage: InvoiceStage::Quote,
            status: PaidStatus::Paid { date: ymd(2024, 2, 15), check: Some("1001".into()) },
        },
        notes: Some("Thanks".into()),
        items: vec![(ItemId(5), qty("1.5")), (ItemId(6), qty("2"))],
    }
}

fn row_from(id: i64, ins: invoicing::invoice_store::InvoiceInsert) -> InvoiceRow {
    InvoiceRow {
        id,
        template_id: ins.template_id,
        date: ins.date,
        show_methods: ins.show_methods,
        show_notes: ins.show_notes,
        stage: ins.stage,
        status: ins.status,
        status_date: ins.status_date,
        status_check: ins.status_check,
        notes: ins.notes,
        items: Some(ins.items),
    }
}

#[test]
fn item_records_round_trip() {
    let items = vec![(ItemId(5), qty("1.50")), (ItemId(6), qty("3"))];
    let recs = encode_item_records(&items);
    assert_eq!(
        recs,
        vec![
            ItemRecord { item_id: 5, quantity: "1.50".into() },
            ItemRecord { item_id: 6, quantity: "3".into() },
        ]
    );
    let lines = decode_item_records(&recs).unwrap();
    assert_eq!(
        lines,
        vec![
            InvoiceItemSkel { item_id: ItemId(5), quantity: qty("1.50") },
            InvoiceItemSkel { item_id: ItemId(6), quantity: qty("3") },
        ]
    );
}

#[test]
fn item_records_report_the_first_bad_quantity() {
    let recs = vec![
        ItemRecord { item_id: 1, quantity: "1".into() },
        ItemRecord { item_id: 2, quantity: "0".into() },
        ItemRecord { item_id: 3, quantity: "x".into() },
    ];
    assert_eq!(decode_item_records(&recs), Err(StorageError::NonPositiveQuantity));
    let recs = vec![ItemRecord { item_id: 3, quantity: "x".into() }];
    assert_eq!(decode_item_records(&recs), Err(StorageError::InvalidQuantity));
    assert_eq!(decode_item_records(&vec![]), Ok(vec![]));
}

#[test]
fn totals_round_the_sum_to_cents() {
    let lines = vec![(item(5, "Hour", 333), qty("1.5")), (item(6, "Part", 1050), qty("3"))];
    // 4.995 + 31.50 = 36.495, to even: 36.50
    assert_eq!(compute_total(&lines), Some(3650));
    assert_eq!(compute_total(&vec![(item(5, "Hour", 333), qty("1.5"))]), Some(500));
    assert_eq!(compute_total(&vec![]), Some(0));
    let huge = Quantity::new(Dec::new(79228162514264337593543950335, 0).unwrap()).unwrap();
    assert_eq!(compute_total(&vec![(item(1, "x", 1000), huge)]), None);
}

#[test]
fn created_invoices_read_back() {
    let input = create_input();
    let lines = vec![(item(5, "Hour", 10000), qty("1.5")), (item(6, "Part", 250), qty("2"))];
    let ins = build_invoice_insert(input.clone(), &lines).unwrap();
    assert_eq!(ins.date, "20240131");
    assert_eq!(ins.stage, "Quote");
    assert_eq!(ins.status, "Paid");
    assert_eq!(ins.status_date.as_deref(), Some("20240215"));
    assert_eq!(ins.status_check.as_deref(), Some("1001"));
    assert_eq!(ins.total, 15500);
    assert_eq!(ins.items_json, r#"[{"item_id":5,"quantity":"1.5"},{"item_id":6,"quantity":"2"}]"#);
    let skel = decode_invoice_row(row_from(11, ins)).unwrap();
    assert_eq!(
        skel,
        InvoiceSkel {
            id: InvoiceId(11),
            template_id: input.template,
            date: input.date,
            attributes: input.attributes,
            notes: input.notes,
            items: vec![
                InvoiceItemSkel { item_id: ItemId(5), quantity: qty("1.5") },
                InvoiceItemSkel { item_id: ItemId(6), quantity: qty("2") },
            ],
        }
    );
}

#[test]
fn created_invoices_assemble_with_every_line() {
    let input = create_input();
    let lines = vec![(item(5, "Hour", 10000), qty("1.5")), (item(6, "Part", 250), qty("2"))];
    let ins = build_invoice_insert(input.clone(), &lines).unwrap();
    let skel = decode_invoice_row(row_from(12, ins)).unwrap();
    let inv = assemble_invoice(skel, Some(template()), vec![Some(item(5, "Hour", 10000)), Some(item(6, "Part", 250))])
        .unwrap();
    assert_eq!(inv.id, InvoiceId(12));
    assert_eq!(inv.date, input.date);
    assert_eq!(inv.attributes, input.attributes);
    assert_eq!(inv.items, lines);
}

#[test]
fn item_lists_are_written_as_json() {
    assert_eq!(encode_items_json(&vec![]), "[]");
    let recs = vec![
        ItemRecord { item_id: -7, quantity: "0.25".into() },
        ItemRecord { item_id: i64::MIN, quantity: "a\"b\\c\n\u{1}\u{1f}é".into() },
    ];
    let expected = format!(
        "[{{\"item_id\":-7,\"quantity\":{}}},{{\"item_id\":{},\"quantity\":{}}}]",
        serde_json::to_string("0.25").unwrap(),
        i64::MIN,
        serde_json::to_string(&recs[1].quantity).unwrap()
    );
    assert_eq!(encode_items_json(&recs), expected);
    assert_eq!(encode_items_json(&recs[..1].to_vec()), r#"[{"item_id":-7,"quantity":"0.25"}]"#);
}

#[test]
fn creating_refuses_a_total_that_overflows() {
    let huge = Quantity::new(Dec::new(79228162514264337593543950335, 0).unwrap()).unwrap();
    let lines = vec![(item(1, "x", 1000), huge)];
    assert_eq!(build_invoice_insert(create_input(), &lines), Err(StorageError::TotalOutOfRange));
}

fn good_row() -> InvoiceRow {
    InvoiceRow {
        id: 1,
        template_id: 3,
        date: "20240131".into(),
        show_methods: false,
        show_notes: true,
        stage: "Invoice".into(),
        status: "Waiting".into(),
        status_date: None,
        status_check: None,
        notes: None,
        items: Some(vec![]),
    }
}

#[test]
fn invoice_rows_report_errors_in_order() {
    assert!(decode_invoice_row(good_row()).is_ok());
    let mut r = good_row();
    r.date = "2024-01-31".into();
    r.stage = "Draft".into();
    assert_eq!(decode_invoice_row(r), Err(StorageError::InvalidDate));
    let mut r = good_row();
    r.stage = "Draft".into();
    r.status = "Lost".into();
    assert_eq!(decode_invoice_row(r), Err(StorageError::UnknownStage));
    let mut r = good_row();
    r.status = "Lost".into();
    r.items = None;
    assert_eq!(decode_invoice_row(r), Err(StorageError::UnknownStatus));
    let mut r = good_row();
    r.status = "Refunded".into();
    assert_eq!(decode_invoice_row(r), Err(StorageError::MissingStatusDate));
    let mut r = good_row();
    r.items = None;
    assert_eq!(decode_invoice_row(r), Err(StorageError::InvalidItemsJson));
    let mut r = good_row();
    r.items = Some(vec![ItemRecord { item_id: 1, quantity: "-1".into() }]);
    assert_eq!(decode_invoice_row(r), Err(StorageError::NonPositiveQuantity));
}

#[test]
fn updates_apply_the_given_fields_and_read_back() {
    let skel = decode_invoice_row(good_row()).unwrap();
    let none = UpdateInvoice::none();
    assert_eq!(apply_invoice_patch(skel.clone(), none), skel);
    let patch = UpdateInvoice {
        show_methods: Some(true),
        show_notes: None,
        stage: Some(InvoiceStage::Quote),
        status: Some(PaidStatus::Failed { date: ymd(2024, 3, 1) }),
        notes: Some("late".into()),
        items: None,
    };
    let changed = apply_invoice_patch(skel.clone(), patch.clone());
    assert_eq!(apply_invoice_patch(changed.clone(), patch), changed);
    assert!(changed.attributes.show_methods && changed.attributes.show_notes);
    let u = encode_invoice_update(&changed);
    assert_eq!((u.stage.as_str(), u.status.as_str(), u.status_date.as_deref()), ("Quote", "Failed", Some("20240301")));
    let mut row = good_row();
    row.show_methods = u.show_methods;
    row.show_notes = u.show_notes;
    row.stage = u.stage;
    row.status = u.status;
    row.status_date = u.status_date;
    row.status_check = u.status_check;
    row.notes = u.notes;
    assert_eq!(decode_invoice_row(row), Ok(changed));
}

#[test]
fn updates_leave_the_lines_alone() {
    let skel = decode_invoice_row(good_row()).unwrap();
    let patch = UpdateInvoice { items: Some(vec![(ItemId(5), qty("2"))]), ..UpdateInvoice::none() };
    assert_eq!(apply_invoice_patch(skel.clone(), patch), skel);
}

#[test]
fn invoices_assemble_with_later_lines_winning() {
    let mut skel = decode_invoice_row(good_row()).unwrap();
    skel.items = vec![
        InvoiceItemSkel { item_id: ItemId(5), quantity: qty("1") },
        InvoiceItemSkel { item_id: ItemId(6), quantity: qty("2") },
        InvoiceItemSkel { item_id: ItemId(5), quantity: qty("7") },
    ];
    let found = vec![Some(item(5, "Hour", 100)), Some(item(6, "Part", 50)), Some(item(5, "Hour", 100))];
    let inv = assemble_invoice(skel.clone(), Some(template()), found).unwrap();
    assert_eq!(inv.items, vec![(item(5, "Hour", 100), qty("7")), (item(6, "Part", 50), qty("2"))]);
    assert_eq!(inv.template, template());
    assert_eq!(
        assemble_invoice(skel.clone(), None, vec![]),
        Err(StorageError::TemplateNotFound(TemplateId(3)))
    );
    assert_eq!(
        assemble_invoice(skel.clone(), Some(template()), vec![Some(item(5, "Hour", 100)), None]),
        Err(StorageError::ItemNotFound(ItemId(6)))
    );
    assert_eq!(
        assemble_invoice(skel, Some(template()), vec![Some(item(5, "Hour", 100)), Some(item(6, "Part", 50))]),
        Err(StorageError::ItemNotFound(ItemId(5)))
    );
}

#[test]
fn summaries_are_due_after_the_terms() {
    let row = SummaryRow {
        id: 4,
        date: "20240131".into(),
        status: "Paid".into(),
        status_date: Some("20240210".into()),
        total: 9900,
        client_name: "Acme".into(),
        terms_due: 30,
    };
    let s = decode_summary_row(row.clone()).unwrap();
    assert_eq!(s.id, InvoiceId(4));
    assert_eq!(s.issued, ymd(2024, 1, 31));
    assert_eq!(s.due, ymd(2024, 3, 1));
    assert_eq!(s.status, PaidStatus::Paid { date: ymd(2024, 2, 10), check: None });
    assert_eq!(s.total.to_cents(), Some(9900));
    let mut bad = row.clone();
    bad.date = "31/01/2024".into();
    assert_eq!(decode_summary_row(bad), Err(StorageError::InvalidDate));
    let mut far = row.clone();
    far.terms_due = i64::MAX;
    assert_eq!(decode_summary_row(far), Err(StorageError::DueDateOutOfRange));
    let mut lost = row;
    lost.status = "Lost".into();
    assert_eq!(decode_summary_row(lost), Err(StorageError::UnknownStatus));
}
