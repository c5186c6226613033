use invoicing::date::Date;
use invoicing::decimal::Dec;
use invoicing::forms::{
    data_uri, detect_mime, email_test_redirect, plus_to_space, some_if_not_empty, urlencoding_simple, ClientForm,
    CompanyForm, CompanyView, EmailConfigForm, FieldKind, ItemForm, MethodForm, MethodView, TemplateForm, TermsForm,
};
use invoicing::invoice_forms::{
    add_item_lines, edit_view, format_amount, parse_add_quantity, parse_create_invoice_form, remove_item_lines,
    summary_view, InvoiceFormError, UpdateInvoiceForm,
};
use invoicing::models::{
    Client, ClientId, Company, CompanyId, Contact, Currency, Invoice, InvoiceAttrs, InvoiceId, InvoiceStage,
    InvoiceSummary, Item, ItemId, Method, MethodId, PaidStatus, Quantity, Template, TemplateId, Terms, TermsId,
};

fn ymd(y: i32, m: u32, d: u32) -> Date {
    Date::from_ymd(y, m, d).unwrap()
}

fn qty(text: &str) -> Quantity {
    let (whole, frac) = text.split_once('.').unwrap_or((text, ""));
    let mantissa: i128 = format!("{}{}", whole, frac).parse().unwrap();
    Quantity::new(Dec::new(mantissa, frac.len() as u32).unwrap()).unwrap()
}

fn no_contact() -> Contact {
    Contact { phone: None, email: None, addr1: None, addr2: None, city: None, state: None, zip: None }
}

fn item(id: i64, cents: i64) -> Item {
    Item { id: ItemId(id), name: format!("item {}", id), rate: Currency::from_cents(cents) }
}

#[test]
fn blank_fields_are_none() {
    assert_eq!(some_if_not_empty("  ".into()), None);
    assert_eq!(some_if_not_empty("".into()), None);
    assert_eq!(some_if_not_empty(" x ".into()), Some(" x ".to_string()));
}

#[test]
fn mime_types_by_signature() {
    assert_eq!(detect_mime(b"\x89PNG\r\n\x1a\nrest"), "image/png");
    assert_eq!(detect_mime(b"\xFF\xD8\xFF\xE0"), "image/jpeg");
    assert_eq!(detect_mime(b"RIFF\x00\x00\x00\x00WEBPVP8 "), "image/webp");
    assert_eq!(detect_mime(b"GIF89a"), "image/png");
    assert_eq!(detect_mime(b""), "image/png");
    assert_eq!(detect_mime(b"RIFF\x00\x00\x00\x00WEB"), "image/png");
}

#[test]
fn data_uris() {
    assert_eq!(data_uri(b"\x89PNG\r\n\x1a\n"), "data:image/png;base64,iVBORw0KGgo=");
    assert_eq!(data_uri(b"\xFF\xD8\xFF"), "data:image/jpeg;base64,/9j/");
    let c = Company { id: CompanyId(1), name: "Me".into(), logo: Some(vec![0xFF, 0xD8, 0xFF]), contact: no_contact() };
    let v = CompanyView::from(c);
    assert_eq!(v.logo.as_deref(), Some("data:image/jpeg;base64,/9j/"));
    let m = Method { id: MethodId(2), name: "Bank".into(), link: Some("l".into()), qr: None };
    let v = MethodView::from(m);
    assert_eq!((v.id, v.qr, v.link.as_deref()), (2, None, Some("l")));
}

#[test]
fn messages_are_percent_encoded() {
    assert_eq!(urlencoding_simple("Connection refused: é 100%"), "Connection+refused%3A+é+100%25");
    assert_eq!(urlencoding_simple("a-b_c.d~e\n"), "a-b_c.d~e%0A");
    assert_eq!(urlencoding_simple("€"), "%20AC");
    assert_eq!(urlencoding_simple(""), "");
    assert_eq!(plus_to_space("No+configuration+found"), "No configuration found");
}

fn form_urldecode(t: &str) -> String {
    let c: Vec<char> = t.chars().collect();
    let mut out = String::new();
    let mut i = 0;
    while i < c.len() {
        if c[i] == '+' {
            out.push(' ');
            i += 1;
        } else if c[i] == '%' && i + 2 < c.len() && c[i + 1].is_ascii_hexdigit() && c[i + 2].is_ascii_hexdigit() {
            let v = c[i + 1].to_digit(16).unwrap() * 16 + c[i + 2].to_digit(16).unwrap();
            out.push(char::from_u32(v).unwrap());
            i += 3;
        } else {
            out.push(c[i]);
            i += 1;
        }
    }
    out
}

#[test]
fn encoded_ascii_messages_decode_back() {
    for m in ["Connection refused: 100% + more", "a-b_c.d~e\n\t\u{7f}", "", " ", "%41+", "\"quoted\" & <tag>"] {
        let e = urlencoding_simple(m);
        assert_eq!(form_urldecode(&e), m, "{}", e);
        assert!(e.chars().all(|c| c != ' '));
    }
}

#[test]
fn unreserved_text_is_kept_and_output_is_url_safe() {
    for m in ["abcXYZ019", "a-b_c.d~e", "Zürich", ""] {
        assert_eq!(urlencoding_simple(m), m);
    }
    for m in ["a b/c?d=e&f", "100% €", "\u{1}\u{7f}"] {
        let e = urlencoding_simple(m);
        assert!(e.chars().all(|c| c.is_alphanumeric() || "-_.~+%".contains(c)), "{}", e);
    }
}

#[test]
fn email_test_redirects() {
    assert_eq!(email_test_redirect(false, Ok(())), "/settings/email?test=fail&msg=No+configuration+found");
    assert_eq!(email_test_redirect(true, Ok(())), "/settings/email?test=ok");
    assert_eq!(email_test_redirect(true, Err("bad auth!")), "/settings/email?test=fail&msg=bad+auth%21");
}

#[test]
fn client_form_becomes_a_contact() {
    let f = ClientForm {
        name: "Acme".into(),
        phone: Some("1".into()),
        email: None,
        addr1: None,
        addr2: None,
        city: Some("X".into()),
        state: None,
        zip: None,
    };
    let (name, contact) = f.into_contact();
    assert_eq!(name, "Acme");
    assert_eq!(contact, Contact { phone: Some("1".into()), city: Some("X".into()), ..no_contact() });
}

#[test]
fn company_form_reads_multipart_fields() {
    assert_eq!(CompanyForm::field_kind("logo"), FieldKind::Bytes);
    assert_eq!(CompanyForm::field_kind("zip"), FieldKind::Text);
    assert_eq!(CompanyForm::field_kind("other"), FieldKind::Ignored);
    let mut f = CompanyForm::new();
    f.accept_text("name", "Me".into());
    f.accept_text("phone", "  ".into());
    f.accept_text("city", "Paris".into());
    f.accept_text("bogus", "x".into());
    f.accept_bytes("logo", vec![1, 2]);
    f.accept_bytes("logo", vec![]);
    assert_eq!(f.name, "Me");
    assert_eq!(f.contact, Contact { city: Some("Paris".into()), ..no_contact() });
    assert_eq!(f.logo, Some(vec![1, 2]));
    assert!(!f.needs_stored_logo());
    let u = f.clone().into_update(Some(vec![9]));
    assert_eq!(u.logo, Some(vec![1, 2]));
    let mut g = CompanyForm::new();
    g.accept_text("name", "You".into());
    assert!(g.needs_stored_logo());
    assert_eq!(g.clone().into_update(Some(vec![9])).logo, Some(vec![9]));
    assert_eq!(g.into_create().logo, None);
}

#[test]
fn method_form_reads_multipart_fields() {
    assert_eq!(MethodForm::field_kind("qr"), FieldKind::Bytes);
    assert_eq!(MethodForm::field_kind("link"), FieldKind::Text);
    let mut f = MethodForm::new();
    f.accept_text("name", "Bank".into());
    f.accept_text("link", " ".into());
    f.accept_bytes("qr", vec![]);
    assert_eq!((f.name.as_str(), f.link.clone(), f.qr.clone()), ("Bank", None, None));
    let u = f.into_update(Some(vec![3]));
    assert_eq!((u.name.as_deref(), u.link, u.qr), (Some("Bank"), None, Some(vec![3])));
}

#[test]
fn item_rates_parse_to_cents() {
    let f = ItemForm { name: "Hour".into(), rate: "12.345".into() };
    let c = f.parse_rate().unwrap();
    assert_eq!(c, Currency::new(Dec::new(12345, 3).unwrap()));
    assert_eq!(c.to_cents(), Some(1234));
    let f = ItemForm { name: "Hour".into(), rate: "80".into() };
    assert_eq!(f.parse_rate().unwrap().to_cents(), Some(8000));
    let f = ItemForm { name: "Hour".into(), rate: "ten".into() };
    assert_eq!(f.parse_rate(), Err("Invalid rate: ten".to_string()));
    let f = ItemForm { name: "Hour".into(), rate: "79228162514264337593543950335".into() };
    let c = f.parse_rate().unwrap();
    assert_eq!(c, Currency::new(Dec::new(79228162514264337593543950335, 0).unwrap()));
    assert_eq!(c.to_cents(), None);
}

#[test]
fn terms_and_template_forms() {
    let t = TermsForm { name: "Net 30".into(), due: 30 };
    assert_eq!(t.clone().into_create().due, 30);
    assert_eq!(t.into_update().due, Some(30));
    let f = TemplateForm { name: "T".into(), company_id: 1, client_id: 2, terms_id: 3, method_ids: vec![4, 5] };
    let c = f.clone().into_create();
    assert_eq!((c.company, c.client, c.terms, c.method.clone()), (CompanyId(1), ClientId(2), TermsId(3), vec![MethodId(4), MethodId(5)]));
    let u = f.into_update();
    assert_eq!(u.method, Some(vec![MethodId(4), MethodId(5)]));
}

#[test]
fn email_settings_form() {
    let f = EmailConfigForm {
        smtp_server: "smtp".into(),
        port: "not a port".into(),
        tls: Some("on".into()),
        username: "me".into(),
        password: Some("   ".into()),
        fromname: "Me".into(),
        test_recipient: Some("".into()),
    };
    assert!(f.needs_stored_password());
    let u = f.clone().into_upsert(Some("kept".into()));
    assert_eq!((u.port, u.tls, u.password.as_str(), u.test_recipient.clone()), (587, true, "kept", None));
    assert_eq!(f.clone().into_upsert(None).password, "");
    let g = EmailConfigForm { port: "2525".into(), tls: None, password: Some("new".into()), ..f };
    assert!(!g.needs_stored_password());
    let u = g.into_upsert(Some("kept".into()));
    assert_eq!((u.port, u.tls, u.password.as_str()), (2525, false, "new"));
}

fn fields(pairs: &[(&str, &str)]) -> Vec<(String, String)> {
    pairs.iter().map(|(k, v)| (k.to_string(), v.to_string())).collect()
}

#[test]
fn new_invoice_form() {
    let f = fields(&[
        ("template_id", "3"),
        ("date", "2024-01-31"),
        ("show_notes", "on"),
        ("stage", "Quote"),
        ("notes", "  "),
        ("qty_5", "1.5"),
        ("qty_6", ""),
        ("qty_x", "2"),
        ("qty_7", "0"),
        ("qty_8", "2"),
    ]);
    let c = parse_create_invoice_form(&f).unwrap();
    assert_eq!(c.template, TemplateId(3));
    assert_eq!(c.date, ymd(2024, 1, 31));
    assert!(!c.attributes.show_methods && c.attributes.show_notes);
    assert_eq!(c.attributes.stage, InvoiceStage::Quote);
    assert_eq!(c.attributes.status, PaidStatus::Waiting);
    assert_eq!(c.notes, None);
    assert_eq!(c.items, vec![(ItemId(5), qty("1.5")), (ItemId(8), qty("2"))]);
}

#[test]
fn new_invoice_form_errors() {
    assert_eq!(parse_create_invoice_form(&fields(&[("date", "2024-01-31")])), Err(InvoiceFormError::MissingTemplateId));
    assert_eq!(
        parse_create_invoice_form(&fields(&[("template_id", "three")])),
        Err(InvoiceFormError::InvalidTemplateId)
    );
    assert_eq!(parse_create_invoice_form(&fields(&[("template_id", "3")])), Err(InvoiceFormError::MissingDate));
    assert_eq!(
        parse_create_invoice_form(&fields(&[("template_id", "3"), ("date", "31/01/2024")])),
        Err(InvoiceFormError::InvalidDate)
    );
    let c = parse_create_invoice_form(&fields(&[("template_id", "3"), ("date", "2024-01-31"), ("stage", "quote")])).unwrap();
    assert_eq!(c.attributes.stage, InvoiceStage::Invoice);
}

#[test]
fn invoice_editor_form() {
    let today = ymd(2030, 6, 1);
    let f = UpdateInvoiceForm {
        show_methods: Some("on".into()),
        show_notes: None,
        stage: "Quote".into(),
        status: "Paid".into(),
        status_date: Some("2024-02-03".into()),
        status_check: Some("".into()),
        notes: Some("hello".into()),
    };
    let u = f.into_update(today);
    assert_eq!(u.show_methods, Some(true));
    assert_eq!(u.show_notes, Some(false));
    assert_eq!(u.stage, Some(InvoiceStage::Quote));
    assert_eq!(u.status, Some(PaidStatus::Paid { date: ymd(2024, 2, 3), check: None }));
    assert_eq!(u.notes.as_deref(), Some("hello"));
    assert_eq!(u.items, None);
}

#[test]
fn adding_and_removing_lines() {
    let current = vec![(item(5, 100), qty("1")), (item(6, 200), qty("2"))];
    assert_eq!(parse_add_quantity(None), qty("1"));
    assert_eq!(parse_add_quantity(Some("-3")), qty("1"));
    assert_eq!(parse_add_quantity(Some("x")), qty("1"));
    assert_eq!(parse_add_quantity(Some("2.5")), qty("2.5"));
    assert_eq!(
        add_item_lines(&current, ItemId(6), Some("4")),
        vec![(ItemId(5), qty("1")), (ItemId(6), qty("4"))]
    );
    assert_eq!(
        add_item_lines(&current, ItemId(9), None),
        vec![(ItemId(5), qty("1")), (ItemId(6), qty("2")), (ItemId(9), qty("1"))]
    );
    assert_eq!(remove_item_lines(&current, ItemId(5)), vec![(ItemId(6), qty("2"))]);
    assert_eq!(remove_item_lines(&current, ItemId(7)), vec![(ItemId(5), qty("1")), (ItemId(6), qty("2"))]);
}

#[test]
fn list_and_editor_views() {
    assert_eq!(format_amount(Currency::from_cents(123450)), "1234.50");
    let s = InvoiceSummary {
        id: InvoiceId(4),
        issued: ymd(2024, 1, 31),
        client_name: "Acme".into(),
        total: Currency::from_cents(9905),
        status: PaidStatus::Refunded { date: ymd(2024, 2, 1) },
        due: ymd(2024, 3, 1),
    };
    let v = summary_view(s);
    assert_eq!(
        (v.issued.as_str(), v.due.as_str(), v.status.as_str(), v.total.as_str()),
        ("2024-01-31", "2024-03-01", "Refunded (2024-02-01)", "99.05")
    );
    let template = Template {
        id: TemplateId(3),
        name: "T".into(),
        company: Company { id: CompanyId(1), name: "Me".into(), logo: None, contact: no_contact() },
        client: Client { id: ClientId(2), name: "Acme".into(), contact: no_contact() },
        terms: Terms { id: TermsId(4), name: "Net 30".into(), due: 30 },
        method: vec![],
    };
    let inv = Invoice {
        id: InvoiceId(8),
        template,
        date: ymd(2024, 1, 31),
        attributes: InvoiceAttrs {
            show_methods: true,
            show_notes: true,
            stage: InvoiceStage::Invoice,
            status: PaidStatus::Waiting,
        },
        notes: Some("n".into()),
        items: vec![(item(5, 333), qty("1.5")), (item(6, 1050), qty("3"))],
    };
    let (v, ids) = edit_view(&inv).unwrap();
    assert_eq!(ids, vec![5, 6]);
    assert_eq!((v.date.as_str(), v.client_name.as_str(), v.company_name.as_str()), ("2024-01-31", "Acme", "Me"));
    assert_eq!((v.stage.as_str(), v.status.as_str(), v.total.as_str()), ("Invoice", "Waiting", "36.50"));
    assert_eq!(v.items[0].rate, "3.33");
    assert_eq!(v.items[0].quantity, "1.5");
    assert_eq!(v.items[0].subtotal, "4.99");
    assert_eq!(v.items[1].subtotal, "31.50");
}
