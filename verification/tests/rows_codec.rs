use invoicing::error::StorageError;
use invoicing::decimal::Dec;
use invoicing::models::{
    Client, ClientId, Company, CompanyId, Config, Contact, Currency, Item, ItemId, Method, MethodId, TemplateId,
    TemplateSkel, Terms, TermsId,
};
use invoicing::patches::{
    apply_client_patch, apply_company_patch, apply_item_patch, apply_method_patch, apply_template_patch,
    apply_terms_patch, UpdateClient, UpdateCompany, UpdateItem, UpdateMethod, UpdateTemplate, UpdateTerms,
};
use invoicing::rows::{
    assemble_template, decode_client_row, decode_company_row, decode_config_row, decode_item_row, decode_method_row,
    decode_template_row, decode_terms_row, deleted_any, encode_client_row, encode_company_row, encode_config_row,
    encode_item_row, encode_method_ids, encode_template_row, encode_terms_row, ConfigRow, MethodRow, TemplateRow,
    UpsertConfig,
};

fn contact() -> Contact {
    Contact {
        phone: Some("555-0100".into()),
        email: Some("a@b.c".into()),
        addr1: Some("1 Main St".into()),
        addr2: None,
        city: Some("Springfield".into()),
        state: Some("IL".into()),
        zip: Some("62701".into()),
    }
}

fn skel() -> TemplateSkel {
    TemplateSkel {
        id: TemplateId(3),
        name: "Monthly".into(),
        company_id: CompanyId(1),
        client_id: ClientId(2),
        terms_id: TermsId(4),
        method_ids: vec![MethodId(7), MethodId(5)],
    }
}

#[test]
fn client_rows_round_trip() {
    let c = Client { id: ClientId(9), name: "Acme".into(), contact: contact() };
    let row = encode_client_row(c.clone());
    assert_eq!(row.phone.as_deref(), Some("555-0100"));
    assert_eq!(decode_client_row(row), c);
}

#[test]
fn company_rows_round_trip() {
    let c = Company { id: CompanyId(1), name: "Me".into(), logo: Some(vec![1, 2, 3]), contact: contact() };
    let row = encode_company_row(c.clone());
    assert_eq!(decode_company_row(row), c);
}

#[test]
fn item_rows_hold_cents() {
    let i = Item { id: ItemId(5), name: "Hour".into(), rate: Currency::from_cents(12550) };
    let row = encode_item_row(i.clone()).unwrap();
    assert_eq!(row.rate, 12550);
    assert_eq!(decode_item_row(row), i);
    let odd = Item { id: ItemId(6), name: "Part".into(), rate: Currency::new(Dec::new(12345, 3).unwrap()) };
    let row = encode_item_row(odd).unwrap();
    assert_eq!(row.rate, 1234);
    assert_eq!(decode_item_row(row).rate, Currency::from_cents(1234));
    let huge = Item { id: ItemId(7), name: "Big".into(), rate: Currency::new(Dec::new(1, 0).unwrap()) };
    assert!(encode_item_row(huge).is_ok());
    let huge = Item {
        id: ItemId(7),
        name: "Big".into(),
        rate: Currency::new(Dec::new(79228162514264337593543950335, 0).unwrap()),
    };
    assert_eq!(encode_item_row(huge), Err(StorageError::RateOutOfRange));
}

#[test]
fn method_rows_always_have_link_and_qr() {
    let m = decode_method_row(MethodRow { id: 1, name: "Bank".into(), link: "https://pay".into(), qr: vec![] });
    assert_eq!(m, Method { id: MethodId(1), name: "Bank".into(), link: Some("https://pay".into()), qr: Some(vec![]) });
}

#[test]
fn terms_rows_round_trip() {
    let t = Terms { id: TermsId(2), name: "Net 30".into(), due: 30 };
    assert_eq!(decode_terms_row(encode_terms_row(t.clone())), t);
}

#[test]
fn config_rows_round_trip_and_cut_the_port() {
    let u = UpsertConfig {
        smtp_server: "smtp.example.com".into(),
        port: 465,
        tls: true,
        username: "me".into(),
        password: "secret".into(),
        fromname: "Me".into(),
        test_recipient: None,
    };
    let row = encode_config_row(u);
    assert_eq!((row.id, row.port, row.tls), (0, 465, 1));
    let c = decode_config_row(row);
    assert_eq!(
        c,
        Config {
            id: 0,
            smtp_server: "smtp.example.com".into(),
            port: 465,
            tls: true,
            username: "me".into(),
            password: "secret".into(),
            fromname: "Me".into(),
            test_recipient: None,
        }
    );
    let odd = ConfigRow {
        id: 0,
        smtp_server: String::new(),
        port: 65536 + 25,
        tls: 7,
        username: String::new(),
        password: String::new(),
        fromname: String::new(),
        test_recipient: Some("t@x".into()),
    };
    let c = decode_config_row(odd);
    assert_eq!((c.port, c.tls), (25, true));
}

#[test]
fn template_rows_hold_method_ids_as_json() {
    assert_eq!(encode_method_ids(&vec![MethodId(7), MethodId(5)]), "[7,5]");
    assert_eq!(encode_method_ids(&vec![]), "[]");
    let row = encode_template_row(skel());
    assert_eq!(row.methods_json, "[7,5]");
    assert_eq!(decode_template_row(row), Ok(skel()));
}

#[test]
fn template_rows_with_bad_json_are_refused() {
    let row = TemplateRow {
        id: 1,
        name: "x".into(),
        company_id: 1,
        client_id: 1,
        terms_id: 1,
        methods_json: "[1,\"two\"]".into(),
    };
    assert_eq!(decode_template_row(row), Err(StorageError::InvalidMethodsJson));
    let row = TemplateRow {
        id: 1,
        name: "x".into(),
        company_id: 1,
        client_id: 1,
        terms_id: 1,
        methods_json: " [ 1 , 2 ] ".into(),
    };
    assert_eq!(decode_template_row(row).unwrap().method_ids, vec![MethodId(1), MethodId(2)]);
}

#[test]
fn templates_assemble_or_report_the_first_missing_record() {
    let company = Company { id: CompanyId(1), name: "Me".into(), logo: None, contact: contact() };
    let client = Client { id: ClientId(2), name: "Acme".into(), contact: contact() };
    let terms = Terms { id: TermsId(4), name: "Net 30".into(), due: 30 };
    let m7 = Method { id: MethodId(7), name: "Bank".into(), link: None, qr: None };
    let m5 = Method { id: MethodId(5), name: "Card".into(), link: Some("l".into()), qr: None };
    let t = assemble_template(
        skel(),
        Some(company.clone()),
        Some(client.clone()),
        Some(terms.clone()),
        vec![Some(m7.clone()), Some(m5.clone())],
    )
    .unwrap();
    assert_eq!(t.method, vec![m7.clone(), m5]);
    assert_eq!(t.company, company);
    assert_eq!(
        assemble_template(skel(), None, None, None, vec![]),
        Err(StorageError::CompanyNotFound(CompanyId(1)))
    );
    assert_eq!(
        assemble_template(skel(), Some(company.clone()), None, Some(terms.clone()), vec![]),
        Err(StorageError::ClientNotFound(ClientId(2)))
    );
    assert_eq!(
        assemble_template(skel(), Some(company.clone()), Some(client.clone()), None, vec![]),
        Err(StorageError::TermsNotFound(TermsId(4)))
    );
    assert_eq!(
        assemble_template(skel(), Some(company.clone()), Some(client.clone()), Some(terms.clone()), vec![Some(m7), None]),
        Err(StorageError::MethodNotFound(MethodId(5)))
    );
    assert_eq!(
        assemble_template(skel(), Some(company), Some(client), Some(terms), vec![]),
        Err(StorageError::MethodNotFound(MethodId(7)))
    );
}

#[test]
fn patches_replace_only_given_fields() {
    let c = Client { id: ClientId(9), name: "Acme".into(), contact: contact() };
    assert_eq!(apply_client_patch(c.clone(), UpdateClient { name: None, contact: None }), c);
    let renamed = apply_client_patch(c.clone(), UpdateClient { name: Some("Acme Ltd".into()), contact: None });
    assert_eq!(renamed.name, "Acme Ltd");
    assert_eq!(renamed.contact, c.contact);

    let co = Company { id: CompanyId(1), name: "Me".into(), logo: Some(vec![1]), contact: contact() };
    let p = UpdateCompany { name: Some("You".into()), logo: Some(vec![9, 9]), contact: None };
    let changed = apply_company_patch(co.clone(), p.clone());
    assert_eq!(changed.name, "You");
    assert_eq!(changed.logo, Some(vec![1]));
    assert_eq!(apply_company_patch(changed.clone(), p), changed);

    let i = Item { id: ItemId(5), name: "Hour".into(), rate: Currency::from_cents(100) };
    let i2 = apply_item_patch(i, UpdateItem { name: None, rate: Some(Currency::from_cents(150)) });
    assert_eq!((i2.name.as_str(), i2.rate.to_cents()), ("Hour", Some(150)));

    let m = Method { id: MethodId(1), name: "Bank".into(), link: None, qr: Some(vec![1]) };
    let m2 = apply_method_patch(m, UpdateMethod { name: None, link: Some("l".into()), qr: None });
    assert_eq!((m2.link.as_deref(), m2.qr.clone()), (Some("l"), Some(vec![1])));

    let t = Terms { id: TermsId(2), name: "Net 30".into(), due: 30 };
    let t2 = apply_terms_patch(t, UpdateTerms { name: None, due: Some(15) });
    assert_eq!((t2.name.as_str(), t2.due), ("Net 30", 15));

    let s2 = apply_template_patch(
        skel(),
        UpdateTemplate { name: None, company: None, client: Some(ClientId(8)), terms: None, method: Some(vec![]) },
    );
    assert_eq!((s2.client_id, s2.method_ids.len(), s2.company_id), (ClientId(8), 0, CompanyId(1)));
}

#[test]
fn deletes_report_removed_rows() {
    assert!(deleted_any(1));
    assert!(!deleted_any(0));
}
