//! The rows of the storage tables and how records are read from and written
//! to them.

use vstd::prelude::*;
use crate::error::StorageError;
use crate::numbers::int_text;
use crate::models::{Template, Client, ClientId, Company, CompanyId, Config, Contact, Currency, Item, ItemId, Method, MethodId, TemplateId, TemplateSkel, Terms, TermsId};

verus! {

/// Integers in decimal, separated by commas.
pub open spec fn comma_joined_ints(v: Seq<i64>) -> Seq<char>
    decreases v.len(),
{
    if v.len() == 0 {
        Seq::empty()
    } else if v.len() == 1 {
        int_text(v[0] as int)
    } else {
        comma_joined_ints(v.drop_last()) + seq![','] + int_text(v.last() as int)
    }
}

/// What `serde_json::to_string` writes for a list of integers: `[`, the
/// integers in decimal separated by commas, `]`.
pub open spec fn json_int_array_text(v: Seq<i64>) -> Seq<char> {
    seq!['['] + comma_joined_ints(v) + seq![']']
}

/// What `serde_json::from_str::<Vec<i64>>` reads from a text, `None` for
/// its error.
pub uninterp spec fn json_int_array_parse(text: Seq<char>) -> Option<Seq<i64>>;

/// `serde_json::to_string` for a list of integers. Writing integers cannot
/// fail, and `serde_json::from_str` reads the text back as the same list.
#[verifier::external_body]
fn json_write_int_array(v: &Vec<i64>) -> (r: String)
    ensures
        r@ == json_int_array_text(v@),
        json_int_array_parse(r@) == Some(v@),
{
    serde_json::to_string(v).unwrap_or_default()
}

/// `serde_json::from_str::<Vec<i64>>`.
#[verifier::external_body]
fn json_read_int_array(text: &str) -> (r: Option<Vec<i64>>)
    ensures
        match r {
            Some(v) => json_int_array_parse(text@) == Some(v@),
            None => json_int_array_parse(text@) is None,
        },
{
    serde_json::from_str::<Vec<i64>>(text).ok()
}

// ---------------------------------------------------------------------------
// Clients and companies
// ---------------------------------------------------------------------------

/// A row of the `client` table.
#[derive(Clone, Debug, PartialEq, Eq)]
pub struct ClientRow {
    pub id: i64,
    pub name: String,
    pub phone: Option<String>,
    pub email: Option<String>,
    pub addr1: Option<String>,
    pub addr2: Option<String>,
    pub city: Option<String>,
    pub state: Option<String>,
    pub zip: Option<String>,
}

/// The contact details held in the contact columns of a row.
pub open spec fn contact_of(
    phone: Option<String>,
    email: Option<String>,
    addr1: Option<String>,
    addr2: Option<String>,
    city: Option<String>,
    state: Option<String>,
    zip: Option<String>,
) -> Contact {
    Contact { phone, email, addr1, addr2, city, state, zip }
}

/// Reads a client from its row.
pub fn decode_client_row(r: ClientRow) -> (c: Client)
    ensures
        c == (Client {
            id: ClientId(r.id),
            name: r.name,
            contact: contact_of(r.phone, r.email, r.addr1, r.addr2, r.city, r.state, r.zip),
        }),
{
    Client {
        id: ClientId(r.id),
        name: r.name,
        contact: Contact {
            phone: r.phone,
            email: r.email,
            addr1: r.addr1,
            addr2: r.addr2,
            city: r.city,
            state: r.state,
            zip: r.zip,
        },
    }
}

/// Writes a client as its row; reading the row gives the client back.
pub fn encode_client_row(c: Client) -> (r: ClientRow)
    ensures
        r.id == c.id.0,
        r.name == c.name,
        contact_of(r.phone, r.email, r.addr1, r.addr2, r.city, r.state, r.zip) == c.contact,
        (Client {
            id: ClientId(r.id),
            name: r.name,
            contact: contact_of(r.phone, r.email, r.addr1, r.addr2, r.city, r.state, r.zip),
        }) == c,
{
    ClientRow {
        id: c.id.0,
        name: c.name,
        phone: c.contact.phone,
        email: c.contact.email,
        addr1: c.contact.addr1,
        addr2: c.contact.addr2,
        city: c.contact.city,
        state: c.contact.state,
        zip: c.contact.zip,
    }
}

/// A row of the `company` table.
#[derive(Clone, Debug, PartialEq, Eq)]
pub struct CompanyRow {
    pub id: i64,
    pub name: String,
    pub logo: Option<Vec<u8>>,
    pub phone: Option<String>,
    pub email: Option<String>,
    pub addr1: Option<String>,
    pub addr2: Option<String>,
    pub city: Option<String>,
    pub state: Option<String>,
    pub zip: Option<String>,
}

/// Reads a company from its row.
pub fn decode_company_row(r: CompanyRow) -> (c: Company)
    ensures
        c == (Company {
            id: CompanyId(r.id),
            name: r.name,
            logo: r.logo,
            contact: contact_of(r.phone, r.email, r.addr1, r.addr2, r.city, r.state, r.zip),
        }),
{
    Company {
        id: CompanyId(r.id),
        name: r.name,
        logo: r.logo,
        contact: Contact {
            phone: r.phone,
            email: r.email,
            addr1: r.addr1,
            addr2: r.addr2,
            city: r.city,
            state: r.state,
            zip: r.zip,
        },
    }
}

/// Writes a company as its row; reading the row gives the company back.
pub fn encode_company_row(c: Company) -> (r: CompanyRow)
    ensures
        r.id == c.id.0,
        r.name == c.name,
        r.logo == c.logo,
        contact_of(r.phone, r.email, r.addr1, r.addr2, r.city, r.state, r.zip) == c.contact,
        (Company {
            id: CompanyId(r.id),
            name: r.name,
            logo: r.logo,
            contact: contact_of(r.phone, r.email, r.addr1, r.addr2, r.city, r.state, r.zip),
        }) == c,
{
    CompanyRow {
        id: c.id.0,
        name: c.name,
        logo: c.logo,
        phone: c.contact.phone,
        email: c.contact.email,
        addr1: c.contact.addr1,
        addr2: c.contact.addr2,
        city: c.contact.city,
        state: c.contact.state,
        zip: c.contact.zip,
    }
}

// ---------------------------------------------------------------------------
// Items, methods and terms
// ---------------------------------------------------------------------------

/// A row of the `items` table; the rate is held in cents.
#[derive(Clone, Debug, PartialEq, Eq)]
pub struct ItemRow {
    pub id: i64,
    pub name: String,
    pub rate: i64,
}

/// Reads an item from its row, its rate from cents.
pub fn decode_item_row(r: ItemRow) -> (i: Item)
    ensures
        i.id == ItemId(r.id),
        i.name == r.name,
        i.rate@ == (r.rate as int, 2int),
        i.rate.cents() == r.rate,
{
    Item { id: ItemId(r.id), name: r.name, rate: Currency::from_cents(r.rate) }
}

/// Writes an item as its row, its rate in whole cents (halves to even);
/// refused where that count of cents does not fit an `i64`. Reading the row
/// (`decode_item_row`) gives the item back, its rate as that many cents.
pub fn encode_item_row(i: Item) -> (r: Result<ItemRow, StorageError>)
    ensures
        r is Ok <==> i64::MIN <= i.rate.cents() <= i64::MAX,
        r is Err ==> r == Err::<ItemRow, StorageError>(StorageError::RateOutOfRange),
        r matches Ok(row) ==> {
            &&& row.id == i.id.0
            &&& row.name == i.name
            &&& row.rate == i.rate.cents()
        },
{
    match i.rate.to_cents() {
        Some(c) => Ok(ItemRow { id: i.id.0, name: i.name, rate: c }),
        None => Err(StorageError::RateOutOfRange),
    }
}

/// A row of the `methods` table as it is read: link and QR code are
/// required columns.
#[derive(Clone, Debug, PartialEq, Eq)]
pub struct MethodRow {
    pub id: i64,
    pub name: String,
    pub link: String,
    pub qr: Vec<u8>,
}

/// Reads a payment method from its row; link and QR code are always present.
pub fn decode_method_row(r: MethodRow) -> (m: Method)
    ensures
        m == (Method { id: MethodId(r.id), name: r.name, link: Some(r.link), qr: Some(r.qr) }),
{
    Method { id: MethodId(r.id), name: r.name, link: Some(r.link), qr: Some(r.qr) }
}

/// A row of the `terms` table.
#[derive(Clone, Debug, PartialEq, Eq)]
pub struct TermsRow {
    pub id: i64,
    pub name: String,
    pub due: i64,
}

/// Reads payment terms from their row.
pub fn decode_terms_row(r: TermsRow) -> (t: Terms)
    ensures
        t == (Terms { id: TermsId(r.id), name: r.name, due: r.due }),
{
    Terms { id: TermsId(r.id), name: r.name, due: r.due }
}

/// Writes payment terms as their row; reading the row gives them back.
pub fn encode_terms_row(t: Terms) -> (r: TermsRow)
    ensures
        r == (TermsRow { id: t.id.0, name: t.name, due: t.due }),
        (Terms { id: TermsId(r.id), name: r.name, due: r.due }) == t,
{
    TermsRow { id: t.id.0, name: t.name, due: t.due }
}

// ---------------------------------------------------------------------------
// Email configuration
// ---------------------------------------------------------------------------

/// The single row of the `email_config` table; port and TLS flag are held as
/// integers.
#[derive(Clone, Debug, PartialEq, Eq)]
pub struct ConfigRow {
    pub id: i64,
    pub smtp_server: String,
    pub port: i64,
    pub tls: i64,
    pub username: String,
    pub password: String,
    pub fromname: String,
    pub test_recipient: Option<String>,
}

/// The values written by an upsert of the email configuration.
#[derive(Clone, Debug, PartialEq, Eq)]
pub struct UpsertConfig {
    pub smtp_server: String,
    pub port: u16,
    pub tls: bool,
    pub username: String,
    pub password: String,
    pub fromname: String,
    pub test_recipient: Option<String>,
}

/// Reads the email configuration from its row: the port is cut to 16 bits
/// and any TLS value other than 0 means TLS.
pub fn decode_config_row(r: ConfigRow) -> (c: Config)
    ensures
        c == (Config {
            id: r.id,
            smtp_server: r.smtp_server,
            port: r.port as u16,
            tls: r.tls != 0,
            username: r.username,
            password: r.password,
            fromname: r.fromname,
            test_recipient: r.test_recipient,
        }),
{
    Config {
        id: r.id,
        smtp_server: r.smtp_server,
        port: r.port as u16,
        tls: r.tls != 0,
        username: r.username,
        password: r.password,
        fromname: r.fromname,
        test_recipient: r.test_recipient,
    }
}

/// Writes an upsert of the email configuration as the row with id 0, the
/// TLS flag as 1 or 0. Reading the row gives back exactly what was written.
pub fn encode_config_row(u: UpsertConfig) -> (r: ConfigRow)
    ensures
        r == (ConfigRow {
            id: 0,
            smtp_server: u.smtp_server,
            port: u.port as i64,
            tls: if u.tls { 1 } else { 0 },
            username: u.username,
            password: u.password,
            fromname: u.fromname,
            test_recipient: u.test_recipient,
        }),
        (Config {
            id: r.id,
            smtp_server: r.smtp_server,
            port: r.port as u16,
            tls: r.tls != 0,
            username: r.username,
            password: r.password,
            fromname: r.fromname,
            test_recipient: r.test_recipient,
        }) == (Config {
            id: 0,
            smtp_server: u.smtp_server,
            port: u.port,
            tls: u.tls,
            username: u.username,
            password: u.password,
            fromname: u.fromname,
            test_recipient: u.test_recipient,
        }),
{
    ConfigRow {
        id: 0,
        smtp_server: u.smtp_server,
        port: u.port as i64,
        tls: if u.tls { 1 } else { 0 },
        username: u.username,
        password: u.password,
        fromname: u.fromname,
        test_recipient: u.test_recipient,
    }
}

// ---------------------------------------------------------------------------
// Templates
// ---------------------------------------------------------------------------

/// A row of the `templates` table: the method ids are held as a JSON array.
#[derive(Clone, Debug, PartialEq, Eq)]
pub struct TemplateRow {
    pub id: i64,
    pub name: String,
    pub company_id: i64,
    pub client_id: i64,
    pub terms_id: i64,
    pub methods_json: String,
}

pub open spec fn method_id_values(ids: Seq<MethodId>) -> Seq<i64> {
    ids.map_values(|m: MethodId| m.0)
}

fn method_ids_from_values(v: &Vec<i64>) -> (r: Vec<MethodId>)
    ensures
        method_id_values(r@) == v@,
{
    let mut r: Vec<MethodId> = Vec::new();
    for k in 0..v.len()
        invariant
            r@.len() == k,
            forall|j: int| 0 <= j < k ==> #[trigger] r@[j].0 == v@[j],
    {
        r.push(MethodId(v[k]));
    }
    assert(method_id_values(r@) =~= v@);
    r
}

fn method_id_values_of(ids: &Vec<MethodId>) -> (r: Vec<i64>)
    ensures
        r@ == method_id_values(ids@),
{
    let mut r: Vec<i64> = Vec::new();
    for k in 0..ids.len()
        invariant
            r@.len() == k,
            forall|j: int| 0 <= j < k ==> #[trigger] r@[j] == ids@[j].0,
    {
        r.push(ids[k].0);
    }
    assert(r@ =~= method_id_values(ids@));
    r
}

/// The abstract value of a stored template: ids as integers, text as
/// characters.
pub struct TemplateSkelV {
    pub id: i64,
    pub name: Seq<char>,
    pub company_id: i64,
    pub client_id: i64,
    pub terms_id: i64,
    pub method_ids: Seq<i64>,
}

impl View for TemplateSkel {
    type V = TemplateSkelV;

    open spec fn view(&self) -> TemplateSkelV {
        TemplateSkelV {
            id: self.id.0,
            name: self.name@,
            company_id: self.company_id.0,
            client_id: self.client_id.0,
            terms_id: self.terms_id.0,
            method_ids: method_id_values(self.method_ids@),
        }
    }
}

/// The template that a row holds: refused where the method list is not a
/// JSON array of integers.
pub open spec fn decoded_template_row(r: TemplateRow) -> Result<TemplateSkelV, StorageError> {
    match json_int_array_parse(r.methods_json@) {
        None => Err(StorageError::InvalidMethodsJson),
        Some(ids) => Ok(
            TemplateSkelV {
                id: r.id,
                name: r.name@,
                company_id: r.company_id,
                client_id: r.client_id,
                terms_id: r.terms_id,
                method_ids: ids,
            },
        ),
    }
}

pub open spec fn template_result_view(t: Result<TemplateSkel, StorageError>) -> Result<TemplateSkelV, StorageError> {
    match t {
        Ok(s) => Ok(s@),
        Err(e) => Err(e),
    }
}

/// Reads a template from its row.
pub fn decode_template_row(r: TemplateRow) -> (t: Result<TemplateSkel, StorageError>)
    ensures
        template_result_view(t) == decoded_template_row(r),
{
    match json_read_int_array(r.methods_json.as_str()) {
        None => Err(StorageError::InvalidMethodsJson),
        Some(values) => {
            let method_ids = method_ids_from_values(&values);
            Ok(TemplateSkel {
                id: TemplateId(r.id),
                name: r.name,
                company_id: CompanyId(r.company_id),
                client_id: ClientId(r.client_id),
                terms_id: TermsId(r.terms_id),
                method_ids,
            })
        },
    }
}

/// The method list of a template in the JSON form that it is stored in.
pub fn encode_method_ids(ids: &Vec<MethodId>) -> (r: String)
    ensures
        r@ == json_int_array_text(method_id_values(ids@)),
        json_int_array_parse(r@) == Some(method_id_values(ids@)),
{
    let values = method_id_values_of(ids);
    json_write_int_array(&values)
}

/// Writes a template as its row. Reading the row gives the template back.
pub fn encode_template_row(t: TemplateSkel) -> (r: TemplateRow)
    ensures
        r.id == t.id.0,
        r.name == t.name,
        r.company_id == t.company_id.0,
        r.client_id == t.client_id.0,
        r.terms_id == t.terms_id.0,
        r.methods_json@ == json_int_array_text(method_id_values(t.method_ids@)),
        decoded_template_row(r) == Ok::<TemplateSkelV, StorageError>(t@),
{
    let methods_json = encode_method_ids(&t.method_ids);
    TemplateRow {
        id: t.id.0,
        name: t.name,
        company_id: t.company_id.0,
        client_id: t.client_id.0,
        terms_id: t.terms_id.0,
        methods_json,
    }
}

pub open spec fn found_method_at(found: Seq<Option<Method>>, j: int) -> Option<Method> {
    if 0 <= j < found.len() {
        found[j]
    } else {
        None
    }
}

/// The index of the first method id whose method was not found, or -1.
pub open spec fn first_missing_method(ids: Seq<MethodId>, found: Seq<Option<Method>>) -> int
    decreases ids.len(),
{
    if ids.len() == 0 {
        -1
    } else {
        let j = first_missing_method(ids.drop_last(), found);
        if j >= 0 {
            j
        } else if found_method_at(found, ids.len() - 1) is None {
            ids.len() - 1
        } else {
            -1
        }
    }
}

proof fn lemma_first_missing_method_persists(ids: Seq<MethodId>, found: Seq<Option<Method>>, k: int)
    requires
        0 <= k <= ids.len(),
        first_missing_method(ids.take(k), found) >= 0,
    ensures
        first_missing_method(ids, found) == first_missing_method(ids.take(k), found),
    decreases ids.len() - k,
{
    if k == ids.len() {
        assert(ids.take(k) =~= ids);
    } else {
        assert(ids.take(k + 1).drop_last() =~= ids.take(k));
        lemma_first_missing_method_persists(ids, found, k + 1);
    }
}

/// A template with the records it refers to, as found: `found[j]` is the
/// method of its method id `j`. The first record that is missing, in the
/// order company, client, terms, methods, is reported.
pub fn assemble_template(
    skel: TemplateSkel,
    company: Option<Company>,
    client: Option<Client>,
    terms: Option<Terms>,
    found_methods: Vec<Option<Method>>,
) -> (r: Result<Template, StorageError>)
    ensures
        company is None ==> r == Err::<Template, StorageError>(StorageError::CompanyNotFound(skel.company_id)),
        company is Some && client is None ==> r == Err::<Template, StorageError>(
            StorageError::ClientNotFound(skel.client_id),
        ),
        company is Some && client is Some && terms is None ==> r == Err::<Template, StorageError>(
            StorageError::TermsNotFound(skel.terms_id),
        ),
        company is Some && client is Some && terms is Some && first_missing_method(skel.method_ids@, found_methods@) >= 0
            ==> r == Err::<Template, StorageError>(
            StorageError::MethodNotFound(skel.method_ids@[first_missing_method(skel.method_ids@, found_methods@)]),
        ),
        company is Some && client is Some && terms is Some && first_missing_method(skel.method_ids@, found_methods@) < 0
            ==> (r matches Ok(t) && {
            &&& t.id == skel.id
            &&& t.name == skel.name
            &&& Some(t.company) == company
            &&& Some(t.client) == client
            &&& Some(t.terms) == terms
            &&& t.method@.len() == skel.method_ids@.len()
            &&& forall|j: int| 0 <= j < t.method@.len() ==> Some(#[trigger] t.method@[j]) == found_methods@[j]
        }),
{
    let company_v = match company {
        Some(c) => c,
        None => return Err(StorageError::CompanyNotFound(skel.company_id)),
    };
    let client_v = match client {
        Some(c) => c,
        None => return Err(StorageError::ClientNotFound(skel.client_id)),
    };
    let terms_v = match terms {
        Some(t) => t,
        None => return Err(StorageError::TermsNotFound(skel.terms_id)),
    };
    let ghost orig = found_methods@;
    let mut found = found_methods;
    let mut methods: Vec<Method> = Vec::new();
    let mut j: usize = 0;
    proof {
        assert(skel.method_ids@.take(0) =~= Seq::<MethodId>::empty());
    }
    while j < skel.method_ids.len()
        invariant
            j <= skel.method_ids@.len(),
            company is Some && client is Some && terms is Some,
            found@.len() == orig.len(),
            orig == found_methods@,
            forall|t: int| j <= t < orig.len() ==> found@[t] == orig[t],
            first_missing_method(skel.method_ids@.take(j as int), orig) == -1,
            methods@.len() == j,
            forall|t: int| 0 <= t < j ==> Some(#[trigger] methods@[t]) == orig[t],
        decreases skel.method_ids@.len() - j,
    {
        proof {
            assert(skel.method_ids@.take(j + 1).drop_last() =~= skel.method_ids@.take(j as int));
        }
        let id = skel.method_ids[j];
        if j < found.len() {
            let mut slot: Option<Method> = None;
            found.set_and_swap(j, &mut slot);
            match slot {
                Some(m) => {
                    methods.push(m);
                },
                None => {
                    proof {
                        assert(first_missing_method(skel.method_ids@.take(j + 1), orig) == j);
                        lemma_first_missing_method_persists(skel.method_ids@, orig, j + 1);
                    }
                    return Err(StorageError::MethodNotFound(id));
                },
            }
        } else {
            proof {
                lemma_first_missing_method_persists(skel.method_ids@, orig, j + 1);
            }
            return Err(StorageError::MethodNotFound(id));
        }
        j = j + 1;
    }
    proof {
        assert(skel.method_ids@.take(skel.method_ids@.len() as int) =~= skel.method_ids@);
    }
    Ok(Template {
        id: skel.id,
        name: skel.name,
        company: company_v,
        client: client_v,
        terms: terms_v,
        method: methods,
    })
}

/// A delete reports whether it removed a row.
pub fn deleted_any(rows_affected: u64) -> (r: bool)
    ensures
        r == (rows_affected > 0),
{
    rows_affected > 0
}

} // verus!
