//! What creating a record takes and how a change to a stored record is
//! applied: each field that a change gives replaces the stored one, the
//! others stay.

use vstd::prelude::*;
use crate::models::{Client, ClientId, Company, CompanyId, Contact, Currency, Item, ItemId, Method, MethodId, TemplateSkel,
    Terms, TermsId};

verus! {

pub open spec fn or_keep<T>(given: Option<T>, kept: T) -> T {
    match given {
        Some(v) => v,
        None => kept,
    }
}

// ---------------------------------------------------------------------------
// Clients
// ---------------------------------------------------------------------------

#[derive(Clone, Debug, PartialEq, Eq)]
pub struct CreateClient {
    pub name: String,
    pub contact: Contact,
}

#[derive(Clone, Debug, PartialEq, Eq)]
pub struct UpdateClient {
    pub name: Option<String>,
    pub contact: Option<Contact>,
}

pub open spec fn patched_client(c: Client, p: UpdateClient) -> Client {
    Client { id: c.id, name: or_keep(p.name, c.name), contact: or_keep(p.contact, c.contact) }
}

pub fn apply_client_patch(c: Client, p: UpdateClient) -> (r: Client)
    ensures
        r == patched_client(c, p),
        r.id == c.id,
        p.name matches Some(n) ==> r.name == n,
        p.name is None ==> r.name == c.name,
        p.contact matches Some(k) ==> r.contact == k,
        p.contact is None ==> r.contact == c.contact,
{
    let mut c = c;
    if let Some(name) = p.name {
        c.name = name;
    }
    if let Some(contact) = p.contact {
        c.contact = contact;
    }
    c
}

/// A change that gives nothing leaves a client as it was; applying a change
/// twice is applying it once.
pub proof fn law_client_patch(c: Client, p: UpdateClient)
    ensures
        patched_client(c, UpdateClient { name: None, contact: None }) == c,
        patched_client(patched_client(c, p), p) == patched_client(c, p),
{
}

/// Each field that a change to a client gives replaces the stored one; each
/// field it leaves out keeps its stored value; the id never changes.
pub proof fn law_client_patch_fields(c: Client, p: UpdateClient)
    ensures
        patched_client(c, p).id == c.id,
        p.name matches Some(n) ==> patched_client(c, p).name == n,
        p.name is None ==> patched_client(c, p).name == c.name,
        p.contact matches Some(k) ==> patched_client(c, p).contact == k,
        p.contact is None ==> patched_client(c, p).contact == c.contact,
{
}

// ---------------------------------------------------------------------------
// Companies
// ---------------------------------------------------------------------------

#[derive(Clone, Debug, PartialEq, Eq)]
pub struct CreateCompany {
    pub name: String,
    pub logo: Option<Vec<u8>>,
    pub contact: Contact,
}

/// A change to a company. Only name and contact are applied: the stored
/// logo stays whatever `logo` holds.
#[derive(Clone, Debug, PartialEq, Eq)]
pub struct UpdateCompany {
    pub name: Option<String>,
    pub logo: Option<Vec<u8>>,
    pub contact: Option<Contact>,
}

pub open spec fn patched_company(c: Company, p: UpdateCompany) -> Company {
    Company { id: c.id, name: or_keep(p.name, c.name), logo: c.logo, contact: or_keep(p.contact, c.contact) }
}

pub fn apply_company_patch(c: Company, p: UpdateCompany) -> (r: Company)
    ensures
        r == patched_company(c, p),
        r.id == c.id,
        r.logo == c.logo,
        p.name matches Some(n) ==> r.name == n,
        p.name is None ==> r.name == c.name,
        p.contact matches Some(k) ==> r.contact == k,
        p.contact is None ==> r.contact == c.contact,
{
    let mut c = c;
    if let Some(name) = p.name {
        c.name = name;
    }
    if let Some(contact) = p.contact {
        c.contact = contact;
    }
    c
}

/// A change that gives nothing leaves a company as it was; applying a change
/// twice is applying it once; the logo is never changed by an update.
pub proof fn law_company_patch(c: Company, p: UpdateCompany)
    ensures
        patched_company(c, UpdateCompany { name: None, logo: None, contact: None }) == c,
        patched_company(patched_company(c, p), p) == patched_company(c, p),
        patched_company(c, p).logo == c.logo,
{
}

/// The name and contact that a change to a company gives replace the stored
/// ones; those it leaves out keep their stored values; the id and the logo
/// never change.
pub proof fn law_company_patch_fields(c: Company, p: UpdateCompany)
    ensures
        patched_company(c, p).id == c.id,
        patched_company(c, p).logo == c.logo,
        p.name matches Some(n) ==> patched_company(c, p).name == n,
        p.name is None ==> patched_company(c, p).name == c.name,
        p.contact matches Some(k) ==> patched_company(c, p).contact == k,
        p.contact is None ==> patched_company(c, p).contact == c.contact,
{
}

// ---------------------------------------------------------------------------
// Items
// ---------------------------------------------------------------------------

#[derive(Clone, Debug, PartialEq, Eq)]
pub struct CreateItem {
    pub name: String,
    pub rate: Currency,
}

#[derive(Clone, Debug, PartialEq, Eq)]
pub struct UpdateItem {
    pub name: Option<String>,
    pub rate: Option<Currency>,
}

pub open spec fn patched_item(i: Item, p: UpdateItem) -> Item {
    Item { id: i.id, name: or_keep(p.name, i.name), rate: or_keep(p.rate, i.rate) }
}

pub fn apply_item_patch(i: Item, p: UpdateItem) -> (r: Item)
    ensures
        r == patched_item(i, p),
        r.id == i.id,
        p.name matches Some(n) ==> r.name == n,
        p.name is None ==> r.name == i.name,
        p.rate matches Some(x) ==> r.rate == x,
        p.rate is None ==> r.rate == i.rate,
{
    let mut i = i;
    if let Some(name) = p.name {
        i.name = name;
    }
    if let Some(rate) = p.rate {
        i.rate = rate;
    }
    i
}

/// A change that gives nothing leaves an item as it was; applying a change
/// twice is applying it once.
pub proof fn law_item_patch(i: Item, p: UpdateItem)
    ensures
        patched_item(i, UpdateItem { name: None, rate: None }) == i,
        patched_item(patched_item(i, p), p) == patched_item(i, p),
{
}

/// Each field that a change to an item gives replaces the stored one; each
/// field it leaves out keeps its stored value; the id never changes.
pub proof fn law_item_patch_fields(i: Item, p: UpdateItem)
    ensures
        patched_item(i, p).id == i.id,
        p.name matches Some(n) ==> patched_item(i, p).name == n,
        p.name is None ==> patched_item(i, p).name == i.name,
        p.rate matches Some(x) ==> patched_item(i, p).rate == x,
        p.rate is None ==> patched_item(i, p).rate == i.rate,
{
}

// ---------------------------------------------------------------------------
// Payment methods
// ---------------------------------------------------------------------------

#[derive(Clone, Debug, PartialEq, Eq)]
pub struct CreateMethod {
    pub name: String,
    pub link: Option<String>,
    pub qr: Option<Vec<u8>>,
}

#[derive(Clone, Debug, PartialEq, Eq)]
pub struct UpdateMethod {
    pub name: Option<String>,
    pub link: Option<String>,
    pub qr: Option<Vec<u8>>,
}

pub open spec fn patched_method(m: Method, p: UpdateMethod) -> Method {
    Method {
        id: m.id,
        name: or_keep(p.name, m.name),
        link: match p.link {
            Some(l) => Some(l),
            None => m.link,
        },
        qr: match p.qr {
            Some(q) => Some(q),
            None => m.qr,
        },
    }
}

pub fn apply_method_patch(m: Method, p: UpdateMethod) -> (r: Method)
    ensures
        r == patched_method(m, p),
        r.id == m.id,
        p.name matches Some(n) ==> r.name == n,
        p.name is None ==> r.name == m.name,
        p.link matches Some(l) ==> r.link == Some(l),
        p.link is None ==> r.link == m.link,
        p.qr matches Some(q) ==> r.qr == Some(q),
        p.qr is None ==> r.qr == m.qr,
{
    let mut m = m;
    if let Some(name) = p.name {
        m.name = name;
    }
    if let Some(link) = p.link {
        m.link = Some(link);
    }
    if let Some(qr) = p.qr {
        m.qr = Some(qr);
    }
    m
}

/// A change that gives nothing leaves a method as it was; applying a change
/// twice is applying it once.
pub proof fn law_method_patch(m: Method, p: UpdateMethod)
    ensures
        patched_method(m, UpdateMethod { name: None, link: None, qr: None }) == m,
        patched_method(patched_method(m, p), p) == patched_method(m, p),
{
}

/// Each field that a change to a payment method gives replaces the stored
/// one; each field it leaves out keeps its stored value; the id never
/// changes.
pub proof fn law_method_patch_fields(m: Method, p: UpdateMethod)
    ensures
        patched_method(m, p).id == m.id,
        p.name matches Some(n) ==> patched_method(m, p).name == n,
        p.name is None ==> patched_method(m, p).name == m.name,
        p.link matches Some(l) ==> patched_method(m, p).link == Some(l),
        p.link is None ==> patched_method(m, p).link == m.link,
        p.qr matches Some(q) ==> patched_method(m, p).qr == Some(q),
        p.qr is None ==> patched_method(m, p).qr == m.qr,
{
}

// ---------------------------------------------------------------------------
// Terms
// ---------------------------------------------------------------------------

#[derive(Clone, Debug, PartialEq, Eq)]
pub struct CreateTerms {
    pub name: String,
    pub due: i64,
}

#[derive(Clone, Debug, PartialEq, Eq)]
pub struct UpdateTerms {
    pub name: Option<String>,
    pub due: Option<i64>,
}

pub open spec fn patched_terms(t: Terms, p: UpdateTerms) -> Terms {
    Terms { id: t.id, name: or_keep(p.name, t.name), due: or_keep(p.due, t.due) }
}

pub fn apply_terms_patch(t: Terms, p: UpdateTerms) -> (r: Terms)
    ensures
        r == patched_terms(t, p),
        r.id == t.id,
        p.name matches Some(n) ==> r.name == n,
        p.name is None ==> r.name == t.name,
        p.due matches Some(d) ==> r.due == d,
        p.due is None ==> r.due == t.due,
{
    let mut t = t;
    if let Some(name) = p.name {
        t.name = name;
    }
    if let Some(due) = p.due {
        t.due = due;
    }
    t
}

/// A change that gives nothing leaves terms as they were; applying a change
/// twice is applying it once.
pub proof fn law_terms_patch(t: Terms, p: UpdateTerms)
    ensures
        patched_terms(t, UpdateTerms { name: None, due: None }) == t,
        patched_terms(patched_terms(t, p), p) == patched_terms(t, p),
{
}

/// Each field that a change to payment terms gives replaces the stored one;
/// each field it leaves out keeps its stored value; the id never changes.
pub proof fn law_terms_patch_fields(t: Terms, p: UpdateTerms)
    ensures
        patched_terms(t, p).id == t.id,
        p.name matches Some(n) ==> patched_terms(t, p).name == n,
        p.name is None ==> patched_terms(t, p).name == t.name,
        p.due matches Some(d) ==> patched_terms(t, p).due == d,
        p.due is None ==> patched_terms(t, p).due == t.due,
{
}

// ---------------------------------------------------------------------------
// Templates
// ---------------------------------------------------------------------------

#[derive(Clone, Debug, PartialEq, Eq)]
pub struct CreateTemplate {
    pub name: String,
    pub company: CompanyId,
    pub client: ClientId,
    pub terms: TermsId,
    pub method: Vec<MethodId>,
}

#[derive(Clone, Debug, PartialEq, Eq)]
pub struct UpdateTemplate {
    pub name: Option<String>,
    pub company: Option<CompanyId>,
    pub client: Option<ClientId>,
    pub terms: Option<TermsId>,
    pub method: Option<Vec<MethodId>>,
}

pub open spec fn patched_template(t: TemplateSkel, p: UpdateTemplate) -> TemplateSkel {
    TemplateSkel {
        id: t.id,
        name: or_keep(p.name, t.name),
        company_id: or_keep(p.company, t.company_id),
        client_id: or_keep(p.client, t.client_id),
        terms_id: or_keep(p.terms, t.terms_id),
        method_ids: or_keep(p.method, t.method_ids),
    }
}

pub fn apply_template_patch(t: TemplateSkel, p: UpdateTemplate) -> (r: TemplateSkel)
    ensures
        r == patched_template(t, p),
        r.id == t.id,
        p.name matches Some(n) ==> r.name == n,
        p.name is None ==> r.name == t.name,
        p.company matches Some(x) ==> r.company_id == x,
        p.company is None ==> r.company_id == t.company_id,
        p.client matches Some(x) ==> r.client_id == x,
        p.client is None ==> r.client_id == t.client_id,
        p.terms matches Some(x) ==> r.terms_id == x,
        p.terms is None ==> r.terms_id == t.terms_id,
        p.method matches Some(x) ==> r.method_ids == x,
        p.method is None ==> r.method_ids == t.method_ids,
{
    let mut t = t;
    if let Some(name) = p.name {
        t.name = name;
    }
    if let Some(company) = p.company {
        t.company_id = company;
    }
    if let Some(client) = p.client {
        t.client_id = client;
    }
    if let Some(terms) = p.terms {
        t.terms_id = terms;
    }
    if let Some(methods) = p.method {
        t.method_ids = methods;
    }
    t
}

/// A change that gives nothing leaves a template as it was; applying a
/// change twice is applying it once.
pub proof fn law_template_patch(t: TemplateSkel, p: UpdateTemplate)
    ensures
        patched_template(t, UpdateTemplate { name: None, company: None, client: None, terms: None, method: None })
            == t,
        patched_template(patched_template(t, p), p) == patched_template(t, p),
{
}

/// Each field that a change to a template gives replaces the stored one:
/// name, company, client, payment terms and payment methods; each field it
/// leaves out keeps its stored value; the id never changes.
pub proof fn law_template_patch_fields(t: TemplateSkel, p: UpdateTemplate)
    ensures
        patched_template(t, p).id == t.id,
        p.name matches Some(n) ==> patched_template(t, p).name == n,
        p.name is None ==> patched_template(t, p).name == t.name,
        p.company matches Some(x) ==> patched_template(t, p).company_id == x,
        p.company is None ==> patched_template(t, p).company_id == t.company_id,
        p.client matches Some(x) ==> patched_template(t, p).client_id == x,
        p.client is None ==> patched_template(t, p).client_id == t.client_id,
        p.terms matches Some(x) ==> patched_template(t, p).terms_id == x,
        p.terms is None ==> patched_template(t, p).terms_id == t.terms_id,
        p.method matches Some(x) ==> patched_template(t, p).method_ids == x,
        p.method is None ==> patched_template(t, p).method_ids == t.method_ids,
{
}

} // verus!
