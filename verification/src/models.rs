//! The data model: identifiers, money, quantities and the records that the
//! repositories store.

use vstd::prelude::*;
use crate::date::Date;
use crate::decimal::{Dec, to_cents, cents_of};

verus! {

#[derive(Clone, Copy, Debug, PartialEq, Eq, Hash, Structural)]
pub struct ClientId(pub i64);

#[derive(Clone, Copy, Debug, PartialEq, Eq, Hash, Structural)]
pub struct CompanyId(pub i64);

#[derive(Clone, Copy, Debug, PartialEq, Eq, Hash, Structural)]
pub struct ItemId(pub i64);

#[derive(Clone, Copy, Debug, PartialEq, Eq, Hash, Structural)]
pub struct MethodId(pub i64);

#[derive(Clone, Copy, Debug, PartialEq, Eq, Hash, Structural)]
pub struct TermsId(pub i64);

#[derive(Clone, Copy, Debug, PartialEq, Eq, Hash, Structural)]
pub struct TemplateId(pub i64);

#[derive(Clone, Copy, Debug, PartialEq, Eq, Hash, Structural)]
pub struct InvoiceId(pub i64);

/// An amount of money, held as the decimal it was given as.
#[derive(Clone, Copy, Debug, PartialEq, Eq, Hash, Structural)]
pub struct Currency {
    value: Dec,
}

impl View for Currency {
    type V = (int, int);

    closed spec fn view(&self) -> (int, int) {
        self.value@
    }
}

impl Currency {
    /// The amount in whole cents, rounded half to even.
    pub open spec fn cents(self) -> int {
        cents_of(self@.0, self@.1 as nat)
    }

    /// The amount of `cents / 100`.
    pub fn from_cents(cents: i64) -> (r: Currency)
        ensures
            r@ == (cents as int, 2int),
            r.cents() == cents,
    {
        proof {
            lemma_cents_of_cents(cents as int);
        }
        Currency { value: Dec::from_cents(cents) }
    }

    /// The amount `d`.
    pub fn new(d: Dec) -> (r: Currency)
        ensures
            r@ == d@,
    {
        Currency { value: d }
    }

    /// The amount in whole cents (halves to even), `None` where that count
    /// does not fit an `i64`.
    pub fn to_cents(&self) -> (r: Option<i64>)
        ensures
            match r {
                Some(c) => c == self.cents(),
                None => !(i64::MIN <= self.cents() <= i64::MAX),
            },
    {
        to_cents(self.value)
    }

    /// The amount as a decimal.
    pub fn inner(&self) -> (r: Dec)
        ensures
            r@ == self@,
    {
        self.value
    }
}

/// A count of cents, as a decimal with two places, is that many cents.
proof fn lemma_cents_of_cents(c: int)
    ensures
        cents_of(c, 2) == c,
{
    reveal_with_fuel(crate::decimal::pow10, 3);
    assert(crate::decimal::pow10(2) == 100);
    if c >= 0 {
        assert((c * 100) / 100 == c && (c * 100) % 100 == 0) by (nonlinear_arith);
    } else {
        assert(((-c) * 100) / 100 == -c && ((-c) * 100) % 100 == 0) by (nonlinear_arith)
            requires c < 0;
        assert(-(c * 100) == (-c) * 100) by (nonlinear_arith);
    }
}

/// A positive quantity of an item.
#[derive(Clone, Copy, Debug, PartialEq, Eq, Structural)]
pub struct Quantity {
    value: Dec,
}

impl View for Quantity {
    type V = (int, int);

    closed spec fn view(&self) -> (int, int) {
        self.value@
    }
}

/// Why a decimal is refused as a quantity.
#[derive(Clone, Copy, Debug, PartialEq, Eq, Structural)]
pub enum QuantityError {
    NotPositive,
}

impl Quantity {
    #[verifier::type_invariant]
    closed spec fn inv(self) -> bool {
        self.value@.0 > 0
    }

    /// The quantity `d`; only positive amounts are quantities.
    pub fn new(d: Dec) -> (r: Result<Quantity, QuantityError>)
        ensures
            r is Ok <==> d@.0 > 0,
            r matches Ok(q) ==> q@ == d@,
    {
        if d.is_positive() {
            Ok(Quantity { value: d })
        } else {
            Err(QuantityError::NotPositive)
        }
    }

    /// The quantity one.
    pub fn one() -> (r: Quantity)
        ensures
            r@ == (1int, 0int),
    {
        Quantity { value: Dec::from_i64(1) }
    }

    pub fn inner(&self) -> (r: Dec)
        ensures
            r@ == self@,
            r@.0 > 0,
    {
        proof {
            use_type_invariant(self);
        }
        self.value
    }
}

/// Postal and electronic contact details; every part is optional.
#[derive(Clone, Debug, PartialEq, Eq)]
pub struct Contact {
    pub phone: Option<String>,
    pub email: Option<String>,
    pub addr1: Option<String>,
    pub addr2: Option<String>,
    pub city: Option<String>,
    pub state: Option<String>,
    pub zip: Option<String>,
}

#[derive(Clone, Debug, PartialEq, Eq)]
pub struct Client {
    pub id: ClientId,
    pub name: String,
    pub contact: Contact,
}

#[derive(Clone, Debug, PartialEq, Eq)]
pub struct Company {
    pub id: CompanyId,
    pub name: String,
    pub logo: Option<Vec<u8>>,
    pub contact: Contact,
}

/// Something an invoice bills for, at a rate per unit.
#[derive(Clone, Debug, PartialEq, Eq)]
pub struct Item {
    pub id: ItemId,
    pub name: String,
    pub rate: Currency,
}

/// A payment method: a link and a QR code image.
#[derive(Clone, Debug, PartialEq, Eq)]
pub struct Method {
    pub id: MethodId,
    pub name: String,
    pub link: Option<String>,
    pub qr: Option<Vec<u8>>,
}

/// Payment terms: an invoice is due `due` days after it is issued.
#[derive(Clone, Debug, PartialEq, Eq)]
pub struct Terms {
    pub id: TermsId,
    pub name: String,
    pub due: i64,
}

/// The SMTP settings used to send invoices.
#[derive(Clone, Debug, PartialEq, Eq)]
pub struct Config {
    pub id: i64,
    pub smtp_server: String,
    pub port: u16,
    pub tls: bool,
    pub username: String,
    pub password: String,
    pub fromname: String,
    pub test_recipient: Option<String>,
}

/// A template as stored: the ids of what it refers to.
#[derive(Clone, Debug, PartialEq, Eq)]
pub struct TemplateSkel {
    pub id: TemplateId,
    pub name: String,
    pub company_id: CompanyId,
    pub client_id: ClientId,
    pub terms_id: TermsId,
    pub method_ids: Vec<MethodId>,
}

/// A template with the records it refers to.
#[derive(Clone, Debug, PartialEq, Eq)]
pub struct Template {
    pub id: TemplateId,
    pub name: String,
    pub company: Company,
    pub client: Client,
    pub terms: Terms,
    pub method: Vec<Method>,
}

#[derive(Clone, Copy, Debug, PartialEq, Eq, Structural)]
pub enum InvoiceStage {
    Quote,
    Invoice,
}

#[derive(Clone, Debug, PartialEq, Eq)]
pub enum PaidStatus {
    Waiting,
    PastDue,
    Paid { date: Date, check: Option<String> },
    Failed { date: Date },
    Refunded { date: Date },
}

#[derive(Clone, Debug, PartialEq, Eq)]
pub struct InvoiceAttrs {
    pub show_methods: bool,
    pub show_notes: bool,
    pub stage: InvoiceStage,
    pub status: PaidStatus,
}

/// One line of an invoice as stored: an item id and its quantity.
#[derive(Clone, Copy, Debug, PartialEq, Eq)]
pub struct InvoiceItemSkel {
    pub item_id: ItemId,
    pub quantity: Quantity,
}

/// An invoice as stored: the ids of its template and items.
#[derive(Clone, Debug, PartialEq, Eq)]
pub struct InvoiceSkel {
    pub id: InvoiceId,
    pub template_id: TemplateId,
    pub date: Date,
    pub attributes: InvoiceAttrs,
    pub notes: Option<String>,
    pub items: Vec<InvoiceItemSkel>,
}

/// An invoice with its template and items.
#[derive(Clone, Debug, PartialEq, Eq)]
pub struct Invoice {
    pub id: InvoiceId,
    pub template: Template,
    pub date: Date,
    pub attributes: InvoiceAttrs,
    pub notes: Option<String>,
    pub items: Vec<(Item, Quantity)>,
}

/// One row of the invoice list.
#[derive(Clone, Debug, PartialEq, Eq)]
pub struct InvoiceSummary {
    pub id: InvoiceId,
    pub issued: Date,
    pub client_name: String,
    pub total: Currency,
    pub status: PaidStatus,
    pub due: Date,
}

} // verus!
