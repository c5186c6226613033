//! The earlier storage layout read through `rusqlite`: flags held as 0 or
//! 1, dates held as text, a missing status date read as `Unknown`, and
//! item quantities held as whole numbers.

use vstd::prelude::*;
use crate::lines::{collected, item_lines_v, item_v, upsert_item_line};
use crate::models::{InvoiceStage, Item, Template};
use crate::status::opt_text;
use crate::text::str_equal;

verus! {

broadcast use vstd::string::group_string_axioms;

/// Why a row of the earlier layout does not read; the first maps to
/// `rusqlite::Error::InvalidQuery`, the second to
/// `rusqlite::Error::ExecuteReturnedResults`.
#[derive(Clone, Copy, Debug, PartialEq, Eq, Structural)]
pub enum LegacyError {
    InvalidQuery,
    InvalidItems,
}

/// A payment status of the earlier layout: dates are kept as text.
#[derive(Clone, Debug, PartialEq, Eq)]
pub enum LegacyStatus {
    Waiting,
    PastDue,
    Paid { date: String, check: Option<String> },
    Failed { date: String },
    Refunded { date: String },
}

pub enum LegacyStatusV {
    Waiting,
    PastDue,
    Paid { date: Seq<char>, check: Option<Seq<char>> },
    Failed { date: Seq<char> },
    Refunded { date: Seq<char> },
}

impl View for LegacyStatus {
    type V = LegacyStatusV;

    open spec fn view(&self) -> LegacyStatusV {
        match self {
            LegacyStatus::Waiting => LegacyStatusV::Waiting,
            LegacyStatus::PastDue => LegacyStatusV::PastDue,
            LegacyStatus::Paid { date, check } => LegacyStatusV::Paid { date: date@, check: opt_text(*check) },
            LegacyStatus::Failed { date } => LegacyStatusV::Failed { date: date@ },
            LegacyStatus::Refunded { date } => LegacyStatusV::Refunded { date: date@ },
        }
    }
}

#[derive(Clone, Debug, PartialEq, Eq)]
pub struct LegacyAttrs {
    pub show_methods: bool,
    pub show_notes: bool,
    pub stage: InvoiceStage,
    pub status: LegacyStatus,
}

/// The flag that a stored 0 or 1 stands for.
pub open spec fn decoded_flag(v: i64) -> Result<bool, LegacyError> {
    if v == 0 {
        Ok(false)
    } else if v == 1 {
        Ok(true)
    } else {
        Err(LegacyError::InvalidQuery)
    }
}

pub fn decode_flag(v: i64) -> (r: Result<bool, LegacyError>)
    ensures
        r == decoded_flag(v),
{
    if v == 0 {
        Ok(false)
    } else if v == 1 {
        Ok(true)
    } else {
        Err(LegacyError::InvalidQuery)
    }
}

/// The stage that a stored name stands for.
pub open spec fn decoded_legacy_stage(name: Seq<char>) -> Result<InvoiceStage, LegacyError> {
    if name == "Invoice"@ {
        Ok(InvoiceStage::Invoice)
    } else if name == "Quote"@ {
        Ok(InvoiceStage::Quote)
    } else {
        Err(LegacyError::InvalidQuery)
    }
}

pub fn decode_legacy_stage(name: &str) -> (r: Result<InvoiceStage, LegacyError>)
    ensures
        r == decoded_legacy_stage(name@),
{
    if str_equal(name, "Invoice") {
        Ok(InvoiceStage::Invoice)
    } else if str_equal(name, "Quote") {
        Ok(InvoiceStage::Quote)
    } else {
        Err(LegacyError::InvalidQuery)
    }
}

/// A stored status date, or `Unknown` where there is none.
pub open spec fn date_or_unknown(date: Option<Seq<char>>) -> Seq<char> {
    match date {
        Some(d) => d,
        None => "Unknown"@,
    }
}

/// The status that a stored name, date and check number stand for.
pub open spec fn decoded_legacy_status(
    name: Seq<char>,
    date: Option<Seq<char>>,
    check: Option<Seq<char>>,
) -> Result<LegacyStatusV, LegacyError> {
    if name == "Waiting"@ {
        Ok(LegacyStatusV::Waiting)
    } else if name == "Past Due"@ {
        Ok(LegacyStatusV::PastDue)
    } else if name == "Paid"@ {
        Ok(LegacyStatusV::Paid { date: date_or_unknown(date), check })
    } else if name == "Failed"@ {
        Ok(LegacyStatusV::Failed { date: date_or_unknown(date) })
    } else if name == "Refunded"@ {
        Ok(LegacyStatusV::Refunded { date: date_or_unknown(date) })
    } else {
        Err(LegacyError::InvalidQuery)
    }
}

pub open spec fn legacy_status_result_view(r: Result<LegacyStatus, LegacyError>) -> Result<LegacyStatusV, LegacyError> {
    match r {
        Ok(s) => Ok(s@),
        Err(e) => Err(e),
    }
}

fn date_text_or_unknown(date: Option<String>) -> (r: String)
    ensures
        r@ == date_or_unknown(opt_text(date)),
{
    match date {
        Some(d) => d,
        None => String::from_str("Unknown"),
    }
}

pub fn decode_legacy_status(name: &str, date: Option<String>, check: Option<String>) -> (r: Result<LegacyStatus, LegacyError>)
    ensures
        legacy_status_result_view(r) == decoded_legacy_status(name@, opt_text(date), opt_text(check)),
{
    if str_equal(name, "Waiting") {
        Ok(LegacyStatus::Waiting)
    } else if str_equal(name, "Past Due") {
        Ok(LegacyStatus::PastDue)
    } else if str_equal(name, "Paid") {
        Ok(LegacyStatus::Paid { date: date_text_or_unknown(date), check })
    } else if str_equal(name, "Failed") {
        Ok(LegacyStatus::Failed { date: date_text_or_unknown(date) })
    } else if str_equal(name, "Refunded") {
        Ok(LegacyStatus::Refunded { date: date_text_or_unknown(date) })
    } else {
        Err(LegacyError::InvalidQuery)
    }
}

/// A row of the earlier `invoices` table. `items` is the item list as the
/// JSON reader gave it, pairs of item id and quantity, `None` where it did
/// not read.
#[derive(Clone, Debug, PartialEq, Eq)]
pub struct LegacyInvoiceRow {
    pub id: i64,
    pub template_id: i64,
    pub date: String,
    pub show_methods: i64,
    pub show_notes: i64,
    pub stage: String,
    pub status: String,
    pub status_date: Option<String>,
    pub status_check: Option<String>,
    pub notes: Option<String>,
    pub items: Option<Vec<(i64, i64)>>,
}

/// What a row of the earlier layout holds before its template and items are
/// looked up.
#[derive(Clone, Debug, PartialEq, Eq)]
pub struct LegacyInvoiceHead {
    pub id: i64,
    pub template_id: i64,
    pub date: String,
    pub attributes: LegacyAttrs,
    pub notes: Option<String>,
    pub items: Vec<(i64, i64)>,
}

/// Reads a row of the earlier layout; the first column that does not read,
/// in the order flags, stage, status, item list, is reported.
pub fn decode_legacy_invoice_row(r: LegacyInvoiceRow) -> (h: Result<LegacyInvoiceHead, LegacyError>)
    ensures
        decoded_flag(r.show_methods) is Err ==> h == Err::<LegacyInvoiceHead, LegacyError>(LegacyError::InvalidQuery),
        decoded_flag(r.show_methods) is Ok && decoded_flag(r.show_notes) is Err ==> h == Err::<
            LegacyInvoiceHead,
            LegacyError,
        >(LegacyError::InvalidQuery),
        decoded_flag(r.show_methods) is Ok && decoded_flag(r.show_notes) is Ok && (decoded_legacy_stage(r.stage@) is Err
            || decoded_legacy_status(r.status@, opt_text(r.status_date), opt_text(r.status_check)) is Err) ==> h
            == Err::<LegacyInvoiceHead, LegacyError>(LegacyError::InvalidQuery),
        decoded_flag(r.show_methods) is Ok && decoded_flag(r.show_notes) is Ok && decoded_legacy_stage(r.stage@) is Ok
            && decoded_legacy_status(r.status@, opt_text(r.status_date), opt_text(r.status_check)) is Ok
            && r.items is None ==> h == Err::<LegacyInvoiceHead, LegacyError>(LegacyError::InvalidItems),
        h is Ok <==> (decoded_flag(r.show_methods) is Ok && decoded_flag(r.show_notes) is Ok && decoded_legacy_stage(
            r.stage@,
        ) is Ok && decoded_legacy_status(r.status@, opt_text(r.status_date), opt_text(r.status_check)) is Ok
            && r.items is Some),
        h matches Ok(v) ==> {
            &&& v.id == r.id
            &&& v.template_id == r.template_id
            &&& v.date == r.date
            &&& decoded_flag(r.show_methods) == Ok::<bool, LegacyError>(v.attributes.show_methods)
            &&& decoded_flag(r.show_notes) == Ok::<bool, LegacyError>(v.attributes.show_notes)
            &&& decoded_legacy_stage(r.stage@) == Ok::<InvoiceStage, LegacyError>(v.attributes.stage)
            &&& decoded_legacy_status(r.status@, opt_text(r.status_date), opt_text(r.status_check)) == Ok::<
                LegacyStatusV,
                LegacyError,
            >(v.attributes.status@)
            &&& v.notes == r.notes
            &&& Some(v.items) == r.items
        },
{
    let show_methods = match decode_flag(r.show_methods) {
        Ok(b) => b,
        Err(e) => return Err(e),
    };
    let show_notes = match decode_flag(r.show_notes) {
        Ok(b) => b,
        Err(e) => return Err(e),
    };
    let stage = match decode_legacy_stage(r.stage.as_str()) {
        Ok(s) => s,
        Err(e) => return Err(e),
    };
    let status = match decode_legacy_status(r.status.as_str(), r.status_date, r.status_check) {
        Ok(s) => s,
        Err(e) => return Err(e),
    };
    let items = match r.items {
        Some(v) => v,
        None => return Err(LegacyError::InvalidItems),
    };
    Ok(LegacyInvoiceHead {
        id: r.id,
        template_id: r.template_id,
        date: r.date,
        attributes: LegacyAttrs { show_methods, show_notes, stage, status },
        notes: r.notes,
        items,
    })
}

/// An invoice of the earlier layout with its template and items.
#[derive(Clone, Debug, PartialEq, Eq)]
pub struct LegacyInvoice {
    pub id: i64,
    pub template: Template,
    pub date: String,
    pub attributes: LegacyAttrs,
    pub notes: Option<String>,
    pub items: Vec<(Item, i64)>,
}

/// An invoice of the earlier layout from its row, its template and the items
/// of its lines as found, each with its quantity: the lines are collected as
/// a map keyed by item keeps them, a later line for an equal item replacing
/// the quantity of an earlier one.
pub fn assemble_legacy_invoice(head: LegacyInvoiceHead, template: Template, found: Vec<(Item, i64)>) -> (r: LegacyInvoice)
    ensures
        r.id == head.id,
        r.template == template,
        r.date == head.date,
        r.attributes == head.attributes,
        r.notes == head.notes,
        item_lines_v(r.items@) == collected(item_lines_v(found@)),
{
    let ghost fv = item_lines_v(found@);
    let mut items: Vec<(Item, i64)> = Vec::new();
    let mut found = found;
    let ghost orig = found@;
    proof {
        assert(fv.take(0) =~= Seq::empty());
        assert(item_lines_v(items@) =~= Seq::empty());
    }
    let mut j: usize = 0;
    while j < found.len()
        invariant
            j <= found@.len(),
            found@.len() == orig.len(),
            fv == item_lines_v(orig),
            forall|t: int| j <= t < orig.len() ==> found@[t] == orig[t],
            item_lines_v(items@) == collected(fv.take(j as int)),
        decreases found@.len() - j,
    {
        proof {
            assert(fv.take(j + 1).drop_last() =~= fv.take(j as int));
            assert(fv[j as int] == (item_v(orig[j as int].0), orig[j as int].1));
        }
        let mut slot: (Item, i64) = (
            Item { id: crate::models::ItemId(0), name: String::new(), rate: crate::models::Currency::from_cents(0) },
            0,
        );
        found.set_and_swap(j, &mut slot);
        let (item, qty) = slot;
        upsert_item_line(&mut items, item, qty);
        j = j + 1;
    }
    proof {
        assert(fv.take(fv.len() as int) =~= fv);
    }
    LegacyInvoice { id: head.id, template, date: head.date, attributes: head.attributes, notes: head.notes, items }
}

/// The query that lists a table as id and name pairs; invoices are listed
/// by id and date.
pub fn shortlist_query(table_name: &str) -> (r: String)
    ensures
        table_name@ == "invoices"@ ==> r@ == "SELECT id, date FROM invoices"@,
        table_name@ != "invoices"@ ==> r@ == "SELECT id, name FROM "@ + table_name@,
{
    if str_equal(table_name, "invoices") {
        String::from_str("SELECT id, date FROM invoices")
    } else {
        let mut q = String::from_str("SELECT id, name FROM ");
        q.append(table_name);
        q
    }
}

} // verus!
