//! Invoice stage and payment status: how they are stored (as text and a
//! `%Y%m%d` date) and how the web forms carry them (as text and a
//! `%Y-%m-%d` date).

use vstd::prelude::*;
use crate::date::{Date, parse_date, format_date, naive_date_parse, naive_date_format, compact_format, iso_format};
use crate::error::StorageError;
use crate::models::{InvoiceStage, PaidStatus};
use crate::text::{str_equal, blank, is_blank};

verus! {

broadcast use vstd::string::group_string_axioms;

/// The abstract value of a payment status: dates as year / month / day and
/// the check number as text.
pub enum StatusV {
    Waiting,
    PastDue,
    Paid { date: (int, int, int), check: Option<Seq<char>> },
    Failed { date: (int, int, int) },
    Refunded { date: (int, int, int) },
}

pub open spec fn opt_text(o: Option<String>) -> Option<Seq<char>> {
    match o {
        Some(s) => Some(s@),
        None => None,
    }
}

pub open spec fn opt_str(o: Option<&str>) -> Option<Seq<char>> {
    match o {
        Some(s) => Some(s@),
        None => None,
    }
}

impl View for PaidStatus {
    type V = StatusV;

    open spec fn view(&self) -> StatusV {
        match self {
            PaidStatus::Waiting => StatusV::Waiting,
            PaidStatus::PastDue => StatusV::PastDue,
            PaidStatus::Paid { date, check } => StatusV::Paid { date: date@, check: opt_text(*check) },
            PaidStatus::Failed { date } => StatusV::Failed { date: date@ },
            PaidStatus::Refunded { date } => StatusV::Refunded { date: date@ },
        }
    }
}

/// The date of a paid, failed or refunded status.
pub open spec fn status_date(s: StatusV) -> Option<(int, int, int)> {
    match s {
        StatusV::Paid { date, .. } => Some(date),
        StatusV::Failed { date } => Some(date),
        StatusV::Refunded { date } => Some(date),
        _ => None,
    }
}

/// The check number of a paid status.
pub open spec fn status_check(s: StatusV) -> Option<Seq<char>> {
    match s {
        StatusV::Paid { check, .. } => check,
        _ => None,
    }
}

/// A status whose date, if it has one, has a year from 0 to 9999: the years
/// that `%Y` writes with exactly four digits.
pub open spec fn status_year_in_range(s: StatusV) -> bool {
    match status_date(s) {
        Some(d) => 0 <= d.0 <= 9999,
        None => true,
    }
}

/// The status with its date, if any, written in the given format.
pub open spec fn status_date_text(s: StatusV, fmt: Seq<char>) -> Option<Seq<char>> {
    match status_date(s) {
        Some(d) => Some(naive_date_format(d.0, d.1, d.2, fmt)),
        None => None,
    }
}

/// The names of stages and statuses differ from one another.
proof fn lemma_names_distinct()
    ensures
        "Quote"@ != "Invoice"@,
        "Waiting"@ != "Past Due"@,
        "Waiting"@ != "PastDue"@,
        "Waiting"@ != "Paid"@,
        "Waiting"@ != "Failed"@,
        "Waiting"@ != "Refunded"@,
        "Past Due"@ != "Paid"@,
        "Past Due"@ != "Failed"@,
        "Past Due"@ != "Refunded"@,
        "PastDue"@ != "Paid"@,
        "PastDue"@ != "Failed"@,
        "PastDue"@ != "Refunded"@,
        "Paid"@ != "Failed"@,
        "Paid"@ != "Refunded"@,
        "Failed"@ != "Refunded"@,
{
    reveal_strlit("Quote");
    reveal_strlit("Invoice");
    reveal_strlit("Waiting");
    reveal_strlit("Past Due");
    reveal_strlit("PastDue");
    reveal_strlit("Paid");
    reveal_strlit("Failed");
    reveal_strlit("Refunded");
    assert("Quote"@[0] != "Invoice"@[0]);
    assert("Waiting"@[0] != "PastDue"@[0]);
    assert("Waiting"@[0] != "Past Due"@[0]);
    assert("Waiting"@[0] != "Paid"@[0]);
    assert("Waiting"@[0] != "Failed"@[0]);
    assert("Waiting"@[0] != "Refunded"@[0]);
    assert("Past Due"@[2] != "Paid"@[2]);
    assert("Past Due"@[0] != "Failed"@[0]);
    assert("Past Due"@[0] != "Refunded"@[0]);
    assert("PastDue"@[2] != "Paid"@[2]);
    assert("PastDue"@[0] != "Failed"@[0]);
    assert("PastDue"@[0] != "Refunded"@[0]);
    assert("Paid"@[0] != "Failed"@[0]);
    assert("Paid"@[0] != "Refunded"@[0]);
    assert("Failed"@[0] != "Refunded"@[0]);
}

// ---------------------------------------------------------------------------
// Stage
// ---------------------------------------------------------------------------

/// The stored name of a stage.
pub open spec fn stored_stage_name(s: InvoiceStage) -> Seq<char> {
    match s {
        InvoiceStage::Quote => "Quote"@,
        InvoiceStage::Invoice => "Invoice"@,
    }
}

/// The stage that a stored name stands for.
pub open spec fn decoded_stage(name: Seq<char>) -> Result<InvoiceStage, StorageError> {
    if name == "Quote"@ {
        Ok(InvoiceStage::Quote)
    } else if name == "Invoice"@ {
        Ok(InvoiceStage::Invoice)
    } else {
        Err(StorageError::UnknownStage)
    }
}

/// Writes a stage as it is stored.
pub fn encode_stage(stage: InvoiceStage) -> (r: &'static str)
    ensures
        r@ == stored_stage_name(stage),
        decoded_stage(r@) == Ok::<InvoiceStage, StorageError>(stage),
{
    proof {
        lemma_names_distinct();
    }
    match stage {
        InvoiceStage::Quote => "Quote",
        InvoiceStage::Invoice => "Invoice",
    }
}

/// Reads a stored stage.
pub fn decode_stage(name: &str) -> (r: Result<InvoiceStage, StorageError>)
    ensures
        r == decoded_stage(name@),
{
    if str_equal(name, "Quote") {
        Ok(InvoiceStage::Quote)
    } else if str_equal(name, "Invoice") {
        Ok(InvoiceStage::Invoice)
    } else {
        Err(StorageError::UnknownStage)
    }
}

/// The stage that the stage field of the invoice form stands for: `Quote`
/// for a quote, an invoice for anything else.
pub open spec fn form_stage(name: Seq<char>) -> InvoiceStage {
    if name == "Quote"@ {
        InvoiceStage::Quote
    } else {
        InvoiceStage::Invoice
    }
}

pub fn parse_stage_form(name: &str) -> (r: InvoiceStage)
    ensures
        r == form_stage(name@),
        (r == InvoiceStage::Quote) <==> name@ == "Quote"@,
{
    if str_equal(name, "Quote") {
        InvoiceStage::Quote
    } else {
        InvoiceStage::Invoice
    }
}

/// The stage field makes a quote exactly when it says `Quote`, and an
/// invoice otherwise.
pub proof fn law_form_stage(name: Seq<char>)
    ensures
        (form_stage(name) == InvoiceStage::Quote) <==> name == "Quote"@,
        (form_stage(name) == InvoiceStage::Invoice) <==> name != "Quote"@,
{
}

// ---------------------------------------------------------------------------
// Status as stored
// ---------------------------------------------------------------------------

/// The stored name of a status.
pub open spec fn stored_status_name(s: StatusV) -> Seq<char> {
    match s {
        StatusV::Waiting => "Waiting"@,
        StatusV::PastDue => "Past Due"@,
        StatusV::Paid { .. } => "Paid"@,
        StatusV::Failed { .. } => "Failed"@,
        StatusV::Refunded { .. } => "Refunded"@,
    }
}

/// The status that a stored name, date and check number stand for.
pub open spec fn decoded_status(
    name: Seq<char>,
    date: Option<Seq<char>>,
    check: Option<Seq<char>>,
) -> Result<StatusV, StorageError> {
    if name == "Waiting"@ {
        Ok(StatusV::Waiting)
    } else if name == "Past Due"@ {
        Ok(StatusV::PastDue)
    } else if name == "Paid"@ || name == "Failed"@ || name == "Refunded"@ {
        match date {
            None => Err(StorageError::MissingStatusDate),
            Some(text) => match naive_date_parse(text, compact_format()) {
                None => Err(StorageError::InvalidDate),
                Some(d) => if name == "Paid"@ {
                    Ok(StatusV::Paid { date: d, check })
                } else if name == "Failed"@ {
                    Ok(StatusV::Failed { date: d })
                } else {
                    Ok(StatusV::Refunded { date: d })
                },
            },
        }
    } else {
        Err(StorageError::UnknownStatus)
    }
}

pub open spec fn status_result_view(r: Result<PaidStatus, StorageError>) -> Result<StatusV, StorageError> {
    match r {
        Ok(s) => Ok(s@),
        Err(e) => Err(e),
    }
}

fn clone_opt_string(o: &Option<String>) -> (r: Option<String>)
    ensures
        r == *o,
{
    match o {
        Some(s) => Some(s.clone()),
        None => None,
    }
}

/// Writes a status as it is stored: its name, its date in `%Y%m%d` form and
/// its check number. Reading the three back gives the status again, where
/// its year lies from 0 to 9999.
pub fn encode_status(status: &PaidStatus) -> (r: (String, Option<String>, Option<String>))
    ensures
        r.0@ == stored_status_name(status@),
        opt_text(r.1) == status_date_text(status@, compact_format()),
        opt_text(r.2) == status_check(status@),
        status_year_in_range(status@) ==> decoded_status(r.0@, opt_text(r.1), opt_text(r.2))
            == Ok::<StatusV, StorageError>(status@),
{
    proof {
        lemma_names_distinct();
        crate::date::lemma_compact_format_literal();
    }
    match status {
        PaidStatus::Waiting => (String::from_str("Waiting"), None, None),
        PaidStatus::PastDue => (String::from_str("Past Due"), None, None),
        PaidStatus::Paid { date, check } => {
            let text = format_date(*date, "%Y%m%d");
            (String::from_str("Paid"), Some(text), clone_opt_string(check))
        },
        PaidStatus::Failed { date } => {
            let text = format_date(*date, "%Y%m%d");
            (String::from_str("Failed"), Some(text), None)
        },
        PaidStatus::Refunded { date } => {
            let text = format_date(*date, "%Y%m%d");
            (String::from_str("Refunded"), Some(text), None)
        },
    }
}

/// Reads a stored status from its name, date and check number.
pub fn decode_status(name: &str, date: Option<String>, check: Option<String>) -> (r: Result<PaidStatus, StorageError>)
    ensures
        status_result_view(r) == decoded_status(name@, opt_text(date), opt_text(check)),
{
    proof {
        lemma_names_distinct();
        crate::date::lemma_compact_format_literal();
    }
    if str_equal(name, "Waiting") {
        Ok(PaidStatus::Waiting)
    } else if str_equal(name, "Past Due") {
        Ok(PaidStatus::PastDue)
    } else {
        let is_paid = str_equal(name, "Paid");
        let is_failed = str_equal(name, "Failed");
        let is_refunded = str_equal(name, "Refunded");
        if !(is_paid || is_failed || is_refunded) {
            return Err(StorageError::UnknownStatus);
        }
        let text = match date {
            Some(t) => t,
            None => return Err(StorageError::MissingStatusDate),
        };
        let d = match parse_date(text.as_str(), "%Y%m%d") {
            Some(d) => d,
            None => return Err(StorageError::InvalidDate),
        };
        if is_paid {
            Ok(PaidStatus::Paid { date: d, check })
        } else if is_failed {
            Ok(PaidStatus::Failed { date: d })
        } else {
            Ok(PaidStatus::Refunded { date: d })
        }
    }
}

// ---------------------------------------------------------------------------
// Status in the web forms
// ---------------------------------------------------------------------------

/// The name of a status in the web forms.
pub open spec fn form_status_name(s: StatusV) -> Seq<char> {
    match s {
        StatusV::Waiting => "Waiting"@,
        StatusV::PastDue => "PastDue"@,
        StatusV::Paid { .. } => "Paid"@,
        StatusV::Failed { .. } => "Failed"@,
        StatusV::Refunded { .. } => "Refunded"@,
    }
}

/// The status that the status fields of the invoice form stand for. A date
/// that is missing or not in `%Y-%m-%d` form is `today`; a blank check
/// number is none; an unknown name is `Waiting`.
pub open spec fn form_status(
    name: Seq<char>,
    date: Option<Seq<char>>,
    check: Option<Seq<char>>,
    today: (int, int, int),
) -> StatusV {
    let d = match date {
        Some(t) => match naive_date_parse(t, iso_format()) {
            Some(x) => x,
            None => today,
        },
        None => today,
    };
    if name == "PastDue"@ {
        StatusV::PastDue
    } else if name == "Paid"@ {
        StatusV::Paid {
            date: d,
            check: match check {
                Some(c) => if blank(c) {
                    None
                } else {
                    Some(c)
                },
                None => None,
            },
        }
    } else if name == "Failed"@ {
        StatusV::Failed { date: d }
    } else if name == "Refunded"@ {
        StatusV::Refunded { date: d }
    } else {
        StatusV::Waiting
    }
}

/// A status whose check number, if any, is not blank.
pub open spec fn status_check_not_blank(s: StatusV) -> bool {
    match status_check(s) {
        Some(c) => !blank(c),
        None => true,
    }
}

/// Splits a status into the name, `%Y-%m-%d` date and check number that the
/// web forms show. Reading the three back with `parse_status_form` gives the
/// status again, whatever today's date, where its year lies from 0 to 9999
/// and its check number is not blank.
pub fn flatten_status(status: &PaidStatus) -> (r: (&'static str, Option<String>, Option<String>))
    ensures
        r.0@ == form_status_name(status@),
        opt_text(r.1) == status_date_text(status@, iso_format()),
        opt_text(r.2) == status_check(status@),
        status_year_in_range(status@) && status_check_not_blank(status@) ==> forall|today: (int, int, int)|
            #[trigger] form_status(r.0@, opt_text(r.1), opt_text(r.2), today) == status@,
{
    proof {
        lemma_names_distinct();
        crate::date::lemma_iso_format_literal();
    }
    match status {
        PaidStatus::Waiting => ("Waiting", None, None),
        PaidStatus::PastDue => ("PastDue", None, None),
        PaidStatus::Paid { date, check } => {
            let text = format_date(*date, "%Y-%m-%d");
            ("Paid", Some(text), clone_opt_string(check))
        },
        PaidStatus::Failed { date } => {
            let text = format_date(*date, "%Y-%m-%d");
            ("Failed", Some(text), None)
        },
        PaidStatus::Refunded { date } => {
            let text = format_date(*date, "%Y-%m-%d");
            ("Refunded", Some(text), None)
        },
    }
}

/// Reads the status fields of the invoice form; `today` stands in for a
/// missing or unreadable date.
pub fn parse_status_form(name: &str, date: Option<&str>, check: Option<&str>, today: Date) -> (r: PaidStatus)
    ensures
        r@ == form_status(name@, opt_str(date), opt_str(check), today@),
{
    proof {
        crate::date::lemma_iso_format_literal();
    }
    let d = match date {
        Some(t) => match parse_date(t, "%Y-%m-%d") {
            Some(x) => x,
            None => today,
        },
        None => today,
    };
    if str_equal(name, "PastDue") {
        PaidStatus::PastDue
    } else if str_equal(name, "Paid") {
        let c = match check {
            Some(c) => if is_blank(c) {
                None
            } else {
                Some(String::from_str(c))
            },
            None => None,
        };
        PaidStatus::Paid { date: d, check: c }
    } else if str_equal(name, "Failed") {
        PaidStatus::Failed { date: d }
    } else if str_equal(name, "Refunded") {
        PaidStatus::Refunded { date: d }
    } else {
        PaidStatus::Waiting
    }
}

} // verus!
