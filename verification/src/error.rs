//! The errors that reading and writing stored records can report.

use vstd::prelude::*;
use crate::models::{ClientId, CompanyId, InvoiceId, ItemId, MethodId, TemplateId, TermsId};

verus! {

#[derive(Clone, Copy, Debug, PartialEq, Eq, Structural)]
pub enum StorageError {
    /// A stored date is not in the `%Y%m%d` form.
    InvalidDate,
    /// A stored stage is neither `Quote` nor `Invoice`.
    UnknownStage,
    /// A stored status is none of the five that are written.
    UnknownStatus,
    /// A paid, failed or refunded status has no date.
    MissingStatusDate,
    /// The item list of an invoice is not the JSON that is written.
    InvalidItemsJson,
    /// A stored quantity is not a decimal number.
    InvalidQuantity,
    /// A stored quantity is zero or negative.
    NonPositiveQuantity,
    /// The method list of a template is not a JSON array of integers.
    InvalidMethodsJson,
    /// The due date of an invoice lies outside the calendar's range.
    DueDateOutOfRange,
    /// The total of an invoice cannot be computed without overflow.
    TotalOutOfRange,
    /// A rate has more whole cents than an `i64` holds.
    RateOutOfRange,
    TemplateNotFound(TemplateId),
    CompanyNotFound(CompanyId),
    ClientNotFound(ClientId),
    TermsNotFound(TermsId),
    MethodNotFound(MethodId),
    ItemNotFound(ItemId),
    InvoiceNotFound(InvoiceId),
}

} // verus!
