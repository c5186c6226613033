//! Invoices as the `invoices` table holds them: the item list as records of
//! an item id and a quantity text, stage and status as text, dates in
//! `%Y%m%d` form, and the total in cents.

use vstd::prelude::*;
use crate::date::{Date, parse_date, format_date, add_days, naive_date_parse, naive_date_format, naive_date_add_days, compact_format};
use crate::decimal::{Dec, parse_decimal, decimal_to_string, decimal_from_text, decimal_display, decimal_mul, decimal_add,
    decimal_checked_mul, decimal_checked_add, to_cents, cents_of};
use crate::error::StorageError;
use crate::numbers::{digit_char, int_text};
use crate::models::{Currency, InvoiceAttrs, InvoiceId, InvoiceItemSkel, InvoiceSkel, InvoiceStage, InvoiceSummary,
    Item, ItemId, PaidStatus, Quantity, TemplateId};
use crate::lines::{collected, distinct_keys, law_collected_distinct, item_lines_v, item_v, upsert_item_line};
use crate::models::{Invoice, Template};
use crate::status::{StatusV, opt_text, decoded_stage, decoded_status, decode_stage, decode_status, encode_stage,
    encode_status, status_year_in_range, status_result_view, stored_stage_name, stored_status_name, status_date_text,
    status_check};

verus! {

/// One stored line of an invoice: an item id and its quantity as text.
#[derive(Clone, Debug, PartialEq, Eq)]
pub struct ItemRecord {
    pub item_id: i64,
    pub quantity: String,
}

/// A line as an item id and the mantissa and scale of its quantity.
pub open spec fn line_v(l: InvoiceItemSkel) -> (i64, (int, int)) {
    (l.item_id.0, l.quantity@)
}

pub open spec fn pair_v(p: (ItemId, Quantity)) -> (i64, (int, int)) {
    (p.0.0, p.1@)
}

pub open spec fn lines_v(ls: Seq<InvoiceItemSkel>) -> Seq<(i64, (int, int))> {
    ls.map_values(|l: InvoiceItemSkel| line_v(l))
}

pub open spec fn pairs_v(ps: Seq<(ItemId, Quantity)>) -> Seq<(i64, (int, int))> {
    ps.map_values(|p: (ItemId, Quantity)| pair_v(p))
}

/// The line that a stored record stands for: its quantity must read as a
/// positive decimal.
pub open spec fn decoded_record(r: ItemRecord) -> Result<(i64, (int, int)), StorageError> {
    match decimal_from_text(r.quantity@) {
        None => Err(StorageError::InvalidQuantity),
        Some(d) => if d.0 > 0 {
            Ok((r.item_id, d))
        } else {
            Err(StorageError::NonPositiveQuantity)
        },
    }
}

/// The lines that stored records stand for, or the error of the first record
/// that does not read.
pub open spec fn decoded_records(rs: Seq<ItemRecord>) -> Result<Seq<(i64, (int, int))>, StorageError>
    decreases rs.len(),
{
    if rs.len() == 0 {
        Ok(Seq::empty())
    } else {
        match decoded_records(rs.drop_last()) {
            Err(e) => Err(e),
            Ok(prev) => match decoded_record(rs.last()) {
                Err(e) => Err(e),
                Ok(x) => Ok(prev.push(x)),
            },
        }
    }
}

proof fn lemma_records_error_persists(rs: Seq<ItemRecord>, k: int)
    requires
        0 <= k <= rs.len(),
        decoded_records(rs.take(k)) is Err,
    ensures
        decoded_records(rs) == decoded_records(rs.take(k)),
    decreases rs.len() - k,
{
    if k == rs.len() {
        assert(rs.take(k) =~= rs);
    } else {
        assert(rs.take(k + 1).drop_last() =~= rs.take(k));
        lemma_records_error_persists(rs, k + 1);
    }
}

/// Reads the stored lines of an invoice, in order.
pub fn decode_item_records(recs: &Vec<ItemRecord>) -> (r: Result<Vec<InvoiceItemSkel>, StorageError>)
    ensures
        match r {
            Ok(v) => decoded_records(recs@) == Ok::<Seq<(i64, (int, int))>, StorageError>(lines_v(v@)),
            Err(e) => decoded_records(recs@) == Err::<Seq<(i64, (int, int))>, StorageError>(e),
        },
{
    let mut out: Vec<InvoiceItemSkel> = Vec::new();
    let mut i: usize = 0;
    proof {
        assert(recs@.take(0) =~= Seq::<ItemRecord>::empty());
        assert(lines_v(out@) =~= Seq::<(i64, (int, int))>::empty());
    }
    while i < recs.len()
        invariant
            i <= recs@.len(),
            decoded_records(recs@.take(i as int)) == Ok::<Seq<(i64, (int, int))>, StorageError>(lines_v(out@)),
        decreases recs@.len() - i,
    {
        let rec = &recs[i];
        proof {
            assert(recs@.take(i + 1).drop_last() =~= recs@.take(i as int));
            assert(recs@.take(i + 1).last() == recs@[i as int]);
        }
        let d = match parse_decimal(rec.quantity.as_str()) {
            Some(d) => d,
            None => {
                proof {
                    lemma_records_error_persists(recs@, i + 1);
                }
                return Err(StorageError::InvalidQuantity);
            },
        };
        let q = match Quantity::new(d) {
            Ok(q) => q,
            Err(_) => {
                proof {
                    lemma_records_error_persists(recs@, i + 1);
                }
                return Err(StorageError::NonPositiveQuantity);
            },
        };
        let line = InvoiceItemSkel { item_id: ItemId(rec.item_id), quantity: q };
        let ghost prev = out@;
        out.push(line);
        proof {
            assert(lines_v(out@) =~= lines_v(prev).push(line_v(line)));
        }
        i = i + 1;
    }
    proof {
        assert(recs@.take(recs@.len() as int) =~= recs@);
    }
    Ok(out)
}

/// Writes the lines of an invoice as stored records, the quantities as
/// decimal text. Reading the records gives the same lines back.
pub fn encode_item_records(items: &Vec<(ItemId, Quantity)>) -> (r: Vec<ItemRecord>)
    ensures
        r@.len() == items@.len(),
        forall|j: int| 0 <= j < r@.len() ==> {
            &&& (#[trigger] r@[j]).item_id == items@[j].0.0
            &&& r@[j].quantity@ == decimal_display(items@[j].1@.0, items@[j].1@.1, None)
        },
        decoded_records(r@) == Ok::<Seq<(i64, (int, int))>, StorageError>(pairs_v(items@)),
{
    let mut out: Vec<ItemRecord> = Vec::new();
    proof {
        assert(out@ =~= Seq::<ItemRecord>::empty());
        assert(pairs_v(items@.take(0)) =~= Seq::<(i64, (int, int))>::empty());
    }
    for k in 0..items.len()
        invariant
            out@.len() == k,
            forall|j: int| 0 <= j < k ==> {
                &&& (#[trigger] out@[j]).item_id == items@[j].0.0
                &&& out@[j].quantity@ == decimal_display(items@[j].1@.0, items@[j].1@.1, None)
            },
            decoded_records(out@) == Ok::<Seq<(i64, (int, int))>, StorageError>(pairs_v(items@.take(k as int))),
    {
        let (id, q) = items[k];
        let d = q.inner();
        let text = decimal_to_string(d);
        let rec = ItemRecord { item_id: id.0, quantity: text };
        let ghost prev = out@;
        out.push(rec);
        proof {
            assert(out@.drop_last() =~= prev);
            assert(items@.take(k + 1).drop_last() =~= items@.take(k as int));
            assert(pairs_v(items@.take(k + 1)) =~= pairs_v(items@.take(k as int)).push(pair_v(items@[k as int])));
        }
    }
    proof {
        assert(items@.take(items@.len() as int) =~= items@);
    }
    out
}

// ---------------------------------------------------------------------------
// The item list as JSON text
// ---------------------------------------------------------------------------

/// A lower-case hexadecimal digit.
pub open spec fn lower_hex_digit(d: int) -> char {
    if d < 10 {
        digit_char(d)
    } else {
        ('a' as int + (d - 10)) as char
    }
}

/// How a JSON string holds one character: `"` and `\` behind a backslash,
/// the control characters below U+0020 as `\b`, `\t`, `\n`, `\f`, `\r`
/// or `\u00` and two lower-case hexadecimal digits, any other character as
/// itself.
pub open spec fn json_char(c: char) -> Seq<char> {
    let n = c as u32;
    if c == '"' {
        seq!['\\', '"']
    } else if c == '\\' {
        seq!['\\', '\\']
    } else if n == 0x08 {
        seq!['\\', 'b']
    } else if n == 0x09 {
        seq!['\\', 't']
    } else if n == 0x0A {
        seq!['\\', 'n']
    } else if n == 0x0C {
        seq!['\\', 'f']
    } else if n == 0x0D {
        seq!['\\', 'r']
    } else if n < 0x20 {
        seq!['\\', 'u', '0', '0', lower_hex_digit(n as int / 16), lower_hex_digit(n as int % 16)]
    } else {
        seq![c]
    }
}

pub open spec fn json_escaped(s: Seq<char>) -> Seq<char>
    decreases s.len(),
{
    if s.len() == 0 {
        Seq::empty()
    } else {
        json_escaped(s.drop_last()) + json_char(s.last())
    }
}

/// A JSON string: the escaped characters between double quotes.
pub open spec fn json_string(s: Seq<char>) -> Seq<char> {
    seq!['"'] + json_escaped(s) + seq!['"']
}

/// A stored line as a JSON object, as `serde_json::to_string` writes a
/// record with the fields `item_id` and `quantity`.
pub open spec fn item_record_json(r: ItemRecord) -> Seq<char> {
    "{\"item_id\":"@ + int_text(r.item_id as int) + ",\"quantity\":"@ + json_string(r.quantity@) + seq!['}']
}

pub open spec fn item_records_joined(rs: Seq<ItemRecord>) -> Seq<char>
    decreases rs.len(),
{
    if rs.len() == 0 {
        Seq::empty()
    } else if rs.len() == 1 {
        item_record_json(rs[0])
    } else {
        item_records_joined(rs.drop_last()) + seq![','] + item_record_json(rs.last())
    }
}

/// The stored lines as the JSON array that the `items_json` column holds.
pub open spec fn item_records_json(rs: Seq<ItemRecord>) -> Seq<char> {
    seq!['['] + item_records_joined(rs) + seq![']']
}

/// `serde_json::to_string` of the stored lines, each as a JSON object with
/// the fields `item_id` (an integer) and `quantity` (a string), the form
/// that a record with those two fields serialises to: writing integers and
/// strings cannot fail, and the text is `item_records_json`.
#[verifier::external_body]
fn json_write_item_records(recs: &Vec<ItemRecord>) -> (r: String)
    ensures
        r@ == item_records_json(recs@),
{
    let objects: Vec<serde_json::Map<String, serde_json::Value>> = recs.iter().map(|rec| {
        let mut m = serde_json::Map::new();
        m.insert(String::from("item_id"), serde_json::Value::from(rec.item_id));
        m.insert(String::from("quantity"), serde_json::Value::from(rec.quantity.clone()));
        m
    }).collect();
    serde_json::to_string(&objects).unwrap_or_default()
}

/// The stored lines as the JSON text of the `items_json` column.
pub fn encode_items_json(recs: &Vec<ItemRecord>) -> (r: String)
    ensures
        r@ == item_records_json(recs@),
{
    json_write_item_records(recs)
}

/// The abstract value of invoice attributes.
pub struct AttrsV {
    pub show_methods: bool,
    pub show_notes: bool,
    pub stage: InvoiceStage,
    pub status: StatusV,
}

impl View for InvoiceAttrs {
    type V = AttrsV;

    open spec fn view(&self) -> AttrsV {
        AttrsV {
            show_methods: self.show_methods,
            show_notes: self.show_notes,
            stage: self.stage,
            status: self.status@,
        }
    }
}

/// The abstract value of a stored invoice.
pub struct InvoiceSkelV {
    pub id: i64,
    pub template_id: i64,
    pub date: (int, int, int),
    pub attributes: AttrsV,
    pub notes: Option<Seq<char>>,
    pub items: Seq<(i64, (int, int))>,
}

impl View for InvoiceSkel {
    type V = InvoiceSkelV;

    open spec fn view(&self) -> InvoiceSkelV {
        InvoiceSkelV {
            id: self.id.0,
            template_id: self.template_id.0,
            date: self.date@,
            attributes: self.attributes@,
            notes: opt_text(self.notes),
            items: lines_v(self.items@),
        }
    }
}

/// A row of the `invoices` table as it is read. `items` is the item list as
/// the JSON reader gave it, `None` where the stored JSON did not read.
#[derive(Clone, Debug, PartialEq, Eq)]
pub struct InvoiceRow {
    pub id: i64,
    pub template_id: i64,
    pub date: String,
    pub show_methods: bool,
    pub show_notes: bool,
    pub stage: String,
    pub status: String,
    pub status_date: Option<String>,
    pub status_check: Option<String>,
    pub notes: Option<String>,
    pub items: Option<Vec<ItemRecord>>,
}

/// The invoice that a row holds, or the first error in the order date,
/// stage, status, item list.
pub open spec fn decoded_invoice_row(r: InvoiceRow) -> Result<InvoiceSkelV, StorageError> {
    match naive_date_parse(r.date@, compact_format()) {
        None => Err(StorageError::InvalidDate),
        Some(date) => match decoded_stage(r.stage@) {
            Err(e) => Err(e),
            Ok(stage) => match decoded_status(r.status@, opt_text(r.status_date), opt_text(r.status_check)) {
                Err(e) => Err(e),
                Ok(status) => match r.items {
                    None => Err(StorageError::InvalidItemsJson),
                    Some(recs) => match decoded_records(recs@) {
                        Err(e) => Err(e),
                        Ok(items) => Ok(
                            InvoiceSkelV {
                                id: r.id,
                                template_id: r.template_id,
                                date,
                                attributes: AttrsV {
                                    show_methods: r.show_methods,
                                    show_notes: r.show_notes,
                                    stage,
                                    status,
                                },
                                notes: opt_text(r.notes),
                                items,
                            },
                        ),
                    },
                },
            },
        },
    }
}

pub open spec fn skel_result_view(r: Result<InvoiceSkel, StorageError>) -> Result<InvoiceSkelV, StorageError> {
    match r {
        Ok(s) => Ok(s@),
        Err(e) => Err(e),
    }
}

/// Reads an invoice from its row.
pub fn decode_invoice_row(r: InvoiceRow) -> (s: Result<InvoiceSkel, StorageError>)
    ensures
        skel_result_view(s) == decoded_invoice_row(r),
{
    proof {
        crate::date::lemma_compact_format_literal();
    }
    let date = match parse_date(r.date.as_str(), "%Y%m%d") {
        Some(d) => d,
        None => return Err(StorageError::InvalidDate),
    };
    let stage = match decode_stage(r.stage.as_str()) {
        Ok(s) => s,
        Err(e) => return Err(e),
    };
    let status = match decode_status(r.status.as_str(), r.status_date, r.status_check) {
        Ok(s) => s,
        Err(e) => return Err(e),
    };
    let recs = match r.items {
        Some(recs) => recs,
        None => return Err(StorageError::InvalidItemsJson),
    };
    let items = match decode_item_records(&recs) {
        Ok(items) => items,
        Err(e) => return Err(e),
    };
    Ok(InvoiceSkel {
        id: InvoiceId(r.id),
        template_id: TemplateId(r.template_id),
        date,
        attributes: InvoiceAttrs { show_methods: r.show_methods, show_notes: r.show_notes, stage, status },
        notes: r.notes,
        items,
    })
}

// ---------------------------------------------------------------------------
// Totals
// ---------------------------------------------------------------------------

/// The sum of rate times quantity over the lines, as `rust_decimal` computes
/// it: the products in order, added one by one to zero; `None` where a
/// product or a sum overflows.
pub open spec fn total_decimal(items: Seq<(Item, Quantity)>) -> Option<(int, int)>
    decreases items.len(),
{
    if items.len() == 0 {
        Some((0, 0))
    } else {
        match total_decimal(items.drop_last()) {
            None => None,
            Some(acc) => {
                let line = items.last();
                match decimal_checked_mul(line.0.rate@.0, line.0.rate@.1, line.1@.0, line.1@.1) {
                    None => None,
                    Some(p) => decimal_checked_add(acc.0, acc.1, p.0, p.1),
                }
            },
        }
    }
}

/// The total of the lines in whole cents: the sum, rounded to cents (halves
/// to even); `None` where the sum overflows or the cents do not fit an
/// `i64`.
pub open spec fn total_cents(items: Seq<(Item, Quantity)>) -> Option<i64> {
    match total_decimal(items) {
        None => None,
        Some(t) => if i64::MIN <= cents_of(t.0, t.1 as nat) <= i64::MAX {
            Some(cents_of(t.0, t.1 as nat) as i64)
        } else {
            None
        },
    }
}

/// The total of an invoice's lines in cents.
pub fn compute_total(items: &Vec<(Item, Quantity)>) -> (r: Option<i64>)
    ensures
        r == total_cents(items@),
{
    let mut acc = Dec::from_i64(0);
    for k in 0..items.len()
        invariant
            total_decimal(items@.take(k as int)) == Some(acc@),
    {
        proof {
            assert(items@.take(k + 1).drop_last() =~= items@.take(k as int));
            assert(items@.take(k + 1).last() == items@[k as int]);
        }
        let rate = items[k].0.rate.inner();
        let qty = items[k].1.inner();
        let p = match decimal_mul(rate, qty) {
            Some(p) => p,
            None => {
                proof {
                    lemma_total_none_persists(items@, k + 1);
                }
                return None;
            },
        };
        acc = match decimal_add(acc, p) {
            Some(a) => a,
            None => {
                proof {
                    lemma_total_none_persists(items@, k + 1);
                }
                return None;
            },
        };
    }
    proof {
        assert(items@.take(items@.len() as int) =~= items@);
    }
    to_cents(acc)
}

proof fn lemma_total_none_persists(items: Seq<(Item, Quantity)>, k: int)
    requires
        0 <= k <= items.len(),
        total_decimal(items.take(k)) is None,
    ensures
        total_decimal(items) is None,
    decreases items.len() - k,
{
    if k == items.len() {
        assert(items.take(k) =~= items);
    } else {
        assert(items.take(k + 1).drop_last() =~= items.take(k));
        lemma_total_none_persists(items, k + 1);
    }
}

// ---------------------------------------------------------------------------
// Creating an invoice
// ---------------------------------------------------------------------------

/// What creating an invoice takes.
#[derive(Clone, Debug, PartialEq, Eq)]
pub struct CreateInvoice {
    pub template: TemplateId,
    pub date: Date,
    pub attributes: InvoiceAttrs,
    pub notes: Option<String>,
    pub items: Vec<(ItemId, Quantity)>,
}

/// The values that creating an invoice inserts into the `invoices` table:
/// `items` are the stored lines and `items_json` the JSON text of them that
/// the `items_json` column holds.
#[derive(Clone, Debug, PartialEq, Eq)]
pub struct InvoiceInsert {
    pub template_id: i64,
    pub date: String,
    pub show_methods: bool,
    pub show_notes: bool,
    pub stage: String,
    pub status: String,
    pub status_date: Option<String>,
    pub status_check: Option<String>,
    pub notes: Option<String>,
    pub items: Vec<ItemRecord>,
    pub items_json: String,
    pub total: i64,
}

/// The row that reading back an inserted invoice under the id it was given
/// finds.
pub open spec fn inserted_row(id: i64, ins: InvoiceInsert) -> InvoiceRow {
    InvoiceRow {
        id,
        template_id: ins.template_id,
        date: ins.date,
        show_methods: ins.show_methods,
        show_notes: ins.show_notes,
        stage: ins.stage,
        status: ins.status,
        status_date: ins.status_date,
        status_check: ins.status_check,
        notes: ins.notes,
        items: Some(ins.items),
    }
}

/// An invoice whose dates all have a year from 0 to 9999, the years that the
/// storage format writes with four digits.
pub open spec fn create_years_in_range(input: CreateInvoice) -> bool {
    &&& 0 <= input.date@.0 <= 9999
    &&& status_year_in_range(input.attributes.status@)
}

/// The invoice that `input` describes, stored under `id`.
pub open spec fn created_view(input: CreateInvoice, id: i64) -> InvoiceSkelV {
    InvoiceSkelV {
        id,
        template_id: input.template.0,
        date: input.date@,
        attributes: input.attributes@,
        notes: opt_text(input.notes),
        items: pairs_v(input.items@),
    }
}

/// The values to insert for a new invoice, with `lines` the items of its
/// lines as found in the `items` table, in the order of its lines. The
/// total is that of `lines`; where it cannot be computed the invoice is
/// refused. Reading the inserted row back gives the invoice as it was given.
pub fn build_invoice_insert(input: CreateInvoice, lines: &Vec<(Item, Quantity)>) -> (r: Result<InvoiceInsert, StorageError>)
    ensures
        r is Err <==> total_cents(lines@) is None,
        r is Err ==> r == Err::<InvoiceInsert, StorageError>(StorageError::TotalOutOfRange),
        r matches Ok(ins) ==> {
            &&& ins.template_id == input.template.0
            &&& ins.date@ == naive_date_format(input.date@.0, input.date@.1, input.date@.2, compact_format())
            &&& ins.show_methods == input.attributes.show_methods
            &&& ins.show_notes == input.attributes.show_notes
            &&& ins.stage@ == stored_stage_name(input.attributes.stage)
            &&& ins.status@ == stored_status_name(input.attributes.status@)
            &&& opt_text(ins.status_date) == status_date_text(input.attributes.status@, compact_format())
            &&& opt_text(ins.status_check) == status_check(input.attributes.status@)
            &&& ins.notes == input.notes
            &&& decoded_records(ins.items@) == Ok::<Seq<(i64, (int, int))>, StorageError>(pairs_v(input.items@))
            &&& ins.items_json@ == item_records_json(ins.items@)
            &&& Some(ins.total) == total_cents(lines@)
            &&& forall|id: i64|
                create_years_in_range(input) ==> #[trigger] decoded_invoice_row(inserted_row(id, ins)) == Ok::<InvoiceSkelV, StorageError>(
                    created_view(input, id),
                )
        },
{
    let total = match compute_total(lines) {
        Some(t) => t,
        None => return Err(StorageError::TotalOutOfRange),
    };
    proof {
        crate::date::lemma_compact_format_literal();
    }
    let records = encode_item_records(&input.items);
    let items_json = encode_items_json(&records);
    let (status, status_date, status_check) = encode_status(&input.attributes.status);
    let stage = encode_stage(input.attributes.stage);
    let date = format_date(input.date, "%Y%m%d");
    Ok(InvoiceInsert {
        template_id: input.template.0,
        date,
        show_methods: input.attributes.show_methods,
        show_notes: input.attributes.show_notes,
        stage: String::from_str(stage),
        status,
        status_date,
        status_check,
        notes: input.notes,
        items: records,
        items_json,
        total,
    })
}

// ---------------------------------------------------------------------------
// Updating an invoice
// ---------------------------------------------------------------------------

/// A change to an invoice: each field that is given replaces the stored one.
#[derive(Clone, Debug, PartialEq, Eq)]
pub struct UpdateInvoice {
    pub show_methods: Option<bool>,
    pub show_notes: Option<bool>,
    pub stage: Option<InvoiceStage>,
    pub status: Option<PaidStatus>,
    pub notes: Option<String>,
    pub items: Option<Vec<(ItemId, Quantity)>>,
}

impl UpdateInvoice {
    /// The change that changes nothing.
    pub fn none() -> (r: UpdateInvoice)
        ensures
            r.show_methods is None && r.show_notes is None && r.stage is None,
            r.status is None && r.notes is None && r.items is None,
    {
        UpdateInvoice { show_methods: None, show_notes: None, stage: None, status: None, notes: None, items: None }
    }
}

/// An invoice after a change; the lines stay as they are stored.
pub open spec fn patched_invoice(s: InvoiceSkelV, p: UpdateInvoice) -> InvoiceSkelV {
    InvoiceSkelV {
        id: s.id,
        template_id: s.template_id,
        date: s.date,
        attributes: AttrsV {
            show_methods: match p.show_methods {
                Some(v) => v,
                None => s.attributes.show_methods,
            },
            show_notes: match p.show_notes {
                Some(v) => v,
                None => s.attributes.show_notes,
            },
            stage: match p.stage {
                Some(v) => v,
                None => s.attributes.stage,
            },
            status: match p.status {
                Some(v) => v@,
                None => s.attributes.status,
            },
        },
        notes: match p.notes {
            Some(v) => Some(v@),
            None => s.notes,
        },
        items: s.items,
    }
}

/// Applies a change to a stored invoice. Its lines are not part of what an
/// update writes: a change that gives `items` leaves them as they are.
pub fn apply_invoice_patch(skel: InvoiceSkel, patch: UpdateInvoice) -> (r: InvoiceSkel)
    ensures
        r@ == patched_invoice(skel@, patch),
        r.id == skel.id && r.template_id == skel.template_id && r.date == skel.date && r.items == skel.items,
        patch.show_methods matches Some(v) ==> r.attributes.show_methods == v,
        patch.show_methods is None ==> r.attributes.show_methods == skel.attributes.show_methods,
        patch.show_notes matches Some(v) ==> r.attributes.show_notes == v,
        patch.show_notes is None ==> r.attributes.show_notes == skel.attributes.show_notes,
        patch.stage matches Some(v) ==> r.attributes.stage == v,
        patch.stage is None ==> r.attributes.stage == skel.attributes.stage,
        patch.status matches Some(v) ==> r.attributes.status == v,
        patch.status is None ==> r.attributes.status == skel.attributes.status,
        patch.notes matches Some(n) ==> r.notes == Some(n),
        patch.notes is None ==> r.notes == skel.notes,
{
    let mut s = skel;
    if let Some(v) = patch.show_methods {
        s.attributes.show_methods = v;
    }
    if let Some(v) = patch.show_notes {
        s.attributes.show_notes = v;
    }
    if let Some(v) = patch.stage {
        s.attributes.stage = v;
    }
    if let Some(v) = patch.status {
        s.attributes.status = v;
    }
    if let Some(v) = patch.notes {
        s.notes = Some(v);
    }
    s
}

/// The change that changes nothing leaves an invoice as it was.
pub proof fn law_invoice_patch_none(s: InvoiceSkelV, p: UpdateInvoice)
    requires
        p.show_methods is None && p.show_notes is None && p.stage is None,
        p.status is None && p.notes is None && p.items is None,
    ensures
        patched_invoice(s, p) == s,
{
}

/// Applying the same change twice is applying it once.
pub proof fn law_invoice_patch_idempotent(s: InvoiceSkelV, p: UpdateInvoice)
    ensures
        patched_invoice(patched_invoice(s, p), p) == patched_invoice(s, p),
{
}

/// Each field that a change to an invoice gives replaces the stored one:
/// the two boxes, the stage, the payment status and the notes; each field it
/// leaves out keeps its stored value.
pub proof fn law_invoice_patch_fields(s: InvoiceSkelV, p: UpdateInvoice)
    ensures
        p.show_methods matches Some(v) ==> patched_invoice(s, p).attributes.show_methods == v,
        p.show_methods is None ==> patched_invoice(s, p).attributes.show_methods == s.attributes.show_methods,
        p.show_notes matches Some(v) ==> patched_invoice(s, p).attributes.show_notes == v,
        p.show_notes is None ==> patched_invoice(s, p).attributes.show_notes == s.attributes.show_notes,
        p.stage matches Some(v) ==> patched_invoice(s, p).attributes.stage == v,
        p.stage is None ==> patched_invoice(s, p).attributes.stage == s.attributes.stage,
        p.status matches Some(v) ==> patched_invoice(s, p).attributes.status == v@,
        p.status is None ==> patched_invoice(s, p).attributes.status == s.attributes.status,
        p.notes matches Some(n) ==> patched_invoice(s, p).notes == Some(n@),
        p.notes is None ==> patched_invoice(s, p).notes == s.notes,
{
}

/// A change never alters the id, template, date or lines of an invoice.
pub proof fn law_invoice_patch_keeps_fixed_parts(s: InvoiceSkelV, p: UpdateInvoice)
    ensures
        patched_invoice(s, p).id == s.id,
        patched_invoice(s, p).template_id == s.template_id,
        patched_invoice(s, p).date == s.date,
        patched_invoice(s, p).items == s.items,
{
}

/// The columns that an update of an invoice writes.
#[derive(Clone, Debug, PartialEq, Eq)]
pub struct InvoiceUpdate {
    pub show_methods: bool,
    pub show_notes: bool,
    pub stage: String,
    pub status: String,
    pub status_date: Option<String>,
    pub status_check: Option<String>,
    pub notes: Option<String>,
}

/// A row after an update has written its columns.
pub open spec fn updated_row(r: InvoiceRow, u: InvoiceUpdate) -> InvoiceRow {
    InvoiceRow {
        id: r.id,
        template_id: r.template_id,
        date: r.date,
        show_methods: u.show_methods,
        show_notes: u.show_notes,
        stage: u.stage,
        status: u.status,
        status_date: u.status_date,
        status_check: u.status_check,
        notes: u.notes,
        items: r.items,
    }
}

/// A row that reads as an invoice with the id, template, date and lines of
/// `s`.
pub open spec fn row_holds_fixed_parts(r: InvoiceRow, s: InvoiceSkelV) -> bool {
    match decoded_invoice_row(r) {
        Ok(v) => v.id == s.id && v.template_id == s.template_id && v.date == s.date && v.items == s.items,
        Err(_) => false,
    }
}

/// The columns to write for a changed invoice. Where the row read the
/// invoice's id, template, date and lines, reading it after the update gives
/// the changed invoice, if the year of its status date lies from 0 to 9999.
pub fn encode_invoice_update(skel: &InvoiceSkel) -> (u: InvoiceUpdate)
    ensures
        u.show_methods == skel.attributes.show_methods,
        u.show_notes == skel.attributes.show_notes,
        u.stage@ == stored_stage_name(skel.attributes.stage),
        u.status@ == stored_status_name(skel.attributes.status@),
        opt_text(u.status_date) == status_date_text(skel.attributes.status@, compact_format()),
        opt_text(u.status_check) == status_check(skel.attributes.status@),
        u.notes == skel.notes,
        forall|r: InvoiceRow|
            status_year_in_range(skel.attributes.status@) && #[trigger] row_holds_fixed_parts(r, skel@)
                ==> decoded_invoice_row(updated_row(r, u)) == Ok::<InvoiceSkelV, StorageError>(skel@),
{
    let (status, status_date, status_check) = encode_status(&skel.attributes.status);
    let stage = encode_stage(skel.attributes.stage);
    let notes = match &skel.notes {
        Some(n) => Some(n.clone()),
        None => None,
    };
    InvoiceUpdate {
        show_methods: skel.attributes.show_methods,
        show_notes: skel.attributes.show_notes,
        stage: String::from_str(stage),
        status,
        status_date,
        status_check,
        notes,
    }
}

// ---------------------------------------------------------------------------
// Reading an invoice with its template and items
// ---------------------------------------------------------------------------

pub open spec fn found_at(found: Seq<Option<Item>>, j: int) -> Option<Item> {
    if 0 <= j < found.len() {
        found[j]
    } else {
        None
    }
}

/// The index of the first line whose item was not found, or -1.
pub open spec fn first_missing(lines: Seq<InvoiceItemSkel>, found: Seq<Option<Item>>) -> int
    decreases lines.len(),
{
    if lines.len() == 0 {
        -1
    } else {
        let j = first_missing(lines.drop_last(), found);
        if j >= 0 {
            j
        } else if found_at(found, lines.len() - 1) is None {
            lines.len() - 1
        } else {
            -1
        }
    }
}

/// The lines of an invoice with their items found: line `j` takes item
/// `found[j]` with its quantity.
pub open spec fn found_lines(lines: Seq<InvoiceItemSkel>, found: Seq<Option<Item>>) -> Seq<((i64, Seq<char>, (int, int)), (int, int))> {
    Seq::new(lines.len(), |j: int| (item_v(found_at(found, j)->0), lines[j].quantity@))
}

fn clone_item(i: &Item) -> (r: Item)
    ensures
        r == *i,
{
    Item { id: i.id, name: i.name.clone(), rate: i.rate }
}

/// An invoice with its template and items, where `template` is the
/// invoice's template as found and `found[j]` the item of its line `j` as
/// found. A missing template, or the first line whose item is missing, is
/// reported; otherwise the lines are collected as a map keyed by item keeps
/// them: a later line for an equal item replaces the quantity of an earlier
/// one.
pub fn assemble_invoice(skel: InvoiceSkel, template: Option<Template>, found: Vec<Option<Item>>) -> (r: Result<Invoice, StorageError>)
    ensures
        template is None ==> r == Err::<Invoice, StorageError>(StorageError::TemplateNotFound(skel.template_id)),
        template is Some && first_missing(skel.items@, found@) >= 0 ==> r == Err::<Invoice, StorageError>(
            StorageError::ItemNotFound(skel.items@[first_missing(skel.items@, found@)].item_id),
        ),
        template is Some && first_missing(skel.items@, found@) < 0 ==> (r matches Ok(inv) && {
            &&& inv.id == skel.id
            &&& Some(inv.template) == template
            &&& inv.date == skel.date
            &&& inv.attributes == skel.attributes
            &&& inv.notes == skel.notes
            &&& item_lines_v(inv.items@) == collected(found_lines(skel.items@, found@))
        }),
{
    let tmpl = match template {
        Some(t) => t,
        None => return Err(StorageError::TemplateNotFound(skel.template_id)),
    };
    let mut items: Vec<(Item, Quantity)> = Vec::new();
    let ghost fl = found_lines(skel.items@, found@);
    proof {
        assert(fl.take(0) =~= Seq::empty());
        assert(item_lines_v(items@) =~= Seq::empty());
    }
    let mut j: usize = 0;
    while j < skel.items.len()
        invariant
            j <= skel.items@.len(),
            template is Some,
            fl == found_lines(skel.items@, found@),
            first_missing(skel.items@.take(j as int), found@) == -1,
            item_lines_v(items@) == collected(fl.take(j as int)),
        decreases skel.items@.len() - j,
    {
        proof {
            assert(skel.items@.take(j + 1).drop_last() =~= skel.items@.take(j as int));
            assert(fl.take(j + 1).drop_last() =~= fl.take(j as int));
        }
        let line = skel.items[j];
        let item = if j < found.len() {
            match &found[j] {
                Some(i) => clone_item(i),
                None => {
                    proof {
                        lemma_first_missing_persists(skel.items@, found@, j + 1);
                    }
                    return Err(StorageError::ItemNotFound(line.item_id));
                },
            }
        } else {
            proof {
                lemma_first_missing_persists(skel.items@, found@, j + 1);
            }
            return Err(StorageError::ItemNotFound(line.item_id));
        };
        upsert_item_line(&mut items, item, line.quantity);
        j = j + 1;
    }
    proof {
        assert(skel.items@.take(skel.items@.len() as int) =~= skel.items@);
        assert(fl.take(fl.len() as int) =~= fl);
    }
    Ok(Invoice {
        id: skel.id,
        template: tmpl,
        date: skel.date,
        attributes: skel.attributes,
        notes: skel.notes,
        items,
    })
}

proof fn lemma_nothing_missing(lines: Seq<InvoiceItemSkel>, found: Seq<Option<Item>>)
    requires
        forall|j: int| 0 <= j < lines.len() ==> (#[trigger] found_at(found, j)) is Some,
    ensures
        first_missing(lines, found) == -1,
    decreases lines.len(),
{
    if lines.len() > 0 {
        let p = lines.drop_last();
        assert forall|j: int| 0 <= j < p.len() implies (#[trigger] found_at(found, j)) is Some by {
            assert(found_at(found, j) is Some);
        }
        lemma_nothing_missing(p, found);
        assert(found_at(found, lines.len() - 1) is Some);
    }
}

/// Reading an invoice keeps every line, in order, with its item id and
/// quantity, where each item found is the one with its line's id and no item
/// id occurs twice: nothing is reported missing and collecting the lines
/// merges none of them.
pub proof fn law_distinct_lines_kept(lines: Seq<InvoiceItemSkel>, found: Seq<Option<Item>>)
    requires
        forall|j: int|
            0 <= j < lines.len() ==> ((#[trigger] found_at(found, j)) matches Some(i) && i.id == lines[j].item_id),
        forall|i: int, j: int| 0 <= i < j < lines.len() ==> #[trigger] lines[i].item_id != #[trigger] lines[j].item_id,
    ensures
        first_missing(lines, found) < 0,
        collected(found_lines(lines, found)) == found_lines(lines, found),
        found_lines(lines, found).len() == lines.len(),
        forall|j: int|
            0 <= j < lines.len() ==> (#[trigger] found_lines(lines, found)[j]).0.0 == lines[j].item_id.0
                && found_lines(lines, found)[j].1 == lines[j].quantity@,
{
    assert forall|j: int| 0 <= j < lines.len() implies (#[trigger] found_at(found, j)) is Some by {
        assert(found_at(found, j) matches Some(i) && i.id == lines[j].item_id);
    }
    lemma_nothing_missing(lines, found);
    let fl = found_lines(lines, found);
    assert forall|j: int| 0 <= j < lines.len() implies (#[trigger] fl[j]).0.0 == lines[j].item_id.0 && fl[j].1
        == lines[j].quantity@ by {
        assert(found_at(found, j) matches Some(i) && i.id == lines[j].item_id);
    }
    assert(distinct_keys(fl)) by {
        assert forall|i: int, j: int| 0 <= i < j < fl.len() implies #[trigger] fl[i].0 != #[trigger] fl[j].0 by {
            assert(found_at(found, i) matches Some(x) && x.id == lines[i].item_id);
            assert(found_at(found, j) matches Some(x) && x.id == lines[j].item_id);
            assert(lines[i].item_id != lines[j].item_id);
        }
    }
    law_collected_distinct(fl);
}

/// An invoice that was created reads back as it was given. Where the row
/// inserted for `input` is read under `id` (with `ins` as
/// `build_invoice_insert` gave it, so that the row reads as `input`), `skel`
/// is what `decode_invoice_row` read from that row, and the items found for
/// its lines are those with the lines' item ids, no id occurring twice: the
/// invoice read has the id, template, date, attributes, notes and lines of
/// `input`; no item is reported missing; and the lines that `assemble_invoice`
/// collects are the lines of `input`, in order, each with its item id and
/// quantity.
pub proof fn law_created_invoice_reads_back(
    input: CreateInvoice,
    ins: InvoiceInsert,
    id: i64,
    skel: InvoiceSkel,
    found: Seq<Option<Item>>,
)
    requires
        decoded_invoice_row(inserted_row(id, ins)) == Ok::<InvoiceSkelV, StorageError>(created_view(input, id)),
        skel_result_view(Ok(skel)) == decoded_invoice_row(inserted_row(id, ins)),
        forall|j: int|
            0 <= j < input.items@.len() ==> ((#[trigger] found_at(found, j)) matches Some(i) && i.id == input.items@[j].0),
        forall|i: int, j: int|
            0 <= i < j < input.items@.len() ==> #[trigger] input.items@[i].0 != #[trigger] input.items@[j].0,
    ensures
        skel@ == created_view(input, id),
        first_missing(skel.items@, found) < 0,
        collected(found_lines(skel.items@, found)).len() == input.items@.len(),
        forall|j: int|
            0 <= j < input.items@.len() ==> (#[trigger] collected(found_lines(skel.items@, found))[j]).0.0
                == input.items@[j].0.0 && collected(found_lines(skel.items@, found))[j].1 == input.items@[j].1@,
{
    let lines = skel.items@;
    assert(lines_v(lines) == pairs_v(input.items@));
    assert(lines.len() == input.items@.len()) by {
        assert(lines_v(lines).len() == lines.len());
        assert(pairs_v(input.items@).len() == input.items@.len());
    }
    assert forall|j: int| 0 <= j < lines.len() implies #[trigger] lines[j].item_id == input.items@[j].0
        && lines[j].quantity@ == input.items@[j].1@ by {
        assert(lines_v(lines)[j] == line_v(lines[j]));
        assert(pairs_v(input.items@)[j] == pair_v(input.items@[j]));
    }
    assert forall|j: int| 0 <= j < lines.len() implies ((#[trigger] found_at(found, j)) matches Some(i) && i.id
        == lines[j].item_id) by {
        assert(lines[j].item_id == input.items@[j].0);
    }
    assert forall|i: int, j: int| 0 <= i < j < lines.len() implies #[trigger] lines[i].item_id
        != #[trigger] lines[j].item_id by {
        assert(lines[i].item_id == input.items@[i].0);
        assert(lines[j].item_id == input.items@[j].0);
    }
    law_distinct_lines_kept(lines, found);
    let fl = found_lines(lines, found);
    assert forall|j: int| 0 <= j < input.items@.len() implies (#[trigger] collected(fl)[j]).0.0
        == input.items@[j].0.0 && collected(fl)[j].1 == input.items@[j].1@ by {
        assert(fl[j].0.0 == lines[j].item_id.0 && fl[j].1 == lines[j].quantity@);
        assert(lines[j].item_id == input.items@[j].0);
    }
}

proof fn lemma_first_missing_persists(lines: Seq<InvoiceItemSkel>, found: Seq<Option<Item>>, k: int)
    requires
        0 <= k <= lines.len(),
        first_missing(lines.take(k), found) >= 0,
    ensures
        first_missing(lines, found) == first_missing(lines.take(k), found),
    decreases lines.len() - k,
{
    if k == lines.len() {
        assert(lines.take(k) =~= lines);
    } else {
        assert(lines.take(k + 1).drop_last() =~= lines.take(k));
        lemma_first_missing_persists(lines, found, k + 1);
    }
}

// ---------------------------------------------------------------------------
// The invoice list
// ---------------------------------------------------------------------------

/// A row of the invoice list query: the invoice with its client's name and
/// the due days of its terms.
#[derive(Clone, Debug, PartialEq, Eq)]
pub struct SummaryRow {
    pub id: i64,
    pub date: String,
    pub status: String,
    pub status_date: Option<String>,
    pub total: i64,
    pub client_name: String,
    pub terms_due: i64,
}

/// The abstract value of an invoice list entry.
pub struct SummaryV {
    pub id: i64,
    pub issued: (int, int, int),
    pub client_name: Seq<char>,
    pub total: (int, int),
    pub status: StatusV,
    pub due: (int, int, int),
}

impl View for InvoiceSummary {
    type V = SummaryV;

    open spec fn view(&self) -> SummaryV {
        SummaryV {
            id: self.id.0,
            issued: self.issued@,
            client_name: self.client_name@,
            total: self.total@,
            status: self.status@,
            due: self.due@,
        }
    }
}

/// The list entry that a row stands for: the invoice is due the number of
/// days of its terms after it was issued; the check number is not part of
/// the list.
pub open spec fn decoded_summary_row(r: SummaryRow) -> Result<SummaryV, StorageError> {
    match naive_date_parse(r.date@, compact_format()) {
        None => Err(StorageError::InvalidDate),
        Some(issued) => match naive_date_add_days(issued.0, issued.1, issued.2, r.terms_due as int) {
            None => Err(StorageError::DueDateOutOfRange),
            Some(due) => match decoded_status(r.status@, opt_text(r.status_date), None) {
                Err(e) => Err(e),
                Ok(status) => Ok(
                    SummaryV { id: r.id, issued, client_name: r.client_name@, total: (r.total as int, 2int), status, due },
                ),
            },
        },
    }
}

pub open spec fn summary_result_view(r: Result<InvoiceSummary, StorageError>) -> Result<SummaryV, StorageError> {
    match r {
        Ok(s) => Ok(s@),
        Err(e) => Err(e),
    }
}

/// Reads an entry of the invoice list from its row.
pub fn decode_summary_row(r: SummaryRow) -> (s: Result<InvoiceSummary, StorageError>)
    ensures
        summary_result_view(s) == decoded_summary_row(r),
{
    proof {
        crate::date::lemma_compact_format_literal();
    }
    let issued = match parse_date(r.date.as_str(), "%Y%m%d") {
        Some(d) => d,
        None => return Err(StorageError::InvalidDate),
    };
    let due = match add_days(issued, r.terms_due) {
        Some(d) => d,
        None => return Err(StorageError::DueDateOutOfRange),
    };
    let status = match decode_status(r.status.as_str(), r.status_date, None) {
        Ok(s) => s,
        Err(e) => return Err(e),
    };
    Ok(InvoiceSummary {
        id: InvoiceId(r.id),
        issued,
        client_name: r.client_name,
        total: Currency::from_cents(r.total),
        status,
        due,
    })
}

} // verus!
