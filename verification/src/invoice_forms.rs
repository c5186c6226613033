//! The invoice pages of the web front end: reading the invoice forms,
//! adding and removing lines, and the views of the invoice list and of the
//! invoice editor.

use vstd::prelude::*;
use crate::date::{Date, parse_date, format_date, naive_date_parse, naive_date_format, iso_format};
use crate::decimal::{Dec, parse_decimal, decimal_from_text, decimal_to_string, decimal_to_string_2dp, decimal_display,
    decimal_mul, decimal_checked_mul};
use crate::error::StorageError;
use crate::forms::{non_blank, some_if_not_empty};
use crate::invoice_store::{CreateInvoice, UpdateInvoice, compute_total, total_cents};
use crate::lines::{id_lines_v, upserted, without_key, upsert_line, remove_lines};
use crate::models::{Currency, Invoice, InvoiceAttrs, InvoiceStage, InvoiceSummary, Item, ItemId, PaidStatus, Quantity,
    TemplateId};
use crate::numbers::{chars_of, parse_i64, parse_i64_at, parsed_i64};
use crate::status::{StatusV, opt_str, opt_text, flatten_status, form_stage, form_status, form_status_name,
    parse_stage_form, parse_status_form, status_date_text, status_check};
use crate::text::{blank, is_blank, str_equal};

verus! {

broadcast use vstd::string::group_string_axioms;

/// Why the new-invoice form cannot be read.
#[derive(Clone, Copy, Debug, PartialEq, Eq, Structural)]
pub enum InvoiceFormError {
    MissingTemplateId,
    InvalidTemplateId,
    MissingDate,
    InvalidDate,
}

/// The value of the first field named `key`.
pub open spec fn field_value(fields: Seq<(String, String)>, key: Seq<char>) -> Option<Seq<char>>
    decreases fields.len(),
{
    if fields.len() == 0 {
        None
    } else {
        match field_value(fields.drop_last(), key) {
            Some(v) => Some(v),
            None => if fields.last().0@ == key {
                Some(fields.last().1@)
            } else {
                None
            },
        }
    }
}

pub open spec fn has_field(fields: Seq<(String, String)>, key: Seq<char>) -> bool {
    field_value(fields, key) is Some
}

/// Field `i` is the first field named `key`.
pub open spec fn first_field(fields: Seq<(String, String)>, i: int, key: Seq<char>) -> bool {
    &&& 0 <= i < fields.len()
    &&& fields[i].0@ == key
    &&& forall|j: int| 0 <= j < i ==> (#[trigger] fields[j]).0@ != key
}

/// Some field is named `key`.
pub open spec fn some_field_named(fields: Seq<(String, String)>, key: Seq<char>) -> bool {
    exists|i: int| 0 <= i < fields.len() && (#[trigger] fields[i]).0@ == key
}

/// `field_value` gives the value of the first field named `key`, and gives
/// one exactly when some field has that name.
pub proof fn law_field_value(fields: Seq<(String, String)>, key: Seq<char>)
    ensures
        field_value(fields, key) is Some <==> some_field_named(fields, key),
        field_value(fields, key) matches Some(v) ==> exists|i: int|
            #[trigger] first_field(fields, i, key) && fields[i].1@ == v,
    decreases fields.len(),
{
    if fields.len() > 0 {
        let p = fields.drop_last();
        law_field_value(p, key);
        let last = fields.len() - 1;
        if field_value(p, key) is Some {
            let i = choose|i: int| #[trigger] first_field(p, i, key) && p[i].1@ == field_value(p, key)->0;
            assert(fields[i] == p[i]);
            assert forall|j: int| 0 <= j < i implies (#[trigger] fields[j]).0@ != key by {
                assert(fields[j] == p[j]);
                assert(first_field(p, i, key));
            }
            assert(first_field(fields, i, key));
            assert(some_field_named(fields, key));
        } else {
            assert forall|j: int| 0 <= j < last implies (#[trigger] fields[j]).0@ != key by {
                assert(fields[j] == p[j]);
                if fields[j].0@ == key {
                    assert(some_field_named(p, key));
                }
            }
            if fields.last().0@ == key {
                assert(first_field(fields, last, key));
                assert(some_field_named(fields, key));
            } else {
                if some_field_named(fields, key) {
                    let i = choose|i: int| 0 <= i < fields.len() && (#[trigger] fields[i]).0@ == key;
                    assert(false);
                }
            }
        }
    } else {
        if some_field_named(fields, key) {
            let i = choose|i: int| 0 <= i < fields.len() && (#[trigger] fields[i]).0@ == key;
            assert(false);
        }
    }
}

/// The line that a field of the new-invoice form adds: a field named `qty_`
/// and an item id, whose value is a positive decimal that is not blank.
pub open spec fn quantity_field(k: Seq<char>, v: Seq<char>) -> Option<(i64, (int, int))> {
    if k.len() >= 4 && k.take(4) == "qty_"@ && !blank(v) {
        match parsed_i64(k.skip(4)) {
            None => None,
            Some(id) => match decimal_from_text(v) {
                None => None,
                Some(d) => if d.0 > 0 {
                    Some((id, d))
                } else {
                    None
                },
            },
        }
    } else {
        None
    }
}

/// The lines that the fields add, in the order of the fields.
pub open spec fn form_lines(fields: Seq<(String, String)>) -> Seq<(i64, (int, int))>
    decreases fields.len(),
{
    if fields.len() == 0 {
        Seq::empty()
    } else {
        let prev = form_lines(fields.drop_last());
        match quantity_field(fields.last().0@, fields.last().1@) {
            Some(x) => prev.push(x),
            None => prev,
        }
    }
}

/// A field named `qty_` and the item id `id`, whose value is not blank and
/// reads as the positive decimal `d`.
pub open spec fn names_quantity(field: (String, String), id: i64, d: (int, int)) -> bool {
    &&& field.0@.len() >= 4
    &&& field.0@.take(4) == "qty_"@
    &&& parsed_i64(field.0@.skip(4)) == Some(id)
    &&& !blank(field.1@)
    &&& decimal_from_text(field.1@) == Some(d)
    &&& d.0 > 0
}

/// The lines that the new-invoice form adds come from its quantity fields:
/// every line is the item id and quantity of some field named `qty_` and
/// that id whose value is a positive quantity, and every such field adds
/// its line.
pub proof fn law_form_lines(fields: Seq<(String, String)>)
    ensures
        forall|j: int|
            #![trigger form_lines(fields)[j]]
            0 <= j < form_lines(fields).len() ==> exists|i: int|
                0 <= i < fields.len() && names_quantity(#[trigger] fields[i], form_lines(fields)[j].0,
                    form_lines(fields)[j].1),
        forall|i: int, id: i64, d: (int, int)|
            0 <= i < fields.len() && #[trigger] names_quantity(fields[i], id, d) ==> form_lines(fields).contains(
                (id, d),
            ),
    decreases fields.len(),
{
    if fields.len() > 0 {
        let p = fields.drop_last();
        law_form_lines(p);
        let lp = form_lines(p);
        let l = form_lines(fields);
        let f = fields.last();
        assert forall|j: int| #![trigger l[j]] 0 <= j < l.len() implies exists|i: int|
            0 <= i < fields.len() && names_quantity(#[trigger] fields[i], l[j].0, l[j].1) by {
            if j < lp.len() {
                assert(l[j] == lp[j]);
                let i = choose|i: int| 0 <= i < p.len() && names_quantity(#[trigger] p[i], lp[j].0, lp[j].1);
                assert(fields[i] == p[i]);
            } else {
                assert(fields[fields.len() - 1] == f);
                assert(names_quantity(fields[fields.len() - 1], l[j].0, l[j].1));
            }
        }
        assert forall|i: int, id: i64, d: (int, int)|
            0 <= i < fields.len() && #[trigger] names_quantity(fields[i], id, d) implies l.contains((id, d)) by {
            if i < p.len() {
                assert(fields[i] == p[i]);
                assert(names_quantity(p[i], id, d));
                let j = choose|j: int| 0 <= j < lp.len() && lp[j] == (id, d);
                assert(l[j] == lp[j]);
            } else {
                assert(quantity_field(f.0@, f.1@) == Some((id, d)));
                assert(l[l.len() - 1] == (id, d));
            }
        }
    }
}

fn find_field<'a>(fields: &'a Vec<(String, String)>, key: &str) -> (r: Option<&'a String>)
    ensures
        match r {
            Some(v) => field_value(fields@, key@) == Some(v@),
            None => field_value(fields@, key@) is None,
        },
{
    let mut i: usize = 0;
    proof {
        assert(fields@.take(0) =~= Seq::<(String, String)>::empty());
    }
    while i < fields.len()
        invariant
            i <= fields@.len(),
            field_value(fields@.take(i as int), key@) is None,
        decreases fields@.len() - i,
    {
        proof {
            assert(fields@.take(i + 1).drop_last() =~= fields@.take(i as int));
        }
        if str_equal(fields[i].0.as_str(), key) {
            proof {
                lemma_field_value_found(fields@, i as int, key@);
            }
            return Some(&fields[i].1);
        }
        i = i + 1;
    }
    proof {
        assert(fields@.take(i as int) =~= fields@);
    }
    None
}

proof fn lemma_field_value_found(fields: Seq<(String, String)>, k: int, key: Seq<char>)
    requires
        0 <= k < fields.len(),
        field_value(fields.take(k), key) is None,
        fields[k].0@ == key,
    ensures
        field_value(fields, key) == Some(fields[k].1@),
    decreases fields.len() - k,
{
    assert(fields.take(k + 1).drop_last() =~= fields.take(k));
    lemma_field_value_prefix(fields, k + 1, key);
}

proof fn lemma_field_value_prefix(fields: Seq<(String, String)>, k: int, key: Seq<char>)
    requires
        0 <= k <= fields.len(),
        field_value(fields.take(k), key) is Some,
    ensures
        field_value(fields, key) == field_value(fields.take(k), key),
    decreases fields.len() - k,
{
    if k == fields.len() {
        assert(fields.take(k) =~= fields);
    } else {
        assert(fields.take(k + 1).drop_last() =~= fields.take(k));
        lemma_field_value_prefix(fields, k + 1, key);
    }
}

fn read_quantity_field(k: &String, v: &String) -> (r: Option<(ItemId, Quantity)>)
    ensures
        match r {
            Some(p) => quantity_field(k@, v@) == Some((p.0.0, p.1@)),
            None => quantity_field(k@, v@) is None,
        },
{
    proof {
        reveal_strlit("qty_");
    }
    let chars = chars_of(k.as_str());
    if chars.len() < 4 || chars[0] != 'q' || chars[1] != 't' || chars[2] != 'y' || chars[3] != '_' {
        proof {
            if k@.len() >= 4 && k@.take(4) == "qty_"@ {
                assert(k@.take(4)[0] == k@[0]);
                assert(k@.take(4)[1] == k@[1]);
                assert(k@.take(4)[2] == k@[2]);
                assert(k@.take(4)[3] == k@[3]);
            }
        }
        return None;
    }
    proof {
        assert(k@.take(4) =~= "qty_"@);
    }
    if is_blank(v.as_str()) {
        return None;
    }
    let id = match parse_i64_at(&chars, 4) {
        Some(id) => id,
        None => return None,
    };
    let d = match parse_decimal(v.as_str()) {
        Some(d) => d,
        None => return None,
    };
    match Quantity::new(d) {
        Ok(q) => Some((ItemId(id), q)),
        Err(_) => None,
    }
}

/// The first required field of the new-invoice form that is missing or does
/// not read, if any.
pub open spec fn create_form_error(fields: Seq<(String, String)>) -> Option<InvoiceFormError> {
    match field_value(fields, "template_id"@) {
        None => Some(InvoiceFormError::MissingTemplateId),
        Some(t) => match parsed_i64(t) {
            None => Some(InvoiceFormError::InvalidTemplateId),
            Some(_) => match field_value(fields, "date"@) {
                None => Some(InvoiceFormError::MissingDate),
                Some(d) => match naive_date_parse(d, iso_format()) {
                    None => Some(InvoiceFormError::InvalidDate),
                    Some(_) => None,
                },
            },
        },
    }
}

/// The invoice that the fields of the new-invoice form describe.
pub open spec fn create_form_read(fields: Seq<(String, String)>, c: CreateInvoice) -> bool {
    &&& field_value(fields, "template_id"@) == Some(field_value(fields, "template_id"@)->0)
    &&& parsed_i64(field_value(fields, "template_id"@)->0) == Some(c.template.0)
    &&& naive_date_parse(field_value(fields, "date"@)->0, iso_format()) == Some(c.date@)
    &&& c.attributes.show_methods == has_field(fields, "show_methods"@)
    &&& c.attributes.show_notes == has_field(fields, "show_notes"@)
    &&& c.attributes.stage == (if field_value(fields, "stage"@) == Some("Quote"@) {
        InvoiceStage::Quote
    } else {
        InvoiceStage::Invoice
    })
    &&& c.attributes.status == PaidStatus::Waiting
    &&& opt_text(c.notes) == match field_value(fields, "notes"@) {
        Some(n) => if blank(n) {
            None
        } else {
            Some(n)
        },
        None => None,
    }
    &&& crate::invoice_store::pairs_v(c.items@) == form_lines(fields)
}

proof fn lemma_first_field_unique(fields: Seq<(String, String)>, i: int, j: int, key: Seq<char>)
    requires
        first_field(fields, i, key),
        first_field(fields, j, key),
    ensures
        i == j,
{
    if i < j {
        assert(fields[i].0@ != key);
    } else if j < i {
        assert(fields[j].0@ != key);
    }
}

/// What a new-invoice form that reads gives, in terms of its fields: each box is
/// ticked exactly when the form has a field with its name; the invoice is a
/// quote exactly when the first `stage` field says `Quote`; it has notes
/// exactly when the first `notes` field is not blank, and they are that
/// field's text; its template is the number in the first `template_id`
/// field and its date the one in the first `date` field; a new invoice waits
/// for payment.
pub proof fn law_create_form_fields(fields: Seq<(String, String)>, c: CreateInvoice)
    requires
        create_form_error(fields) is None,
        create_form_read(fields, c),
    ensures
        c.attributes.show_methods <==> some_field_named(fields, "show_methods"@),
        c.attributes.show_notes <==> some_field_named(fields, "show_notes"@),
        (c.attributes.stage == InvoiceStage::Quote) <==> exists|i: int|
            #[trigger] first_field(fields, i, "stage"@) && fields[i].1@ == "Quote"@,
        c.attributes.status == PaidStatus::Waiting,
        c.notes matches Some(n) ==> exists|i: int|
            #[trigger] first_field(fields, i, "notes"@) && fields[i].1@ == n@ && !blank(n@),
        c.notes is None ==> forall|i: int| #[trigger] first_field(fields, i, "notes"@) ==> blank(fields[i].1@),
        exists|i: int| #[trigger] first_field(fields, i, "template_id"@) && parsed_i64(fields[i].1@) == Some(c.template.0),
        exists|i: int|
            #[trigger] first_field(fields, i, "date"@) && naive_date_parse(fields[i].1@, iso_format()) == Some(c.date@),
{
    law_field_value(fields, "show_methods"@);
    law_field_value(fields, "show_notes"@);
    law_field_value(fields, "stage"@);
    law_field_value(fields, "notes"@);
    law_field_value(fields, "template_id"@);
    law_field_value(fields, "date"@);
    assert((c.attributes.stage == InvoiceStage::Quote) <==> exists|i: int|
        #[trigger] first_field(fields, i, "stage"@) && fields[i].1@ == "Quote"@) by {
        if c.attributes.stage == InvoiceStage::Quote {
            assert(field_value(fields, "stage"@) == Some("Quote"@));
        }
        if exists|i: int| #[trigger] first_field(fields, i, "stage"@) && fields[i].1@ == "Quote"@ {
            let i = choose|i: int| #[trigger] first_field(fields, i, "stage"@) && fields[i].1@ == "Quote"@;
            assert(some_field_named(fields, "stage"@)) by {
                assert(fields[i].0@ == "stage"@);
            }
            let v = field_value(fields, "stage"@)->0;
            let j = choose|j: int| #[trigger] first_field(fields, j, "stage"@) && fields[j].1@ == v;
            lemma_first_field_unique(fields, i, j, "stage"@);
        }
    }
    if c.notes is None {
        assert forall|i: int| #[trigger] first_field(fields, i, "notes"@) implies blank(fields[i].1@) by {
            assert(some_field_named(fields, "notes"@)) by {
                assert(fields[i].0@ == "notes"@);
            }
            let v = field_value(fields, "notes"@)->0;
            let j = choose|j: int| #[trigger] first_field(fields, j, "notes"@) && fields[j].1@ == v;
            lemma_first_field_unique(fields, i, j, "notes"@);
        }
    }
}

/// Reads the new-invoice form: its template id and date (`%Y-%m-%d`) are
/// required; the boxes `show_methods` and `show_notes` are ticked where
/// present; the stage is a quote where `stage` says `Quote`; blank notes are
/// none; each `qty_` field with a positive quantity adds a line, in the
/// order of the fields. A new invoice is waiting for payment.
pub fn parse_create_invoice_form(fields: &Vec<(String, String)>) -> (r: Result<CreateInvoice, InvoiceFormError>)
    ensures
        match create_form_error(fields@) {
            Some(e) => r == Err::<CreateInvoice, InvoiceFormError>(e),
            None => r matches Ok(c) && create_form_read(fields@, c),
        },
        r matches Ok(c) ==> (c.attributes.show_methods <==> some_field_named(fields@, "show_methods"@)),
        r matches Ok(c) ==> (c.attributes.show_notes <==> some_field_named(fields@, "show_notes"@)),
        r matches Ok(c) ==> ((c.attributes.stage == InvoiceStage::Quote) <==> exists|i: int|
            #[trigger] first_field(fields@, i, "stage"@) && fields@[i].1@ == "Quote"@),
        r matches Ok(c) ==> c.attributes.status == PaidStatus::Waiting,
        r matches Ok(c) ==> (c.notes matches Some(n) ==> exists|i: int|
            #[trigger] first_field(fields@, i, "notes"@) && fields@[i].1@ == n@ && !blank(n@)),
        r matches Ok(c) ==> (c.notes is None ==> forall|i: int|
            #[trigger] first_field(fields@, i, "notes"@) ==> blank(fields@[i].1@)),
{
    proof {
        crate::date::lemma_iso_format_literal();
    }
    let template_id = match find_field(fields, "template_id") {
        None => return Err(InvoiceFormError::MissingTemplateId),
        Some(t) => match parse_i64(t.as_str()) {
            None => return Err(InvoiceFormError::InvalidTemplateId),
            Some(v) => v,
        },
    };
    let date = match find_field(fields, "date") {
        None => return Err(InvoiceFormError::MissingDate),
        Some(d) => match parse_date(d.as_str(), "%Y-%m-%d") {
            None => return Err(InvoiceFormError::InvalidDate),
            Some(v) => v,
        },
    };
    let show_methods = find_field(fields, "show_methods").is_some();
    let show_notes = find_field(fields, "show_notes").is_some();
    let stage = match find_field(fields, "stage") {
        Some(s) => if str_equal(s.as_str(), "Quote") {
            InvoiceStage::Quote
        } else {
            InvoiceStage::Invoice
        },
        None => InvoiceStage::Invoice,
    };
    let notes = match find_field(fields, "notes") {
        Some(n) => if is_blank(n.as_str()) {
            None
        } else {
            Some(n.clone())
        },
        None => None,
    };
    let mut items: Vec<(ItemId, Quantity)> = Vec::new();
    proof {
        assert(fields@.take(0) =~= Seq::<(String, String)>::empty());
        assert(crate::invoice_store::pairs_v(items@) =~= Seq::<(i64, (int, int))>::empty());
    }
    for k in 0..fields.len()
        invariant
            crate::invoice_store::pairs_v(items@) == form_lines(fields@.take(k as int)),
    {
        proof {
            assert(fields@.take(k + 1).drop_last() =~= fields@.take(k as int));
            assert(fields@.take(k + 1).last() == fields@[k as int]);
        }
        match read_quantity_field(&fields[k].0, &fields[k].1) {
            Some(p) => {
                let ghost prev = items@;
                items.push(p);
                proof {
                    assert(crate::invoice_store::pairs_v(items@) =~= crate::invoice_store::pairs_v(prev).push(
                        (p.0.0, p.1@),
                    ));
                }
            },
            None => {},
        }
    }
    proof {
        assert(fields@.take(fields@.len() as int) =~= fields@);
    }
    let c = CreateInvoice {
        template: TemplateId(template_id),
        date,
        attributes: InvoiceAttrs { show_methods, show_notes, stage, status: PaidStatus::Waiting },
        notes,
        items,
    };
    proof {
        law_create_form_fields(fields@, c);
    }
    Ok(c)
}

/// The invoice editor form.
#[derive(Clone, Debug, PartialEq, Eq)]
pub struct UpdateInvoiceForm {
    pub show_methods: Option<String>,
    pub show_notes: Option<String>,
    pub stage: String,
    pub status: String,
    pub status_date: Option<String>,
    pub status_check: Option<String>,
    pub notes: Option<String>,
}

fn opt_as_str(o: &Option<String>) -> (r: Option<&str>)
    ensures
        opt_str(r) == opt_text(*o),
{
    match o {
        Some(s) => Some(s.as_str()),
        None => None,
    }
}

impl UpdateInvoiceForm {
    /// The change that the editor form makes: both boxes, stage and status
    /// are set from the form (`today` stands in for a status date that is
    /// missing or unreadable); notes only where they are not blank; the
    /// lines stay.
    pub fn into_update(self, today: Date) -> (r: UpdateInvoice)
        ensures
            r.show_methods == Some(self.show_methods is Some),
            r.show_notes == Some(self.show_notes is Some),
            r.stage == Some(form_stage(self.stage@)),
            r.status matches Some(s) && s@ == form_status(
                self.status@,
                opt_text(self.status_date),
                opt_text(self.status_check),
                today@,
            ),
            r.notes == match self.notes {
                Some(n) => non_blank(n),
                None => None,
            },
            r.items is None,
    {
        let stage = parse_stage_form(self.stage.as_str());
        let status = parse_status_form(
            self.status.as_str(),
            opt_as_str(&self.status_date),
            opt_as_str(&self.status_check),
            today,
        );
        let notes = match self.notes {
            Some(n) => some_if_not_empty(n),
            None => None,
        };
        UpdateInvoice {
            show_methods: Some(self.show_methods.is_some()),
            show_notes: Some(self.show_notes.is_some()),
            stage: Some(stage),
            status: Some(status),
            notes,
            items: None,
        }
    }
}

// ---------------------------------------------------------------------------
// Adding and removing lines
// ---------------------------------------------------------------------------

/// The quantity that the add-line form asks for: its decimal where that is
/// positive, else one; `1` where the field is missing.
pub open spec fn add_quantity(text: Option<Seq<char>>) -> (int, int) {
    let t = match text {
        Some(t) => t,
        None => "1"@,
    };
    match decimal_from_text(t) {
        Some(d) => if d.0 > 0 {
            d
        } else {
            (1, 0)
        },
        None => (1, 0),
    }
}

/// Reads the quantity field of the add-line form.
pub fn parse_add_quantity(text: Option<&str>) -> (r: Quantity)
    ensures
        r@ == add_quantity(opt_str(text)),
{
    let t = match text {
        Some(t) => t,
        None => "1",
    };
    match parse_decimal(t) {
        Some(d) => match Quantity::new(d) {
            Ok(q) => q,
            Err(_) => Quantity::one(),
        },
        None => Quantity::one(),
    }
}

fn line_ids(lines: &Vec<(Item, Quantity)>) -> (r: Vec<(ItemId, Quantity)>)
    ensures
        id_lines_v(r@) == item_id_lines(lines@),
{
    let mut r: Vec<(ItemId, Quantity)> = Vec::new();
    for k in 0..lines.len()
        invariant
            r@.len() == k,
            forall|j: int| 0 <= j < k ==> (#[trigger] r@[j]).0 == lines@[j].0.id && r@[j].1 == lines@[j].1,
    {
        r.push((lines[k].0.id, lines[k].1));
    }
    assert(id_lines_v(r@) =~= item_id_lines(lines@));
    r
}

/// The lines of an invoice by item id.
pub open spec fn item_id_lines(lines: Seq<(Item, Quantity)>) -> Seq<(i64, (int, int))> {
    lines.map_values(|e: (Item, Quantity)| (e.0.id.0, e.1@))
}

/// The lines of an invoice after adding an item: the invoice's lines by item
/// id with the item's quantity set, replacing the line of the item where
/// there is one.
pub fn add_item_lines(current: &Vec<(Item, Quantity)>, item_id: ItemId, quantity: Option<&str>) -> (r: Vec<(ItemId, Quantity)>)
    ensures
        id_lines_v(r@) == upserted(item_id_lines(current@), item_id.0, add_quantity(opt_str(quantity))),
{
    let qty = parse_add_quantity(quantity);
    let mut lines = line_ids(current);
    upsert_line(&mut lines, item_id, qty);
    lines
}

/// The lines of an invoice after removing an item: every other line, in
/// order.
pub fn remove_item_lines(current: &Vec<(Item, Quantity)>, item_id: ItemId) -> (r: Vec<(ItemId, Quantity)>)
    ensures
        id_lines_v(r@) == without_key(item_id_lines(current@), item_id.0),
{
    let lines = line_ids(current);
    remove_lines(lines, item_id)
}

// ---------------------------------------------------------------------------
// Views
// ---------------------------------------------------------------------------

/// `{:.2}` of an amount.
pub fn format_amount(c: Currency) -> (r: String)
    ensures
        r@ == decimal_display(c@.0, c@.1, Some(2)),
{
    decimal_to_string_2dp(c.inner())
}

/// An entry of the invoice list as the page shows it.
#[derive(Clone, Debug, PartialEq, Eq)]
pub struct InvoiceSummaryView {
    pub id: i64,
    pub client_name: String,
    pub issued: String,
    pub due: String,
    pub status: String,
    pub total: String,
}

/// The status as the list shows it: its form name, followed by its date in
/// brackets where it has one.
pub open spec fn status_label(s: StatusV) -> Seq<char> {
    match status_date_text(s, iso_format()) {
        Some(d) => form_status_name(s) + " ("@ + d + ")"@,
        None => form_status_name(s),
    }
}

pub fn summary_view(s: InvoiceSummary) -> (r: InvoiceSummaryView)
    ensures
        r.id == s.id.0,
        r.client_name == s.client_name,
        r.issued@ == naive_date_format(s.issued@.0, s.issued@.1, s.issued@.2, iso_format()),
        r.due@ == naive_date_format(s.due@.0, s.due@.1, s.due@.2, iso_format()),
        r.status@ == status_label(s.status@),
        r.total@ == decimal_display(s.total@.0, s.total@.1, Some(2)),
{
    proof {
        crate::date::lemma_iso_format_literal();
    }
    let (name, date, _) = flatten_status(&s.status);
    let status = match date {
        Some(d) => {
            let mut t = String::from_str(name);
            t.append(" (");
            t.append(d.as_str());
            t.append(")");
            t
        },
        None => String::from_str(name),
    };
    InvoiceSummaryView {
        id: s.id.0,
        client_name: s.client_name,
        issued: format_date(s.issued, "%Y-%m-%d"),
        due: format_date(s.due, "%Y-%m-%d"),
        status,
        total: format_amount(s.total),
    }
}

/// A line of the invoice editor.
#[derive(Clone, Debug, PartialEq, Eq)]
pub struct InvoiceItemView {
    pub id: i64,
    pub name: String,
    pub rate: String,
    pub quantity: String,
    pub subtotal: String,
}

/// The invoice editor.
#[derive(Clone, Debug, PartialEq, Eq)]
pub struct InvoiceEditView {
    pub id: i64,
    pub template_id: i64,
    pub date: String,
    pub client_name: String,
    pub company_name: String,
    pub show_methods: bool,
    pub show_notes: bool,
    pub stage: String,
    pub status: String,
    pub status_date: Option<String>,
    pub status_check: Option<String>,
    pub notes: Option<String>,
    pub items: Vec<InvoiceItemView>,
    pub total: String,
}

/// The subtotal of a line: rate times quantity, as `rust_decimal` computes
/// it.
pub open spec fn line_subtotal(l: (Item, Quantity)) -> Option<(int, int)> {
    decimal_checked_mul(l.0.rate@.0, l.0.rate@.1, l.1@.0, l.1@.1)
}

/// The subtotals of all lines can be computed.
pub open spec fn subtotals_defined(lines: Seq<(Item, Quantity)>) -> bool {
    forall|j: int| 0 <= j < lines.len() ==> (#[trigger] line_subtotal(lines[j])) is Some
}

/// The editor line that shows a line of an invoice: the item's id, name and
/// rate with two places, the quantity as decimal text and the subtotal with
/// two places.
pub open spec fn shows_line(v: InvoiceItemView, line: (Item, Quantity)) -> bool {
    line_subtotal(line) matches Some(p) && {
        &&& v.id == line.0.id.0
        &&& v.name == line.0.name
        &&& v.rate@ == decimal_display(line.0.rate@.0, line.0.rate@.1, Some(2))
        &&& v.quantity@ == decimal_display(line.1@.0, line.1@.1, None)
        &&& v.subtotal@ == decimal_display(p.0, p.1, Some(2))
    }
}

fn item_view(line: &(Item, Quantity)) -> (r: Option<InvoiceItemView>)
    ensures
        match r {
            Some(v) => shows_line(v, *line),
            None => line_subtotal(*line) is None,
        },
{
    let (item, qty) = line;
    let sub = match decimal_mul(item.rate.inner(), qty.inner()) {
        Some(p) => p,
        None => return None,
    };
    Some(InvoiceItemView {
        id: item.id.0,
        name: item.name.clone(),
        rate: format_amount(item.rate),
        quantity: decimal_to_string(qty.inner()),
        subtotal: decimal_to_string_2dp(sub),
    })
}

/// The invoice editor for an invoice, and the ids of its items in order.
/// Where a subtotal or the total cannot be computed the editor is refused.
pub fn edit_view(invoice: &Invoice) -> (r: Result<(InvoiceEditView, Vec<i64>), StorageError>)
    ensures
        r is Err <==> !subtotals_defined(invoice.items@) || total_cents(invoice.items@) is None,
        r is Err ==> r == Err::<(InvoiceEditView, Vec<i64>), StorageError>(StorageError::TotalOutOfRange),
        r matches Ok((v, ids)) ==> {
            &&& v.id == invoice.id.0
            &&& v.template_id == invoice.template.id.0
            &&& v.date@ == naive_date_format(invoice.date@.0, invoice.date@.1, invoice.date@.2, iso_format())
            &&& v.client_name == invoice.template.client.name
            &&& v.company_name == invoice.template.company.name
            &&& v.show_methods == invoice.attributes.show_methods
            &&& v.show_notes == invoice.attributes.show_notes
            &&& v.stage@ == (if invoice.attributes.stage == InvoiceStage::Quote {
                "Quote"@
            } else {
                "Invoice"@
            })
            &&& v.status@ == form_status_name(invoice.attributes.status@)
            &&& opt_text(v.status_date) == status_date_text(invoice.attributes.status@, iso_format())
            &&& opt_text(v.status_check) == status_check(invoice.attributes.status@)
            &&& v.notes == invoice.notes
            &&& v.items@.len() == invoice.items@.len()
            &&& forall|j: int| 0 <= j < v.items@.len() ==> shows_line(#[trigger] v.items@[j], invoice.items@[j])
            &&& Some(total_cents(invoice.items@)->0) == total_cents(invoice.items@)
            &&& v.total@ == decimal_display(total_cents(invoice.items@)->0 as int, 2, Some(2))
            &&& ids@ == invoice.items@.map_values(|e: (Item, Quantity)| e.0.id.0)
        },
{
    proof {
        crate::date::lemma_iso_format_literal();
    }
    let mut items: Vec<InvoiceItemView> = Vec::new();
    let mut ids: Vec<i64> = Vec::new();
    for k in 0..invoice.items.len()
        invariant
            items@.len() == k,
            ids@.len() == k,
            forall|j: int| 0 <= j < k ==> shows_line(#[trigger] items@[j], invoice.items@[j]),
            forall|j: int| 0 <= j < k ==> #[trigger] ids@[j] == invoice.items@[j].0.id.0,
            forall|j: int| 0 <= j < k ==> (#[trigger] line_subtotal(invoice.items@[j])) is Some,
    {
        match item_view(&invoice.items[k]) {
            Some(v) => {
                items.push(v);
                ids.push(invoice.items[k].0.id.0);
            },
            None => {
                return Err(StorageError::TotalOutOfRange);
            },
        }
    }
    let total = match compute_total(&invoice.items) {
        Some(t) => t,
        None => return Err(StorageError::TotalOutOfRange),
    };
    proof {
        assert(ids@ =~= invoice.items@.map_values(|e: (Item, Quantity)| e.0.id.0));
    }
    let (status, status_date, status_check) = flatten_status(&invoice.attributes.status);
    let stage = match invoice.attributes.stage {
        InvoiceStage::Quote => String::from_str("Quote"),
        InvoiceStage::Invoice => String::from_str("Invoice"),
    };
    let notes = match &invoice.notes {
        Some(n) => Some(n.clone()),
        None => None,
    };
    let view = InvoiceEditView {
        id: invoice.id.0,
        template_id: invoice.template.id.0,
        date: format_date(invoice.date, "%Y-%m-%d"),
        client_name: invoice.template.client.name.clone(),
        company_name: invoice.template.company.name.clone(),
        show_methods: invoice.attributes.show_methods,
        show_notes: invoice.attributes.show_notes,
        stage,
        status: String::from_str(status),
        status_date,
        status_check,
        notes,
        items,
        total: format_amount(Currency::from_cents(total)),
    };
    Ok((view, ids))
}

} // verus!
