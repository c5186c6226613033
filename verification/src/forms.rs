//! The request forms of the web front end: what each field becomes, the
//! optional text fields, the image fields and their data URIs.

use vstd::prelude::*;
use base64::Engine;
use crate::decimal::{parse_decimal, decimal_from_text, cents_of};
use crate::models::{ClientId, Company, CompanyId, Contact, Currency, Method, MethodId, TermsId};
use crate::numbers::{parse_u16, parsed_u16};
use crate::patches::{CreateCompany, CreateMethod, CreateTemplate, CreateTerms, UpdateCompany, UpdateMethod,
    UpdateTemplate, UpdateTerms};
use crate::rows::UpsertConfig;
use crate::text::{blank, is_blank, str_equal, char_is_alphanumeric, unicode_alphanumeric, push_char};

verus! {

broadcast use vstd::string::group_string_axioms;

/// `Some(s)` unless `s` is blank.
pub open spec fn non_blank(s: String) -> Option<String> {
    if blank(s@) {
        None
    } else {
        Some(s)
    }
}

/// A text field that may be left empty: blank text is no value.
pub fn some_if_not_empty(s: String) -> (r: Option<String>)
    ensures
        r == non_blank(s),
{
    if is_blank(s.as_str()) {
        None
    } else {
        Some(s)
    }
}

// ---------------------------------------------------------------------------
// Image types and data URIs
// ---------------------------------------------------------------------------

pub open spec fn png_signature() -> Seq<u8> {
    seq![0x89u8, 0x50u8, 0x4Eu8, 0x47u8, 0x0Du8, 0x0Au8, 0x1Au8, 0x0Au8]
}

pub open spec fn jpeg_signature() -> Seq<u8> {
    seq![0xFFu8, 0xD8u8, 0xFFu8]
}

/// `WEBP`, the tag at bytes 8 to 11 of a WebP file.
pub open spec fn webp_tag() -> Seq<u8> {
    seq![0x57u8, 0x45u8, 0x42u8, 0x50u8]
}

/// The MIME type of an image by its leading bytes; PNG where none is
/// recognised.
pub open spec fn mime_of(b: Seq<u8>) -> Seq<char> {
    if b.len() >= 8 && b.take(8) == png_signature() {
        "image/png"@
    } else if b.len() >= 3 && b.take(3) == jpeg_signature() {
        "image/jpeg"@
    } else if b.len() >= 12 && b.subrange(8, 12) == webp_tag() {
        "image/webp"@
    } else {
        "image/png"@
    }
}

pub fn detect_mime(bytes: &[u8]) -> (r: &'static str)
    ensures
        r@ == mime_of(bytes@),
{
    let n = bytes.len();
    if n >= 8 && bytes[0] == 0x89u8 && bytes[1] == 0x50u8 && bytes[2] == 0x4Eu8 && bytes[3] == 0x47u8 && bytes[4]
        == 0x0Du8 && bytes[5] == 0x0Au8 && bytes[6] == 0x1Au8 && bytes[7] == 0x0Au8 {
        proof {
            assert(bytes@.take(8) =~= png_signature());
        }
        "image/png"
    } else if n >= 3 && bytes[0] == 0xFFu8 && bytes[1] == 0xD8u8 && bytes[2] == 0xFFu8 {
        proof {
            assert(bytes@.take(3) =~= jpeg_signature());
            assert(!(bytes@.len() >= 8 && bytes@.take(8) == png_signature())) by {
                if bytes@.len() >= 8 && bytes@.take(8) == png_signature() {
                    assert(bytes@.take(8)[0] == bytes@[0]);
                }
            }
        }
        "image/jpeg"
    } else if n >= 12 && bytes[8] == 0x57u8 && bytes[9] == 0x45u8 && bytes[10] == 0x42u8 && bytes[11] == 0x50u8 {
        proof {
            assert(bytes@.subrange(8, 12) =~= webp_tag());
            lemma_not_png_jpeg(bytes@);
        }
        "image/webp"
    } else {
        proof {
            lemma_not_png_jpeg(bytes@);
            if bytes@.len() >= 12 && bytes@.subrange(8, 12) == webp_tag() {
                assert(bytes@.subrange(8, 12)[0] == bytes@[8]);
                assert(bytes@.subrange(8, 12)[1] == bytes@[9]);
                assert(bytes@.subrange(8, 12)[2] == bytes@[10]);
                assert(bytes@.subrange(8, 12)[3] == bytes@[11]);
            }
        }
        "image/png"
    }
}

proof fn lemma_not_png_jpeg(b: Seq<u8>)
    requires
        !(b.len() >= 8 && b[0] == 0x89u8 && b[1] == 0x50u8 && b[2] == 0x4Eu8 && b[3] == 0x47u8 && b[4] == 0x0Du8
            && b[5] == 0x0Au8 && b[6] == 0x1Au8 && b[7] == 0x0Au8),
        !(b.len() >= 3 && b[0] == 0xFFu8 && b[1] == 0xD8u8 && b[2] == 0xFFu8),
    ensures
        !(b.len() >= 8 && b.take(8) == png_signature()),
        !(b.len() >= 3 && b.take(3) == jpeg_signature()),
{
    if b.len() >= 8 && b.take(8) == png_signature() {
        assert(b.take(8)[0] == b[0]);
        assert(b.take(8)[1] == b[1]);
        assert(b.take(8)[2] == b[2]);
        assert(b.take(8)[3] == b[3]);
        assert(b.take(8)[4] == b[4]);
        assert(b.take(8)[5] == b[5]);
        assert(b.take(8)[6] == b[6]);
        assert(b.take(8)[7] == b[7]);
    }
    if b.len() >= 3 && b.take(3) == jpeg_signature() {
        assert(b.take(3)[0] == b[0]);
        assert(b.take(3)[1] == b[1]);
        assert(b.take(3)[2] == b[2]);
    }
}

/// The character of a six-bit value in the standard base64 alphabet:
/// `A`-`Z`, `a`-`z`, `0`-`9`, `+`, `/`.
pub open spec fn base64_char(n: int) -> char {
    if n < 26 {
        ('A' as int + n) as char
    } else if n < 52 {
        ('a' as int + (n - 26)) as char
    } else if n < 62 {
        ('0' as int + (n - 52)) as char
    } else if n == 62 {
        '+'
    } else {
        '/'
    }
}

/// Standard base64 with padding: every three bytes become four characters
/// of six bits each; a last one or two bytes become two or three characters
/// followed by `=` up to four.
pub open spec fn base64_standard(b: Seq<u8>) -> Seq<char>
    decreases b.len(),
{
    if b.len() == 0 {
        Seq::empty()
    } else if b.len() == 1 {
        let n = b[0] as int;
        seq![base64_char(n / 4), base64_char((n % 4) * 16), '=', '=']
    } else if b.len() == 2 {
        let n = b[0] as int * 256 + b[1] as int;
        seq![base64_char(n / 1024), base64_char((n / 16) % 64), base64_char((n % 16) * 4), '=']
    } else {
        let n = b[0] as int * 65536 + b[1] as int * 256 + b[2] as int;
        seq![base64_char(n / 262144), base64_char((n / 4096) % 64), base64_char((n / 64) % 64), base64_char(n % 64)]
            + base64_standard(b.subrange(3, b.len() as int))
    }
}

/// `base64::engine::general_purpose::STANDARD.encode`: standard base64 with
/// padding.
#[verifier::external_body]
fn base64_encode(bytes: &[u8]) -> (r: String)
    ensures
        r@ == base64_standard(bytes@),
{
    base64::engine::general_purpose::STANDARD.encode(bytes)
}

/// The data URI of an image: `data:`, its MIME type, `;base64,` and its
/// bytes in standard base64.
pub open spec fn data_uri_of(bytes: Seq<u8>) -> Seq<char> {
    "data:"@ + mime_of(bytes) + ";base64,"@ + base64_standard(bytes)
}

pub fn data_uri(bytes: &[u8]) -> (r: String)
    ensures
        r@ == data_uri_of(bytes@),
{
    let mime = detect_mime(bytes);
    let encoded = base64_encode(bytes);
    let mut r = String::from_str("data:");
    r.append(mime);
    r.append(";base64,");
    r.append(encoded.as_str());
    r
}

pub open spec fn opt_bytes(o: Option<Vec<u8>>) -> Option<Seq<u8>> {
    match o {
        Some(b) => Some(b@),
        None => None,
    }
}

fn opt_data_uri(o: &Option<Vec<u8>>) -> (r: Option<String>)
    ensures
        match o {
            Some(b) => r matches Some(u) && u@ == data_uri_of(b@),
            None => r is None,
        },
{
    match o {
        Some(b) => Some(data_uri(b.as_slice())),
        None => None,
    }
}

/// A company as its form shows it, the logo as a data URI.
#[derive(Clone, Debug, PartialEq, Eq)]
pub struct CompanyView {
    pub id: i64,
    pub name: String,
    pub logo: Option<String>,
    pub contact: Contact,
}

impl CompanyView {
    pub fn from(c: Company) -> (r: CompanyView)
        ensures
            r.id == c.id.0,
            r.name == c.name,
            r.contact == c.contact,
            match c.logo {
                Some(b) => r.logo matches Some(u) && u@ == data_uri_of(b@),
                None => r.logo is None,
            },
    {
        let logo = opt_data_uri(&c.logo);
        CompanyView { id: c.id.0, name: c.name, logo, contact: c.contact }
    }
}

/// A payment method as its form shows it, the QR code as a data URI.
#[derive(Clone, Debug, PartialEq, Eq)]
pub struct MethodView {
    pub id: i64,
    pub name: String,
    pub link: Option<String>,
    pub qr: Option<String>,
}

impl MethodView {
    pub fn from(m: Method) -> (r: MethodView)
        ensures
            r.id == m.id.0,
            r.name == m.name,
            r.link == m.link,
            match m.qr {
                Some(b) => r.qr matches Some(u) && u@ == data_uri_of(b@),
                None => r.qr is None,
            },
    {
        let qr = opt_data_uri(&m.qr);
        MethodView { id: m.id.0, name: m.name, link: m.link, qr }
    }
}

// ---------------------------------------------------------------------------
// Multipart forms
// ---------------------------------------------------------------------------

/// How a field of a multipart form is read.
#[derive(Clone, Copy, Debug, PartialEq, Eq, Structural)]
pub enum FieldKind {
    Text,
    Bytes,
    Ignored,
}

/// The client form.
#[derive(Clone, Debug, PartialEq, Eq)]
pub struct ClientForm {
    pub name: String,
    pub phone: Option<String>,
    pub email: Option<String>,
    pub addr1: Option<String>,
    pub addr2: Option<String>,
    pub city: Option<String>,
    pub state: Option<String>,
    pub zip: Option<String>,
}

impl ClientForm {
    pub fn into_contact(self) -> (r: (String, Contact))
        ensures
            r.0 == self.name,
            r.1 == (Contact {
                phone: self.phone,
                email: self.email,
                addr1: self.addr1,
                addr2: self.addr2,
                city: self.city,
                state: self.state,
                zip: self.zip,
            }),
    {
        (
            self.name,
            Contact {
                phone: self.phone,
                email: self.email,
                addr1: self.addr1,
                addr2: self.addr2,
                city: self.city,
                state: self.state,
                zip: self.zip,
            },
        )
    }
}

pub open spec fn contact_field(name: Seq<char>) -> bool {
    name == "phone"@ || name == "email"@ || name == "addr1"@ || name == "addr2"@ || name == "city"@ || name
        == "state"@ || name == "zip"@
}

/// The company form, as filled from the fields of a multipart request.
#[derive(Clone, Debug, PartialEq, Eq)]
pub struct CompanyForm {
    pub name: String,
    pub logo: Option<Vec<u8>>,
    pub contact: Contact,
}

impl CompanyForm {
    /// The form before any field is read: no name, no logo, no contact
    /// details.
    pub fn new() -> (r: CompanyForm)
        ensures
            r.name@ == Seq::<char>::empty(),
            r.logo is None,
            r.contact == (Contact {
                phone: None,
                email: None,
                addr1: None,
                addr2: None,
                city: None,
                state: None,
                zip: None,
            }),
    {
        CompanyForm {
            name: String::new(),
            logo: None,
            contact: Contact { phone: None, email: None, addr1: None, addr2: None, city: None, state: None, zip: None },
        }
    }

    /// `logo` is read as bytes, the name and contact fields as text, others
    /// not at all.
    pub fn field_kind(name: &str) -> (r: FieldKind)
        ensures
            r == (if name@ == "logo"@ {
                FieldKind::Bytes
            } else if name@ == "name"@ || contact_field(name@) {
                FieldKind::Text
            } else {
                FieldKind::Ignored
            }),
    {
        if str_equal(name, "logo") {
            FieldKind::Bytes
        } else if str_equal(name, "name") || str_equal(name, "phone") || str_equal(name, "email") || str_equal(
            name,
            "addr1",
        ) || str_equal(name, "addr2") || str_equal(name, "city") || str_equal(name, "state") || str_equal(name, "zip") {
            FieldKind::Text
        } else {
            FieldKind::Ignored
        }
    }

    /// Takes a text field: the name as it is, a contact detail unless it is
    /// blank (a blank one clears the detail); other fields change nothing.
    pub fn accept_text(&mut self, name: &str, text: String)
        ensures
            name@ == "name"@ ==> final(self).name == text && final(self).logo == old(self).logo && final(self).contact
                == old(self).contact,
            name@ == "phone"@ ==> final(self).contact == (Contact { phone: non_blank(text), ..old(self).contact })
                && final(self).name == old(self).name && final(self).logo == old(self).logo,
            name@ == "email"@ ==> final(self).contact == (Contact { email: non_blank(text), ..old(self).contact })
                && final(self).name == old(self).name && final(self).logo == old(self).logo,
            name@ == "addr1"@ ==> final(self).contact == (Contact { addr1: non_blank(text), ..old(self).contact })
                && final(self).name == old(self).name && final(self).logo == old(self).logo,
            name@ == "addr2"@ ==> final(self).contact == (Contact { addr2: non_blank(text), ..old(self).contact })
                && final(self).name == old(self).name && final(self).logo == old(self).logo,
            name@ == "city"@ ==> final(self).contact == (Contact { city: non_blank(text), ..old(self).contact })
                && final(self).name == old(self).name && final(self).logo == old(self).logo,
            name@ == "state"@ ==> final(self).contact == (Contact { state: non_blank(text), ..old(self).contact })
                && final(self).name == old(self).name && final(self).logo == old(self).logo,
            name@ == "zip"@ ==> final(self).contact == (Contact { zip: non_blank(text), ..old(self).contact })
                && final(self).name == old(self).name && final(self).logo == old(self).logo,
            !(name@ == "name"@ || contact_field(name@)) ==> *final(self) == *old(self),
    {
        proof {
            lemma_field_names_distinct();
        }
        if str_equal(name, "name") {
            self.name = text;
        } else if str_equal(name, "phone") {
            self.contact.phone = some_if_not_empty(text);
        } else if str_equal(name, "email") {
            self.contact.email = some_if_not_empty(text);
        } else if str_equal(name, "addr1") {
            self.contact.addr1 = some_if_not_empty(text);
        } else if str_equal(name, "addr2") {
            self.contact.addr2 = some_if_not_empty(text);
        } else if str_equal(name, "city") {
            self.contact.city = some_if_not_empty(text);
        } else if str_equal(name, "state") {
            self.contact.state = some_if_not_empty(text);
        } else if str_equal(name, "zip") {
            self.contact.zip = some_if_not_empty(text);
        }
    }

    /// Takes a file field: a non-empty logo replaces the logo; an empty
    /// upload, or another field, changes nothing.
    pub fn accept_bytes(&mut self, name: &str, bytes: Vec<u8>)
        ensures
            name@ == "logo"@ && bytes@.len() > 0 ==> final(self).logo == Some(bytes) && final(self).name == old(
                self,
            ).name && final(self).contact == old(self).contact,
            !(name@ == "logo"@ && bytes@.len() > 0) ==> *final(self) == *old(self),
    {
        if str_equal(name, "logo") && bytes.len() > 0 {
            self.logo = Some(bytes);
        }
    }

    /// Whether updating with this form needs the stored logo: only where no
    /// new one was uploaded.
    pub fn needs_stored_logo(&self) -> (r: bool)
        ensures
            r == self.logo is None,
    {
        self.logo.is_none()
    }

    pub fn into_create(self) -> (r: CreateCompany)
        ensures
            r == (CreateCompany { name: self.name, logo: self.logo, contact: self.contact }),
    {
        CreateCompany { name: self.name, logo: self.logo, contact: self.contact }
    }

    /// The change that the form makes to a company: name and contact, and
    /// the uploaded logo or else `stored_logo`.
    pub fn into_update(self, stored_logo: Option<Vec<u8>>) -> (r: UpdateCompany)
        ensures
            r.name == Some(self.name),
            r.contact == Some(self.contact),
            r.logo == (if self.logo is Some {
                self.logo
            } else {
                stored_logo
            }),
    {
        let logo = if self.logo.is_some() {
            self.logo
        } else {
            stored_logo
        };
        UpdateCompany { name: Some(self.name), logo, contact: Some(self.contact) }
    }
}

/// The payment method form, as filled from the fields of a multipart
/// request.
#[derive(Clone, Debug, PartialEq, Eq)]
pub struct MethodForm {
    pub name: String,
    pub link: Option<String>,
    pub qr: Option<Vec<u8>>,
}

impl MethodForm {
    pub fn new() -> (r: MethodForm)
        ensures
            r.name@ == Seq::<char>::empty(),
            r.link is None,
            r.qr is None,
    {
        MethodForm { name: String::new(), link: None, qr: None }
    }

    /// `qr` is read as bytes, `name` and `link` as text, others not at all.
    pub fn field_kind(name: &str) -> (r: FieldKind)
        ensures
            r == (if name@ == "qr"@ {
                FieldKind::Bytes
            } else if name@ == "name"@ || name@ == "link"@ {
                FieldKind::Text
            } else {
                FieldKind::Ignored
            }),
    {
        if str_equal(name, "qr") {
            FieldKind::Bytes
        } else if str_equal(name, "name") || str_equal(name, "link") {
            FieldKind::Text
        } else {
            FieldKind::Ignored
        }
    }

    /// Takes a text field: the name as it is, the link unless blank (a blank
    /// one clears it); other fields change nothing.
    pub fn accept_text(&mut self, name: &str, text: String)
        ensures
            name@ == "name"@ ==> *final(self) == (MethodForm { name: text, ..*old(self) }),
            name@ == "link"@ ==> *final(self) == (MethodForm { link: non_blank(text), ..*old(self) }),
            !(name@ == "name"@ || name@ == "link"@) ==> *final(self) == *old(self),
    {
        proof {
            lemma_field_names_distinct();
        }
        if str_equal(name, "name") {
            self.name = text;
        } else if str_equal(name, "link") {
            self.link = some_if_not_empty(text);
        }
    }

    /// Takes a file field: a non-empty QR code replaces the QR code; an
    /// empty upload, or another field, changes nothing.
    pub fn accept_bytes(&mut self, name: &str, bytes: Vec<u8>)
        ensures
            name@ == "qr"@ && bytes@.len() > 0 ==> *final(self) == (MethodForm { qr: Some(bytes), ..*old(self) }),
            !(name@ == "qr"@ && bytes@.len() > 0) ==> *final(self) == *old(self),
    {
        if str_equal(name, "qr") && bytes.len() > 0 {
            self.qr = Some(bytes);
        }
    }

    /// Whether updating with this form needs the stored QR code: only where
    /// no new one was uploaded.
    pub fn needs_stored_qr(&self) -> (r: bool)
        ensures
            r == self.qr is None,
    {
        self.qr.is_none()
    }

    pub fn into_create(self) -> (r: CreateMethod)
        ensures
            r == (CreateMethod { name: self.name, link: self.link, qr: self.qr }),
    {
        CreateMethod { name: self.name, link: self.link, qr: self.qr }
    }

    /// The change that the form makes to a method: its name and link, and
    /// the uploaded QR code or else `stored_qr`.
    pub fn into_update(self, stored_qr: Option<Vec<u8>>) -> (r: UpdateMethod)
        ensures
            r.name == Some(self.name),
            r.link == self.link,
            r.qr == (if self.qr is Some {
                self.qr
            } else {
                stored_qr
            }),
    {
        let qr = if self.qr.is_some() {
            self.qr
        } else {
            stored_qr
        };
        UpdateMethod { name: Some(self.name), link: self.link, qr }
    }
}

proof fn lemma_field_names_distinct()
    ensures
        "name"@ != "phone"@,
        "name"@ != "email"@,
        "name"@ != "addr1"@,
        "name"@ != "addr2"@,
        "name"@ != "city"@,
        "name"@ != "state"@,
        "name"@ != "zip"@,
        "name"@ != "link"@,
        "phone"@ != "email"@,
        "phone"@ != "addr1"@,
        "phone"@ != "addr2"@,
        "phone"@ != "city"@,
        "phone"@ != "state"@,
        "phone"@ != "zip"@,
        "email"@ != "addr1"@,
        "email"@ != "addr2"@,
        "email"@ != "city"@,
        "email"@ != "state"@,
        "email"@ != "zip"@,
        "addr1"@ != "addr2"@,
        "addr1"@ != "city"@,
        "addr1"@ != "state"@,
        "addr1"@ != "zip"@,
        "addr2"@ != "city"@,
        "addr2"@ != "state"@,
        "addr2"@ != "zip"@,
        "city"@ != "state"@,
        "city"@ != "zip"@,
        "state"@ != "zip"@,
{
    reveal_strlit("name");
    reveal_strlit("phone");
    reveal_strlit("email");
    reveal_strlit("addr1");
    reveal_strlit("addr2");
    reveal_strlit("city");
    reveal_strlit("state");
    reveal_strlit("zip");
    reveal_strlit("link");
    assert("name"@[0] != "phone"@[0]);
    assert("name"@[0] != "email"@[0]);
    assert("name"@[0] != "addr1"@[0]);
    assert("name"@[0] != "addr2"@[0]);
    assert("name"@[0] != "city"@[0]);
    assert("name"@[0] != "state"@[0]);
    assert("name"@[0] != "link"@[0]);
    assert("phone"@[0] != "email"@[0]);
    assert("phone"@[0] != "addr1"@[0]);
    assert("phone"@[0] != "addr2"@[0]);
    assert("phone"@[0] != "city"@[0]);
    assert("phone"@[0] != "state"@[0]);
    assert("email"@[0] != "addr1"@[0]);
    assert("email"@[0] != "addr2"@[0]);
    assert("email"@[0] != "city"@[0]);
    assert("email"@[0] != "state"@[0]);
    assert("addr1"@[4] != "addr2"@[4]);
    assert("addr1"@[0] != "city"@[0]);
    assert("addr1"@[0] != "state"@[0]);
    assert("addr2"@[0] != "city"@[0]);
    assert("addr2"@[0] != "state"@[0]);
    assert("city"@[0] != "state"@[0]);
}

// ---------------------------------------------------------------------------
// Items, terms and templates
// ---------------------------------------------------------------------------

/// The item form: the rate as typed.
#[derive(Clone, Debug, PartialEq, Eq)]
pub struct ItemForm {
    pub name: String,
    pub rate: String,
}

impl ItemForm {
    /// The rate of the form: the decimal that the text reads as, or the
    /// message `Invalid rate: ` and the text where it reads as none.
    pub fn parse_rate(&self) -> (r: Result<Currency, String>)
        ensures
            match decimal_from_text(self.rate@) {
                Some(d) => r matches Ok(c) && c@ == d,
                None => r matches Err(m) && m@ == "Invalid rate: "@ + self.rate@,
            },
    {
        match parse_decimal(self.rate.as_str()) {
            Some(d) => Ok(Currency::new(d)),
            None => {
                let mut m = String::from_str("Invalid rate: ");
                m.append(self.rate.as_str());
                Err(m)
            },
        }
    }
}

/// The terms form.
#[derive(Clone, Debug, PartialEq, Eq)]
pub struct TermsForm {
    pub name: String,
    pub due: i64,
}

impl TermsForm {
    pub fn into_create(self) -> (r: CreateTerms)
        ensures
            r == (CreateTerms { name: self.name, due: self.due }),
    {
        CreateTerms { name: self.name, due: self.due }
    }

    /// The form replaces both name and due days.
    pub fn into_update(self) -> (r: UpdateTerms)
        ensures
            r == (UpdateTerms { name: Some(self.name), due: Some(self.due) }),
    {
        UpdateTerms { name: Some(self.name), due: Some(self.due) }
    }
}

/// The template form: the ids it refers to.
#[derive(Clone, Debug, PartialEq, Eq)]
pub struct TemplateForm {
    pub name: String,
    pub company_id: i64,
    pub client_id: i64,
    pub terms_id: i64,
    pub method_ids: Vec<i64>,
}

fn method_ids_of(v: &Vec<i64>) -> (r: Vec<MethodId>)
    ensures
        crate::rows::method_id_values(r@) == v@,
{
    let mut r: Vec<MethodId> = Vec::new();
    for k in 0..v.len()
        invariant
            r@.len() == k,
            forall|j: int| 0 <= j < k ==> #[trigger] r@[j].0 == v@[j],
    {
        r.push(MethodId(v[k]));
    }
    assert(crate::rows::method_id_values(r@) =~= v@);
    r
}

impl TemplateForm {
    pub fn into_create(self) -> (r: CreateTemplate)
        ensures
            r.name == self.name,
            r.company == CompanyId(self.company_id),
            r.client == ClientId(self.client_id),
            r.terms == TermsId(self.terms_id),
            crate::rows::method_id_values(r.method@) == self.method_ids@,
    {
        let method = method_ids_of(&self.method_ids);
        CreateTemplate {
            name: self.name,
            company: CompanyId(self.company_id),
            client: ClientId(self.client_id),
            terms: TermsId(self.terms_id),
            method,
        }
    }

    /// The form replaces every field of the template.
    pub fn into_update(self) -> (r: UpdateTemplate)
        ensures
            r.name == Some(self.name),
            r.company == Some(CompanyId(self.company_id)),
            r.client == Some(ClientId(self.client_id)),
            r.terms == Some(TermsId(self.terms_id)),
            r.method matches Some(m) && crate::rows::method_id_values(m@) == self.method_ids@,
    {
        let method = method_ids_of(&self.method_ids);
        UpdateTemplate {
            name: Some(self.name),
            company: Some(CompanyId(self.company_id)),
            client: Some(ClientId(self.client_id)),
            terms: Some(TermsId(self.terms_id)),
            method: Some(method),
        }
    }
}

// ---------------------------------------------------------------------------
// Email settings
// ---------------------------------------------------------------------------

/// The email settings form.
#[derive(Clone, Debug, PartialEq, Eq)]
pub struct EmailConfigForm {
    pub smtp_server: String,
    pub port: String,
    pub tls: Option<String>,
    pub username: String,
    pub password: Option<String>,
    pub fromname: String,
    pub test_recipient: Option<String>,
}

pub open spec fn opt_non_blank(o: Option<String>) -> Option<String> {
    match o {
        Some(s) => non_blank(s),
        None => None,
    }
}

fn filter_non_blank(o: Option<String>) -> (r: Option<String>)
    ensures
        r == opt_non_blank(o),
{
    match o {
        Some(s) => some_if_not_empty(s),
        None => None,
    }
}

/// The port that the port field stands for: 587 where it is no `u16`.
pub open spec fn port_of(text: Seq<char>) -> u16 {
    match parsed_u16(text) {
        Some(p) => p,
        None => 587,
    }
}

impl EmailConfigForm {
    /// Whether saving the form needs the stored password: only where the
    /// password field is missing or blank.
    pub fn needs_stored_password(&self) -> (r: bool)
        ensures
            r == match self.password {
                Some(p) => blank(p@),
                None => true,
            },
    {
        match &self.password {
            Some(p) => is_blank(p.as_str()),
            None => true,
        }
    }

    /// The settings that saving the form writes. The port defaults to 587;
    /// TLS is on where the box was ticked; a missing or blank password keeps
    /// `stored_password`, or is empty where none is stored; a blank test
    /// recipient is none.
    pub fn into_upsert(self, stored_password: Option<String>) -> (r: UpsertConfig)
        ensures
            r.smtp_server == self.smtp_server,
            r.port == port_of(self.port@),
            r.tls == self.tls is Some,
            r.username == self.username,
            r.fromname == self.fromname,
            r.test_recipient == opt_non_blank(self.test_recipient),
            match opt_non_blank(self.password) {
                Some(p) => r.password == p,
                None => match stored_password {
                    Some(p) => r.password == p,
                    None => r.password@ == Seq::<char>::empty(),
                },
            },
    {
        let port = match parse_u16(self.port.as_str()) {
            Some(p) => p,
            None => 587,
        };
        let tls = self.tls.is_some();
        let password = match filter_non_blank(self.password) {
            Some(p) => p,
            None => match stored_password {
                Some(p) => p,
                None => String::new(),
            },
        };
        UpsertConfig {
            smtp_server: self.smtp_server,
            port,
            tls,
            username: self.username,
            password,
            fromname: self.fromname,
            test_recipient: filter_non_blank(self.test_recipient),
        }
    }
}

// ---------------------------------------------------------------------------
// Percent-encoding of messages
// ---------------------------------------------------------------------------

pub open spec fn hex_digit(d: int) -> char {
    if d == 0 {
        '0'
    } else if d == 1 {
        '1'
    } else if d == 2 {
        '2'
    } else if d == 3 {
        '3'
    } else if d == 4 {
        '4'
    } else if d == 5 {
        '5'
    } else if d == 6 {
        '6'
    } else if d == 7 {
        '7'
    } else if d == 8 {
        '8'
    } else if d == 9 {
        '9'
    } else if d == 10 {
        'A'
    } else if d == 11 {
        'B'
    } else if d == 12 {
        'C'
    } else if d == 13 {
        'D'
    } else if d == 14 {
        'E'
    } else {
        'F'
    }
}

/// The upper-case hexadecimal digits of a number.
pub open spec fn hex_text(n: nat) -> Seq<char>
    decreases n,
{
    if n < 16 {
        seq![hex_digit(n as int)]
    } else {
        hex_text(n / 16).push(hex_digit((n % 16) as int))
    }
}

/// `{:02X}`: the hexadecimal digits, padded with a zero to two.
pub open spec fn hex2(n: nat) -> Seq<char> {
    if n < 16 {
        seq!['0', hex_digit(n as int)]
    } else {
        hex_text(n)
    }
}

/// What one character becomes: a space `+`, a letter, digit or one of
/// `-_.~` itself, any other `%` and its code point in hexadecimal.
pub open spec fn url_piece(c: char) -> Seq<char> {
    if c == ' ' {
        seq!['+']
    } else if unicode_alphanumeric(c) || c == '-' || c == '_' || c == '.' || c == '~' {
        seq![c]
    } else {
        seq!['%'] + hex2((c as u32) as nat)
    }
}

pub open spec fn url_encoded(s: Seq<char>) -> Seq<char>
    decreases s.len(),
{
    if s.len() == 0 {
        Seq::empty()
    } else {
        url_encoded(s.drop_last()) + url_piece(s.last())
    }
}

fn hex_char(d: u32) -> (r: char)
    requires
        d < 16,
    ensures
        r == hex_digit(d as int),
{
    if d == 0 {
        '0'
    } else if d == 1 {
        '1'
    } else if d == 2 {
        '2'
    } else if d == 3 {
        '3'
    } else if d == 4 {
        '4'
    } else if d == 5 {
        '5'
    } else if d == 6 {
        '6'
    } else if d == 7 {
        '7'
    } else if d == 8 {
        '8'
    } else if d == 9 {
        '9'
    } else if d == 10 {
        'A'
    } else if d == 11 {
        'B'
    } else if d == 12 {
        'C'
    } else if d == 13 {
        'D'
    } else if d == 14 {
        'E'
    } else {
        'F'
    }
}

fn push_hex(out: &mut String, n: u32)
    ensures
        final(out)@ == old(out)@ + hex_text(n as nat),
    decreases n,
{
    if n >= 16 {
        push_hex(out, n / 16);
    }
    push_char(out, hex_char(n % 16));
    proof {
        if n >= 16 {
            assert(hex_text(n as nat) == hex_text((n / 16) as nat).push(hex_digit((n % 16) as int)));
        }
    }
}

/// Encodes a message for a query string.
pub fn urlencoding_simple(s: &str) -> (r: String)
    ensures
        r@ == url_encoded(s@),
{
    let mut out = String::new();
    proof {
        assert(s@.take(0) =~= Seq::<char>::empty());
    }
    for c in it: s.chars()
        invariant
            it.seq() == s@,
            out@ == url_encoded(s@.take(it.index() as int)),
    {
        proof {
            assert(s@.take(it.index() + 1).drop_last() =~= s@.take(it.index() as int));
            assert(s@.take(it.index() + 1).last() == c);
        }
        if c == ' ' {
            push_char(&mut out, '+');
            proof {
                assert(seq!['+'] =~= Seq::<char>::empty().push('+'));
            }
        } else if char_is_alphanumeric(c) || c == '-' || c == '_' || c == '.' || c == '~' {
            push_char(&mut out, c);
        } else {
            let ghost before = out@;
            push_char(&mut out, '%');
            let n = c as u32;
            if n < 16 {
                push_char(&mut out, '0');
                push_char(&mut out, hex_char(n));
                proof {
                    assert(out@ =~= before + (seq!['%'] + hex2(n as nat)));
                }
            } else {
                push_hex(&mut out, n);
                proof {
                    assert(out@ =~= before + (seq!['%'] + hex2(n as nat)));
                }
            }
        }
    }
    proof {
        assert(s@.take(s@.len() as int) =~= s@);
    }
    out
}

/// A character that `urlencoding_simple` writes as itself: a letter or
/// digit, or one of `-_.~`.
pub open spec fn url_unreserved(c: char) -> bool {
    unicode_alphanumeric(c) || c == '-' || c == '_' || c == '.' || c == '~'
}

proof fn lemma_hex_text_digits(n: nat)
    ensures
        forall|i: int| 0 <= i < hex_text(n).len() ==> upper_hex_digit(#[trigger] hex_text(n)[i]),
    decreases n,
{
    if n >= 16 {
        lemma_hex_text_digits(n / 16);
        lemma_hex_digit_value((n % 16) as int);
        let t = hex_text(n / 16);
        assert forall|i: int| 0 <= i < hex_text(n).len() implies upper_hex_digit(#[trigger] hex_text(n)[i]) by {
            if i < t.len() {
                assert(hex_text(n)[i] == t[i]);
            }
        }
    } else {
        lemma_hex_digit_value(n as int);
    }
}

proof fn lemma_url_piece_chars(c: char)
    ensures
        forall|i: int|
            0 <= i < url_piece(c).len() ==> url_unreserved(#[trigger] url_piece(c)[i]) || url_piece(c)[i] == '+'
                || url_piece(c)[i] == '%',
{
    let n = (c as u32) as nat;
    if c != ' ' && !url_unreserved(c) {
        let h = hex2(n);
        if n < 16 {
            lemma_hex_digit_value(n as int);
            lemma_hex_digit_value(0);
        } else {
            lemma_hex_text_digits(n);
        }
        assert forall|i: int| 0 <= i < h.len() implies url_unreserved(#[trigger] h[i]) by {
            assert(upper_hex_digit(h[i]));
            assert((h[i] as u32) < 0x80);
        }
        assert forall|i: int| 0 <= i < url_piece(c).len() implies url_unreserved(#[trigger] url_piece(c)[i])
            || url_piece(c)[i] == '+' || url_piece(c)[i] == '%' by {
            if i > 0 {
                assert(url_piece(c)[i] == h[i - 1]);
            }
        }
    }
}

/// Every character that `urlencoding_simple` writes is a letter or digit,
/// one of `-_.~`, `+` or `%`.
pub proof fn law_url_encoded_chars(s: Seq<char>)
    ensures
        forall|i: int|
            0 <= i < url_encoded(s).len() ==> url_unreserved(#[trigger] url_encoded(s)[i]) || url_encoded(s)[i] == '+'
                || url_encoded(s)[i] == '%',
    decreases s.len(),
{
    if s.len() > 0 {
        law_url_encoded_chars(s.drop_last());
        lemma_url_piece_chars(s.last());
        let a = url_encoded(s.drop_last());
        let b = url_piece(s.last());
        assert forall|i: int| 0 <= i < url_encoded(s).len() implies url_unreserved(#[trigger] url_encoded(s)[i])
            || url_encoded(s)[i] == '+' || url_encoded(s)[i] == '%' by {
            if i < a.len() {
                assert(url_encoded(s)[i] == a[i]);
            } else {
                assert(url_encoded(s)[i] == b[i - a.len()]);
            }
        }
    }
}

/// A text made only of letters, digits and `-_.~` is written unchanged.
pub proof fn law_url_encoding_identity(s: Seq<char>)
    requires
        forall|i: int| 0 <= i < s.len() ==> url_unreserved(#[trigger] s[i]),
    ensures
        url_encoded(s) == s,
    decreases s.len(),
{
    if s.len() > 0 {
        let p = s.drop_last();
        assert forall|i: int| 0 <= i < p.len() implies url_unreserved(#[trigger] p[i]) by {
            assert(p[i] == s[i]);
        }
        law_url_encoding_identity(p);
        assert(url_unreserved(s[s.len() - 1]));
        assert(s.last() != ' ');
        assert(p.push(s.last()) =~= s);
        assert(url_encoded(s) =~= p + seq![s.last()]);
    }
}

/// The value of a hexadecimal digit, either case; -1 for any other
/// character.
pub open spec fn hex_value(c: char) -> int {
    if '0' <= c && c <= '9' {
        c as int - '0' as int
    } else if 'A' <= c && c <= 'F' {
        c as int - 'A' as int + 10
    } else if 'a' <= c && c <= 'f' {
        c as int - 'a' as int + 10
    } else {
        -1
    }
}

/// Form decoding of a query value: `+` is a space, `%` and two hexadecimal
/// digits is the character with that code, any other character is itself.
pub open spec fn form_urldecode(t: Seq<char>) -> Seq<char>
    decreases t.len(),
{
    if t.len() == 0 {
        Seq::empty()
    } else if t[0] == '+' {
        seq![' '] + form_urldecode(t.skip(1))
    } else if t[0] == '%' && t.len() >= 3 && hex_value(t[1]) >= 0 && hex_value(t[2]) >= 0 {
        seq![(hex_value(t[1]) * 16 + hex_value(t[2])) as char] + form_urldecode(t.skip(3))
    } else {
        seq![t[0]] + form_urldecode(t.skip(1))
    }
}

/// Every character of the text is ASCII.
pub open spec fn all_ascii(s: Seq<char>) -> bool {
    forall|i: int| 0 <= i < s.len() ==> (#[trigger] s[i] as u32) < 0x80
}

/// An upper-case hexadecimal digit.
pub open spec fn upper_hex_digit(c: char) -> bool {
    ('0' <= c && c <= '9') || ('A' <= c && c <= 'F')
}

proof fn lemma_hex_digit_value(d: int)
    requires
        0 <= d < 16,
    ensures
        hex_value(hex_digit(d)) == d,
        upper_hex_digit(hex_digit(d)),
{
}

/// What an ASCII character becomes is the character itself (neither `+`
/// nor `%`), `+` for a space, or `%` and exactly two upper-case hexadecimal
/// digits giving its code.
pub proof fn law_url_piece_ascii(c: char)
    requires
        (c as u32) < 0x80,
    ensures
        url_piece(c) == seq![c] && c != '+' && c != '%'
            || c == ' ' && url_piece(c) == seq!['+']
            || url_piece(c).len() == 3 && url_piece(c)[0] == '%' && upper_hex_digit(url_piece(c)[1])
                && upper_hex_digit(url_piece(c)[2]) && hex_value(url_piece(c)[1]) * 16 + hex_value(url_piece(c)[2])
                == c as int,
{
    let n = (c as u32) as nat;
    if c == ' ' {
    } else if unicode_alphanumeric(c) || c == '-' || c == '_' || c == '.' || c == '~' {
    } else if n < 16 {
        lemma_hex_digit_value(n as int);
        lemma_hex_digit_value(0);
    } else {
        assert(n / 16 < 16);
        assert(hex_text(n) == hex_text(n / 16).push(hex_digit((n % 16) as int)));
        assert(hex_text(n / 16) == seq![hex_digit((n / 16) as int)]);
        lemma_hex_digit_value((n / 16) as int);
        lemma_hex_digit_value((n % 16) as int);
        assert(url_piece(c) =~= seq!['%', hex_digit((n / 16) as int), hex_digit((n % 16) as int)]);
    }
}

proof fn lemma_url_decode_piece(c: char, rest: Seq<char>)
    requires
        (c as u32) < 0x80,
    ensures
        form_urldecode(url_piece(c) + rest) == seq![c] + form_urldecode(rest),
{
    law_url_piece_ascii(c);
    let t = url_piece(c) + rest;
    if url_piece(c).len() == 3 && url_piece(c)[0] == '%' {
        assert(t.skip(3) =~= rest);
        assert(((hex_value(t[1]) * 16 + hex_value(t[2])) as char) == c);
    } else {
        assert(t.skip(1) =~= rest);
    }
}

proof fn lemma_url_encoded_front(s: Seq<char>)
    requires
        s.len() > 0,
    ensures
        url_encoded(s) == url_piece(s[0]) + url_encoded(s.skip(1)),
    decreases s.len(),
{
    if s.len() == 1 {
        assert(s.drop_last() =~= Seq::<char>::empty());
        assert(s.skip(1) =~= Seq::<char>::empty());
        assert(url_encoded(s.skip(1)) == Seq::<char>::empty());
        assert(url_encoded(s) =~= url_piece(s[0]));
    } else {
        lemma_url_encoded_front(s.drop_last());
        assert(s.drop_last().skip(1) =~= s.skip(1).drop_last());
        assert(s.skip(1).last() == s.last());
        assert(url_encoded(s) =~= url_piece(s[0]) + url_encoded(s.skip(1)));
    }
}

/// Form decoding gives back any ASCII message that `urlencoding_simple`
/// encoded.
pub proof fn law_url_decoding_undoes_encoding(s: Seq<char>)
    requires
        all_ascii(s),
    ensures
        form_urldecode(url_encoded(s)) == s,
    decreases s.len(),
{
    if s.len() == 0 {
        assert(url_encoded(s) =~= Seq::<char>::empty());
    } else {
        lemma_url_encoded_front(s);
        assert((s[0] as u32) < 0x80);
        lemma_url_decode_piece(s[0], url_encoded(s.skip(1)));
        assert(all_ascii(s.skip(1))) by {
            assert forall|i: int| 0 <= i < s.skip(1).len() implies (#[trigger] s.skip(1)[i] as u32) < 0x80 by {
                assert(s.skip(1)[i] == s[i + 1]);
            }
        }
        law_url_decoding_undoes_encoding(s.skip(1));
        assert(seq![s[0]] + s.skip(1) =~= s);
    }
}

/// The text with every `+` turned back into a space.
pub open spec fn plus_as_space(s: Seq<char>) -> Seq<char> {
    s.map_values(|c: char| if c == '+' { ' ' } else { c })
}

/// Shows a message that came in a query string: `s.replace('+', " ")`.
pub fn plus_to_space(s: &str) -> (r: String)
    ensures
        r@ == plus_as_space(s@),
{
    let mut out = String::new();
    for c in it: s.chars()
        invariant
            it.seq() == s@,
            out@ == plus_as_space(s@.take(it.index() as int)),
    {
        proof {
            assert(plus_as_space(s@.take(it.index() + 1)) =~= plus_as_space(s@.take(it.index() as int)).push(
                if c == '+' {
                    ' '
                } else {
                    c
                },
            ));
        }
        if c == '+' {
            push_char(&mut out, ' ');
        } else {
            push_char(&mut out, c);
        }
    }
    proof {
        assert(s@.take(s@.len() as int) =~= s@);
    }
    out
}

/// Where testing the email settings sends the browser: a failure without
/// settings, success, or a failure with the error's message encoded.
pub fn email_test_redirect(have_config: bool, outcome: Result<(), &str>) -> (r: String)
    ensures
        !have_config ==> r@ == "/settings/email?test=fail&msg=No+configuration+found"@,
        have_config && outcome is Ok ==> r@ == "/settings/email?test=ok"@,
        have_config ==> (outcome matches Err(e) ==> r@ == "/settings/email?test=fail&msg="@ + url_encoded(e@)),
{
    if !have_config {
        return String::from_str("/settings/email?test=fail&msg=No+configuration+found");
    }
    match outcome {
        Ok(()) => String::from_str("/settings/email?test=ok"),
        Err(e) => {
            let mut r = String::from_str("/settings/email?test=fail&msg=");
            let m = urlencoding_simple(e);
            r.append(m.as_str());
            r
        },
    }
}

} // verus!
