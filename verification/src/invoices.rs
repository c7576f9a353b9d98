//! Invoice file access, bulk-parse accounting and the taxpayer records
//! taken from a parsed invoice.

use vstd::prelude::*;

use crate::dates::Timestamp;
use crate::errors::InvoiceError;
use crate::text::{push_char, push_str, str_eq, string_of};

verus! {

/// The stored file of the requested kind: the XML file for `xml`, the PDF
/// file for any other extension.
pub open spec fn requested_file(ext: Seq<char>, xml_file_id: Option<i32>, pdf_file_id: Option<i32>) -> Option<i32> {
    if ext == "xml"@ {
        xml_file_id
    } else {
        pdf_file_id
    }
}

/// The id of the invoice file asked for by extension (`xml`, otherwise the
/// PDF), or `NotFound` when the invoice has no such file.
pub fn invoice_file_id(ext: &str, xml_file_id: Option<i32>, pdf_file_id: Option<i32>) -> (res: Result<i32, InvoiceError>)
    ensures
        match requested_file(ext@, xml_file_id, pdf_file_id) {
            Some(id) => res == Ok::<i32, InvoiceError>(id),
            None => res == Err::<i32, InvoiceError>(InvoiceError::NotFound),
        },
{
    let chosen = if str_eq(ext, "xml") {
        xml_file_id
    } else {
        pdf_file_id
    };
    match chosen {
        Some(id) => Ok(id),
        None => Err(InvoiceError::NotFound),
    }
}

/// An invoice file is asked for by extension: `xml` gives the XML file,
/// `pdf` (and any other extension) the PDF file, whatever the other file is.
pub proof fn requested_file_follows_extension(ext: Seq<char>, xml_file_id: Option<i32>, pdf_file_id: Option<i32>)
    ensures
        requested_file("xml"@, xml_file_id, pdf_file_id) == xml_file_id,
        requested_file("pdf"@, xml_file_id, pdf_file_id) == pdf_file_id,
        ext != "xml"@ ==> requested_file(ext, xml_file_id, pdf_file_id) == pdf_file_id,
{
    reveal_strlit("xml");
    reveal_strlit("pdf");
    assert("xml"@[0] != "pdf"@[0]);
}

/// `attachment; filename="<uuid>.<extension>"`.
pub open spec fn attachment_header(uuid: Seq<char>, ext: Seq<char>) -> Seq<char> {
    "attachment; filename="@ + seq!['"'] + uuid + "."@ + ext + seq!['"']
}

/// The `Content-Disposition` value under which an invoice file is served.
pub fn content_disposition(uuid: &str, ext: &str) -> (res: String)
    ensures
        res@ == attachment_header(uuid@, ext@),
{
    let mut s = string_of("attachment; filename=");
    push_char(&mut s, '"');
    push_str(&mut s, uuid);
    push_str(&mut s, ".");
    push_str(&mut s, ext);
    push_char(&mut s, '"');
    s
}

/// The served file is named after the invoice and the requested extension:
/// the header is `attachment; filename="`, the uuid, then the file name's
/// ending `.`, the extension and the closing quote, with nothing else; so
/// two extensions (or two uuids) give two different headers.
pub proof fn served_filename_names_the_file(uuid: Seq<char>, ext: Seq<char>, other_uuid: Seq<char>, other_ext: Seq<char>)
    ensures
        ({
            let h = attachment_header(uuid, ext);
            let lead = "attachment; filename="@ + seq!['"'];
            &&& h.len() == lead.len() + uuid.len() + ext.len() + 2
            &&& h.subrange(0, (lead.len() + uuid.len()) as int) == lead + uuid
            &&& h.subrange(h.len() - ext.len() - 2, h.len() as int) == "."@ + ext + seq!['"']
            &&& (attachment_header(uuid, other_ext) == h ==> other_ext == ext)
            &&& (attachment_header(other_uuid, ext) == h ==> other_uuid == uuid)
        }),
{
    reveal_strlit(".");
    let h = attachment_header(uuid, ext);
    let lead = "attachment; filename="@ + seq!['"'];
    assert(h =~= lead + uuid + ("."@ + ext + seq!['"']));
    assert(h.subrange(0, (lead.len() + uuid.len()) as int) =~= lead + uuid);
    assert(h.subrange(h.len() - ext.len() - 2, h.len() as int) =~= "."@ + ext + seq!['"']);
    let g = attachment_header(uuid, other_ext);
    assert(g =~= lead + uuid + ("."@ + other_ext + seq!['"']));
    if g == h {
        assert(other_ext.len() == ext.len());
        assert(other_ext =~= g.subrange((lead.len() + uuid.len() + 1) as int, g.len() - 1));
        assert(ext =~= h.subrange((lead.len() + uuid.len() + 1) as int, h.len() - 1));
    }
    let k = attachment_header(other_uuid, ext);
    assert(k =~= lead + other_uuid + ("."@ + ext + seq!['"']));
    if k == h {
        assert(other_uuid.len() == uuid.len());
        assert(other_uuid =~= k.subrange(lead.len() as int, (lead.len() + uuid.len()) as int));
        assert(uuid =~= h.subrange(lead.len() as int, (lead.len() + uuid.len()) as int));
    }
}

/// The counts of a bulk parse.
#[derive(Debug, Clone, Copy, PartialEq, Eq)]
pub struct ParseAllResult {
    pub processed: usize,
    pub succeeded: usize,
    pub failed: usize,
}

/// The number of `true` outcomes among the first `n`.
pub open spec fn successes(outcomes: Seq<bool>, n: nat) -> nat
    decreases n,
{
    if n == 0 {
        0
    } else {
        successes(outcomes, (n - 1) as nat) + if outcomes[n - 1] { 1nat } else { 0nat }
    }
}

proof fn successes_bounded(outcomes: Seq<bool>, n: nat)
    ensures
        successes(outcomes, n) <= n,
    decreases n,
{
    if n > 0 {
        successes_bounded(outcomes, (n - 1) as nat);
    }
}

/// The count of successes up to `n` reads only the first `n` outcomes.
proof fn successes_of_prefix(a: Seq<bool>, b: Seq<bool>, n: nat)
    requires
        n <= a.len(),
        n <= b.len(),
        forall|i: int| 0 <= i < n ==> a[i] == b[i],
    ensures
        successes(a, n) == successes(b, n),
    decreases n,
{
    if n > 0 {
        successes_of_prefix(a, b, (n - 1) as nat);
    }
}

/// Counting successes: no outcomes give none, and one more outcome adds one
/// exactly when it is a success; so all successes give as many as there are
/// outcomes, all failures give none, and the count is the number of
/// successful outcomes.
pub proof fn successes_count_the_successful(outcomes: Seq<bool>, last: bool)
    ensures
        successes(seq![], 0) == 0,
        successes(outcomes.push(last), outcomes.len() + 1) == successes(outcomes, outcomes.len())
            + if last { 1int } else { 0int },
        (forall|i: int| 0 <= i < outcomes.len() ==> #[trigger] outcomes[i]) ==> successes(
            outcomes,
            outcomes.len(),
        ) == outcomes.len(),
        (forall|i: int| 0 <= i < outcomes.len() ==> !#[trigger] outcomes[i]) ==> successes(
            outcomes,
            outcomes.len(),
        ) == 0,
        successes(outcomes, outcomes.len()) == outcomes.filter(|b: bool| b).len(),
    decreases outcomes.len(),
{
    broadcast use Seq::lemma_filter_push;
    let longer = outcomes.push(last);
    successes_of_prefix(longer, outcomes, outcomes.len());
    if outcomes.len() > 0 {
        let shorter = outcomes.drop_last();
        successes_count_the_successful(shorter, outcomes.last());
        assert(shorter.push(outcomes.last()) =~= outcomes);
    } else {
        assert(outcomes.filter(|b: bool| b) =~= seq![]);
    }
}

/// Every outcome is either a success or a failure.
proof fn failures_complement(outcomes: Seq<bool>)
    ensures
        outcomes.filter(|b: bool| b).len() + outcomes.filter(|b: bool| !b).len() == outcomes.len(),
    decreases outcomes.len(),
{
    broadcast use Seq::lemma_filter_push;
    if outcomes.len() > 0 {
        let shorter = outcomes.drop_last();
        failures_complement(shorter);
        assert(shorter.push(outcomes.last()) =~= outcomes);
    } else {
        assert(outcomes.filter(|b: bool| b) =~= seq![]);
        assert(outcomes.filter(|b: bool| !b) =~= seq![]);
    }
}

/// The counts of a bulk parse from the outcome of each invoice, in order:
/// every invoice processed, counted once as succeeded or as failed.
pub fn tally(outcomes: &Vec<bool>) -> (res: ParseAllResult)
    ensures
        res.processed == outcomes@.len(),
        res.succeeded == successes(outcomes@, outcomes@.len()),
        res.failed == outcomes@.len() - successes(outcomes@, outcomes@.len()),
        res.succeeded + res.failed == res.processed,
        res.succeeded == outcomes@.filter(|b: bool| b).len(),
        res.failed == outcomes@.filter(|b: bool| !b).len(),
{
    let mut succeeded: usize = 0;
    let mut failed: usize = 0;
    let mut i: usize = 0;
    while i < outcomes.len()
        invariant
            i <= outcomes.len(),
            succeeded == successes(outcomes@, i as nat),
            succeeded + failed == i,
        decreases outcomes.len() - i,
    {
        if outcomes[i] {
            succeeded = succeeded + 1;
        } else {
            failed = failed + 1;
        }
        i = i + 1;
    }
    proof {
        successes_bounded(outcomes@, outcomes@.len());
        successes_count_the_successful(outcomes@, true);
        failures_complement(outcomes@);
    }
    ParseAllResult { processed: outcomes.len(), succeeded, failed }
}

/// What is stored of a taxpayer seen on an invoice.
#[derive(Debug, Clone)]
pub struct TaxpayerData {
    pub taxpayer_id: String,
    pub name: String,
    pub cfdi_use: Option<String>,
    pub fiscal_domicile: Option<String>,
    pub fiscal_regime: Option<String>,
    pub foreign_tax_id: Option<String>,
    pub tax_residence: Option<String>,
    pub last_seen_at: Timestamp,
}

/// The filters of a taxpayer listing.
#[derive(Debug, Clone)]
pub struct TaxpayerFilters {
    pub taxpayer_id: Option<String>,
    pub name: Option<String>,
}

/// The name stored for a taxpayer: the name on the invoice, or the RFC when
/// the invoice gives none.
pub open spec fn taxpayer_name(taxpayer_id: Seq<char>, name: Option<String>) -> Seq<char> {
    match name {
        Some(n) => n@,
        None => taxpayer_id,
    }
}

/// The taxpayer record of an invoice's issuer: its RFC, name (the RFC when
/// absent) and fiscal regime, seen at the invoice's issue time.
pub fn issuer_taxpayer(taxpayer_id: String, name: Option<String>, fiscal_regime: String, seen_at: Timestamp) -> (res: TaxpayerData)
    ensures
        res.taxpayer_id == taxpayer_id,
        res.name@ == taxpayer_name(taxpayer_id@, name),
        res.cfdi_use is None,
        res.fiscal_domicile is None,
        res.fiscal_regime == Some(fiscal_regime),
        res.foreign_tax_id is None,
        res.tax_residence is None,
        res.last_seen_at == seen_at,
{
    let name = match name {
        Some(n) => n,
        None => taxpayer_id.clone(),
    };
    TaxpayerData {
        taxpayer_id,
        name,
        cfdi_use: None,
        fiscal_domicile: None,
        fiscal_regime: Some(fiscal_regime),
        foreign_tax_id: None,
        tax_residence: None,
        last_seen_at: seen_at,
    }
}

/// The taxpayer record of an invoice's recipient: its RFC, name (the RFC
/// when absent), CFDI use, fiscal domicile and regime and foreign
/// identification, seen at the invoice's issue time.
pub fn recipient_taxpayer(
    taxpayer_id: String,
    name: Option<String>,
    cfdi_use: String,
    fiscal_domicile: Option<String>,
    fiscal_regime: Option<String>,
    foreign_tax_id: Option<String>,
    tax_residence: Option<String>,
    seen_at: Timestamp,
) -> (res: TaxpayerData)
    ensures
        res.taxpayer_id == taxpayer_id,
        res.name@ == taxpayer_name(taxpayer_id@, name),
        res.cfdi_use == Some(cfdi_use),
        res.fiscal_domicile == fiscal_domicile,
        res.fiscal_regime == fiscal_regime,
        res.foreign_tax_id == foreign_tax_id,
        res.tax_residence == tax_residence,
        res.last_seen_at == seen_at,
{
    let name = match name {
        Some(n) => n,
        None => taxpayer_id.clone(),
    };
    TaxpayerData {
        taxpayer_id,
        name,
        cfdi_use: Some(cfdi_use),
        fiscal_domicile,
        fiscal_regime,
        foreign_tax_id,
        tax_residence,
        last_seen_at: seen_at,
    }
}

/// A CFDI related to an invoice.
#[derive(Debug, Clone)]
pub struct RelatedDocument {
    pub id: i32,
    pub relation_type: String,
    pub related_uuid: String,
    pub related_invoice_id: Option<i32>,
}


/// Whether every character of `s` is an ASCII digit.
pub open spec fn all_digits(s: Seq<char>) -> bool {
    forall|i: int| 0 <= i < s.len() ==> '0' <= #[trigger] s[i] && s[i] <= '9'
}

/// The value of a run of decimal digits.
pub open spec fn digits_value(s: Seq<char>) -> int
    decreases s.len(),
{
    if s.len() == 0 {
        0
    } else {
        digits_value(s.drop_last()) * 10 + (s.last() as int - '0' as int)
    }
}

/// The integer a text denotes in the form std's integer parsing accepts: an
/// optional `+` or `-` sign followed by one or more decimal digits.
pub open spec fn integer_text(s: Seq<char>) -> Option<int> {
    if s.len() > 0 && (s[0] == '+' || s[0] == '-') {
        let digits = s.drop_first();
        if digits.len() > 0 && all_digits(digits) {
            Some(if s[0] == '-' { -digits_value(digits) } else { digits_value(digits) })
        } else {
            None
        }
    } else if s.len() > 0 && all_digits(s) {
        Some(digits_value(s))
    } else {
        None
    }
}

/// The `i32` a text denotes, if it denotes one in range.
pub open spec fn i32_text(s: Seq<char>) -> Option<i32> {
    match integer_text(s) {
        Some(v) => if i32::MIN <= v <= i32::MAX {
            Some(v as i32)
        } else {
            None
        },
        None => None,
    }
}

/// Reads an `i32` with std's `str::parse::<i32>`.
/// Claimed: it accepts exactly an optional sign and decimal digits whose
/// value is in range, and gives that value.
#[verifier::external_body]
fn parse_i32(text: &str) -> (res: Option<i32>)
    ensures
        res == i32_text(text@),
{
    text.parse::<i32>().ok()
}

/// The installment number of a paid document: the number its text gives,
/// or 1 when the text is not an `i32`.
pub fn installment_number(text: &str) -> (res: i32)
    ensures
        res == match i32_text(text@) {
            Some(v) => v,
            None => 1i32,
        },
{
    match parse_i32(text) {
        Some(v) => v,
        None => 1,
    }
}

} // verus!
