//! Handling of the invoices that a download crawl finds: whether to fetch
//! their files, how the portal's texts become invoice fields, and where a
//! fetched file is recorded.

use vstd::prelude::*;

use crate::dates::{parse_sat_datetime, sat_datetime, timestamp_instant, Timestamp};
use crate::text::{chars_of, push_chars, str_eq, string_of, trim, trim_bounds};

verus! {

/// The kinds of invoice file.
#[derive(Debug, Clone, Copy, PartialEq, Eq)]
pub enum FileKind {
    Xml,
    Pdf,
}

/// The extension of a file kind.
pub open spec fn kind_extension(k: FileKind) -> Seq<char> {
    match k {
        FileKind::Xml => "xml"@,
        FileKind::Pdf => "pdf"@,
    }
}

/// The file kind with an extension, if any.
pub open spec fn kind_of_extension(ext: Seq<char>) -> Option<FileKind> {
    if ext == "xml"@ {
        Some(FileKind::Xml)
    } else if ext == "pdf"@ {
        Some(FileKind::Pdf)
    } else {
        None
    }
}

/// The extension of a file kind.
pub fn file_extension(k: FileKind) -> (res: String)
    ensures
        res@ == kind_extension(k),
{
    match k {
        FileKind::Xml => string_of("xml"),
        FileKind::Pdf => string_of("pdf"),
    }
}

/// Each file kind has its own extension, and that extension reads back as
/// the kind: `xml` for XML, `pdf` for PDF.
pub proof fn file_kinds_read_back(k: FileKind, j: FileKind)
    ensures
        kind_of_extension(kind_extension(k)) == Some(k),
        kind_extension(k) == kind_extension(j) ==> k == j,
        kind_of_extension("xml"@) == Some(FileKind::Xml),
        kind_of_extension("pdf"@) == Some(FileKind::Pdf),
{
    reveal_strlit("xml");
    reveal_strlit("pdf");
    assert("xml"@[0] != "pdf"@[0]);
}

/// The file kind whose column records a file with the extension: `xml` and
/// `pdf` have one, other extensions none.
pub fn file_kind(ext: &str) -> (res: Option<FileKind>)
    ensures
        res == kind_of_extension(ext@),
{
    if str_eq(ext, "xml") {
        Some(FileKind::Xml)
    } else if str_eq(ext, "pdf") {
        Some(FileKind::Pdf)
    } else {
        None
    }
}

/// Which files an already stored invoice has.
#[derive(Debug, Clone, Copy, PartialEq, Eq)]
pub struct StoredFiles {
    pub has_xml: bool,
    pub has_pdf: bool,
}

/// Whether the crawler should fetch the files of an invoice, given the
/// stored invoice with its uuid (`None` when there is none or it could not
/// be read): unless both files are already stored.
pub fn should_download(stored: Option<StoredFiles>) -> (res: bool)
    ensures
        res == match stored {
            Some(f) => !(f.has_xml && f.has_pdf),
            None => true,
        },
{
    match stored {
        Some(f) => !(f.has_xml && f.has_pdf),
        None => true,
    }
}

/// What the crawler reports about an invoice.
#[derive(Debug, Clone, Copy, PartialEq, Eq)]
pub enum InvoiceEventKind {
    XmlDownloaded,
    PdfDownloaded,
    XmlDownloadFailed,
    PdfDownloadFailed,
    Skipped,
}

/// The kind of file that a crawler report delivers, if it delivers one.
pub open spec fn delivered(e: InvoiceEventKind) -> Option<FileKind> {
    match e {
        InvoiceEventKind::XmlDownloaded => Some(FileKind::Xml),
        InvoiceEventKind::PdfDownloaded => Some(FileKind::Pdf),
        _ => None,
    }
}

/// The kind of file to store for a crawler report; the other reports are
/// only logged.
pub fn delivered_file(e: InvoiceEventKind) -> (res: Option<FileKind>)
    ensures
        res == delivered(e),
{
    match e {
        InvoiceEventKind::XmlDownloaded => Some(FileKind::Xml),
        InvoiceEventKind::PdfDownloaded => Some(FileKind::Pdf),
        _ => None,
    }
}

/// The lowercase form of a text, as std's `str::to_lowercase` gives it.
pub uninterp spec fn unicode_lowercase(text: Seq<char>) -> Seq<char>;

/// Lowercases a text with std's `str::to_lowercase`.
/// Claimed: the result is the named lowercase form.
#[verifier::external_body]
fn lowercase(text: &str) -> (res: String)
    ensures
        res@ == unicode_lowercase(text@),
{
    text.to_lowercase()
}

/// `s` without its `,` and `$` characters.
pub open spec fn without_separators(s: Seq<char>) -> Seq<char> {
    s.filter(|c: char| c != ',' && c != '$')
}

/// Dropping separators removes every `,` and `$` and keeps a text that has
/// none unchanged.
pub proof fn separators_are_dropped(s: Seq<char>)
    ensures
        forall|i: int|
            0 <= i < without_separators(s).len() ==> #[trigger] without_separators(s)[i] != ','
                && without_separators(s)[i] != '$',
        without_separators(s).len() <= s.len(),
        (forall|i: int| 0 <= i < s.len() ==> #[trigger] s[i] != ',' && s[i] != '$') ==> without_separators(s) == s,
    decreases s.len(),
{
    broadcast use Seq::lemma_filter_push;
    s.filter_lemma(|c: char| c != ',' && c != '$');
    if s.len() > 0 {
        let t = s.drop_last();
        separators_are_dropped(t);
        assert(t.push(s.last()) =~= s);
        if forall|i: int| 0 <= i < s.len() ==> #[trigger] s[i] != ',' && s[i] != '$' {
            assert forall|i: int| 0 <= i < t.len() implies #[trigger] t[i] != ',' && t[i] != '$' by {
                assert(t[i] == s[i]);
            }
            assert(s.last() == s[s.len() - 1]);
        }
    } else {
        assert(without_separators(s) =~= s);
    }
}

/// The amount text of a SAT total: without thousands separators and dollar
/// signs, then trimmed of white space.
pub open spec fn sat_total_text(s: Seq<char>) -> Seq<char> {
    trim(without_separators(s))
}

/// The amount text of a SAT total (see `sat_total_text`), ready to be read
/// as a number.
pub fn clean_sat_total(s: &str) -> (res: String)
    ensures
        res@ == sat_total_text(s@),
{
    let chars = chars_of(s);
    let mut kept: Vec<char> = Vec::new();
    let mut i: usize = 0;
    while i < chars.len()
        invariant
            i <= chars.len(),
            chars@ == s@,
            kept@ == without_separators(chars@.subrange(0, i as int)),
        decreases chars.len() - i,
    {
        let c = chars[i];
        proof {
            let pre = chars@.subrange(0, i as int);
            assert(chars@.subrange(0, i + 1) == pre.push(c));
            pre.lemma_filter_push(c, |c: char| c != ',' && c != '$');
        }
        if c != ',' && c != '$' {
            kept.push(c);
        }
        i = i + 1;
    }
    assert(chars@.subrange(0, chars@.len() as int) == chars@);
    let (lo, hi) = trim_bounds(&kept);
    let mut out = String::new();
    push_chars(&mut out, &kept, lo, hi);
    assert(out@ =~= sat_total_text(s@));
    out
}


/// An invoice as the SAT portal lists it: every field is the portal's text.
#[derive(Debug, Clone)]
pub struct PortalInvoice {
    pub uuid: String,
    pub fiscal_id: String,
    pub issuer_tax_id: String,
    pub issuer_name: String,
    pub receiver_tax_id: String,
    pub receiver_name: String,
    pub issued_at: String,
    pub certified_at: String,
    pub total: String,
    pub invoice_type: String,
    pub invoice_status: String,
}

/// The fields of an invoice record that are read from the portal's texts.
#[derive(Debug, Clone)]
pub struct InvoiceFields {
    pub issued_at: Timestamp,
    pub certified_at: Timestamp,
    /// The total as amount text (see `sat_total_text`).
    pub total_text: String,
    /// The type, lowercased.
    pub invoice_type: String,
    /// The status, lowercased.
    pub invoice_status: String,
}

/// The first of an invoice's date texts that could not be read.
#[derive(Debug, Clone, Copy, PartialEq, Eq)]
pub enum UnreadableDate {
    IssuedAt,
    CertifiedAt,
}

/// Reads the record fields of a portal invoice: both dates (issue first),
/// the total's amount text and the lowercased type and status.
pub fn read_portal_invoice(inv: &PortalInvoice) -> (res: Result<InvoiceFields, UnreadableDate>)
    ensures
        match res {
            Ok(f) => {
                &&& sat_datetime(inv.issued_at@) == timestamp_instant(Some(f.issued_at))
                &&& sat_datetime(inv.certified_at@) == timestamp_instant(Some(f.certified_at))
                &&& f.total_text@ == sat_total_text(inv.total@)
                &&& f.invoice_type@ == unicode_lowercase(inv.invoice_type@)
                &&& f.invoice_status@ == unicode_lowercase(inv.invoice_status@)
            },
            Err(UnreadableDate::IssuedAt) => sat_datetime(inv.issued_at@) is None,
            Err(UnreadableDate::CertifiedAt) => {
                &&& sat_datetime(inv.issued_at@) is Some
                &&& sat_datetime(inv.certified_at@) is None
            },
        },
{
    let issued_at = match parse_sat_datetime(inv.issued_at.as_str()) {
        Some(t) => t,
        None => {
            return Err(UnreadableDate::IssuedAt);
        },
    };
    let certified_at = match parse_sat_datetime(inv.certified_at.as_str()) {
        Some(t) => t,
        None => {
            return Err(UnreadableDate::CertifiedAt);
        },
    };
    Ok(InvoiceFields {
        issued_at,
        certified_at,
        total_text: clean_sat_total(inv.total.as_str()),
        invoice_type: lowercase(inv.invoice_type.as_str()),
        invoice_status: lowercase(inv.invoice_status.as_str()),
    })
}

} // verus!
