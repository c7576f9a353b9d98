use sat_api::dates::{parse_sat_datetime, parse_with_format, Timestamp};
use sat_api::downloads::{
    clean_sat_total, delivered_file, file_extension, file_kind, read_portal_invoice, should_download,
    FileKind, InvoiceEventKind, PortalInvoice, StoredFiles, UnreadableDate,
};

fn ts(secs: i64) -> Option<Timestamp> {
    Some(Timestamp { secs, nanos: 0 })
}

#[test]
fn sat_datetime_forms() {
    // 2024-01-15 10:30:00 UTC
    assert_eq!(parse_sat_datetime("2024-01-15T10:30:00Z"), ts(1705314600));
    assert_eq!(parse_sat_datetime("2024-01-15T10:30:00-06:00"), ts(1705314600 + 6 * 3600));
    assert_eq!(parse_sat_datetime("2024-01-15T10:30:00"), ts(1705314600));
    assert_eq!(parse_sat_datetime("2024-01-15 10:30:00"), ts(1705314600));
    assert_eq!(parse_sat_datetime("15/01/2024 10:30:00"), ts(1705314600));
    assert_eq!(parse_sat_datetime("15/01/2024"), ts(1705276800));
    assert_eq!(parse_sat_datetime("1970-01-01T00:00:00"), ts(0));
    assert_eq!(parse_sat_datetime("31/12/1969"), ts(-86400));
    assert_eq!(
        parse_sat_datetime("2024-01-15T10:30:00.25Z"),
        Some(Timestamp { secs: 1705314600, nanos: 250_000_000 })
    );
    assert_eq!(parse_sat_datetime("not a date"), None);
    assert_eq!(parse_sat_datetime(""), None);
    assert_eq!(parse_sat_datetime("2024-13-01T00:00:00"), None);
}

#[test]
fn single_format_reads_date_at_midnight() {
    assert_eq!(parse_with_format("01/01/2026", "%d/%m/%Y"), ts(1767225600));
    assert_eq!(parse_with_format("01/01/2026", "%Y-%m-%d"), None);
}

#[test]
fn totals_lose_separators() {
    assert_eq!(clean_sat_total("$1,234.50"), "1234.50");
    assert_eq!(clean_sat_total("  $ 12,000.00 "), "12000.00");
    assert_eq!(clean_sat_total("99"), "99");
    assert_eq!(clean_sat_total(",$"), "");
    assert_eq!(clean_sat_total("$1,234.50").parse::<f64>().unwrap(), 1234.5);
}

#[test]
fn download_decision() {
    assert!(should_download(None));
    assert!(should_download(Some(StoredFiles { has_xml: true, has_pdf: false })));
    assert!(should_download(Some(StoredFiles { has_xml: false, has_pdf: true })));
    assert!(should_download(Some(StoredFiles { has_xml: false, has_pdf: false })));
    assert!(!should_download(Some(StoredFiles { has_xml: true, has_pdf: true })));
}

#[test]
fn file_kinds() {
    assert_eq!(file_kind("xml"), Some(FileKind::Xml));
    assert_eq!(file_kind("pdf"), Some(FileKind::Pdf));
    assert_eq!(file_kind("txt"), None);
    assert_eq!(file_kind("XML"), None);
    assert_eq!(file_extension(FileKind::Xml), "xml");
    assert_eq!(file_extension(FileKind::Pdf), "pdf");
    assert_eq!(delivered_file(InvoiceEventKind::XmlDownloaded), Some(FileKind::Xml));
    assert_eq!(delivered_file(InvoiceEventKind::PdfDownloaded), Some(FileKind::Pdf));
    assert_eq!(delivered_file(InvoiceEventKind::XmlDownloadFailed), None);
    assert_eq!(delivered_file(InvoiceEventKind::PdfDownloadFailed), None);
    assert_eq!(delivered_file(InvoiceEventKind::Skipped), None);
}

fn portal(issued: &str, certified: &str) -> PortalInvoice {
    PortalInvoice {
        uuid: "0f3c6a1e-1111-2222-3333-444455556666".to_string(),
        fiscal_id: "A-1".to_string(),
        issuer_tax_id: "AAA010101AAA".to_string(),
        issuer_name: "Emisor".to_string(),
        receiver_tax_id: "BBB010101BBB".to_string(),
        receiver_name: "Receptor".to_string(),
        issued_at: issued.to_string(),
        certified_at: certified.to_string(),
        total: "$1,160.00".to_string(),
        invoice_type: "Ingreso".to_string(),
        invoice_status: "VIGENTE".to_string(),
    }
}

#[test]
fn portal_invoice_fields() {
    let f = read_portal_invoice(&portal("2024-01-15T10:30:00", "15/01/2024 10:31:00")).unwrap();
    assert_eq!(f.issued_at, Timestamp { secs: 1705314600, nanos: 0 });
    assert_eq!(f.certified_at, Timestamp { secs: 1705314660, nanos: 0 });
    assert_eq!(f.total_text, "1160.00");
    assert_eq!(f.invoice_type, "ingreso");
    assert_eq!(f.invoice_status, "vigente");
    assert_eq!(
        read_portal_invoice(&portal("yesterday", "15/01/2024")).unwrap_err(),
        UnreadableDate::IssuedAt
    );
    assert_eq!(
        read_portal_invoice(&portal("15/01/2024", "tomorrow")).unwrap_err(),
        UnreadableDate::CertifiedAt
    );
}
