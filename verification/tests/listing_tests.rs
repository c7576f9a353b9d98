use sat_api::dates::Timestamp;
use sat_api::grouping::{children_of, group_by_parent};
use sat_api::invoice_query::{
    invoice_where_pieces, page_window_pieces, parse_listing_condition, Amount, InvoiceFilters,
    QueryPiece, QueryValue,
};

fn empty_filters() -> InvoiceFilters {
    InvoiceFilters {
        issuer_taxpayer_id: None,
        receiver_taxpayer_id: None,
        invoice_type: None,
        invoice_status: None,
        has_xml: None,
        has_pdf: None,
        uuid: None,
        fiscal_id: None,
        issuer_name: None,
        receiver_name: None,
        version: None,
        series: None,
        payment_form: None,
        currency: None,
        export: None,
        payment_method: None,
        issue_place: None,
        cfdi_use: None,
        issuer_fiscal_regime: None,
        recipient_fiscal_regime: None,
        parsed: None,
        issuer_id: None,
        receiver_id: None,
        taxpayer_id: None,
        issued_from: None,
        issued_to: None,
        total_min: None,
        total_max: None,
        page: 1,
        per_page: 20,
    }
}

/// Renders pieces the way the query builder numbers placeholders.
fn render(pieces: &[QueryPiece], first: usize) -> (String, Vec<String>) {
    let mut sql = String::new();
    let mut binds = Vec::new();
    let mut n = first;
    for p in pieces {
        match p {
            QueryPiece::Sql(s) => sql.push_str(s),
            QueryPiece::Bind(v) => {
                sql.push_str(&format!("${n}"));
                n += 1;
                binds.push(match v {
                    QueryValue::Int(i) => format!("int {i}"),
                    QueryValue::BigInt(i) => format!("bigint {i}"),
                    QueryValue::Text(t) => format!("text {t}"),
                    QueryValue::Bool(b) => format!("bool {b}"),
                    QueryValue::Instant(t) => format!("instant {}", t.secs),
                    QueryValue::Float(a) => format!("float {}", f64::from_bits(a.bits)),
                });
            }
        }
    }
    (sql, binds)
}

#[test]
fn no_filters_only_restricts_user() {
    let (sql, binds) = render(&invoice_where_pieces(4, &empty_filters()), 1);
    assert_eq!(sql, " WHERE user_id = $1");
    assert_eq!(binds, vec!["int 4"]);
}

#[test]
fn filters_in_order() {
    let mut f = empty_filters();
    f.issuer_taxpayer_id = Some("AAA010101AAA".to_string());
    f.has_xml = Some(true);
    f.has_pdf = Some(false);
    f.issuer_name = Some("Acme".to_string());
    f.parsed = Some(false);
    f.issued_from = Some(Timestamp { secs: 100, nanos: 0 });
    f.total_max = Some(Amount { bits: 1500.5f64.to_bits() });
    f.taxpayer_id = Some(8);
    let (sql, binds) = render(&invoice_where_pieces(4, &f), 1);
    assert_eq!(
        sql,
        " WHERE user_id = $1 AND issuer_taxpayer_id = $2 AND xml_file_id IS NOT NULL AND pdf_file_id IS NULL \
AND issuer_name ILIKE $3 AND parsed = $4 AND issued_at >= $5 AND total <= $6 AND (issuer_id = $7 OR receiver_id = $8)"
    );
    assert_eq!(
        binds,
        vec![
            "int 4",
            "text AAA010101AAA",
            "text %Acme%",
            "bool false",
            "instant 100",
            "float 1500.5",
            "int 8",
            "int 8"
        ]
    );
}

#[test]
fn every_scalar_filter() {
    let mut f = empty_filters();
    f.receiver_taxpayer_id = Some("r".to_string());
    f.invoice_type = Some("ingreso".to_string());
    f.invoice_status = Some("vigente".to_string());
    f.uuid = Some("u".to_string());
    f.fiscal_id = Some("F1".to_string());
    f.receiver_name = Some("Beta".to_string());
    f.version = Some("4.0".to_string());
    f.series = Some("A".to_string());
    f.payment_form = Some("03".to_string());
    f.currency = Some("MXN".to_string());
    f.export = Some("01".to_string());
    f.payment_method = Some("PUE".to_string());
    f.issue_place = Some("64000".to_string());
    f.cfdi_use = Some("G03".to_string());
    f.issuer_fiscal_regime = Some("601".to_string());
    f.recipient_fiscal_regime = Some("612".to_string());
    f.issuer_id = Some(1);
    f.receiver_id = Some(2);
    f.issued_to = Some(Timestamp { secs: 5, nanos: 0 });
    f.total_min = Some(Amount { bits: 1.0f64.to_bits() });
    let (sql, binds) = render(&invoice_where_pieces(4, &f), 1);
    assert_eq!(
        sql,
        " WHERE user_id = $1 AND receiver_taxpayer_id = $2 AND invoice_type::TEXT = $3 AND invoice_status::TEXT = $4 \
AND uuid::TEXT = $5 AND fiscal_id = $6 AND receiver_name ILIKE $7 AND version = $8 AND series = $9 \
AND payment_form = $10 AND currency = $11 AND export = $12 AND payment_method = $13 AND issue_place = $14 \
AND cfdi_use = $15 AND issuer_fiscal_regime = $16 AND recipient_fiscal_regime = $17 AND issuer_id = $18 \
AND receiver_id = $19 AND issued_at <= $20 AND total >= $21"
    );
    assert_eq!(binds.len(), 21);
    assert_eq!(binds[6], "text %Beta%");
}

#[test]
fn page_window() {
    let (sql, binds) = render(&page_window_pieces(20, 40), 2);
    assert_eq!(sql, " ORDER BY issued_at DESC LIMIT $2 OFFSET $3");
    assert_eq!(binds, vec!["bigint 20", "bigint 40"]);
}

#[test]
fn parse_listing_extra_condition() {
    assert_eq!(parse_listing_condition(true), "");
    assert_eq!(parse_listing_condition(false), " AND (parsed IS NULL OR parsed = FALSE)");
}

#[test]
fn grouping_children() {
    let parents = vec![10, 20, 30];
    let children = vec![20, 10, 20, 40, 10];
    assert_eq!(group_by_parent(&parents, &children), vec![vec![1, 4], vec![0, 2], vec![]]);
    assert_eq!(children_of(&children, 40), vec![3]);
    assert_eq!(group_by_parent(&vec![], &children), Vec::<Vec<usize>>::new());
    assert_eq!(group_by_parent(&parents, &vec![]), vec![Vec::<usize>::new(); 3]);
}
