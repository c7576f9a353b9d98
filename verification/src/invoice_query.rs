//! The filtering of invoice listings: which conditions a listing request
//! adds to the query, in which order, and with which bound values.
//!
//! A query is described as a sequence of pieces, literal SQL text and bound
//! values; the database layer appends them in order to its query builder,
//! which numbers the placeholders.

use vstd::prelude::*;
use vstd::seq_lib::lemma_concat_associative;

use crate::dates::Timestamp;
use crate::text::{push_char, push_str, string_of};

verus! {

/// An amount of money, carried as the bit pattern of the IEEE-754 double
/// that the listing request gave; the library only hands it on to the
/// query.
#[derive(Debug, Clone, Copy, PartialEq, Eq)]
pub struct Amount {
    pub bits: u64,
}

/// A value bound to a query placeholder.
#[derive(Debug, Clone)]
pub enum QueryValue {
    Int(i32),
    BigInt(i64),
    Text(String),
    Bool(bool),
    Instant(Timestamp),
    Float(Amount),
}

/// A query value as values.
pub enum QueryValueView {
    Int(i32),
    BigInt(i64),
    Text(Seq<char>),
    Bool(bool),
    Instant(Timestamp),
    Float(Amount),
}

impl View for QueryValue {
    type V = QueryValueView;

    open spec fn view(&self) -> QueryValueView {
        match self {
            QueryValue::Int(v) => QueryValueView::Int(*v),
            QueryValue::BigInt(v) => QueryValueView::BigInt(*v),
            QueryValue::Text(v) => QueryValueView::Text(v@),
            QueryValue::Bool(v) => QueryValueView::Bool(*v),
            QueryValue::Instant(v) => QueryValueView::Instant(*v),
            QueryValue::Float(v) => QueryValueView::Float(*v),
        }
    }
}

/// A piece of a query: literal SQL, or a value bound to a placeholder.
#[derive(Debug, Clone)]
pub enum QueryPiece {
    Sql(String),
    Bind(QueryValue),
}

/// A query piece as values.
pub enum QueryPieceView {
    Sql(Seq<char>),
    Bind(QueryValueView),
}

impl View for QueryPiece {
    type V = QueryPieceView;

    open spec fn view(&self) -> QueryPieceView {
        match self {
            QueryPiece::Sql(s) => QueryPieceView::Sql(s@),
            QueryPiece::Bind(v) => QueryPieceView::Bind(v@),
        }
    }
}

/// The pieces of a query as values.
pub open spec fn pieces_view(v: Seq<QueryPiece>) -> Seq<QueryPieceView> {
    v.map_values(|p: QueryPiece| p@)
}

/// The filters of an invoice listing; absent ones do not restrict it.
#[derive(Debug, Clone)]
pub struct InvoiceFilters {
    pub issuer_taxpayer_id: Option<String>,
    pub receiver_taxpayer_id: Option<String>,
    pub invoice_type: Option<String>,
    pub invoice_status: Option<String>,
    pub has_xml: Option<bool>,
    pub has_pdf: Option<bool>,
    pub uuid: Option<String>,
    pub fiscal_id: Option<String>,
    pub issuer_name: Option<String>,
    pub receiver_name: Option<String>,
    pub version: Option<String>,
    pub series: Option<String>,
    pub payment_form: Option<String>,
    pub currency: Option<String>,
    pub export: Option<String>,
    pub payment_method: Option<String>,
    pub issue_place: Option<String>,
    pub cfdi_use: Option<String>,
    pub issuer_fiscal_regime: Option<String>,
    pub recipient_fiscal_regime: Option<String>,
    pub parsed: Option<bool>,
    pub issuer_id: Option<i32>,
    pub receiver_id: Option<i32>,
    /// Either side (issuer or receiver) is this taxpayer.
    pub taxpayer_id: Option<i32>,
    pub issued_from: Option<Timestamp>,
    pub issued_to: Option<Timestamp>,
    pub total_min: Option<Amount>,
    pub total_max: Option<Amount>,
    /// Page requested (used by the listing, not by the filter).
    pub page: i64,
    /// Page size requested (used by the listing, not by the filter).
    pub per_page: i64,
}

/// `sql` then the text when given.
pub open spec fn text_eq(sql: Seq<char>, v: Option<String>) -> Seq<QueryPieceView> {
    match v {
        Some(x) => seq![QueryPieceView::Sql(sql), QueryPieceView::Bind(QueryValueView::Text(x@))],
        None => seq![],
    }
}

/// `sql` then the text wrapped in `%` (a substring pattern) when given.
pub open spec fn text_like(sql: Seq<char>, v: Option<String>) -> Seq<QueryPieceView> {
    match v {
        Some(x) => seq![
            QueryPieceView::Sql(sql),
            QueryPieceView::Bind(QueryValueView::Text(seq!['%'] + x@ + seq!['%'])),
        ],
        None => seq![],
    }
}

/// `sql` then the integer when given.
pub open spec fn int_eq(sql: Seq<char>, v: Option<i32>) -> Seq<QueryPieceView> {
    match v {
        Some(x) => seq![QueryPieceView::Sql(sql), QueryPieceView::Bind(QueryValueView::Int(x))],
        None => seq![],
    }
}

/// `sql` then the truth value when given.
pub open spec fn bool_eq(sql: Seq<char>, v: Option<bool>) -> Seq<QueryPieceView> {
    match v {
        Some(x) => seq![QueryPieceView::Sql(sql), QueryPieceView::Bind(QueryValueView::Bool(x))],
        None => seq![],
    }
}

/// `sql` then the instant when given.
pub open spec fn instant_cmp(sql: Seq<char>, v: Option<Timestamp>) -> Seq<QueryPieceView> {
    match v {
        Some(x) => seq![QueryPieceView::Sql(sql), QueryPieceView::Bind(QueryValueView::Instant(x))],
        None => seq![],
    }
}

/// `sql` then the amount when given.
pub open spec fn amount_cmp(sql: Seq<char>, v: Option<Amount>) -> Seq<QueryPieceView> {
    match v {
        Some(x) => seq![QueryPieceView::Sql(sql), QueryPieceView::Bind(QueryValueView::Float(x))],
        None => seq![],
    }
}

/// The condition that a file is (`true`) or is not attached.
pub open spec fn presence(present: Seq<char>, absent: Seq<char>, v: Option<bool>) -> Seq<QueryPieceView> {
    match v {
        Some(true) => seq![QueryPieceView::Sql(present)],
        Some(false) => seq![QueryPieceView::Sql(absent)],
        None => seq![],
    }
}

/// The condition that the taxpayer is the issuer or the receiver.
pub open spec fn either_side(v: Option<i32>) -> Seq<QueryPieceView> {
    match v {
        Some(x) => seq![
            QueryPieceView::Sql(" AND (issuer_id = "@),
            QueryPieceView::Bind(QueryValueView::Int(x)),
            QueryPieceView::Sql(" OR receiver_id = "@),
            QueryPieceView::Bind(QueryValueView::Int(x)),
            QueryPieceView::Sql(")"@),
        ],
        None => seq![],
    }
}

/// The restriction to the user's own invoices.
pub open spec fn user_restriction(user_id: i32) -> Seq<QueryPieceView> {
    seq![QueryPieceView::Sql(" WHERE user_id = "@), QueryPieceView::Bind(QueryValueView::Int(user_id))]
}

/// The `WHERE` clause of an invoice listing of a user with filters: the
/// restriction to the user, then one condition per filter given, in order.
pub open spec fn invoice_where(user_id: i32, f: InvoiceFilters) -> Seq<QueryPieceView> {
    user_restriction(user_id)
        + text_eq(" AND issuer_taxpayer_id = "@, f.issuer_taxpayer_id)
        + text_eq(" AND receiver_taxpayer_id = "@, f.receiver_taxpayer_id)
        + text_eq(" AND invoice_type::TEXT = "@, f.invoice_type)
        + text_eq(" AND invoice_status::TEXT = "@, f.invoice_status)
        + presence(" AND xml_file_id IS NOT NULL"@, " AND xml_file_id IS NULL"@, f.has_xml)
        + presence(" AND pdf_file_id IS NOT NULL"@, " AND pdf_file_id IS NULL"@, f.has_pdf)
        + text_eq(" AND uuid::TEXT = "@, f.uuid)
        + text_eq(" AND fiscal_id = "@, f.fiscal_id)
        + text_like(" AND issuer_name ILIKE "@, f.issuer_name)
        + text_like(" AND receiver_name ILIKE "@, f.receiver_name)
        + text_eq(" AND version = "@, f.version)
        + text_eq(" AND series = "@, f.series)
        + text_eq(" AND payment_form = "@, f.payment_form)
        + text_eq(" AND currency = "@, f.currency)
        + text_eq(" AND export = "@, f.export)
        + text_eq(" AND payment_method = "@, f.payment_method)
        + text_eq(" AND issue_place = "@, f.issue_place)
        + text_eq(" AND cfdi_use = "@, f.cfdi_use)
        + text_eq(" AND issuer_fiscal_regime = "@, f.issuer_fiscal_regime)
        + text_eq(" AND recipient_fiscal_regime = "@, f.recipient_fiscal_regime)
        + bool_eq(" AND parsed = "@, f.parsed)
        + int_eq(" AND issuer_id = "@, f.issuer_id)
        + int_eq(" AND receiver_id = "@, f.receiver_id)
        + instant_cmp(" AND issued_at >= "@, f.issued_from)
        + instant_cmp(" AND issued_at <= "@, f.issued_to)
        + amount_cmp(" AND total >= "@, f.total_min)
        + amount_cmp(" AND total <= "@, f.total_max)
        + either_side(f.taxpayer_id)
}

/// The ordering and page window of an invoice listing.
pub open spec fn page_window(limit: i64, offset: i64) -> Seq<QueryPieceView> {
    seq![
        QueryPieceView::Sql(" ORDER BY issued_at DESC LIMIT "@),
        QueryPieceView::Bind(QueryValueView::BigInt(limit)),
        QueryPieceView::Sql(" OFFSET "@),
        QueryPieceView::Bind(QueryValueView::BigInt(offset)),
    ]
}

fn push_piece(v: &mut Vec<QueryPiece>, p: QueryPiece)
    ensures
        pieces_view(final(v)@) == pieces_view(old(v)@).push(p@),
{
    v.push(p);
    assert(pieces_view(v@) =~= pieces_view(old(v)@).push(p@));
}

fn push_sql(v: &mut Vec<QueryPiece>, sql: &str)
    ensures
        pieces_view(final(v)@) == pieces_view(old(v)@).push(QueryPieceView::Sql(sql@)),
{
    push_piece(v, QueryPiece::Sql(string_of(sql)));
}

fn push_text_eq(v: &mut Vec<QueryPiece>, sql: &str, x: &Option<String>)
    ensures
        pieces_view(final(v)@) == pieces_view(old(v)@) + text_eq(sql@, *x),
{
    match x {
        Some(t) => {
            push_sql(v, sql);
            push_piece(v, QueryPiece::Bind(QueryValue::Text(t.clone())));
        },
        None => {},
    }
    assert(pieces_view(v@) =~= pieces_view(old(v)@) + text_eq(sql@, *x));
}

fn push_text_like(v: &mut Vec<QueryPiece>, sql: &str, x: &Option<String>)
    ensures
        pieces_view(final(v)@) == pieces_view(old(v)@) + text_like(sql@, *x),
{
    match x {
        Some(t) => {
            push_sql(v, sql);
            let mut pattern = String::new();
            push_char(&mut pattern, '%');
            push_str(&mut pattern, t.as_str());
            push_char(&mut pattern, '%');
            assert(pattern@ =~= seq!['%'] + t@ + seq!['%']);
            push_piece(v, QueryPiece::Bind(QueryValue::Text(pattern)));
        },
        None => {},
    }
    assert(pieces_view(v@) =~= pieces_view(old(v)@) + text_like(sql@, *x));
}

fn push_int_eq(v: &mut Vec<QueryPiece>, sql: &str, x: Option<i32>)
    ensures
        pieces_view(final(v)@) == pieces_view(old(v)@) + int_eq(sql@, x),
{
    match x {
        Some(t) => {
            push_sql(v, sql);
            push_piece(v, QueryPiece::Bind(QueryValue::Int(t)));
        },
        None => {},
    }
    assert(pieces_view(v@) =~= pieces_view(old(v)@) + int_eq(sql@, x));
}

fn push_bool_eq(v: &mut Vec<QueryPiece>, sql: &str, x: Option<bool>)
    ensures
        pieces_view(final(v)@) == pieces_view(old(v)@) + bool_eq(sql@, x),
{
    match x {
        Some(t) => {
            push_sql(v, sql);
            push_piece(v, QueryPiece::Bind(QueryValue::Bool(t)));
        },
        None => {},
    }
    assert(pieces_view(v@) =~= pieces_view(old(v)@) + bool_eq(sql@, x));
}

fn push_instant_cmp(v: &mut Vec<QueryPiece>, sql: &str, x: Option<Timestamp>)
    ensures
        pieces_view(final(v)@) == pieces_view(old(v)@) + instant_cmp(sql@, x),
{
    match x {
        Some(t) => {
            push_sql(v, sql);
            push_piece(v, QueryPiece::Bind(QueryValue::Instant(t)));
        },
        None => {},
    }
    assert(pieces_view(v@) =~= pieces_view(old(v)@) + instant_cmp(sql@, x));
}

fn push_amount_cmp(v: &mut Vec<QueryPiece>, sql: &str, x: Option<Amount>)
    ensures
        pieces_view(final(v)@) == pieces_view(old(v)@) + amount_cmp(sql@, x),
{
    match x {
        Some(t) => {
            push_sql(v, sql);
            push_piece(v, QueryPiece::Bind(QueryValue::Float(t)));
        },
        None => {},
    }
    assert(pieces_view(v@) =~= pieces_view(old(v)@) + amount_cmp(sql@, x));
}

fn push_presence(v: &mut Vec<QueryPiece>, present: &str, absent: &str, x: Option<bool>)
    ensures
        pieces_view(final(v)@) == pieces_view(old(v)@) + presence(present@, absent@, x),
{
    match x {
        Some(true) => push_sql(v, present),
        Some(false) => push_sql(v, absent),
        None => {},
    }
    assert(pieces_view(v@) =~= pieces_view(old(v)@) + presence(present@, absent@, x));
}

fn push_either_side(v: &mut Vec<QueryPiece>, x: Option<i32>)
    ensures
        pieces_view(final(v)@) == pieces_view(old(v)@) + either_side(x),
{
    match x {
        Some(t) => {
            push_sql(v, " AND (issuer_id = ");
            push_piece(v, QueryPiece::Bind(QueryValue::Int(t)));
            push_sql(v, " OR receiver_id = ");
            push_piece(v, QueryPiece::Bind(QueryValue::Int(t)));
            push_sql(v, ")");
        },
        None => {},
    }
    assert(pieces_view(v@) =~= pieces_view(old(v)@) + either_side(x));
}

/// The `WHERE` clause of a user's invoice listing with the filters (see
/// `invoice_where`): the user restriction, then one condition per filter
/// given.
pub fn invoice_where_pieces(user_id: i32, f: &InvoiceFilters) -> (res: Vec<QueryPiece>)
    ensures
        pieces_view(res@) == invoice_where(user_id, *f),
{
    let mut v: Vec<QueryPiece> = Vec::new();
    push_sql(&mut v, " WHERE user_id = ");
    push_piece(&mut v, QueryPiece::Bind(QueryValue::Int(user_id)));
    assert(pieces_view(v@) =~= user_restriction(user_id));
    push_text_eq(&mut v, " AND issuer_taxpayer_id = ", &f.issuer_taxpayer_id);
    push_text_eq(&mut v, " AND receiver_taxpayer_id = ", &f.receiver_taxpayer_id);
    push_text_eq(&mut v, " AND invoice_type::TEXT = ", &f.invoice_type);
    push_text_eq(&mut v, " AND invoice_status::TEXT = ", &f.invoice_status);
    push_presence(&mut v, " AND xml_file_id IS NOT NULL", " AND xml_file_id IS NULL", f.has_xml);
    push_presence(&mut v, " AND pdf_file_id IS NOT NULL", " AND pdf_file_id IS NULL", f.has_pdf);
    push_text_eq(&mut v, " AND uuid::TEXT = ", &f.uuid);
    push_text_eq(&mut v, " AND fiscal_id = ", &f.fiscal_id);
    push_text_like(&mut v, " AND issuer_name ILIKE ", &f.issuer_name);
    push_text_like(&mut v, " AND receiver_name ILIKE ", &f.receiver_name);
    push_text_eq(&mut v, " AND version = ", &f.version);
    push_text_eq(&mut v, " AND series = ", &f.series);
    push_text_eq(&mut v, " AND payment_form = ", &f.payment_form);
    push_text_eq(&mut v, " AND currency = ", &f.currency);
    push_text_eq(&mut v, " AND export = ", &f.export);
    push_text_eq(&mut v, " AND payment_method = ", &f.payment_method);
    push_text_eq(&mut v, " AND issue_place = ", &f.issue_place);
    push_text_eq(&mut v, " AND cfdi_use = ", &f.cfdi_use);
    push_text_eq(&mut v, " AND issuer_fiscal_regime = ", &f.issuer_fiscal_regime);
    push_text_eq(&mut v, " AND recipient_fiscal_regime = ", &f.recipient_fiscal_regime);
    push_bool_eq(&mut v, " AND parsed = ", f.parsed);
    push_int_eq(&mut v, " AND issuer_id = ", f.issuer_id);
    push_int_eq(&mut v, " AND receiver_id = ", f.receiver_id);
    push_instant_cmp(&mut v, " AND issued_at >= ", f.issued_from);
    push_instant_cmp(&mut v, " AND issued_at <= ", f.issued_to);
    push_amount_cmp(&mut v, " AND total >= ", f.total_min);
    push_amount_cmp(&mut v, " AND total <= ", f.total_max);
    push_either_side(&mut v, f.taxpayer_id);
    v
}

/// The ordering (newest issued first) and page window of an invoice
/// listing.
pub fn page_window_pieces(limit: i64, offset: i64) -> (res: Vec<QueryPiece>)
    ensures
        pieces_view(res@) == page_window(limit, offset),
{
    let mut v: Vec<QueryPiece> = Vec::new();
    push_sql(&mut v, " ORDER BY issued_at DESC LIMIT ");
    push_piece(&mut v, QueryPiece::Bind(QueryValue::BigInt(limit)));
    push_sql(&mut v, " OFFSET ");
    push_piece(&mut v, QueryPiece::Bind(QueryValue::BigInt(offset)));
    assert(pieces_view(v@) =~= page_window(limit, offset));
    v
}

/// The extra condition of the listing of invoices to parse: without
/// `force`, only those not yet parsed successfully.
pub open spec fn unparsed_condition(force: bool) -> Seq<char> {
    if force {
        ""@
    } else {
        " AND (parsed IS NULL OR parsed = FALSE)"@
    }
}

/// The extra condition of the listing of invoices to parse (see
/// `unparsed_condition`).
pub fn parse_listing_condition(force: bool) -> (res: String)
    ensures
        res@ == unparsed_condition(force),
{
    if force {
        string_of("")
    } else {
        string_of(" AND (parsed IS NULL OR parsed = FALSE)")
    }
}

/// A listing is confined to the user's invoices: whatever the filters, the
/// clause begins with the restriction to the user.
pub proof fn listing_is_confined_to_user(user_id: i32, f: InvoiceFilters)
    ensures
        invoice_where(user_id, f).subrange(0, 2) == user_restriction(user_id),
{
    assert(invoice_where(user_id, f).subrange(0, 2) =~= user_restriction(user_id));
}

/// The conditions of a listing that follow the file presence conditions.
spec fn conditions_after_files(f: InvoiceFilters) -> Seq<QueryPieceView> {
    text_eq(" AND uuid::TEXT = "@, f.uuid)
        + text_eq(" AND fiscal_id = "@, f.fiscal_id)
        + text_like(" AND issuer_name ILIKE "@, f.issuer_name)
        + text_like(" AND receiver_name ILIKE "@, f.receiver_name)
        + text_eq(" AND version = "@, f.version)
        + text_eq(" AND series = "@, f.series)
        + text_eq(" AND payment_form = "@, f.payment_form)
        + text_eq(" AND currency = "@, f.currency)
        + text_eq(" AND export = "@, f.export)
        + text_eq(" AND payment_method = "@, f.payment_method)
        + text_eq(" AND issue_place = "@, f.issue_place)
        + text_eq(" AND cfdi_use = "@, f.cfdi_use)
        + text_eq(" AND issuer_fiscal_regime = "@, f.issuer_fiscal_regime)
        + text_eq(" AND recipient_fiscal_regime = "@, f.recipient_fiscal_regime)
        + bool_eq(" AND parsed = "@, f.parsed)
        + int_eq(" AND issuer_id = "@, f.issuer_id)
        + int_eq(" AND receiver_id = "@, f.receiver_id)
        + instant_cmp(" AND issued_at >= "@, f.issued_from)
        + instant_cmp(" AND issued_at <= "@, f.issued_to)
        + amount_cmp(" AND total >= "@, f.total_min)
        + amount_cmp(" AND total <= "@, f.total_max)
        + either_side(f.taxpayer_id)
}

/// The conditions of a listing that come before the file presence
/// conditions.
spec fn conditions_before_files(user_id: i32, f: InvoiceFilters) -> Seq<QueryPieceView> {
    user_restriction(user_id)
        + text_eq(" AND issuer_taxpayer_id = "@, f.issuer_taxpayer_id)
        + text_eq(" AND receiver_taxpayer_id = "@, f.receiver_taxpayer_id)
        + text_eq(" AND invoice_type::TEXT = "@, f.invoice_type)
        + text_eq(" AND invoice_status::TEXT = "@, f.invoice_status)
}

/// The listing clause split around its file presence conditions.
proof fn where_around_files(user_id: i32, f: InvoiceFilters)
    ensures
        invoice_where(user_id, f) == conditions_before_files(user_id, f)
            + presence(" AND xml_file_id IS NOT NULL"@, " AND xml_file_id IS NULL"@, f.has_xml)
            + presence(" AND pdf_file_id IS NOT NULL"@, " AND pdf_file_id IS NULL"@, f.has_pdf)
            + conditions_after_files(f),
{
    let x = conditions_before_files(user_id, f)
        + presence(" AND xml_file_id IS NOT NULL"@, " AND xml_file_id IS NULL"@, f.has_xml)
        + presence(" AND pdf_file_id IS NOT NULL"@, " AND pdf_file_id IS NULL"@, f.has_pdf);
    let s1 = text_eq(" AND uuid::TEXT = "@, f.uuid);
    let s2 = s1 + text_eq(" AND fiscal_id = "@, f.fiscal_id);
    lemma_concat_associative(x, s1, text_eq(" AND fiscal_id = "@, f.fiscal_id));
    let s3 = s2 + text_like(" AND issuer_name ILIKE "@, f.issuer_name);
    lemma_concat_associative(x, s2, text_like(" AND issuer_name ILIKE "@, f.issuer_name));
    let s4 = s3 + text_like(" AND receiver_name ILIKE "@, f.receiver_name);
    lemma_concat_associative(x, s3, text_like(" AND receiver_name ILIKE "@, f.receiver_name));
    let s5 = s4 + text_eq(" AND version = "@, f.version);
    lemma_concat_associative(x, s4, text_eq(" AND version = "@, f.version));
    let s6 = s5 + text_eq(" AND series = "@, f.series);
    lemma_concat_associative(x, s5, text_eq(" AND series = "@, f.series));
    let s7 = s6 + text_eq(" AND payment_form = "@, f.payment_form);
    lemma_concat_associative(x, s6, text_eq(" AND payment_form = "@, f.payment_form));
    let s8 = s7 + text_eq(" AND currency = "@, f.currency);
    lemma_concat_associative(x, s7, text_eq(" AND currency = "@, f.currency));
    let s9 = s8 + text_eq(" AND export = "@, f.export);
    lemma_concat_associative(x, s8, text_eq(" AND export = "@, f.export));
    let s10 = s9 + text_eq(" AND payment_method = "@, f.payment_method);
    lemma_concat_associative(x, s9, text_eq(" AND payment_method = "@, f.payment_method));
    let s11 = s10 + text_eq(" AND issue_place = "@, f.issue_place);
    lemma_concat_associative(x, s10, text_eq(" AND issue_place = "@, f.issue_place));
    let s12 = s11 + text_eq(" AND cfdi_use = "@, f.cfdi_use);
    lemma_concat_associative(x, s11, text_eq(" AND cfdi_use = "@, f.cfdi_use));
    let s13 = s12 + text_eq(" AND issuer_fiscal_regime = "@, f.issuer_fiscal_regime);
    lemma_concat_associative(x, s12, text_eq(" AND issuer_fiscal_regime = "@, f.issuer_fiscal_regime));
    let s14 = s13 + text_eq(" AND recipient_fiscal_regime = "@, f.recipient_fiscal_regime);
    lemma_concat_associative(x, s13, text_eq(" AND recipient_fiscal_regime = "@, f.recipient_fiscal_regime));
    let s15 = s14 + bool_eq(" AND parsed = "@, f.parsed);
    lemma_concat_associative(x, s14, bool_eq(" AND parsed = "@, f.parsed));
    let s16 = s15 + int_eq(" AND issuer_id = "@, f.issuer_id);
    lemma_concat_associative(x, s15, int_eq(" AND issuer_id = "@, f.issuer_id));
    let s17 = s16 + int_eq(" AND receiver_id = "@, f.receiver_id);
    lemma_concat_associative(x, s16, int_eq(" AND receiver_id = "@, f.receiver_id));
    let s18 = s17 + instant_cmp(" AND issued_at >= "@, f.issued_from);
    lemma_concat_associative(x, s17, instant_cmp(" AND issued_at >= "@, f.issued_from));
    let s19 = s18 + instant_cmp(" AND issued_at <= "@, f.issued_to);
    lemma_concat_associative(x, s18, instant_cmp(" AND issued_at <= "@, f.issued_to));
    let s20 = s19 + amount_cmp(" AND total >= "@, f.total_min);
    lemma_concat_associative(x, s19, amount_cmp(" AND total >= "@, f.total_min));
    let s21 = s20 + amount_cmp(" AND total <= "@, f.total_max);
    lemma_concat_associative(x, s20, amount_cmp(" AND total <= "@, f.total_max));
    let s22 = s21 + either_side(f.taxpayer_id);
    lemma_concat_associative(x, s21, either_side(f.taxpayer_id));
    assert(invoice_where(user_id, f) =~= x + s22);
    assert(conditions_after_files(f) == s22);
}

/// A presence filter chooses between complementary conditions: asking for
/// invoices with an XML file (`has_xml = true`) adds the one condition
/// ` AND xml_file_id IS NOT NULL`, asking for those without one
/// (`has_xml = false`) puts ` AND xml_file_id IS NULL` in its place, and
/// leaving the filter out drops that condition and changes nothing else.
pub proof fn xml_presence_is_complementary(user_id: i32, f: InvoiceFilters)
    ensures
        ({
            let with = invoice_where(user_id, InvoiceFilters { has_xml: Some(true), ..f });
            let without = invoice_where(user_id, InvoiceFilters { has_xml: Some(false), ..f });
            let any = invoice_where(user_id, InvoiceFilters { has_xml: None, ..f });
            exists|i: int|
                0 <= i < with.len() && with[i] == QueryPieceView::Sql(" AND xml_file_id IS NOT NULL"@)
                    && without == with.update(i, QueryPieceView::Sql(" AND xml_file_id IS NULL"@))
                    && any == with.remove(i)
        }),
{
    let before = conditions_before_files(user_id, f);
    let after = presence(" AND pdf_file_id IS NOT NULL"@, " AND pdf_file_id IS NULL"@, f.has_pdf)
        + conditions_after_files(f);
    where_around_files(user_id, InvoiceFilters { has_xml: Some(true), ..f });
    where_around_files(user_id, InvoiceFilters { has_xml: Some(false), ..f });
    where_around_files(user_id, InvoiceFilters { has_xml: None, ..f });
    assert(conditions_before_files(user_id, InvoiceFilters { has_xml: Some(true), ..f }) == before);
    assert(conditions_before_files(user_id, InvoiceFilters { has_xml: Some(false), ..f }) == before);
    assert(conditions_before_files(user_id, InvoiceFilters { has_xml: None, ..f }) == before);
    assert(conditions_after_files(InvoiceFilters { has_xml: Some(true), ..f }) == conditions_after_files(f));
    assert(conditions_after_files(InvoiceFilters { has_xml: Some(false), ..f }) == conditions_after_files(f));
    assert(conditions_after_files(InvoiceFilters { has_xml: None, ..f }) == conditions_after_files(f));
    one_condition_in_place(
        before,
        presence(" AND pdf_file_id IS NOT NULL"@, " AND pdf_file_id IS NULL"@, f.has_pdf),
        conditions_after_files(f),
        QueryPieceView::Sql(" AND xml_file_id IS NOT NULL"@),
        QueryPieceView::Sql(" AND xml_file_id IS NULL"@),
    );
}

/// Swapping, or dropping, one condition between fixed neighbours.
proof fn one_condition_in_place(
    a: Seq<QueryPieceView>,
    b: Seq<QueryPieceView>,
    c: Seq<QueryPieceView>,
    x: QueryPieceView,
    y: QueryPieceView,
)
    ensures
        ({
            let with = a + seq![x] + b + c;
            &&& 0 <= a.len() < with.len()
            &&& with[a.len() as int] == x
            &&& a + seq![y] + b + c == with.update(a.len() as int, y)
            &&& a + seq![] + b + c == with.remove(a.len() as int)
        }),
{
    let with = a + seq![x] + b + c;
    assert(a + seq![y] + b + c =~= with.update(a.len() as int, y));
    assert(a + seq![] + b + c =~= with.remove(a.len() as int));
}

/// The PDF presence filter chooses between complementary conditions in the
/// same way: ` AND pdf_file_id IS NOT NULL` for invoices with a PDF file,
/// ` AND pdf_file_id IS NULL` in its place for those without one, and
/// nothing else changed when the filter is left out.
pub proof fn pdf_presence_is_complementary(user_id: i32, f: InvoiceFilters)
    ensures
        ({
            let with = invoice_where(user_id, InvoiceFilters { has_pdf: Some(true), ..f });
            let without = invoice_where(user_id, InvoiceFilters { has_pdf: Some(false), ..f });
            let any = invoice_where(user_id, InvoiceFilters { has_pdf: None, ..f });
            exists|i: int|
                0 <= i < with.len() && with[i] == QueryPieceView::Sql(" AND pdf_file_id IS NOT NULL"@)
                    && without == with.update(i, QueryPieceView::Sql(" AND pdf_file_id IS NULL"@))
                    && any == with.remove(i)
        }),
{
    let before = conditions_before_files(user_id, f)
        + presence(" AND xml_file_id IS NOT NULL"@, " AND xml_file_id IS NULL"@, f.has_xml);
    let after = conditions_after_files(f);
    let present = QueryPieceView::Sql(" AND pdf_file_id IS NOT NULL"@);
    let absent = QueryPieceView::Sql(" AND pdf_file_id IS NULL"@);
    where_around_files(user_id, InvoiceFilters { has_pdf: Some(true), ..f });
    where_around_files(user_id, InvoiceFilters { has_pdf: Some(false), ..f });
    where_around_files(user_id, InvoiceFilters { has_pdf: None, ..f });
    assert(conditions_before_files(user_id, InvoiceFilters { has_pdf: Some(true), ..f }) == conditions_before_files(user_id, f));
    assert(conditions_before_files(user_id, InvoiceFilters { has_pdf: Some(false), ..f }) == conditions_before_files(user_id, f));
    assert(conditions_before_files(user_id, InvoiceFilters { has_pdf: None, ..f }) == conditions_before_files(user_id, f));
    assert(conditions_after_files(InvoiceFilters { has_pdf: Some(true), ..f }) == after);
    assert(conditions_after_files(InvoiceFilters { has_pdf: Some(false), ..f }) == after);
    assert(conditions_after_files(InvoiceFilters { has_pdf: None, ..f }) == after);
    one_condition_in_place(before, seq![], after, present, absent);
    assert(before + seq![present] + seq![] =~= before + seq![present]);
    assert(before + seq![absent] + seq![] =~= before + seq![absent]);
    assert(before + seq![] + seq![] =~= before + seq![]);
}

/// A listing without filters keeps only the restriction to the user.
pub proof fn unfiltered_listing_only_restricts_user(user_id: i32, f: InvoiceFilters)
    requires
        f.issuer_taxpayer_id is None, f.receiver_taxpayer_id is None, f.invoice_type is None,
        f.invoice_status is None, f.has_xml is None, f.has_pdf is None, f.uuid is None,
        f.fiscal_id is None, f.issuer_name is None, f.receiver_name is None, f.version is None,
        f.series is None, f.payment_form is None, f.currency is None, f.export is None,
        f.payment_method is None, f.issue_place is None, f.cfdi_use is None,
        f.issuer_fiscal_regime is None, f.recipient_fiscal_regime is None, f.parsed is None,
        f.issuer_id is None, f.receiver_id is None, f.taxpayer_id is None, f.issued_from is None,
        f.issued_to is None, f.total_min is None, f.total_max is None,
    ensures
        invoice_where(user_id, f) == seq![
            QueryPieceView::Sql(" WHERE user_id = "@),
            QueryPieceView::Bind(QueryValueView::Int(user_id)),
        ],
{
    assert(invoice_where(user_id, f) =~= user_restriction(user_id));
}

} // verus!
