//! Reading the tuples of a dump, by the `parse_mediawiki_sql` crate.

use vstd::prelude::*;
use crate::locate::has_marker;
use crate::value::{Value, ValueView, tuples_view};

verus! {

/// How reading a dump ended.
#[derive(Clone, Copy, Debug, PartialEq, Eq, Structural)]
pub enum ScanEnd {
    /// What followed the last tuple read was not taken as a further tuple;
    /// `rest` bytes of the dump, counted from its end, were left unread.
    Stopped { rest: usize },
    /// The dump ended where the reader asked for more bytes.
    Incomplete,
    /// A tuple was opened, and its values were not those of a row.
    Failed,
}

/// What was read from a dump: its tuples in the order of the dump, each
/// reduced to the columns that are written out, and how reading ended.
#[derive(Clone, Debug)]
pub struct Scan {
    pub tuples: Vec<Vec<Value>>,
    pub end: ScanEnd,
}

/// What a [`Scan`] holds.
pub struct ScanView {
    pub tuples: Seq<Seq<ValueView>>,
    pub end: ScanEnd,
}

impl View for Scan {
    type V = ScanView;

    open spec fn view(&self) -> ScanView {
        ScanView { tuples: tuples_view(self.tuples@), end: self.end }
    }
}

/// What reading the `langlinks` rows of a dump gives.
pub uninterp spec fn langlinks_scan(sql: Seq<u8>) -> ScanView;

/// What reading the `iwlinks` rows of a dump gives.
pub uninterp spec fn iwlinks_scan(sql: Seq<u8>) -> ScanView;

/// What reading the `category` rows of a dump gives.
pub uninterp spec fn category_scan(sql: Seq<u8>) -> ScanView;

/// What reading the `page` rows of a dump gives.
pub uninterp spec fn page_scan(sql: Seq<u8>) -> ScanView;

/// Reads a dump with `parse_mediawiki_sql::iterate_sql_insertions` for
/// `schemas::LanguageLink` until the iterator ends, and asks its `finish`
/// how it ended. Each row becomes the tuple of its `from`, `lang` and
/// `title`. The outcome depends on the bytes alone; it is named, not
/// described. The outside function panics on a dump without `INSERT INTO`,
/// which `requires` leaves out.
#[verifier::external_body]
pub(crate) fn scan_langlinks(sql: &[u8]) -> (scan: Scan)
    requires
        has_marker(sql@),
    ensures
        scan@ == langlinks_scan(sql@),
{
    let mut rows = parse_mediawiki_sql::iterate_sql_insertions::<parse_mediawiki_sql::schemas::LanguageLink>(sql);
    let mut tuples = Vec::new();
    for row in &mut rows {
        tuples.push(vec![Value::Int(row.from.into_inner().into()), Value::Text(row.lang.to_string()), Value::Text(row.title.into_inner())]);
    }
    let end = match rows.finish() {
        Ok((rest, _)) => ScanEnd::Stopped { rest: rest.len() },
        Err(e) => if e.is_incomplete() { ScanEnd::Incomplete } else { ScanEnd::Failed },
    };
    Scan { tuples, end }
}

/// As [`scan_langlinks`], for `schemas::InterwikiLink`: each row becomes the
/// tuple of its `from`, `prefix` and `title`.
#[verifier::external_body]
pub(crate) fn scan_iwlinks(sql: &[u8]) -> (scan: Scan)
    requires
        has_marker(sql@),
    ensures
        scan@ == iwlinks_scan(sql@),
{
    let mut rows = parse_mediawiki_sql::iterate_sql_insertions::<parse_mediawiki_sql::schemas::InterwikiLink>(sql);
    let mut tuples = Vec::new();
    for row in &mut rows {
        tuples.push(vec![Value::Int(row.from.into_inner().into()), Value::Text(row.prefix.to_string()), Value::Text(row.title.into_inner())]);
    }
    let end = match rows.finish() {
        Ok((rest, _)) => ScanEnd::Stopped { rest: rest.len() },
        Err(e) => if e.is_incomplete() { ScanEnd::Incomplete } else { ScanEnd::Failed },
    };
    Scan { tuples, end }
}

/// As [`scan_langlinks`], for `schemas::Category`: each row becomes the
/// tuple of its `id`, `title`, `pages`, `subcats` and `files`.
#[verifier::external_body]
pub(crate) fn scan_category(sql: &[u8]) -> (scan: Scan)
    requires
        has_marker(sql@),
    ensures
        scan@ == category_scan(sql@),
{
    let mut rows = parse_mediawiki_sql::iterate_sql_insertions::<parse_mediawiki_sql::schemas::Category>(sql);
    let mut tuples = Vec::new();
    for row in &mut rows {
        tuples.push(vec![Value::Int(row.id.into_inner().into()), Value::Text(row.title.into_inner()), Value::Int(row.pages.into_inner().into()),
            Value::Int(row.subcats.into_inner().into()), Value::Int(row.files.into_inner().into())]);
    }
    let end = match rows.finish() {
        Ok((rest, _)) => ScanEnd::Stopped { rest: rest.len() },
        Err(e) => if e.is_incomplete() { ScanEnd::Incomplete } else { ScanEnd::Failed },
    };
    Scan { tuples, end }
}

/// As [`scan_langlinks`], for `schemas::Page`: each row becomes the tuple of
/// its `id`, `namespace`, `title`, `is_redirect` and `lang`, a missing
/// language as `Null`.
#[verifier::external_body]
pub(crate) fn scan_page(sql: &[u8]) -> (scan: Scan)
    requires
        has_marker(sql@),
    ensures
        scan@ == page_scan(sql@),
{
    let mut rows = parse_mediawiki_sql::iterate_sql_insertions::<parse_mediawiki_sql::schemas::Page>(sql);
    let mut tuples = Vec::new();
    for row in &mut rows {
        tuples.push(vec![Value::Int(row.id.into_inner().into()), Value::Int(row.namespace.into_inner().into()), Value::Text(row.title.into_inner()),
            Value::Bool(row.is_redirect), row.lang.map_or(Value::Null, |l| Value::Text(l.to_string()))]);
    }
    let end = match rows.finish() {
        Ok((rest, _)) => ScanEnd::Stopped { rest: rest.len() },
        Err(e) => if e.is_incomplete() { ScanEnd::Incomplete } else { ScanEnd::Failed },
    };
    Scan { tuples, end }
}

} // verus!
