//! From a dump to the lines of its table: read, decode, write, and stop at
//! the first tuple that is no row.

use vstd::prelude::*;
use crate::command::Commands;
use crate::emit::{header_line, record_line};
use crate::locate::{
    announces_tuple, find_marker, has_marker, insert_marker, matches_at, tuple_announced,
};
use crate::record::{DecodeError, RecordView, built, decode, decoded};
use crate::scan::{
    Scan, ScanEnd, ScanView, category_scan, iwlinks_scan, langlinks_scan, page_scan,
    scan_category, scan_iwlinks, scan_langlinks, scan_page,
};
use crate::value::ValueView;

verus! {

/// Why a dump was not turned into lines. `index` counts the tuples of the
/// dump from zero.
#[derive(Clone, Copy, Debug, PartialEq, Eq, Structural)]
pub enum ExtractError {
    /// After `index` tuples a further one was opened, and its values could
    /// not be read as those of a row of the table.
    Malformed { index: usize },
    /// After `index` tuples reading stopped at byte `offset` of the dump,
    /// where a further tuple is announced.
    Unread { index: usize, offset: usize },
    /// After `index` tuples the dump ended where more bytes were needed.
    Truncated { index: usize },
    /// A tuple was read and is no row of the table.
    Decode(DecodeError),
}

/// The error in how reading ended after `index` tuples, if it is one: it
/// ran out of bytes, or failed inside a tuple, or stopped before an unread
/// rest of the dump that announces a tuple. An unread rest longer than the
/// dump counts as a failure.
pub open spec fn ending_error(sql: Seq<u8>, end: ScanEnd, index: usize) -> Option<ExtractError> {
    match end {
        ScanEnd::Failed => Some(ExtractError::Malformed { index }),
        ScanEnd::Incomplete => Some(ExtractError::Truncated { index }),
        ScanEnd::Stopped { rest } => if rest > sql.len() {
            Some(ExtractError::Malformed { index })
        } else if tuple_announced(sql, sql.len() - rest) {
            Some(ExtractError::Unread { index, offset: (sql.len() - rest) as usize })
        } else {
            None
        },
    }
}

/// The dump with two semicolons after it, so that it does not end in the
/// blanks that may follow its last statement.
pub open spec fn closed(sql: Seq<u8>) -> Seq<u8> {
    sql + seq![0x3bu8, 0x3bu8]
}

/// The index of the first of the leading `upto` tuples that does not
/// decode, or `upto`.
pub open spec fn first_undecodable(table: Commands, tuples: Seq<Seq<ValueView>>, upto: int) -> int
    decreases upto,
{
    if upto <= 0 {
        0
    } else {
        let before = first_undecodable(table, tuples, upto - 1);
        if before < upto - 1 {
            before
        } else if decoded(table, tuples[upto - 1], (upto - 1) as usize) is Ok {
            upto
        } else {
            upto - 1
        }
    }
}

/// The header line, then the line of each tuple's row, in the order of the
/// tuples.
pub open spec fn lines_of(table: Commands, tuples: Seq<Seq<ValueView>>) -> Seq<Seq<u8>> {
    Seq::new(
        tuples.len() + 1,
        |i: int|
            if i == 0 {
                header_line(table)
            } else {
                record_line(built(table, tuples[i - 1]))
            },
    )
}

/// What a dump gives, once read: the error of the first tuple that does not
/// decode; else the error in how reading ended; else the lines.
pub open spec fn outcome(table: Commands, sql: Seq<u8>, scan: ScanView) -> Result<
    Seq<Seq<u8>>,
    ExtractError,
> {
    let n = scan.tuples.len() as int;
    let bad = first_undecodable(table, scan.tuples, n);
    if bad < n {
        Err(ExtractError::Decode(decoded(table, scan.tuples[bad], bad as usize)->Err_0))
    } else if ending_error(sql, scan.end, n as usize) is Some {
        Err(ending_error(sql, scan.end, n as usize)->Some_0)
    } else {
        Ok(lines_of(table, scan.tuples))
    }
}

/// What a dump gives from its bytes, `first` being what it reads as and
/// `second` what it reads as when closed. A dump without any `INSERT INTO`
/// gives the header line alone. Where the first reading ran out of bytes,
/// the second decides.
pub open spec fn extracted(table: Commands, sql: Seq<u8>, first: ScanView, second: ScanView) -> Result<
    Seq<Seq<u8>>,
    ExtractError,
> {
    if !has_marker(sql) {
        Ok(seq![header_line(table)])
    } else if first.end is Incomplete {
        outcome(table, closed(sql), second)
    } else {
        outcome(table, sql, first)
    }
}

/// The bytes of each line of a list.
pub open spec fn lines_view(lines: Seq<Vec<u8>>) -> Seq<Seq<u8>> {
    Seq::new(lines.len(), |i: int| lines[i]@)
}

/// Whether `r` is `spec` with each line replaced by its bytes.
pub open spec fn is_outcome(
    r: Result<Vec<Vec<u8>>, ExtractError>,
    spec: Result<Seq<Seq<u8>>, ExtractError>,
) -> bool {
    match r {
        Ok(lines) => spec == Ok::<Seq<Seq<u8>>, ExtractError>(lines_view(lines@)),
        Err(e) => spec == Err::<Seq<Seq<u8>>, ExtractError>(e),
    }
}

/// A tuple that does not decode stays the first such one however many
/// tuples are looked at.
pub proof fn lemma_undecodable_stays(
    table: Commands,
    tuples: Seq<Seq<ValueView>>,
    at: int,
    upto: int,
)
    requires
        0 <= at < upto,
        first_undecodable(table, tuples, at + 1) == at,
    ensures
        first_undecodable(table, tuples, upto) == at,
    decreases upto,
{
    if upto > at + 1 {
        lemma_undecodable_stays(table, tuples, at, upto - 1);
    }
}

/// The error in how reading the dump ended after `index` tuples, if it is
/// one.
pub fn end_error(sql: &[u8], end: ScanEnd, index: usize) -> (r: Option<ExtractError>)
    ensures
        r == ending_error(sql@, end, index),
{
    match end {
        ScanEnd::Failed => Some(ExtractError::Malformed { index }),
        ScanEnd::Incomplete => Some(ExtractError::Truncated { index }),
        ScanEnd::Stopped { rest } => if rest > sql.len() {
            Some(ExtractError::Malformed { index })
        } else if announces_tuple(sql, sql.len() - rest) {
            Some(ExtractError::Unread { index, offset: sql.len() - rest })
        } else {
            None
        },
    }
}

/// A copy of the dump with two semicolons after it.
pub fn close(sql: &[u8]) -> (out: Vec<u8>)
    ensures
        out@ == closed(sql@),
        has_marker(sql@) ==> has_marker(out@),
{
    let mut out: Vec<u8> = Vec::new();
    out.extend_from_slice(sql);
    out.push(0x3bu8);
    out.push(0x3bu8);
    assert(out@ =~= closed(sql@));
    proof {
        if has_marker(sql@) {
            let i = choose|i: int| matches_at(sql@, i, insert_marker());
            assert(matches_at(out@, i, insert_marker()));
        }
    }
    out
}

/// Turns what was read from the dump `sql` into the lines of the table: the
/// header line, then one line per tuple, in the order of the tuples.
///
/// The first tuple that is no row of the table ends the work with its
/// error. If all are rows and reading ran out of bytes, failed inside a
/// tuple or stopped where a further tuple was announced, that is the error.
pub fn render(table: Commands, sql: &[u8], scan: &Scan) -> (r: Result<Vec<Vec<u8>>, ExtractError>)
    ensures
        is_outcome(r, outcome(table, sql@, scan@)),
{
    let n = scan.tuples.len();
    let mut lines: Vec<Vec<u8>> = Vec::new();
    lines.push(table.header_row());
    let mut i: usize = 0;
    while i < n
        invariant
            i <= n,
            n == scan.tuples@.len(),
            n == scan@.tuples.len(),
            first_undecodable(table, scan@.tuples, i as int) == i,
            lines@.len() == i + 1,
            lines@[0]@ == header_line(table),
            forall|j: int|
                0 <= j < i ==> (#[trigger] lines@[j + 1])@ == record_line(
                    built(table, scan@.tuples[j]),
                ),
        decreases n - i,
    {
        match decode(table, &scan.tuples[i], i) {
            Ok(rec) => {
                lines.push(rec.line());
            },
            Err(e) => {
                proof {
                    lemma_undecodable_stays(table, scan@.tuples, i as int, n as int);
                }
                return Err(ExtractError::Decode(e));
            },
        }
        i += 1;
    }
    if let Some(e) = end_error(sql, scan.end, n) {
        return Err(e);
    }
    assert(lines_view(lines@) =~= lines_of(table, scan@.tuples)) by {
        assert forall|k: int| 0 <= k < lines@.len() implies lines_view(lines@)[k] == lines_of(
            table,
            scan@.tuples,
        )[k] by {
            if k > 0 {
                assert(lines@[(k - 1) + 1]@ == record_line(built(table, scan@.tuples[k - 1])));
            }
        }
    }
    Ok(lines)
}

/// The lines of the `langlinks` table of a dump: `from`, `lang`, `title`.
///
/// A dump without any `INSERT INTO` gives the header line alone. Any other
/// dump is read and rendered; if reading it runs out of bytes, a closed
/// copy of it is read and rendered in its place, which tells a dump that
/// ends after its last tuple from one that ends inside a tuple.
pub fn lang_links(sql: &[u8]) -> (r: Result<Vec<Vec<u8>>, ExtractError>)
    ensures
        is_outcome(
            r,
            extracted(Commands::LangLinks, sql@, langlinks_scan(sql@), langlinks_scan(closed(sql@))),
        ),
{
    if find_marker(sql).is_none() {
        return Ok(header_only(Commands::LangLinks));
    }
    let first = scan_langlinks(sql);
    match first.end {
        ScanEnd::Incomplete => {
            let again = close(sql);
            render(Commands::LangLinks, again.as_slice(), &scan_langlinks(again.as_slice()))
        },
        _ => render(Commands::LangLinks, sql, &first),
    }
}

/// The lines of the `iwlinks` table of a dump: `from`, `prefix`, `title`.
/// Works as [`lang_links`] does.
pub fn iwlinks(sql: &[u8]) -> (r: Result<Vec<Vec<u8>>, ExtractError>)
    ensures
        is_outcome(
            r,
            extracted(Commands::Iwlinks, sql@, iwlinks_scan(sql@), iwlinks_scan(closed(sql@))),
        ),
{
    if find_marker(sql).is_none() {
        return Ok(header_only(Commands::Iwlinks));
    }
    let first = scan_iwlinks(sql);
    match first.end {
        ScanEnd::Incomplete => {
            let again = close(sql);
            render(Commands::Iwlinks, again.as_slice(), &scan_iwlinks(again.as_slice()))
        },
        _ => render(Commands::Iwlinks, sql, &first),
    }
}

/// The lines of the `category` table of a dump: `id`, `title`, `pages`,
/// `subcats`, `files`. Works as [`lang_links`] does.
pub fn category(sql: &[u8]) -> (r: Result<Vec<Vec<u8>>, ExtractError>)
    ensures
        is_outcome(
            r,
            extracted(Commands::Category, sql@, category_scan(sql@), category_scan(closed(sql@))),
        ),
{
    if find_marker(sql).is_none() {
        return Ok(header_only(Commands::Category));
    }
    let first = scan_category(sql);
    match first.end {
        ScanEnd::Incomplete => {
            let again = close(sql);
            render(Commands::Category, again.as_slice(), &scan_category(again.as_slice()))
        },
        _ => render(Commands::Category, sql, &first),
    }
}

/// The lines of the `categorylinks` table of a dump, from what the caller
/// has read of it: `from`, `to`, `collation`, `type`. A dump without any
/// `INSERT INTO` gives the header line alone.
pub fn category_links(sql: &[u8], found: &Scan) -> (r: Result<Vec<Vec<u8>>, ExtractError>)
    ensures
        is_outcome(
            r,
            if has_marker(sql@) {
                outcome(Commands::CategoryLinks, sql@, found@)
            } else {
                Ok(seq![header_line(Commands::CategoryLinks)])
            },
        ),
{
    match find_marker(sql) {
        Some(_) => render(Commands::CategoryLinks, sql, found),
        None => Ok(header_only(Commands::CategoryLinks)),
    }
}

/// The lines of the `page` table of a dump: `id`, `namespace`, `title`,
/// `is_redirect`, `lang`. Works as [`lang_links`] does.
pub fn page(sql: &[u8]) -> (r: Result<Vec<Vec<u8>>, ExtractError>)
    ensures
        is_outcome(
            r,
            extracted(Commands::Page, sql@, page_scan(sql@), page_scan(closed(sql@))),
        ),
{
    if find_marker(sql).is_none() {
        return Ok(header_only(Commands::Page));
    }
    let first = scan_page(sql);
    match first.end {
        ScanEnd::Incomplete => {
            let again = close(sql);
            render(Commands::Page, again.as_slice(), &scan_page(again.as_slice()))
        },
        _ => render(Commands::Page, sql, &first),
    }
}

fn header_only(table: Commands) -> (lines: Vec<Vec<u8>>)
    ensures
        lines_view(lines@) == seq![header_line(table)],
{
    let mut lines: Vec<Vec<u8>> = Vec::new();
    lines.push(table.header_row());
    assert(lines_view(lines@) =~= seq![header_line(table)]);
    lines
}

/// Whether progress is reported after the `written`-th row: after every
/// millionth.
pub fn report_due(written: u64) -> (due: bool)
    ensures
        due == (written > 0 && written % 1_000_000 == 0),
{
    written > 0 && written % 1_000_000 == 0
}

/// What `first_undecodable` finds: every tuple before it decodes, and the
/// tuple itself, if it lies below `upto`, does not.
pub proof fn lemma_first_undecodable(table: Commands, tuples: Seq<Seq<ValueView>>, upto: int)
    requires
        0 <= upto,
    ensures
        0 <= first_undecodable(table, tuples, upto) <= upto,
        forall|i: int|
            0 <= i < first_undecodable(table, tuples, upto) ==> (#[trigger] decoded(
                table,
                tuples[i],
                i as usize,
            )) is Ok,
        first_undecodable(table, tuples, upto) < upto ==> decoded(
            table,
            tuples[first_undecodable(table, tuples, upto)],
            first_undecodable(table, tuples, upto) as usize,
        ) is Err,
    decreases upto,
{
    if upto > 0 {
        lemma_first_undecodable(table, tuples, upto - 1);
    }
}

/// Lines are given exactly when every tuple read is a row of the table and
/// there is no error in how reading ended. There are then as many lines
/// after the header as tuples were read.
pub proof fn lemma_one_line_per_tuple(table: Commands, sql: Seq<u8>, scan: ScanView)
    ensures
        outcome(table, sql, scan) is Ok <==> (ending_error(
            sql,
            scan.end,
            scan.tuples.len() as usize,
        ) is None && forall|i: int|
            0 <= i < scan.tuples.len() ==> (#[trigger] decoded(table, scan.tuples[i], i as usize)) is Ok),
        outcome(table, sql, scan) is Ok ==> outcome(table, sql, scan)->Ok_0.len()
            == scan.tuples.len() + 1,
{
    lemma_first_undecodable(table, scan.tuples, scan.tuples.len() as int);
}

/// The lines stand in the order of the tuples: the first is the header, and
/// the line after the `i` first ones is that of the row the `i`-th tuple
/// decodes to.
pub proof fn lemma_lines_keep_order(table: Commands, sql: Seq<u8>, scan: ScanView, i: int)
    requires
        outcome(table, sql, scan) is Ok,
        0 <= i < scan.tuples.len(),
    ensures
        outcome(table, sql, scan)->Ok_0[0] == header_line(table),
        decoded(table, scan.tuples[i], i as usize) is Ok,
        outcome(table, sql, scan)->Ok_0[i + 1] == record_line(
            decoded(table, scan.tuples[i], i as usize)->Ok_0,
        ),
{
    lemma_first_undecodable(table, scan.tuples, scan.tuples.len() as int);
    assert(decoded(table, scan.tuples[i], i as usize) is Ok);
}

/// A dump in which no tuple was read, and whose reading ended without
/// error, gives the header line alone.
pub proof fn lemma_no_tuples_no_lines(table: Commands, sql: Seq<u8>, scan: ScanView)
    requires
        scan.tuples.len() == 0,
        ending_error(sql, scan.end, 0) is None,
    ensures
        outcome(table, sql, scan) == Ok::<Seq<Seq<u8>>, ExtractError>(seq![header_line(table)]),
{
    assert(lines_of(table, scan.tuples) =~= seq![header_line(table)]);
}

/// No tuple is passed over: a decode error is that of a tuple that was
/// read, every tuple before it is a row, and no error gives any lines.
pub proof fn lemma_first_error_stops(table: Commands, sql: Seq<u8>, scan: ScanView, e: DecodeError)
    requires
        outcome(table, sql, scan) == Err::<Seq<Seq<u8>>, ExtractError>(ExtractError::Decode(e)),
    ensures
        exists|k: int|
            0 <= k < scan.tuples.len() && decoded(table, scan.tuples[k], k as usize) == Err::<
                RecordView,
                DecodeError,
            >(e) && forall|i: int|
                0 <= i < k ==> (#[trigger] decoded(table, scan.tuples[i], i as usize)) is Ok,
{
    let n = scan.tuples.len() as int;
    lemma_first_undecodable(table, scan.tuples, n);
    let k = first_undecodable(table, scan.tuples, n);
    assert(0 <= k < n && decoded(table, scan.tuples[k], k as usize) == Err::<
        RecordView,
        DecodeError,
    >(e));
}

/// The tuples that decide what a dump gives: none without an `INSERT INTO`,
/// those of the second reading where the first ran out of bytes, else
/// those of the first.
pub open spec fn deciding_tuples(sql: Seq<u8>, first: ScanView, second: ScanView) -> Seq<
    Seq<ValueView>,
> {
    if !has_marker(sql) {
        Seq::<Seq<ValueView>>::empty()
    } else if first.end is Incomplete {
        second.tuples
    } else {
        first.tuples
    }
}

/// Where a dump gives lines, it gives the header line and then one line
/// for each tuple read, in the order in which they were read.
pub proof fn lemma_extracted_lines(
    table: Commands,
    sql: Seq<u8>,
    first: ScanView,
    second: ScanView,
)
    requires
        extracted(table, sql, first, second) is Ok,
    ensures
        extracted(table, sql, first, second)->Ok_0 == lines_of(
            table,
            deciding_tuples(sql, first, second),
        ),
        extracted(table, sql, first, second)->Ok_0.len() == deciding_tuples(
            sql,
            first,
            second,
        ).len() + 1,
{
    if !has_marker(sql) {
        assert(lines_of(table, Seq::<Seq<ValueView>>::empty()) =~= seq![header_line(table)]);
    }
}

} // verus!
