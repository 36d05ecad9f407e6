//! The rows of the five tables, and the decoders that build them from tuples.

use vstd::prelude::*;
use crate::command::Commands;
use crate::value::{Value, ValueView, tuple_view};

verus! {

/// What a category link points from: a page, a subcategory or a file.
#[derive(Clone, Copy, Debug, PartialEq, Eq, Structural)]
pub enum PageType {
    Page,
    Subcat,
    File,
}

/// One decoded row.
#[allow(inconsistent_fields)]
#[derive(Clone, Debug)]
pub enum Record {
    LanguageLink { from: u64, lang: String, title: String },
    InterwikiLink { from: u64, prefix: String, title: String },
    Category { id: u64, title: String, pages: i64, subcats: i64, files: i64 },
    CategoryLink { from: u64, to: String, collation: String, kind: PageType },
    Page { id: u64, namespace: u64, title: String, is_redirect: bool, lang: Option<String> },
}

/// What a [`Record`] holds, with text as sequences of characters.
#[allow(inconsistent_fields)]
pub enum RecordView {
    LanguageLink { from: u64, lang: Seq<char>, title: Seq<char> },
    InterwikiLink { from: u64, prefix: Seq<char>, title: Seq<char> },
    Category { id: u64, title: Seq<char>, pages: i64, subcats: i64, files: i64 },
    CategoryLink { from: u64, to: Seq<char>, collation: Seq<char>, kind: PageType },
    Page { id: u64, namespace: u64, title: Seq<char>, is_redirect: bool, lang: Option<Seq<char>> },
}

impl View for Record {
    type V = RecordView;

    open spec fn view(&self) -> RecordView {
        match self {
            Record::LanguageLink { from, lang, title } => RecordView::LanguageLink {
                from: *from,
                lang: lang@,
                title: title@,
            },
            Record::InterwikiLink { from, prefix, title } => RecordView::InterwikiLink {
                from: *from,
                prefix: prefix@,
                title: title@,
            },
            Record::Category { id, title, pages, subcats, files } => RecordView::Category {
                id: *id,
                title: title@,
                pages: *pages,
                subcats: *subcats,
                files: *files,
            },
            Record::CategoryLink { from, to, collation, kind } => RecordView::CategoryLink {
                from: *from,
                to: to@,
                collation: collation@,
                kind: *kind,
            },
            Record::Page { id, namespace, title, is_redirect, lang } => RecordView::Page {
                id: *id,
                namespace: *namespace,
                title: title@,
                is_redirect: *is_redirect,
                lang: match lang {
                    Some(l) => Some(l@),
                    None => None,
                },
            },
        }
    }
}

impl RecordView {
    /// The table this row belongs to.
    pub open spec fn table(self) -> Commands {
        match self {
            RecordView::LanguageLink { .. } => Commands::LangLinks,
            RecordView::InterwikiLink { .. } => Commands::Iwlinks,
            RecordView::Category { .. } => Commands::Category,
            RecordView::CategoryLink { .. } => Commands::CategoryLinks,
            RecordView::Page { .. } => Commands::Page,
        }
    }
}

/// Why a tuple is no row of the chosen table. `index` counts the tuples of
/// the dump from zero.
#[derive(Clone, Copy, Debug, PartialEq, Eq, Structural)]
pub enum DecodeError {
    /// The tuple holds `actual` values where the table has `expected` columns.
    Arity { index: usize, expected: usize, actual: usize },
    /// The value at `position` is not of the kind its column takes.
    Field { index: usize, position: usize },
}

/// A non-negative integer: page and category identifiers, namespaces.
pub open spec fn as_id(v: ValueView) -> Option<u64> {
    match v {
        ValueView::Int(n) => if n >= 0 { Some(n as u64) } else { None },
        _ => None,
    }
}

/// Any integer: the counts of a category.
pub open spec fn as_count(v: ValueView) -> Option<i64> {
    match v {
        ValueView::Int(n) => Some(n),
        _ => None,
    }
}

/// A string.
pub open spec fn as_text(v: ValueView) -> Option<Seq<char>> {
    match v {
        ValueView::Text(s) => Some(s),
        _ => None,
    }
}

/// A string or `NULL`.
pub open spec fn as_optional_text(v: ValueView) -> Option<Option<Seq<char>>> {
    match v {
        ValueView::Text(s) => Some(Some(s)),
        ValueView::Null => Some(None),
        _ => None,
    }
}

/// A boolean, or a bare `0` or `1` standing for one.
pub open spec fn as_flag(v: ValueView) -> Option<bool> {
    match v {
        ValueView::Bool(b) => Some(b),
        ValueView::Int(n) => if n == 0 { Some(false) } else if n == 1 { Some(true) } else { None },
        _ => None,
    }
}

/// One of the strings `page`, `subcat` and `file`.
pub open spec fn as_page_type(v: ValueView) -> Option<PageType> {
    match v {
        ValueView::Text(s) => if s == "page"@ {
            Some(PageType::Page)
        } else if s == "subcat"@ {
            Some(PageType::Subcat)
        } else if s == "file"@ {
            Some(PageType::File)
        } else {
            None
        },
        _ => None,
    }
}

/// Whether the column at `position` of the table takes the value `v`.
pub open spec fn accepts(table: Commands, position: int, v: ValueView) -> bool {
    match table {
        Commands::LangLinks | Commands::Iwlinks => if position == 0 {
            as_id(v) is Some
        } else {
            as_text(v) is Some
        },
        Commands::Category => if position == 0 {
            as_id(v) is Some
        } else if position == 1 {
            as_text(v) is Some
        } else {
            as_count(v) is Some
        },
        Commands::CategoryLinks => if position == 0 {
            as_id(v) is Some
        } else if position == 3 {
            as_page_type(v) is Some
        } else {
            as_text(v) is Some
        },
        Commands::Page => if position <= 1 {
            as_id(v) is Some
        } else if position == 2 {
            as_text(v) is Some
        } else if position == 3 {
            as_flag(v) is Some
        } else {
            as_optional_text(v) is Some
        },
    }
}

/// The first position below `upto` whose value its column refuses, or `upto`.
pub open spec fn first_refused(table: Commands, t: Seq<ValueView>, upto: int) -> int
    decreases upto,
{
    if upto <= 0 {
        0
    } else {
        let before = first_refused(table, t, upto - 1);
        if before < upto - 1 {
            before
        } else if accepts(table, upto - 1, t[upto - 1]) {
            upto
        } else {
            upto - 1
        }
    }
}

/// The row that a tuple of the right arity and kinds stands for.
pub open spec fn built(table: Commands, t: Seq<ValueView>) -> RecordView {
    match table {
        Commands::LangLinks => RecordView::LanguageLink {
            from: as_id(t[0]).unwrap(),
            lang: as_text(t[1]).unwrap(),
            title: as_text(t[2]).unwrap(),
        },
        Commands::Iwlinks => RecordView::InterwikiLink {
            from: as_id(t[0]).unwrap(),
            prefix: as_text(t[1]).unwrap(),
            title: as_text(t[2]).unwrap(),
        },
        Commands::Category => RecordView::Category {
            id: as_id(t[0]).unwrap(),
            title: as_text(t[1]).unwrap(),
            pages: as_count(t[2]).unwrap(),
            subcats: as_count(t[3]).unwrap(),
            files: as_count(t[4]).unwrap(),
        },
        Commands::CategoryLinks => RecordView::CategoryLink {
            from: as_id(t[0]).unwrap(),
            to: as_text(t[1]).unwrap(),
            collation: as_text(t[2]).unwrap(),
            kind: as_page_type(t[3]).unwrap(),
        },
        Commands::Page => RecordView::Page {
            id: as_id(t[0]).unwrap(),
            namespace: as_id(t[1]).unwrap(),
            title: as_text(t[2]).unwrap(),
            is_redirect: as_flag(t[3]).unwrap(),
            lang: as_optional_text(t[4]).unwrap(),
        },
    }
}

/// What decoding the tuple `t`, the `index`-th of the dump, gives: the arity
/// is tested first, then the values from left to right.
pub open spec fn decoded(table: Commands, t: Seq<ValueView>, index: usize) -> Result<
    RecordView,
    DecodeError,
> {
    if t.len() != table.arity() {
        Err(DecodeError::Arity { index, expected: table.arity() as usize, actual: t.len() as usize })
    } else if first_refused(table, t, t.len() as int) < t.len() {
        Err(DecodeError::Field { index, position: first_refused(table, t, t.len() as int) as usize })
    } else {
        Ok(built(table, t))
    }
}

/// Whether `r` is `spec` with each row replaced by its view.
pub open spec fn is_decoded(r: Result<Record, DecodeError>, spec: Result<RecordView, DecodeError>) -> bool {
    match r {
        Ok(rec) => spec == Ok::<RecordView, DecodeError>(rec@),
        Err(e) => spec == Err::<RecordView, DecodeError>(e),
    }
}

fn take_id(v: &Value) -> (r: Option<u64>)
    ensures
        r == as_id(v@),
{
    match v {
        Value::Int(n) => if *n >= 0 { Some(*n as u64) } else { None },
        _ => None,
    }
}

fn take_count(v: &Value) -> (r: Option<i64>)
    ensures
        r == as_count(v@),
{
    match v {
        Value::Int(n) => Some(*n),
        _ => None,
    }
}

fn take_text(v: &Value) -> (r: Option<String>)
    ensures
        r is Some == as_text(v@) is Some,
        r is Some ==> r.unwrap()@ == as_text(v@).unwrap(),
{
    match v {
        Value::Text(s) => Some(s.clone()),
        _ => None,
    }
}

fn take_optional_text(v: &Value) -> (r: Option<Option<String>>)
    ensures
        r is Some == as_optional_text(v@) is Some,
        r is Some ==> (r.unwrap() is Some == as_optional_text(v@).unwrap() is Some),
        r is Some && r.unwrap() is Some ==> r.unwrap().unwrap()@ == as_optional_text(
            v@,
        ).unwrap().unwrap(),
{
    match v {
        Value::Text(s) => Some(Some(s.clone())),
        Value::Null => Some(None),
        _ => None,
    }
}

fn take_flag(v: &Value) -> (r: Option<bool>)
    ensures
        r == as_flag(v@),
{
    match v {
        Value::Bool(b) => Some(*b),
        Value::Int(n) => if *n == 0 { Some(false) } else if *n == 1 { Some(true) } else { None },
        _ => None,
    }
}

fn take_page_type(v: &Value) -> (r: Option<PageType>)
    ensures
        r == as_page_type(v@),
{
    match v {
        Value::Text(s) => {
            if *s == "page".to_owned() {
                Some(PageType::Page)
            } else if *s == "subcat".to_owned() {
                Some(PageType::Subcat)
            } else if *s == "file".to_owned() {
                Some(PageType::File)
            } else {
                None
            }
        },
        _ => None,
    }
}

fn takes(table: Commands, position: usize, v: &Value) -> (r: bool)
    ensures
        r == accepts(table, position as int, v@),
{
    match table {
        Commands::LangLinks | Commands::Iwlinks => if position == 0 {
            take_id(v).is_some()
        } else {
            take_text(v).is_some()
        },
        Commands::Category => if position == 0 {
            take_id(v).is_some()
        } else if position == 1 {
            take_text(v).is_some()
        } else {
            take_count(v).is_some()
        },
        Commands::CategoryLinks => if position == 0 {
            take_id(v).is_some()
        } else if position == 3 {
            take_page_type(v).is_some()
        } else {
            take_text(v).is_some()
        },
        Commands::Page => if position <= 1 {
            take_id(v).is_some()
        } else if position == 2 {
            take_text(v).is_some()
        } else if position == 3 {
            take_flag(v).is_some()
        } else {
            take_optional_text(v).is_some()
        },
    }
}

/// A position that refuses its value stays the first refused one however
/// far the tuple is read.
proof fn lemma_refused_stays(table: Commands, t: Seq<ValueView>, at: int, upto: int)
    requires
        0 <= at < upto,
        first_refused(table, t, at + 1) == at,
    ensures
        first_refused(table, t, upto) == at,
    decreases upto,
{
    if upto > at + 1 {
        lemma_refused_stays(table, t, at, upto - 1);
    }
}

fn build(table: Commands, t: &Vec<Value>) -> (rec: Record)
    requires
        t@.len() == table.arity(),
        forall|p: int| 0 <= p < t@.len() ==> accepts(table, p, #[trigger] t@[p]@),
    ensures
        rec@ == built(table, tuple_view(t@)),
{
    assert(accepts(table, 0, t@[0]@));
    assert(accepts(table, 1, t@[1]@));
    assert(accepts(table, 2, t@[2]@));
    match table {
        Commands::LangLinks => Record::LanguageLink {
            from: take_id(&t[0]).unwrap(),
            lang: take_text(&t[1]).unwrap(),
            title: take_text(&t[2]).unwrap(),
        },
        Commands::Iwlinks => Record::InterwikiLink {
            from: take_id(&t[0]).unwrap(),
            prefix: take_text(&t[1]).unwrap(),
            title: take_text(&t[2]).unwrap(),
        },
        Commands::Category => {
            assert(accepts(table, 3, t@[3]@));
            assert(accepts(table, 4, t@[4]@));
            Record::Category {
                id: take_id(&t[0]).unwrap(),
                title: take_text(&t[1]).unwrap(),
                pages: take_count(&t[2]).unwrap(),
                subcats: take_count(&t[3]).unwrap(),
                files: take_count(&t[4]).unwrap(),
            }
        },
        Commands::CategoryLinks => {
            assert(accepts(table, 3, t@[3]@));
            Record::CategoryLink {
                from: take_id(&t[0]).unwrap(),
                to: take_text(&t[1]).unwrap(),
                collation: take_text(&t[2]).unwrap(),
                kind: take_page_type(&t[3]).unwrap(),
            }
        },
        Commands::Page => {
            assert(accepts(table, 3, t@[3]@));
            assert(accepts(table, 4, t@[4]@));
            Record::Page {
                id: take_id(&t[0]).unwrap(),
                namespace: take_id(&t[1]).unwrap(),
                title: take_text(&t[2]).unwrap(),
                is_redirect: take_flag(&t[3]).unwrap(),
                lang: take_optional_text(&t[4]).unwrap(),
            }
        },
    }
}

/// Decodes the tuple `t`, the `index`-th of the dump, as a row of `table`.
///
/// A tuple of another length than the table has columns is refused with both
/// lengths; otherwise the leftmost value that its column does not take is
/// refused with its position; otherwise the row is built.
pub fn decode(table: Commands, t: &Vec<Value>, index: usize) -> (r: Result<Record, DecodeError>)
    ensures
        is_decoded(r, decoded(table, tuple_view(t@), index)),
{
    let n = table.columns();
    if t.len() != n {
        return Err(DecodeError::Arity { index, expected: n, actual: t.len() });
    }
    let ghost tv = tuple_view(t@);
    let mut p: usize = 0;
    while p < n
        invariant
            p <= n,
            n == t@.len(),
            n == table.arity(),
            tv == tuple_view(t@),
            first_refused(table, tv, p as int) == p,
            forall|q: int| 0 <= q < p ==> accepts(table, q, #[trigger] t@[q]@),
        decreases n - p,
    {
        if !takes(table, p, &t[p]) {
            proof {
                assert(tv[p as int] == t@[p as int]@);
                assert(first_refused(table, tv, p + 1) == p);
                lemma_refused_stays(table, tv, p as int, n as int);
            }
            return Err(DecodeError::Field { index, position: p });
        }
        proof {
            assert(tv[p as int] == t@[p as int]@);
        }
        p += 1;
    }
    Ok(build(table, t))
}

/// What `first_refused` finds: every position before it takes its value,
/// and the position itself, if it lies below `upto`, does not.
pub proof fn lemma_first_refused(table: Commands, t: Seq<ValueView>, upto: int)
    requires
        0 <= upto,
    ensures
        0 <= first_refused(table, t, upto) <= upto,
        forall|p: int| 0 <= p < first_refused(table, t, upto) ==> accepts(table, p, #[trigger] t[p]),
        first_refused(table, t, upto) < upto ==> !accepts(
            table,
            first_refused(table, t, upto),
            t[first_refused(table, t, upto)],
        ),
    decreases upto,
{
    if upto > 0 {
        lemma_first_refused(table, t, upto - 1);
    }
}

/// A tuple decodes exactly when it has as many values as its table has
/// columns and each column takes its value; the row is then one of that
/// table.
pub proof fn lemma_decodes_iff_matches(table: Commands, t: Seq<ValueView>, index: usize)
    ensures
        decoded(table, t, index) is Ok <==> (t.len() == table.arity() && forall|p: int|
            0 <= p < t.len() ==> accepts(table, p, #[trigger] t[p])),
        decoded(table, t, index) is Ok ==> decoded(table, t, index)->Ok_0.table() == table,
{
    lemma_first_refused(table, t, t.len() as int);
}

/// A tuple of the wrong length is refused with the length its table asks
/// for and the length it has.
pub proof fn lemma_wrong_length_is_reported(table: Commands, t: Seq<ValueView>, index: usize)
    requires
        t.len() != table.arity(),
        t.len() <= usize::MAX,
    ensures
        decoded(table, t, index) == Err::<RecordView, DecodeError>(
            DecodeError::Arity { index, expected: table.arity() as usize, actual: t.len() as usize },
        ),
{
}

} // verus!
