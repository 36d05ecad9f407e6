//! From rows to lines of delimited text.

use vstd::prelude::*;
use vstd::utf8::encode_utf8;
use crate::command::Commands;
use crate::record::{PageType, Record, RecordView};

verus! {

/// The character of the decimal digit `d`.
pub open spec fn digit(d: nat) -> char {
    if d == 0 {
        '0'
    } else if d == 1 {
        '1'
    } else if d == 2 {
        '2'
    } else if d == 3 {
        '3'
    } else if d == 4 {
        '4'
    } else if d == 5 {
        '5'
    } else if d == 6 {
        '6'
    } else if d == 7 {
        '7'
    } else if d == 8 {
        '8'
    } else {
        '9'
    }
}

/// The decimal digits of `n`, most significant first, without leading zeros.
pub open spec fn digits(n: nat) -> Seq<char>
    decreases n,
{
    if n < 10 {
        seq![digit(n)]
    } else {
        digits(n / 10).push(digit(n % 10))
    }
}

/// The decimal text of `n`: a minus sign before the digits of a negative number.
pub open spec fn decimal(n: int) -> Seq<char> {
    if n < 0 {
        seq!['-'] + digits((-n) as nat)
    } else {
        digits(n as nat)
    }
}

/// A byte that cannot stand in a field without quotes: a comma, a double
/// quote, a carriage return or a line feed.
pub open spec fn is_special(b: u8) -> bool {
    b == 0x2cu8 || b == 0x22u8 || b == 0x0du8 || b == 0x0au8
}

/// Whether a field holds a byte that cannot stand without quotes.
pub open spec fn needs_quotes(field: Seq<u8>) -> bool {
    exists|i: int| 0 <= i < field.len() && is_special(#[trigger] field[i])
}

/// The field with each double quote written twice.
pub open spec fn doubled(field: Seq<u8>) -> Seq<u8>
    decreases field.len(),
{
    if field.len() == 0 {
        Seq::<u8>::empty()
    } else if field.last() == 0x22u8 {
        doubled(field.drop_last()) + seq![0x22u8, 0x22u8]
    } else {
        doubled(field.drop_last()).push(field.last())
    }
}

/// A field as it is written: as it is, or, if it needs quotes, between
/// double quotes with its own double quotes doubled.
pub open spec fn written_field(field: Seq<u8>) -> Seq<u8> {
    if needs_quotes(field) {
        seq![0x22u8] + doubled(field) + seq![0x22u8]
    } else {
        field
    }
}

/// The written fields with a comma between each two.
pub open spec fn joined(fields: Seq<Seq<u8>>) -> Seq<u8>
    decreases fields.len(),
{
    if fields.len() == 0 {
        Seq::<u8>::empty()
    } else if fields.len() == 1 {
        written_field(fields[0])
    } else {
        joined(fields.drop_last()) + seq![0x2cu8] + written_field(fields.last())
    }
}

/// The bytes of one record of delimited text that holds the given fields:
/// the fields in UTF-8, written and joined, then a line feed.
pub open spec fn csv_record(fields: Seq<Seq<char>>) -> Seq<u8> {
    joined(Seq::new(fields.len(), |i: int| encode_utf8(fields[i]))) + seq![0x0au8]
}

/// The texts of a list of strings.
pub open spec fn texts(v: Seq<String>) -> Seq<Seq<char>> {
    Seq::new(v.len(), |i: int| v[i]@)
}

/// The column names of a table, in order.
pub open spec fn header_fields(table: Commands) -> Seq<Seq<char>> {
    match table {
        Commands::LangLinks => seq!["from"@, "lang"@, "title"@],
        Commands::Iwlinks => seq!["from"@, "prefix"@, "title"@],
        Commands::Category => seq!["id"@, "title"@, "pages"@, "subcats"@, "files"@],
        Commands::CategoryLinks => seq!["from"@, "to"@, "collation"@, "type"@],
        Commands::Page => seq!["id"@, "namespace"@, "title"@, "is_redirect"@, "lang"@],
    }
}

/// The name a page type is written with.
pub open spec fn page_type_text(kind: PageType) -> Seq<char> {
    match kind {
        PageType::Page => "page"@,
        PageType::Subcat => "subcat"@,
        PageType::File => "file"@,
    }
}

/// The text a boolean is written with.
pub open spec fn flag_text(b: bool) -> Seq<char> {
    if b {
        "true"@
    } else {
        "false"@
    }
}

/// The fields of a row, in the order of its table's columns. A page without
/// a language has an empty last field.
pub open spec fn record_fields(rec: RecordView) -> Seq<Seq<char>> {
    match rec {
        RecordView::LanguageLink { from, lang, title } => seq![decimal(from as int), lang, title],
        RecordView::InterwikiLink { from, prefix, title } => seq![
            decimal(from as int),
            prefix,
            title,
        ],
        RecordView::Category { id, title, pages, subcats, files } => seq![
            decimal(id as int),
            title,
            decimal(pages as int),
            decimal(subcats as int),
            decimal(files as int),
        ],
        RecordView::CategoryLink { from, to, collation, kind } => seq![
            decimal(from as int),
            to,
            collation,
            page_type_text(kind),
        ],
        RecordView::Page { id, namespace, title, is_redirect, lang } => seq![
            decimal(id as int),
            decimal(namespace as int),
            title,
            flag_text(is_redirect),
            match lang {
                Some(l) => l,
                None => Seq::<char>::empty(),
            },
        ],
    }
}

/// The header line of a table.
pub open spec fn header_line(table: Commands) -> Seq<u8> {
    csv_record(header_fields(table))
}

/// The line a row is written as.
pub open spec fn record_line(rec: RecordView) -> Seq<u8> {
    csv_record(record_fields(rec))
}

/// Calls `i128::to_string`, which writes an integer in decimal: its digits
/// without leading zeros, after a minus sign if it is negative.
#[verifier::external_body]
fn decimal_string(n: i128) -> (s: String)
    ensures
        s@ == decimal(n as int),
{
    n.to_string()
}

/// Writes one record with `csv::Writer::write_record` into an empty buffer,
/// with the writer's default settings, and takes the buffer back with
/// `csv::Writer::into_inner`. With those settings the fields are separated
/// by commas and ended by a line feed, and a field that holds a comma, a
/// double quote, a carriage return or a line feed stands between double
/// quotes with its own double quotes doubled. A record of fewer than two
/// fields may be written otherwise and is left out. Writing into memory
/// cannot fail, and a first record is never refused for its length.
#[verifier::external_body]
fn write_record(fields: &Vec<String>) -> (line: Vec<u8>)
    requires
        fields@.len() >= 2,
    ensures
        line@ == csv_record(texts(fields@)),
{
    let mut writer = csv::Writer::from_writer(Vec::new());
    writer.write_record(fields).unwrap();
    writer.into_inner().unwrap()
}

fn unsigned_text(n: u64) -> (s: String)
    ensures
        s@ == decimal(n as int),
{
    decimal_string(n as i128)
}

fn signed_text(n: i64) -> (s: String)
    ensures
        s@ == decimal(n as int),
{
    decimal_string(n as i128)
}

fn literal(s: &str) -> (r: String)
    ensures
        r@ == s@,
{
    s.to_owned()
}

impl Commands {
    /// The column names of this table, in order.
    pub fn header(self) -> (names: Vec<String>)
        ensures
            texts(names@) == header_fields(self),
            names@.len() == self.arity(),
    {
        let names = match self {
            Commands::LangLinks => vec![literal("from"), literal("lang"), literal("title")],
            Commands::Iwlinks => vec![literal("from"), literal("prefix"), literal("title")],
            Commands::Category => vec![
                literal("id"),
                literal("title"),
                literal("pages"),
                literal("subcats"),
                literal("files"),
            ],
            Commands::CategoryLinks => vec![
                literal("from"),
                literal("to"),
                literal("collation"),
                literal("type"),
            ],
            Commands::Page => vec![
                literal("id"),
                literal("namespace"),
                literal("title"),
                literal("is_redirect"),
                literal("lang"),
            ],
        };
        assert(texts(names@) =~= header_fields(self));
        names
    }

    /// The header line of this table, terminator included.
    pub fn header_row(self) -> (line: Vec<u8>)
        ensures
            line@ == header_line(self),
    {
        write_record(&self.header())
    }
}

impl PageType {
    /// The name this page type is written with.
    pub fn name(self) -> (s: String)
        ensures
            s@ == page_type_text(self),
    {
        match self {
            PageType::Page => literal("page"),
            PageType::Subcat => literal("subcat"),
            PageType::File => literal("file"),
        }
    }
}

impl Record {
    /// The table this row belongs to.
    pub fn table(&self) -> (table: Commands)
        ensures
            table == self@.table(),
    {
        match self {
            Record::LanguageLink { .. } => Commands::LangLinks,
            Record::InterwikiLink { .. } => Commands::Iwlinks,
            Record::Category { .. } => Commands::Category,
            Record::CategoryLink { .. } => Commands::CategoryLinks,
            Record::Page { .. } => Commands::Page,
        }
    }

    /// The fields of this row as text, in the order of its table's columns.
    pub fn fields(&self) -> (out: Vec<String>)
        ensures
            texts(out@) == record_fields(self@),
            out@.len() == self@.table().arity(),
    {
        let out = match self {
            Record::LanguageLink { from, lang, title } => vec![
                unsigned_text(*from),
                lang.clone(),
                title.clone(),
            ],
            Record::InterwikiLink { from, prefix, title } => vec![
                unsigned_text(*from),
                prefix.clone(),
                title.clone(),
            ],
            Record::Category { id, title, pages, subcats, files } => vec![
                unsigned_text(*id),
                title.clone(),
                signed_text(*pages),
                signed_text(*subcats),
                signed_text(*files),
            ],
            Record::CategoryLink { from, to, collation, kind } => vec![
                unsigned_text(*from),
                to.clone(),
                collation.clone(),
                kind.name(),
            ],
            Record::Page { id, namespace, title, is_redirect, lang } => vec![
                unsigned_text(*id),
                unsigned_text(*namespace),
                title.clone(),
                if *is_redirect { literal("true") } else { literal("false") },
                match lang {
                    Some(l) => l.clone(),
                    None => String::new(),
                },
            ],
        };
        assert(texts(out@) =~= record_fields(self@));
        out
    }

    /// The line this row is written as, terminator included.
    pub fn line(&self) -> (line: Vec<u8>)
        ensures
            line@ == record_line(self@),
    {
        write_record(&self.fields())
    }
}

} // verus!
