//! Byte patterns of a dump: where its first `INSERT` statement stands, and
//! whether a further tuple is announced at a given place.

use vstd::prelude::*;

verus! {

/// The bytes of `INSERT INTO`, in ASCII.
pub open spec fn insert_marker() -> Seq<u8> {
    seq![0x49u8, 0x4eu8, 0x53u8, 0x45u8, 0x52u8, 0x54u8, 0x20u8, 0x49u8, 0x4eu8, 0x54u8, 0x4fu8]
}

/// The bytes that open a statement's table name: `INSERT INTO` and a
/// space, then a backtick.
pub open spec fn statement_opening() -> Seq<u8> {
    seq![0x49u8, 0x4eu8, 0x53u8, 0x45u8, 0x52u8, 0x54u8, 0x20u8, 0x49u8, 0x4eu8, 0x54u8, 0x4fu8, 0x20u8, 0x60u8]
}

/// The bytes between a table name and a first tuple: the closing backtick,
/// `VALUES` between two spaces, and the tuple's opening parenthesis.
pub open spec fn values_opening() -> Seq<u8> {
    seq![0x60u8, 0x20u8, 0x56u8, 0x41u8, 0x4cu8, 0x55u8, 0x45u8, 0x53u8, 0x20u8, 0x28u8]
}

/// Whether `pat` stands in `s` at offset `at`.
pub open spec fn matches_at(s: Seq<u8>, at: int, pat: Seq<u8>) -> bool {
    &&& 0 <= at
    &&& at + pat.len() <= s.len()
    &&& forall|k: int| 0 <= k < pat.len() ==> s[at + k] == #[trigger] pat[k]
}

/// Whether the dump holds an `INSERT INTO` anywhere.
pub open spec fn has_marker(s: Seq<u8>) -> bool {
    exists|i: int| matches_at(s, i, insert_marker())
}

/// A space, a tab, a line feed or a carriage return.
pub open spec fn is_blank(b: u8) -> bool {
    b == 0x20u8 || b == 0x09u8 || b == 0x0au8 || b == 0x0du8
}

/// A byte of a table name: a lower-case letter or an underscore.
pub open spec fn is_name_byte(b: u8) -> bool {
    (0x61u8 <= b && b <= 0x7au8) || b == 0x5fu8
}

/// The first offset at or after `at` that holds no blank.
pub open spec fn blanks_end(s: Seq<u8>, at: int) -> int
    decreases s.len() - at,
{
    if 0 <= at < s.len() && is_blank(s[at]) {
        blanks_end(s, at + 1)
    } else {
        at
    }
}

/// The first offset at or after `at` that holds no byte of a table name.
pub open spec fn name_end(s: Seq<u8>, at: int) -> int
    decreases s.len() - at,
{
    if 0 <= at < s.len() && is_name_byte(s[at]) {
        name_end(s, at + 1)
    } else {
        at
    }
}

/// Where a statement's opening is looked for from `at`: after blanks, one
/// optional semicolon and more blanks.
pub open spec fn statement_start(s: Seq<u8>, at: int) -> int {
    let a = blanks_end(s, at);
    let b = if matches_at(s, a, seq![0x3bu8]) { a + 1 } else { a };
    blanks_end(s, b)
}

/// Whether a tuple is announced at offset `at`: by a comma there, or by the
/// opening of a statement up to the parenthesis of its first tuple.
pub open spec fn tuple_announced(s: Seq<u8>, at: int) -> bool {
    matches_at(s, at, seq![0x2cu8]) || {
        let c = statement_start(s, at);
        matches_at(s, c, statement_opening()) && matches_at(
            s,
            name_end(s, c + statement_opening().len()),
            values_opening(),
        )
    }
}

/// Whether `pat` stands in `sql` at offset `at`.
pub fn starts_at(sql: &[u8], at: usize, pat: &[u8]) -> (r: bool)
    ensures
        r == matches_at(sql@, at as int, pat@),
{
    if pat.len() > sql.len() || at > sql.len() - pat.len() {
        return false;
    }
    let mut k: usize = 0;
    while k < pat.len()
        invariant
            k <= pat.len(),
            at + pat.len() <= sql.len(),
            forall|j: int| 0 <= j < k ==> sql@[at + j] == #[trigger] pat@[j],
        decreases pat.len() - k,
    {
        if sql[at + k] != pat[k] {
            return false;
        }
        k += 1;
    }
    true
}

/// The offset of the first `INSERT INTO` of the dump, if it holds one.
pub fn find_marker(sql: &[u8]) -> (r: Option<usize>)
    ensures
        match r {
            Some(i) => matches_at(sql@, i as int, insert_marker()) && forall|j: int|
                0 <= j < i ==> !matches_at(sql@, j, insert_marker()),
            None => !has_marker(sql@),
        },
{
    let pat: [u8; 11] = [0x49u8, 0x4eu8, 0x53u8, 0x45u8, 0x52u8, 0x54u8, 0x20u8, 0x49u8, 0x4eu8, 0x54u8, 0x4fu8];
    assert(pat@ =~= insert_marker());
    let mut i: usize = 0;
    while i < sql.len()
        invariant
            pat@ == insert_marker(),
            forall|j: int| 0 <= j < i ==> !matches_at(sql@, j, insert_marker()),
        decreases sql.len() - i,
    {
        if starts_at(sql, i, pat.as_slice()) {
            return Some(i);
        }
        i += 1;
    }
    assert forall|j: int| !matches_at(sql@, j, insert_marker()) by {
        if j >= sql.len() {
            assert(insert_marker().len() == 11);
        }
    }
    None
}

fn skip_blanks(sql: &[u8], at: usize) -> (r: usize)
    ensures
        r == blanks_end(sql@, at as int),
        at <= r,
        r <= sql.len() || r == at,
{
    let mut i: usize = at;
    while i < sql.len() && (sql[i] == 0x20u8 || sql[i] == 0x09u8 || sql[i] == 0x0au8 || sql[i] == 0x0du8)
        invariant
            at <= i,
            i <= sql.len() || i == at,
            blanks_end(sql@, i as int) == blanks_end(sql@, at as int),
        decreases sql.len() - i,
    {
        i += 1;
    }
    i
}

fn skip_name(sql: &[u8], at: usize) -> (r: usize)
    ensures
        r == name_end(sql@, at as int),
        at <= r,
        r <= sql.len() || r == at,
{
    let mut i: usize = at;
    while i < sql.len() && ((0x61u8 <= sql[i] && sql[i] <= 0x7au8) || sql[i] == 0x5fu8)
        invariant
            at <= i,
            i <= sql.len() || i == at,
            name_end(sql@, i as int) == name_end(sql@, at as int),
        decreases sql.len() - i,
    {
        i += 1;
    }
    i
}

/// Whether a tuple is announced at offset `at` of the dump.
pub fn announces_tuple(sql: &[u8], at: usize) -> (r: bool)
    ensures
        r == tuple_announced(sql@, at as int),
{
    let comma: [u8; 1] = [0x2cu8];
    assert(comma@ =~= seq![0x2cu8]);
    if starts_at(sql, at, comma.as_slice()) {
        return true;
    }
    let a = skip_blanks(sql, at);
    let semicolon: [u8; 1] = [0x3bu8];
    assert(semicolon@ =~= seq![0x3bu8]);
    let len = sql.len();
    let b = if starts_at(sql, a, semicolon.as_slice()) {
        assert(a + semicolon@.len() <= len);
        a + 1
    } else {
        a
    };
    let c = skip_blanks(sql, b);
    let opening: [u8; 13] = [
        0x49u8, 0x4eu8, 0x53u8, 0x45u8, 0x52u8, 0x54u8, 0x20u8, 0x49u8, 0x4eu8, 0x54u8, 0x4fu8, 0x20u8, 0x60u8,
    ];
    assert(opening@ =~= statement_opening());
    if !starts_at(sql, c, opening.as_slice()) {
        return false;
    }
    assert(c + opening@.len() <= len);
    let d = skip_name(sql, c + 13);
    let values: [u8; 10] = [0x60u8, 0x20u8, 0x56u8, 0x41u8, 0x4cu8, 0x55u8, 0x45u8, 0x53u8, 0x20u8, 0x28u8];
    assert(values@ =~= values_opening());
    starts_at(sql, d, values.as_slice())
}

} // verus!
