//! Reading a written record back: the fields are found again at the commas
//! that stand outside quotes, and each is the field that was written.

use vstd::prelude::*;
use vstd::utf8::{decode_utf8, encode_utf8, encode_utf8_decode_utf8};
use crate::emit::{
    csv_record, doubled, is_special, joined, needs_quotes, record_fields, record_line,
    written_field,
};
use crate::record::RecordView;

verus! {

/// A written field read back: the quotes around a quoted field are dropped.
pub open spec fn read_field(written: Seq<u8>) -> Seq<u8> {
    if written.len() >= 2 && written[0] == 0x22u8 && written.last() == 0x22u8 {
        halved(written.subrange(1, written.len() - 1))
    } else {
        written
    }
}

/// The bytes with each pair of double quotes taken for one, pairs counted
/// from the end.
pub open spec fn halved(s: Seq<u8>) -> Seq<u8>
    decreases s.len(),
{
    if s.len() == 0 {
        Seq::<u8>::empty()
    } else if s.len() >= 2 && s[s.len() - 1] == 0x22u8 && s[s.len() - 2] == 0x22u8 {
        halved(s.subrange(0, s.len() - 2)).push(0x22u8)
    } else {
        halved(s.drop_last()).push(s.last())
    }
}

/// Taking each pair of double quotes for one undoes their doubling.
pub proof fn lemma_halved_doubled(field: Seq<u8>)
    ensures
        halved(doubled(field)) == field,
    decreases field.len(),
{
    if field.len() > 0 {
        let rest = field.drop_last();
        let d = doubled(field);
        lemma_halved_doubled(rest);
        if field.last() == 0x22u8 {
            assert(d.subrange(0, d.len() - 2) =~= doubled(rest));
            assert(rest.push(0x22u8) =~= field);
        } else {
            assert(d.drop_last() =~= doubled(rest));
            assert(rest.push(field.last()) =~= field);
        }
    }
}

/// A field that is written and read back is the field: whatever bytes it
/// holds, quoting loses none and adds none.
pub proof fn lemma_field_reads_back(field: Seq<u8>)
    ensures
        read_field(written_field(field)) == field,
{
    let w = written_field(field);
    if needs_quotes(field) {
        assert(w.subrange(1, w.len() - 1) =~= doubled(field));
        lemma_halved_doubled(field);
    } else if field.len() >= 2 && field[0] == 0x22u8 {
        assert(is_special(field[0]));
    }
}

/// Whether the place after the bytes `s` lies inside quotes, when the place
/// before them does or does not: each double quote changes sides.
pub open spec fn inside_after(s: Seq<u8>, inside: bool) -> bool
    decreases s.len(),
{
    if s.len() == 0 {
        inside
    } else {
        let before = inside_after(s.drop_last(), inside);
        if s.last() == 0x22u8 {
            !before
        } else {
            before
        }
    }
}

/// The fields with `seg` added to the end of the last one.
pub open spec fn extended(fields: Seq<Seq<u8>>, seg: Seq<u8>) -> Seq<Seq<u8>> {
    fields.drop_last().push(fields.last() + seg)
}

/// The bytes `s` split at each comma that stands outside quotes.
pub open spec fn split_fields(s: Seq<u8>) -> Seq<Seq<u8>>
    decreases s.len(),
{
    if s.len() == 0 {
        seq![Seq::<u8>::empty()]
    } else {
        let before = split_fields(s.drop_last());
        if s.last() == 0x2cu8 && !inside_after(s.drop_last(), false) {
            before.push(Seq::<u8>::empty())
        } else {
            extended(before, seq![s.last()])
        }
    }
}

/// The fields of a line: the line without its last byte, the terminator,
/// split at the commas outside quotes, and each part read as a field.
pub open spec fn read_record(line: Seq<u8>) -> Seq<Seq<u8>> {
    let parts = split_fields(line.drop_last());
    Seq::new(parts.len(), |i: int| read_field(parts[i]))
}

proof fn lemma_split_nonempty(s: Seq<u8>)
    ensures
        split_fields(s).len() >= 1,
    decreases s.len(),
{
    if s.len() > 0 {
        lemma_split_nonempty(s.drop_last());
    }
}

proof fn lemma_extended_twice(fields: Seq<Seq<u8>>, a: Seq<u8>, b: Seq<u8>)
    requires
        fields.len() >= 1,
    ensures
        extended(extended(fields, a), b) == extended(fields, a + b),
{
    assert(extended(fields, a).drop_last() =~= fields.drop_last());
    assert((fields.last() + a) + b =~= fields.last() + (a + b));
}

/// One byte after `s` that is no comma outside quotes goes to the last
/// field.
proof fn lemma_push_byte(s: Seq<u8>, b: u8)
    requires
        b != 0x2cu8 || inside_after(s, false),
    ensures
        split_fields(s.push(b)) == extended(split_fields(s), seq![b]),
        inside_after(s.push(b), false) == (if b == 0x22u8 {
            !inside_after(s, false)
        } else {
            inside_after(s, false)
        }),
{
    assert(s.push(b).drop_last() =~= s);
}

/// A field's bytes with their quotes doubled, after bytes that end inside
/// quotes, go to the last field and end inside quotes.
proof fn lemma_push_doubled(s: Seq<u8>, field: Seq<u8>)
    requires
        inside_after(s, false),
    ensures
        split_fields(s + doubled(field)) == extended(split_fields(s), doubled(field)),
        inside_after(s + doubled(field), false),
    decreases field.len(),
{
    lemma_split_nonempty(s);
    if field.len() == 0 {
        assert(s + doubled(field) =~= s);
        assert(split_fields(s).last() + doubled(field) =~= split_fields(s).last());
        assert(extended(split_fields(s), doubled(field)) =~= split_fields(s));
    } else {
        let rest = field.drop_last();
        let mid = s + doubled(rest);
        lemma_push_doubled(s, rest);
        if field.last() == 0x22u8 {
            lemma_push_byte(mid, 0x22u8);
            lemma_push_byte(mid.push(0x22u8), 0x22u8);
            assert(s + doubled(field) =~= mid.push(0x22u8).push(0x22u8));
            lemma_extended_twice(split_fields(s), doubled(rest), seq![0x22u8]);
            lemma_extended_twice(split_fields(s), doubled(rest) + seq![0x22u8], seq![0x22u8]);
            assert((doubled(rest) + seq![0x22u8]) + seq![0x22u8] =~= doubled(field));
        } else {
            lemma_push_byte(mid, field.last());
            assert(s + doubled(field) =~= mid.push(field.last()));
            lemma_extended_twice(split_fields(s), doubled(rest), seq![field.last()]);
            assert(doubled(rest) + seq![field.last()] =~= doubled(field));
        }
    }
}

/// Bytes that need no quotes, after bytes that end outside quotes, go to
/// the last field and end outside quotes.
proof fn lemma_push_plain(s: Seq<u8>, field: Seq<u8>)
    requires
        !inside_after(s, false),
        !needs_quotes(field),
    ensures
        split_fields(s + field) == extended(split_fields(s), field),
        !inside_after(s + field, false),
    decreases field.len(),
{
    lemma_split_nonempty(s);
    if field.len() == 0 {
        assert(s + field =~= s);
        assert(split_fields(s).last() + field =~= split_fields(s).last());
        assert(extended(split_fields(s), field) =~= split_fields(s));
    } else {
        let rest = field.drop_last();
        let mid = s + rest;
        assert(!needs_quotes(rest)) by {
            if needs_quotes(rest) {
                let i = choose|i: int| 0 <= i < rest.len() && is_special(#[trigger] rest[i]);
                assert(is_special(field[i]));
            }
        }
        assert(!is_special(field[field.len() - 1]));
        lemma_push_plain(s, rest);
        lemma_push_byte(mid, field.last());
        assert(s + field =~= mid.push(field.last()));
        lemma_extended_twice(split_fields(s), rest, seq![field.last()]);
        assert(rest + seq![field.last()] =~= field);
    }
}

/// A written field, after bytes that end outside quotes, goes to the last
/// field and ends outside quotes.
proof fn lemma_push_written(s: Seq<u8>, field: Seq<u8>)
    requires
        !inside_after(s, false),
    ensures
        split_fields(s + written_field(field)) == extended(split_fields(s), written_field(field)),
        !inside_after(s + written_field(field), false),
{
    lemma_split_nonempty(s);
    if needs_quotes(field) {
        let open = s.push(0x22u8);
        lemma_push_byte(s, 0x22u8);
        lemma_push_doubled(open, field);
        let body = open + doubled(field);
        lemma_push_byte(body, 0x22u8);
        assert(s + written_field(field) =~= body.push(0x22u8));
        lemma_extended_twice(split_fields(s), seq![0x22u8], doubled(field));
        lemma_extended_twice(split_fields(s), seq![0x22u8] + doubled(field), seq![0x22u8]);
        assert((seq![0x22u8] + doubled(field)) + seq![0x22u8] =~= written_field(field));
    } else {
        lemma_push_plain(s, field);
    }
}

/// Written and joined fields split again into the written fields, and end
/// outside quotes.
pub proof fn lemma_joined_splits(fields: Seq<Seq<u8>>)
    requires
        fields.len() >= 1,
    ensures
        split_fields(joined(fields)) == Seq::new(fields.len(), |i: int| written_field(fields[i])),
        !inside_after(joined(fields), false),
    decreases fields.len(),
{
    let empty = Seq::<u8>::empty();
    let want = Seq::new(fields.len(), |i: int| written_field(fields[i]));
    if fields.len() == 1 {
        lemma_push_written(empty, fields[0]);
        assert(empty + written_field(fields[0]) =~= joined(fields));
        assert(extended(split_fields(empty), written_field(fields[0])) =~= want) by {
            assert(empty + written_field(fields[0]) =~= written_field(fields[0]));
        }
    } else {
        let rest = fields.drop_last();
        let head = joined(rest);
        lemma_joined_splits(rest);
        let sep = head.push(0x2cu8);
        assert(sep.drop_last() =~= head);
        assert(split_fields(sep) == split_fields(head).push(empty));
        assert(!inside_after(sep, false));
        lemma_push_written(sep, fields.last());
        assert(sep + written_field(fields.last()) =~= joined(fields));
        assert(extended(split_fields(sep), written_field(fields.last())) =~= want) by {
            assert(empty + written_field(fields.last()) =~= written_field(fields.last()));
        }
    }
}

/// A record that is written and read back gives its fields: as many as
/// were written, each with the bytes it had.
pub proof fn lemma_record_reads_back(fields: Seq<Seq<u8>>)
    requires
        fields.len() >= 1,
    ensures
        read_record(joined(fields) + seq![0x0au8]) == fields,
{
    let line = joined(fields) + seq![0x0au8];
    assert(line.drop_last() =~= joined(fields));
    lemma_joined_splits(fields);
    assert forall|i: int| 0 <= i < fields.len() implies read_record(line)[i] == fields[i] by {
        lemma_field_reads_back(fields[i]);
    }
    assert(read_record(line) =~= fields);
}

/// The texts of a line: its fields, each decoded from UTF-8.
pub open spec fn read_texts(line: Seq<u8>) -> Seq<Seq<char>> {
    Seq::new(read_record(line).len(), |i: int| decode_utf8(read_record(line)[i]))
}

/// A record of texts that is written and read back gives the texts.
pub proof fn lemma_texts_read_back(fields: Seq<Seq<char>>)
    requires
        fields.len() >= 1,
    ensures
        read_texts(csv_record(fields)) == fields,
{
    let bytes = Seq::new(fields.len(), |i: int| encode_utf8(fields[i]));
    lemma_record_reads_back(bytes);
    assert forall|i: int| 0 <= i < fields.len() implies read_texts(csv_record(fields))[i]
        == fields[i] by {
        encode_utf8_decode_utf8(fields[i]);
    }
    assert(read_texts(csv_record(fields)) =~= fields);
}

/// The line of a row, read back, gives the fields of the row.
pub proof fn lemma_line_reads_back(rec: RecordView)
    ensures
        read_texts(record_line(rec)) == record_fields(rec),
{
    lemma_texts_read_back(record_fields(rec));
}

} // verus!
