//! The line grammar of a unit file: `Key=value` entries, decimal numbers
//! and space-joined lists.

use vstd::prelude::*;
use crate::model::texts;

verus! {

/// A key and its value, as one line of a section will show them.
pub type Entry = (Seq<char>, Seq<char>);

/// The character of a decimal digit.
pub open spec fn digit(d: nat) -> char {
    if d == 0 {
        '0'
    } else if d == 1 {
        '1'
    } else if d == 2 {
        '2'
    } else if d == 3 {
        '3'
    } else if d == 4 {
        '4'
    } else if d == 5 {
        '5'
    } else if d == 6 {
        '6'
    } else if d == 7 {
        '7'
    } else if d == 8 {
        '8'
    } else {
        '9'
    }
}

/// A number in decimal, without sign and without leading zeros.
pub open spec fn decimal(n: nat) -> Seq<char>
    decreases n,
{
    if n < 10 {
        seq![digit(n)]
    } else {
        decimal(n / 10).push(digit(n % 10))
    }
}

/// One line: the key, `=`, the value and a line feed.
pub open spec fn entry_text(key: Seq<char>, value: Seq<char>) -> Seq<char> {
    key + seq!['='] + value + seq!['\n']
}

/// The lines of a run of entries, in their order.
pub open spec fn entries_text(entries: Seq<Entry>) -> Seq<char>
    decreases entries.len(),
{
    if entries.len() == 0 {
        Seq::empty()
    } else {
        entries_text(entries.drop_last()) + entry_text(entries.last().0, entries.last().1)
    }
}

/// No entry where the value is absent, one where it is present.
pub open spec fn opt_entry(key: Seq<char>, value: Option<Seq<char>>) -> Seq<Entry> {
    match value {
        Some(v) => seq![(key, v)],
        None => Seq::empty(),
    }
}

/// One entry under the same key for each value of a list.
pub open spec fn keyed(key: Seq<char>, values: Seq<Seq<char>>) -> Seq<Entry> {
    Seq::new(values.len(), |i: int| (key, values[i]))
}

/// The parts of a list with one space between neighbours.
pub open spec fn joined(parts: Seq<Seq<char>>) -> Seq<char>
    decreases parts.len(),
{
    if parts.len() == 0 {
        Seq::empty()
    } else if parts.len() == 1 {
        parts[0]
    } else {
        joined(parts.drop_last()) + seq![' '] + parts.last()
    }
}

/// Appending an entry appends its line.
pub proof fn lemma_entries_text_push(entries: Seq<Entry>, e: Entry)
    ensures
        entries_text(entries.push(e)) == entries_text(entries) + entry_text(e.0, e.1),
{
    assert(entries.push(e).drop_last() =~= entries);
}

/// The lines of two runs of entries are the lines of the first, then those
/// of the second.
pub proof fn lemma_entries_text_concat(a: Seq<Entry>, b: Seq<Entry>)
    ensures
        entries_text(a + b) == entries_text(a) + entries_text(b),
    decreases b.len(),
{
    if b.len() == 0 {
        assert(a + b =~= a);
        assert(entries_text(a) + entries_text(b) =~= entries_text(a));
    } else {
        lemma_entries_text_concat(a, b.drop_last());
        assert((a + b).drop_last() =~= a + b.drop_last());
        assert((a + b).last() == b.last());
        assert(entries_text(a + b) =~= entries_text(a) + entries_text(b));
    }
}

fn digit_str(d: u32) -> (s: &'static str)
    requires
        d < 10,
    ensures
        s@ == seq![digit(d as nat)],
{
    proof {
        reveal_strlit("0");
        reveal_strlit("1");
        reveal_strlit("2");
        reveal_strlit("3");
        reveal_strlit("4");
        reveal_strlit("5");
        reveal_strlit("6");
        reveal_strlit("7");
        reveal_strlit("8");
        reveal_strlit("9");
    }
    let s: &'static str = if d == 0 {
        "0"
    } else if d == 1 {
        "1"
    } else if d == 2 {
        "2"
    } else if d == 3 {
        "3"
    } else if d == 4 {
        "4"
    } else if d == 5 {
        "5"
    } else if d == 6 {
        "6"
    } else if d == 7 {
        "7"
    } else if d == 8 {
        "8"
    } else {
        "9"
    };
    assert(s@ =~= seq![digit(d as nat)]);
    s
}

/// Writes a number in decimal.
pub fn decimal_text(n: u32) -> (s: String)
    ensures
        s@ == decimal(n as nat),
    decreases n,
{
    if n < 10 {
        String::from_str(digit_str(n))
    } else {
        let mut s = decimal_text(n / 10);
        s.append(digit_str(n % 10));
        assert(s@ =~= decimal(n as nat));
        s
    }
}

/// Joins the parts of a list with single spaces.
pub fn join_with_space(parts: &Vec<String>) -> (s: String)
    ensures
        s@ == joined(texts(parts@)),
{
    let ghost all = texts(parts@);
    let mut s = String::new();
    let mut i: usize = 0;
    while i < parts.len()
        invariant
            i <= parts.len(),
            all == texts(parts@),
            s@ == joined(all.take(i as int)),
        decreases parts.len() - i,
    {
        proof {
            reveal_strlit(" ");
            assert(all.take(i as int + 1).drop_last() =~= all.take(i as int));
            assert(all.take(i as int + 1).last() == parts@[i as int]@);
        }
        if i > 0 {
            s.append(" ");
        }
        s.append(parts[i].as_str());
        assert(s@ =~= joined(all.take(i as int + 1)));
        i += 1;
    }
    assert(all.take(i as int) =~= all);
    s
}

/// Appends the line of one entry.
pub fn push_entry(out: &mut String, key: &str, value: &str)
    ensures
        final(out)@ == old(out)@ + entry_text(key@, value@),
{
    proof {
        reveal_strlit("=");
        reveal_strlit("\n");
    }
    out.append(key);
    out.append("=");
    out.append(value);
    out.append("\n");
    assert(out@ =~= old(out)@ + entry_text(key@, value@));
}

/// Appends the line of an entry whose value is present, and nothing
/// otherwise.
pub fn push_opt_entry(out: &mut String, key: &str, value: Option<&str>)
    ensures
        final(out)@ == old(out)@ + entries_text(
            opt_entry(
                key@,
                match value {
                    Some(v) => Some(v@),
                    None => None,
                },
            ),
        ),
{
    match value {
        Some(v) => {
            push_entry(out, key, v);
            proof {
                lemma_entries_text_push(Seq::empty(), (key@, v@));
                assert(Seq::<Entry>::empty().push((key@, v@)) =~= seq![(key@, v@)]);
                assert(out@ =~= old(out)@ + entries_text(seq![(key@, v@)]));
            }
        },
        None => {
            assert(out@ =~= old(out)@ + entries_text(Seq::<Entry>::empty()));
        },
    }
}

/// Appends one line under the same key for each value of a list.
pub fn push_keyed(out: &mut String, key: &str, values: &Vec<String>)
    ensures
        final(out)@ == old(out)@ + entries_text(keyed(key@, texts(values@))),
{
    let ghost all = keyed(key@, texts(values@));
    let mut i: usize = 0;
    assert(out@ =~= old(out)@ + entries_text(all.take(0)));
    while i < values.len()
        invariant
            i <= values.len(),
            all == keyed(key@, texts(values@)),
            out@ == old(out)@ + entries_text(all.take(i as int)),
        decreases values.len() - i,
    {
        push_entry(out, key, values[i].as_str());
        proof {
            lemma_entries_text_push(all.take(i as int), (key@, values@[i as int]@));
            assert(all.take(i as int).push((key@, values@[i as int]@)) =~= all.take(i as int + 1));
            assert(out@ =~= old(out)@ + entries_text(all.take(i as int + 1)));
        }
        i += 1;
    }
    assert(all.take(i as int) =~= all);
}

} // verus!
