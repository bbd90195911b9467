//! TOML documents made of keys with string values: written here, read with
//! `toml`.

use crate::json::{own, value_tree, Json, JsonTree};
use crate::text::{a_part_stands_in_the_whole, has_text, occurs_at};
use vstd::prelude::*;

verus! {

// ── Writing ───────────────────────────────────────────────────────

/// The character of a hexadecimal digit.
pub open spec fn hex_char(d: int) -> char {
    if d < 10 {
        (48 + d) as char
    } else {
        (55 + d) as char
    }
}

/// A character as it stands in a basic string.
pub open spec fn escaped_char(c: char) -> Seq<char> {
    if c == '"' || c == '\\' {
        seq!['\\', c]
    } else if c == '\n' {
        seq!['\\', 'n']
    } else if c == '\r' {
        seq!['\\', 'r']
    } else if c == '\t' {
        seq!['\\', 't']
    } else if c < ' ' || c == '\u{7f}' {
        seq!['\\', 'u', '0', '0', hex_char(c as int / 16), hex_char(c as int % 16)]
    } else {
        seq![c]
    }
}

/// A text as it stands in a basic string.
pub open spec fn escaped(s: Seq<char>) -> Seq<char>
    decreases s.len(),
{
    if s.len() == 0 {
        Seq::empty()
    } else {
        escaped(s.drop_last()) + escaped_char(s.last())
    }
}

/// The line that sets a key to a text.
pub open spec fn toml_line(key: Seq<char>, value: Seq<char>) -> Seq<char> {
    key + " = \""@ + escaped(value) + "\"\n"@
}

/// The lines that set keys to texts, in their order.
pub open spec fn toml_lines(entries: Seq<(Seq<char>, Seq<char>)>) -> Seq<char>
    decreases entries.len(),
{
    if entries.len() == 0 {
        Seq::empty()
    } else {
        toml_lines(entries.drop_last()) + toml_line(entries.last().0, entries.last().1)
    }
}

/// A key that needs no quotation marks.
pub open spec fn bare_key(key: Seq<char>) -> bool {
    &&& key.len() > 0
    &&& forall|i: int|
        0 <= i < key.len() ==> {
            let c = #[trigger] key[i];
            'a' <= c <= 'z' || 'A' <= c <= 'Z' || '0' <= c <= '9' || c == '_' || c == '-'
        }
}

/// The keys need no quotation marks, and none occurs twice.
pub open spec fn writable(entries: Seq<(Seq<char>, Seq<char>)>) -> bool {
    &&& forall|i: int| 0 <= i < entries.len() ==> bare_key(#[trigger] entries[i].0)
    &&& forall|i: int, j: int|
        0 <= i < j < entries.len() ==> #[trigger] entries[i].0 != #[trigger] entries[j].0
}

/// What such lines set: each key to its text, and no other key.
pub open spec fn entries_map(entries: Seq<(Seq<char>, Seq<char>)>) -> Map<
    Seq<char>,
    Option<Seq<char>>,
>
    decreases entries.len(),
{
    if entries.len() == 0 {
        Map::empty()
    } else {
        entries_map(entries.drop_last()).insert(entries.last().0, Some(entries.last().1))
    }
}

fn hex_digit(d: u8) -> (r: char)
    requires
        d < 16,
    ensures
        r == hex_char(d as int),
{
    if d < 10 {
        (48 + d) as char
    } else {
        (55 + d) as char
    }
}

fn push_escaped(out: &mut String, c: char)
    ensures
        final(out)@ == old(out)@ + escaped_char(c),
{
    if c == '"' || c == '\\' {
        out.push('\\');
        out.push(c);
    } else if c == '\n' {
        out.push('\\');
        out.push('n');
    } else if c == '\r' {
        out.push('\\');
        out.push('r');
    } else if c == '\t' {
        out.push('\\');
        out.push('t');
    } else if c < ' ' || c == '\u{7f}' {
        let code: u8 = c as u8;
        out.push('\\');
        out.push('u');
        out.push('0');
        out.push('0');
        out.push(hex_digit(code / 16));
        out.push(hex_digit(code % 16));
    } else {
        out.push(c);
    }
    assert(out@ =~= old(out)@ + escaped_char(c));
}

/// Appends the line that sets a key to a text.
pub(crate) fn push_line(out: &mut String, key: &str, value: &str)
    ensures
        final(out)@ == old(out)@ + toml_line(key@, value@),
{
    out.append(key);
    out.append(" = \"");
    let ghost before = out@;
    assert(value@.take(0) =~= Seq::<char>::empty());
    for c in it: value.chars()
        invariant
            it.seq() == value@,
            out@ == before + escaped(value@.take(it.index() as int)),
    {
        push_escaped(out, c);
        proof {
            let next = value@.take(it.index() + 1);
            assert(next.drop_last() =~= value@.take(it.index() as int));
            assert(out@ =~= before + escaped(next));
        }
    }
    assert(value@.take(value@.len() as int) =~= value@);
    out.append("\"\n");
    assert(out@ =~= old(out)@ + toml_line(key@, value@));
}

// ── Reading ───────────────────────────────────────────────────────

#[verifier::external_type_specification]
#[verifier::external_body]
pub struct ExTomlError(toml::de::Error);

/// The keys of a document, each with its text, or with `None` where its value
/// is no string.
pub open spec fn entries_of(document: JsonTree) -> Map<Seq<char>, Option<Seq<char>>> {
    Map::new(
        |key: Seq<char>| document.field(key) is Some,
        |key: Seq<char>| document.field(key)->0.text(),
    )
}

/// The tree of the document that `toml::from_str` reads in a text, if it reads
/// one.
pub uninterp spec fn toml_document(text: Seq<char>) -> Option<JsonTree>;

/// Where the text is made of lines that set keys to texts, what was read is
/// what they set.
pub open spec fn reads_back(text: Seq<char>, document: Option<JsonTree>) -> bool {
    forall|entries: Seq<(Seq<char>, Seq<char>)>|
        writable(entries) && text == #[trigger] toml_lines(entries) ==> (document matches Some(t)
            && entries_of(t) == entries_map(entries))
}

/// `toml::from_str`: reads the text as a TOML document. The values are read
/// into `serde_json::Value`, which takes every value and every key of a
/// document as an ordinary one. Whether there is a document, and what it
/// holds, depends on the text alone; lines that set bare keys, none of them
/// twice, to basic strings are one, which holds what they set.
#[verifier::external_body]
fn value_from_toml(text: &str) -> (r: Result<serde_json::Value, toml::de::Error>)
    ensures
        match r {
            Ok(v) => toml_document(text@) == Some(value_tree(v)) && reads_back(
                text@,
                Some(value_tree(v)),
            ),
            Err(_) => toml_document(text@) is None && reads_back(text@, None),
        },
{
    toml::from_str(text)
}

/// The TOML document in a text, if it is one.
pub fn parse_toml(text: &str) -> (r: Option<Json>)
    ensures
        match r {
            Some(v) => toml_document(text@) == Some(v.tree()),
            None => toml_document(text@) is None,
        },
        reads_back(text@, toml_document(text@)),
{
    match value_from_toml(text) {
        Ok(v) => Some(own(&v)),
        Err(_) => None,
    }
}

// ── Laws ──────────────────────────────────────────────────────────

proof fn lemma_escaped_from_the_front(s: Seq<char>)
    requires
        s.len() > 0,
    ensures
        escaped(s) == escaped_char(s[0]) + escaped(s.drop_first()),
    decreases s.len(),
{
    if s.len() == 1 {
        assert(s.drop_last() =~= Seq::<char>::empty());
        assert(s.drop_first() =~= Seq::<char>::empty());
        assert(escaped(s) =~= escaped_char(s[0]) + escaped(s.drop_first()));
    } else {
        lemma_escaped_from_the_front(s.drop_last());
        assert(s.drop_first().drop_last() =~= s.drop_last().drop_first());
        assert(escaped(s) =~= escaped_char(s[0]) + escaped(s.drop_first()));
    }
}

proof fn lemma_characters_are_told_apart(c: char, x: Seq<char>, d: char, y: Seq<char>)
    requires
        escaped_char(c) + x == escaped_char(d) + y,
    ensures
        c == d,
        x == y,
{
    let a = escaped_char(c) + x;
    let b = escaped_char(d) + y;
    let e = escaped_char(c);
    let f = escaped_char(d);
    assert(a[0] == e[0] && b[0] == f[0]);
    if e.len() > 1 && f.len() > 1 {
        assert(a[1] == e[1] && b[1] == f[1]);
        if e.len() == 6 && f.len() == 6 {
            assert(a[4] == e[4] && b[4] == f[4]);
            assert(a[5] == e[5] && b[5] == f[5]);
        }
    }
    assert(c == d);
    assert(x =~= a.skip(e.len() as int));
    assert(y =~= b.skip(f.len() as int));
}

/// Two texts are not written the same.
pub proof fn different_texts_are_written_differently(s: Seq<char>, t: Seq<char>)
    ensures
        escaped(s) == escaped(t) ==> s == t,
    decreases s.len(),
{
    if escaped(s) == escaped(t) {
        if s.len() > 0 {
            lemma_escaped_from_the_front(s);
        }
        if t.len() > 0 {
            lemma_escaped_from_the_front(t);
        }
        if s.len() > 0 && t.len() > 0 {
            lemma_characters_are_told_apart(
                s[0],
                escaped(s.drop_first()),
                t[0],
                escaped(t.drop_first()),
            );
            different_texts_are_written_differently(s.drop_first(), t.drop_first());
            assert(s =~= seq![s[0]] + s.drop_first());
            assert(t =~= seq![t[0]] + t.drop_first());
        } else if s.len() > 0 {
            assert(escaped(s).len() > 0);
        } else if t.len() > 0 {
            assert(escaped(t).len() > 0);
        } else {
            assert(s =~= t);
        }
    }
}

proof fn lemma_a_written_character_is_printable(c: char, i: int)
    requires
        0 <= i < escaped_char(c).len(),
    ensures
        escaped_char(c)[i] >= ' ',
        escaped_char(c)[i] != '\u{7f}',
        escaped_char(c)[i] == '"' ==> i > 0 && escaped_char(c)[i - 1] == '\\',
{
    let e = escaped_char(c);
    if e.len() == 6 {
        let high = c as int / 16;
        let low = c as int % 16;
        assert(0 <= high < 16 && 0 <= low < 16);
        assert('0' <= hex_char(high) <= 'F');
        assert('0' <= hex_char(low) <= 'F');
        assert(i == 0 || i == 1 || i == 2 || i == 3 || i == 4 || i == 5);
    } else {
        assert(i == 0 || i == 1);
    }
}

/// A written text stays on its line and within its quotation marks: it holds no
/// control character, and no quotation mark without a backslash before it.
pub proof fn a_written_text_stays_within_its_marks(s: Seq<char>, i: int)
    requires
        0 <= i < escaped(s).len(),
    ensures
        escaped(s)[i] >= ' ',
        escaped(s)[i] != '\u{7f}',
        escaped(s)[i] == '"' ==> i > 0 && escaped(s)[i - 1] == '\\',
    decreases s.len(),
{
    let before = escaped(s.drop_last());
    if i < before.len() {
        a_written_text_stays_within_its_marks(s.drop_last(), i);
    } else {
        lemma_a_written_character_is_printable(s.last(), i - before.len());
        assert(escaped(s)[i] == escaped_char(s.last())[i - before.len()]);
        if i > before.len() {
            assert(escaped(s)[i - 1] == escaped_char(s.last())[i - 1 - before.len()]);
        }
    }
}

/// A character that means nothing to TOML is written as it is; a quotation mark
/// and a backslash have a backslash before them.
pub proof fn an_ordinary_character_is_written_as_it_is(s: Seq<char>, c: char)
    ensures
        ' ' <= c && c != '"' && c != '\\' && c != '\u{7f}' ==> escaped(s.push(c)) == escaped(
            s,
        ).push(c),
        c == '"' || c == '\\' ==> escaped(s.push(c)) == escaped(s).push('\\').push(c),
        escaped(s.push('\n')) == escaped(s).push('\\').push('n'),
        escaped(s.push('\r')) == escaped(s).push('\\').push('r'),
        escaped(s.push('\t')) == escaped(s).push('\\').push('t'),
        escaped(Seq::empty()).len() == 0,
{
    assert(s.push(c).drop_last() =~= s);
    assert(s.push('\n').drop_last() =~= s);
    assert(s.push('\r').drop_last() =~= s);
    assert(s.push('\t').drop_last() =~= s);
    assert(escaped(s.push(c)) =~= escaped(s) + escaped_char(c));
    assert(escaped(s) + seq![c] =~= escaped(s).push(c));
    assert(escaped(s) + seq!['\\', c] =~= escaped(s).push('\\').push(c));
    assert(escaped(s) + seq!['\\', 'n'] =~= escaped(s).push('\\').push('n'));
    assert(escaped(s) + seq!['\\', 'r'] =~= escaped(s).push('\\').push('r'));
    assert(escaped(s) + seq!['\\', 't'] =~= escaped(s).push('\\').push('t'));
}

/// Each entry has its line among the others: the key, an equals sign, and the
/// text in quotation marks.
pub proof fn each_entry_has_its_line(entries: Seq<(Seq<char>, Seq<char>)>, i: int)
    requires
        0 <= i < entries.len(),
    ensures
        has_text(
            toml_lines(entries),
            entries[i].0 + " = \""@ + escaped(entries[i].1) + "\"\n"@,
        ),
    decreases entries.len(),
{
    let line = entries[i].0 + " = \""@ + escaped(entries[i].1) + "\"\n"@;
    let before = toml_lines(entries.drop_last());
    let last = toml_line(entries.last().0, entries.last().1);
    if i == entries.len() - 1 {
        a_part_stands_in_the_whole(before, line, Seq::empty());
        assert(before + line + Seq::<char>::empty() =~= toml_lines(entries));
    } else {
        each_entry_has_its_line(entries.drop_last(), i);
        let k = choose|k: int| #[trigger] occurs_at(before, line, k);
        assert(occurs_at(toml_lines(entries), line, k)) by {
            assert(toml_lines(entries).subrange(k, k + line.len()) =~= before.subrange(
                k,
                k + line.len(),
            ));
        }
    }
}

/// What is written is what is set: each key to its own text, and no other key.
pub proof fn each_key_is_set_to_its_text(entries: Seq<(Seq<char>, Seq<char>)>, key: Seq<char>)
    requires
        writable(entries),
    ensures
        entries_map(entries).dom().contains(key) <==> exists|i: int|
            0 <= i < entries.len() && (#[trigger] entries[i]).0 == key,
        forall|i: int|
            0 <= i < entries.len() && (#[trigger] entries[i]).0 == key ==> entries_map(entries)[key]
                == Some(entries[i].1),
    decreases entries.len(),
{
    if entries.len() > 0 {
        let rest = entries.drop_last();
        assert forall|i: int, j: int| 0 <= i < j < rest.len() implies #[trigger] rest[i].0
            != #[trigger] rest[j].0 by {
            assert(entries[i].0 != entries[j].0);
        }
        assert forall|i: int| 0 <= i < rest.len() implies bare_key(#[trigger] rest[i].0) by {
            assert(bare_key(entries[i].0));
        }
        each_key_is_set_to_its_text(rest, key);
        let last = entries.len() - 1;
        assert(entries[last] == entries.last());
        if exists|i: int| 0 <= i < rest.len() && (#[trigger] rest[i]).0 == key {
            let i = choose|i: int| 0 <= i < rest.len() && (#[trigger] rest[i]).0 == key;
            assert(entries[i].0 == key);
            assert(entries[i].0 != entries[last].0);
        }
        assert forall|i: int| 0 <= i < entries.len() && (#[trigger] entries[i]).0 == key implies
            entries_map(entries)[key] == Some(entries[i].1) by {
            if i < last {
                assert(rest[i].0 == key);
                assert(entries[i].0 != entries[last].0);
            }
        }
        assert forall|i: int| 0 <= i < entries.len() && (#[trigger] entries[i]).0 == key implies
            entries_map(entries).dom().contains(key) by {
            if i < last {
                assert(rest[i].0 == key);
            }
        }
    }
}

/// The keys of a document are its fields, and a value counts as a text exactly if
/// it is a string.
pub proof fn only_strings_count_as_texts(document: JsonTree, key: Seq<char>, s: Seq<char>)
    ensures
        entries_of(document).dom().contains(key) <==> document.field(key) is Some,
        document.field(key) is Some ==> (entries_of(document)[key] == Some(s) <==> document.field(
            key,
        ) == Some(JsonTree::Text(s))),
{
}

}
