//! Text as sequences of characters: the vocabulary that the contracts of the
//! other modules are written in, and the string operations they use.

use vstd::prelude::*;
use vstd::utf8::{decode_utf8, is_ascii_chars, valid_utf8};

verus! {

// ── White space ───────────────────────────────────────────────────

/// The characters with the Unicode property `White_Space`.
pub open spec fn white_space(c: char) -> bool {
    ||| '\u{9}' <= c <= '\u{d}'
    ||| c == ' '
    ||| c == '\u{85}'
    ||| c == '\u{a0}'
    ||| c == '\u{1680}'
    ||| '\u{2000}' <= c <= '\u{200a}'
    ||| c == '\u{2028}'
    ||| c == '\u{2029}'
    ||| c == '\u{202f}'
    ||| c == '\u{205f}'
    ||| c == '\u{3000}'
}

/// `char::is_whitespace`: whether a character has the Unicode property
/// `White_Space`, which holds of the characters that [`white_space`] lists.
pub assume_specification[ char::is_whitespace ](c: char) -> (r: bool)
    ensures
        r == white_space(c),
;

/// A text without the white space at its start.
pub open spec fn trimmed_start(s: Seq<char>) -> Seq<char>
    decreases s.len(),
{
    if s.len() > 0 && white_space(s[0]) {
        trimmed_start(s.drop_first())
    } else {
        s
    }
}

/// A text without the white space at its end.
pub open spec fn trimmed_end(s: Seq<char>) -> Seq<char>
    decreases s.len(),
{
    if s.len() > 0 && white_space(s.last()) {
        trimmed_end(s.drop_last())
    } else {
        s
    }
}

/// A text without the white space at either end.
pub open spec fn trimmed(s: Seq<char>) -> Seq<char> {
    trimmed_end(trimmed_start(s))
}

/// Every character of the text is white space.
pub open spec fn blank(s: Seq<char>) -> bool {
    forall|i: int| 0 <= i < s.len() ==> white_space(#[trigger] s[i])
}

/// `str::trim`: the text without leading and trailing white space.
#[verifier::external_body]
pub(crate) fn trim(s: &str) -> (r: &str)
    ensures
        r@ == trimmed(s@),
{
    s.trim()
}

// ── Comparison and search ─────────────────────────────────────────

/// `==` on `str`: equality of the texts.
#[verifier::external_body]
pub(crate) fn same_text(a: &str, b: &str) -> (r: bool)
    ensures
        r == (a@ == b@),
{
    a == b
}

/// `a` and `b` agree up to position `k`, where `b` goes on with a greater
/// character, or goes on where `a` ends.
pub open spec fn parts_at(a: Seq<char>, b: Seq<char>, k: int) -> bool {
    &&& 0 <= k <= a.len()
    &&& k < b.len()
    &&& a.take(k) == b.take(k)
    &&& k == a.len() || a[k] < b[k]
}

/// `a` comes before `b` in the order of strings, character by character.
pub open spec fn text_less(a: Seq<char>, b: Seq<char>) -> bool {
    exists|k: int| parts_at(a, b, k)
}

/// No text comes before itself, and of two texts at most one before the other.
pub proof fn text_order_is_one_sided(a: Seq<char>, b: Seq<char>)
    requires
        text_less(a, b),
    ensures
        !text_less(b, a),
        a != b,
{
    let k = choose|k: int| parts_at(a, b, k);
    if text_less(b, a) {
        let j = choose|j: int| parts_at(b, a, j);
        if j < k {
            assert(a.take(k)[j] == b.take(k)[j]);
        } else if k < j {
            assert(a.take(j)[k] == b.take(j)[k]);
        }
    }
}

/// What comes before a text that comes before another comes before that too.
pub proof fn text_order_is_transitive(a: Seq<char>, b: Seq<char>, c: Seq<char>)
    requires
        text_less(a, b),
        text_less(b, c),
    ensures
        text_less(a, c),
{
    let k = choose|k: int| parts_at(a, b, k);
    let j = choose|j: int| parts_at(b, c, j);
    let m = if k < j {
        k
    } else {
        j
    };
    assert forall|i: int| 0 <= i < m implies a[i] == c[i] by {
        assert(a.take(k)[i] == b.take(k)[i]);
        assert(b.take(j)[i] == c.take(j)[i]);
    }
    assert(a.take(m) =~= c.take(m));
    if k < j {
        assert(b.take(j)[k] == c.take(j)[k]);
    } else if j < k {
        assert(a.take(k)[j] == b.take(k)[j]);
    }
    assert(parts_at(a, c, m));
}

/// Whether `a` comes before `b` in the order of strings; if neither comes
/// before the other they are the same text.
pub(crate) fn precedes(a: &str, b: &str) -> (r: bool)
    ensures
        r == text_less(a@, b@),
        !r ==> a@ == b@ || text_less(b@, a@),
{
    let x = chars_of(a);
    let y = chars_of(b);
    let mut k: usize = 0;
    while k < x.len() && k < y.len() && x[k] == y[k]
        invariant
            k <= x@.len(),
            k <= y@.len(),
            forall|i: int| 0 <= i < k ==> x@[i] == y@[i],
        decreases x@.len() - k,
    {
        k += 1;
    }
    proof {
        assert(a@.take(k as int) =~= b@.take(k as int));
        if k == y@.len() {
            if k == x@.len() {
                assert(a@ =~= b@);
                assert(!text_less(a@, b@)) by {
                    if text_less(a@, b@) {
                        text_order_is_one_sided(a@, b@);
                    }
                }
            } else {
                assert(parts_at(b@, a@, k as int));
                text_order_is_one_sided(b@, a@);
            }
        } else if k == x@.len() || x@[k as int] < y@[k as int] {
            assert(parts_at(a@, b@, k as int));
        } else {
            assert(parts_at(b@, a@, k as int));
            text_order_is_one_sided(b@, a@);
        }
    }
    if k == y.len() {
        false
    } else {
        k == x.len() || x[k] < y[k]
    }
}

/// `pattern` stands in `s` at position `i`.
pub open spec fn occurs_at(s: Seq<char>, pattern: Seq<char>, i: int) -> bool {
    &&& 0 <= i
    &&& i + pattern.len() <= s.len()
    &&& s.subrange(i, i + pattern.len()) == pattern
}

/// `pattern` stands somewhere in `s`.
pub open spec fn has_text(s: Seq<char>, pattern: Seq<char>) -> bool {
    exists|i: int| occurs_at(s, pattern, i)
}

/// The characters of a text, in order.
pub(crate) fn chars_of(s: &str) -> (r: Vec<char>)
    ensures
        r@ == s@,
{
    let mut v: Vec<char> = Vec::new();
    for c in it: s.chars()
        invariant
            it.seq() == s@,
            v@ == s@.take(it.index() as int),
    {
        v.push(c);
    }
    v
}

/// The position of the first occurrence of `needle` in `hay`.
pub(crate) fn find_chars(hay: &Vec<char>, needle: &Vec<char>) -> (r: Option<usize>)
    ensures
        match r {
            Some(i) => occurs_at(hay@, needle@, i as int) && forall|j: int|
                0 <= j < i ==> !occurs_at(hay@, needle@, j),
            None => !has_text(hay@, needle@),
        },
{
    if needle.len() > hay.len() {
        return None;
    }
    let last: usize = hay.len() - needle.len();
    let mut i: usize = 0;
    while i <= last
        invariant
            needle@.len() <= hay@.len(),
            last == hay@.len() - needle@.len(),
            i <= last + 1,
            forall|j: int| 0 <= j < i ==> !occurs_at(hay@, needle@, j),
        decreases last + 1 - i,
    {
        let mut k: usize = 0;
        while k < needle.len() && hay[i + k] == needle[k]
            invariant
                i + needle.len() <= hay.len(),
                k <= needle@.len(),
                forall|m: int| 0 <= m < k ==> hay@[i + m] == needle@[m],
            decreases needle@.len() - k,
        {
            k += 1;
        }
        if k == needle.len() {
            assert(hay@.subrange(i as int, i + needle@.len()) =~= needle@);
            return Some(i);
        }
        assert(!occurs_at(hay@, needle@, i as int)) by {
            let part = hay@.subrange(i as int, i + needle@.len());
            assert(part[k as int] != needle@[k as int]);
        }
        if i == last {
            return None;
        }
        i += 1;
    }
    None
}

/// Whether `pattern` stands somewhere in `s`.
pub(crate) fn contains(s: &str, pattern: &str) -> (r: bool)
    ensures
        r == has_text(s@, pattern@),
{
    find_chars(&chars_of(s), &chars_of(pattern)).is_some()
}

// ── Case ──────────────────────────────────────────────────────────

/// The lower-case form of an ASCII letter; any other character as it is.
pub open spec fn ascii_lower(c: char) -> char {
    if 'A' <= c <= 'Z' {
        (c as u32 + 32) as char
    } else {
        c
    }
}

/// What `str::to_lowercase` gives for a text, by the Unicode case mappings.
pub uninterp spec fn unicode_lowercase(s: Seq<char>) -> Seq<char>;

/// The lower-case form of a text.
pub open spec fn lowercase(s: Seq<char>) -> Seq<char> {
    if is_ascii_chars(s) {
        s.map_values(|c: char| ascii_lower(c))
    } else {
        unicode_lowercase(s)
    }
}

/// `str::to_lowercase`: the lower-case form of a text. On ASCII text it maps
/// `A` to `Z` and nothing else; beyond ASCII it follows the Unicode tables.
#[verifier::external_body]
pub(crate) fn to_lowercase(s: &str) -> (r: String)
    ensures
        is_ascii_chars(s@) ==> r@ == s@.map_values(|c: char| ascii_lower(c)),
        !is_ascii_chars(s@) ==> r@ == unicode_lowercase(s@),
{
    s.to_lowercase()
}

// ── Bytes ─────────────────────────────────────────────────────────

/// What `String::from_utf8_lossy` gives for bytes that are not UTF-8.
pub uninterp spec fn repaired_utf8(bytes: Seq<u8>) -> Seq<char>;

/// The text that bytes stand for; ill-formed sequences are replaced.
pub open spec fn lossy_text(bytes: Seq<u8>) -> Seq<char> {
    if valid_utf8(bytes) {
        decode_utf8(bytes)
    } else {
        repaired_utf8(bytes)
    }
}

/// `String::from_utf8_lossy`: the text of the bytes, decoded as they stand
/// where they are UTF-8, and with replacement characters where they are not.
#[verifier::external_body]
pub(crate) fn from_utf8_lossy(bytes: &[u8]) -> (r: String)
    ensures
        valid_utf8(bytes@) ==> r@ == decode_utf8(bytes@),
        !valid_utf8(bytes@) ==> r@ == repaired_utf8(bytes@),
{
    String::from_utf8_lossy(bytes).into_owned()
}

// ── Building text ─────────────────────────────────────────────────

/// `String::push`: appends one character.
pub assume_specification[ String::push ](s: &mut String, c: char)
    ensures
        final(s)@ == old(s)@.push(c),
;

/// The texts of a list of strings.
pub open spec fn texts(v: Seq<String>) -> Seq<Seq<char>> {
    v.map_values(|s: String| s@)
}

/// The text of a string that may be absent.
pub open spec fn opt_text(o: Option<String>) -> Option<Seq<char>> {
    match o {
        Some(s) => Some(s@),
        None => None,
    }
}

/// The texts of a list of string slices.
pub open spec fn str_texts<'a>(v: Seq<&'a str>) -> Seq<Seq<char>> {
    v.map_values(|s: &'a str| s@)
}

/// Strings with the texts of a list of string slices.
pub(crate) fn owned(v: Vec<&str>) -> (r: Vec<String>)
    ensures
        texts(r@) == str_texts(v@),
{
    let mut out: Vec<String> = Vec::new();
    for i in 0..v.len()
        invariant
            texts(out@) == str_texts(v@).take(i as int),
    {
        let ghost before = out@;
        out.push(v[i].to_owned());
        assert(texts(out@) =~= texts(before).push(v@[i as int]@));
        assert(str_texts(v@).take(i + 1) =~= str_texts(v@).take(i as int).push(v@[i as int]@));
    }
    assert(str_texts(v@).take(v@.len() as int) =~= str_texts(v@));
    out
}

/// Whether a text is in a list.
pub(crate) fn is_listed(s: &str, list: &Vec<&'static str>) -> (r: bool)
    ensures
        r == str_texts(list@).contains(s@),
{
    let mut i: usize = 0;
    while i < list.len()
        invariant
            i <= list@.len(),
            forall|k: int| 0 <= k < i ==> list@[k]@ != s@,
        decreases list@.len() - i,
    {
        if same_text(list[i], s) {
            assert(str_texts(list@)[i as int] == s@);
            return true;
        }
        i += 1;
    }
    assert(!str_texts(list@).contains(s@)) by {
        assert(forall|k: int|
            0 <= k < list@.len() ==> #[trigger] str_texts(list@)[k] == list@[k]@);
    }
    false
}

/// A list of texts in one, with `sep` between neighbours.
pub open spec fn joined(parts: Seq<Seq<char>>, sep: Seq<char>) -> Seq<char>
    decreases parts.len(),
{
    if parts.len() == 0 {
        Seq::empty()
    } else if parts.len() == 1 {
        parts[0]
    } else {
        joined(parts.drop_last(), sep) + sep + parts.last()
    }
}

/// The strings in one, with `sep` between neighbours.
pub(crate) fn join(parts: &Vec<String>, sep: &str) -> (r: String)
    ensures
        r@ == joined(texts(parts@), sep@),
{
    let mut out = String::new();
    let ghost all = texts(parts@);
    for i in 0..parts.len()
        invariant
            all == texts(parts@),
            out@ == joined(all.take(i as int), sep@),
    {
        if i > 0 {
            out.append(sep);
        }
        out.append(parts[i].as_str());
        proof {
            let next = all.take(i + 1);
            assert(next.drop_last() =~= all.take(i as int));
            assert(next.last() == parts@[i as int]@);
            if i == 0 {
                assert(out@ =~= next[0]);
            }
        }
    }
    assert(all.take(parts.len() as int) =~= all);
    out
}

/// The character of a decimal digit.
pub open spec fn digit_char(d: int) -> char {
    (48 + d) as char
}

/// A number in decimal notation, without leading zeros.
pub open spec fn decimal(n: nat) -> Seq<char>
    decreases n,
{
    if n < 10 {
        seq![digit_char(n as int)]
    } else {
        decimal(n / 10).push(digit_char((n % 10) as int))
    }
}

/// The number in decimal notation.
pub(crate) fn decimal_string(n: u64) -> (r: String)
    ensures
        r@ == decimal(n as nat),
    decreases n,
{
    let mut s = if n < 10 {
        String::new()
    } else {
        decimal_string(n / 10)
    };
    let d: u8 = (n % 10) as u8;
    s.push((48 + d) as char);
    proof {
        if n < 10 {
            assert(s@ =~= seq![digit_char(n as int)]);
        }
    }
    s
}

/// `n` times the character `c`.
pub open spec fn repeated(c: char, n: int) -> Seq<char> {
    Seq::new(
        if n > 0 {
            n as nat
        } else {
            0
        },
        |i: int| c,
    )
}

/// `s`, filled up on the left with `fill` to at least `width` characters.
pub open spec fn filled_left(s: Seq<char>, fill: char, width: int) -> Seq<char> {
    repeated(fill, width - s.len()) + s
}

/// `s`, filled up on the right with `fill` to at least `width` characters.
pub open spec fn filled_right(s: Seq<char>, fill: char, width: int) -> Seq<char> {
    s + repeated(fill, width - s.len())
}

/// Appends `c` to `s`, `n` times.
pub(crate) fn push_repeated(s: &mut String, c: char, n: usize)
    ensures
        final(s)@ == old(s)@ + repeated(c, n as int),
{
    let mut i: usize = 0;
    assert(s@ =~= old(s)@ + repeated(c, 0));
    while i < n
        invariant
            i <= n,
            s@ == old(s)@ + repeated(c, i as int),
        decreases n - i,
    {
        s.push(c);
        i += 1;
        assert(repeated(c, i as int) =~= repeated(c, i - 1).push(c));
    }
}

/// The text, filled up on the left with `fill` to at least `width` characters.
pub(crate) fn fill_left(s: &str, fill: char, width: usize) -> (r: String)
    ensures
        r@ == filled_left(s@, fill, width as int),
{
    let len: usize = s.unicode_len();
    let mut out = String::new();
    if len < width {
        push_repeated(&mut out, fill, width - len);
    }
    out.append(s);
    assert(out@ =~= filled_left(s@, fill, width as int));
    out
}

/// The text, filled up on the right with `fill` to at least `width` characters.
pub(crate) fn fill_right(s: &str, fill: char, width: usize) -> (r: String)
    ensures
        r@ == filled_right(s@, fill, width as int),
{
    let len: usize = s.unicode_len();
    let mut out = s.to_owned();
    if len < width {
        push_repeated(&mut out, fill, width - len);
    }
    assert(out@ =~= filled_right(s@, fill, width as int));
    out
}

// ── Reading numbers ───────────────────────────────────────────────

/// The text is one decimal digit or more.
pub open spec fn all_digits(s: Seq<char>) -> bool {
    s.len() > 0 && forall|i: int| 0 <= i < s.len() ==> '0' <= #[trigger] s[i] <= '9'
}

/// The number that a text of decimal digits stands for.
pub open spec fn digits_value(s: Seq<char>) -> nat
    decreases s.len(),
{
    if s.len() == 0 {
        0
    } else {
        digits_value(s.drop_last()) * 10 + (s.last() as nat - 48) as nat
    }
}

/// The number that a text stands for: digits, with or without a `+` before
/// them, of a value up to `max`; no number otherwise.
pub open spec fn parsed_number(s: Seq<char>, max: nat) -> Option<nat> {
    let digits = if s.len() > 0 && s[0] == '+' {
        s.drop_first()
    } else {
        s
    };
    if all_digits(digits) && digits_value(digits) <= max {
        Some(digits_value(digits))
    } else {
        None
    }
}

/// `str::parse::<u32>`: reads an optional `+` and decimal digits; an error
/// for any other text and for values that a `u32` cannot hold.
#[verifier::external_body]
pub(crate) fn parse_u32(s: &str) -> (r: Option<u32>)
    ensures
        match r {
            Some(n) => parsed_number(s@, u32::MAX as nat) == Some(n as nat),
            None => parsed_number(s@, u32::MAX as nat) is None,
        },
{
    s.parse::<u32>().ok()
}

/// `str::parse::<usize>`: reads an optional `+` and decimal digits; an error
/// for any other text and for values that a `usize` cannot hold.
#[verifier::external_body]
pub(crate) fn parse_usize(s: &str) -> (r: Option<usize>)
    ensures
        match r {
            Some(n) => parsed_number(s@, usize::MAX as nat) == Some(n as nat),
            None => parsed_number(s@, usize::MAX as nat) is None,
        },
{
    s.parse::<usize>().ok()
}

// ── Laws ──────────────────────────────────────────────────────────

proof fn lemma_trimmed_start(s: Seq<char>)
    ensures
        blank(s) <==> trimmed_start(s).len() == 0,
        trimmed_start(s).len() > 0 ==> !white_space(trimmed_start(s)[0]),
    decreases s.len(),
{
    if s.len() > 0 && white_space(s[0]) {
        lemma_trimmed_start(s.drop_first());
        let rest = s.drop_first();
        if blank(rest) {
            assert forall|i: int| 0 <= i < s.len() implies white_space(#[trigger] s[i]) by {
                if i > 0 {
                    assert(rest[i - 1] == s[i]);
                }
            }
        }
        if blank(s) {
            assert forall|i: int| 0 <= i < rest.len() implies white_space(#[trigger] rest[i]) by {
                assert(rest[i] == s[i + 1]);
            }
        }
    }
}

proof fn lemma_trimmed_end(s: Seq<char>)
    ensures
        s.len() > 0 && !white_space(s[0]) ==> trimmed_end(s).len() > 0 && trimmed_end(s)[0] == s[0],
        trimmed_end(s).len() > 0 ==> !white_space(trimmed_end(s).last()),
        trimmed_end(s).len() <= s.len(),
    decreases s.len(),
{
    if s.len() > 0 && white_space(s.last()) {
        lemma_trimmed_end(s.drop_last());
    }
}

/// Trimming leaves nothing exactly of a blank text.
pub proof fn trimmed_is_empty_iff_blank(s: Seq<char>)
    ensures
        trimmed(s).len() == 0 <==> blank(s),
{
    lemma_trimmed_start(s);
    lemma_trimmed_end(trimmed_start(s));
}

/// Trimming a trimmed text changes nothing.
pub proof fn trimming_twice_is_trimming_once(s: Seq<char>)
    ensures
        trimmed(trimmed(s)) == trimmed(s),
{
    lemma_trimmed_start(s);
    lemma_trimmed_end(trimmed_start(s));
}

/// Trimming takes white space away at the two ends, all of it, and nothing
/// else.
pub proof fn trimming_takes_the_white_space_at_the_ends(s: Seq<char>)
    ensures
        exists|a: Seq<char>, b: Seq<char>| #[trigger]
            blank(a) && #[trigger] blank(b) && s == a + trimmed(s) + b,
        trimmed(s).len() > 0 ==> !white_space(trimmed(s)[0]) && !white_space(trimmed(s).last()),
{
    lemma_trimmed_start(s);
    lemma_trimmed_end(trimmed_start(s));
    lemma_cut_start(s);
    lemma_cut_end(trimmed_start(s));
    let a = s.take(s.len() - trimmed_start(s).len());
    let b = trimmed_start(s).skip(trimmed(s).len() as int);
    assert(blank(a) && blank(b));
    assert(s =~= a + trimmed(s) + b);
}

proof fn lemma_cut_start(s: Seq<char>)
    ensures
        trimmed_start(s).len() <= s.len(),
        blank(s.take(s.len() - trimmed_start(s).len())),
        s.skip(s.len() - trimmed_start(s).len()) == trimmed_start(s),
    decreases s.len(),
{
    if s.len() > 0 && white_space(s[0]) {
        let rest = s.drop_first();
        lemma_cut_start(rest);
        let n = s.len() - trimmed_start(s).len();
        assert(s.skip(n) =~= rest.skip(n - 1));
        assert forall|i: int| 0 <= i < n implies white_space(#[trigger] s.take(n)[i]) by {
            if i > 0 {
                assert(rest.take(n - 1)[i - 1] == s[i]);
            }
        }
    } else {
        assert(s.skip(0) =~= s);
    }
}

proof fn lemma_cut_end(s: Seq<char>)
    ensures
        trimmed_end(s).len() <= s.len(),
        s.take(trimmed_end(s).len() as int) == trimmed_end(s),
        blank(s.skip(trimmed_end(s).len() as int)),
    decreases s.len(),
{
    if s.len() > 0 && white_space(s.last()) {
        let rest = s.drop_last();
        lemma_cut_end(rest);
        let n = trimmed_end(s).len() as int;
        assert(s.take(n) =~= rest.take(n));
        assert forall|i: int| 0 <= i < s.len() - n implies white_space(
            #[trigger] s.skip(n)[i],
        ) by {
            if i + n < rest.len() {
                assert(rest.skip(n)[i] == s[n + i]);
            }
        }
    } else {
        assert(s.take(s.len() as int) =~= s);
    }
}

/// A text with no white space at its ends is trimmed as it stands, with white
/// space around it or without.
pub proof fn white_space_around_a_text_does_not_matter(a: Seq<char>, s: Seq<char>, b: Seq<char>)
    requires
        blank(a),
        blank(b),
        s.len() > 0 ==> !white_space(s[0]) && !white_space(s.last()),
    ensures
        trimmed(a + s + b) == s,
{
    lemma_skip_blank(a, s + b);
    assert(a + s + b =~= a + (s + b));
    if s.len() == 0 {
        assert(s + b =~= b);
        lemma_trimmed_start(b);
        assert(trimmed_start(b) =~= s);
        assert(trimmed_end(s) == s);
    } else {
        assert((s + b)[0] == s[0]);
        assert(trimmed_start(s + b) == s + b);
        lemma_skip_blank_end(s, b);
    }
}

proof fn lemma_skip_blank(a: Seq<char>, s: Seq<char>)
    requires
        blank(a),
    ensures
        trimmed_start(a + s) == trimmed_start(s),
    decreases a.len(),
{
    if a.len() == 0 {
        assert(a + s =~= s);
    } else {
        let rest = a.drop_first();
        assert forall|i: int| 0 <= i < rest.len() implies white_space(#[trigger] rest[i]) by {
            assert(rest[i] == a[i + 1]);
        }
        lemma_skip_blank(rest, s);
        assert(white_space(a[0]));
        assert((a + s)[0] == a[0]);
        assert((a + s).drop_first() =~= rest + s);
    }
}

proof fn lemma_skip_blank_end(s: Seq<char>, b: Seq<char>)
    requires
        blank(b),
        s.len() > 0,
        !white_space(s.last()),
    ensures
        trimmed_end(s + b) == s,
    decreases b.len(),
{
    if b.len() == 0 {
        assert(s + b =~= s);
    } else {
        let rest = b.drop_last();
        assert forall|i: int| 0 <= i < rest.len() implies white_space(#[trigger] rest[i]) by {
            assert(rest[i] == b[i]);
        }
        lemma_skip_blank_end(s, rest);
        assert(white_space(b[b.len() - 1]));
        assert((s + b).last() == b.last());
        assert((s + b).drop_last() =~= s + rest);
    }
}

/// A number that was written in decimal notation is read back, with white
/// space around it or without.
pub proof fn a_written_number_is_read_back(n: nat, max: nat, a: Seq<char>, b: Seq<char>)
    requires
        n <= max,
        blank(a),
        blank(b),
    ensures
        parsed_number(decimal(n), max) == Some(n),
        parsed_number(trimmed(a + decimal(n) + b), max) == Some(n),
{
    lemma_decimal(n);
    let s = decimal(n);
    assert('0' <= s[0] <= '9' && '0' <= s[s.len() - 1] <= '9');
    white_space_around_a_text_does_not_matter(a, s, b);
}

proof fn lemma_decimal(n: nat)
    ensures
        all_digits(decimal(n)),
        digits_value(decimal(n)) == n,
    decreases n,
{
    let s = decimal(n);
    if n < 10 {
        assert(s.drop_last().len() == 0);
        assert(digits_value(s.drop_last()) == 0);
    } else {
        lemma_decimal(n / 10);
        assert(s.drop_last() =~= decimal(n / 10));
    }
}

/// Two numbers are not written the same.
pub proof fn different_numbers_are_written_differently(a: nat, b: nat)
    ensures
        decimal(a) == decimal(b) ==> a == b,
{
    lemma_decimal(a);
    lemma_decimal(b);
}

/// A text stands in any that is made with it.
pub proof fn a_part_stands_in_the_whole(before: Seq<char>, part: Seq<char>, after: Seq<char>)
    ensures
        has_text(before + part + after, part),
{
    let s = before + part + after;
    assert(s.subrange(before.len() as int, (before.len() + part.len()) as int) =~= part);
    assert(occurs_at(s, part, before.len() as int));
}

/// Filling up makes a text at least as long as asked for, and keeps it at its
/// end or at its start.
pub proof fn a_filled_text_ends_or_begins_with_the_text(s: Seq<char>, fill: char, width: int)
    ensures
        s.len() <= width ==> filled_left(s, fill, width).len() == width && filled_right(
            s,
            fill,
            width,
        ).len() == width,
        s.len() > width ==> filled_left(s, fill, width) == s && filled_right(s, fill, width) == s,
        filled_left(s, fill, width).skip(filled_left(s, fill, width).len() - s.len()) == s,
        filled_right(s, fill, width).take(s.len() as int) == s,
        forall|i: int|
            0 <= i < filled_left(s, fill, width).len() - s.len() ==> #[trigger] filled_left(
                s,
                fill,
                width,
            )[i] == fill,
{
    assert(filled_left(s, fill, width).skip(filled_left(s, fill, width).len() - s.len()) =~= s);
    assert(filled_right(s, fill, width).take(s.len() as int) =~= s);
    if s.len() > width {
        assert(filled_left(s, fill, width) =~= s);
        assert(filled_right(s, fill, width) =~= s);
    }
}

/// Each text of a list stands in the joined text, and so does the separator
/// wherever there are two.
pub proof fn every_part_is_joined(parts: Seq<Seq<char>>, sep: Seq<char>, i: int)
    requires
        0 <= i < parts.len(),
    ensures
        has_text(joined(parts, sep), parts[i]),
        parts.len() >= 2 ==> has_text(joined(parts, sep), sep),
        parts.len() == 1 ==> joined(parts, sep) == parts[0],
    decreases parts.len(),
{
    let all = joined(parts, sep);
    if parts.len() == 1 {
        a_part_stands_in_the_whole(Seq::empty(), parts[0], Seq::empty());
        assert(Seq::<char>::empty() + parts[0] + Seq::<char>::empty() =~= all);
    } else {
        let rest = parts.drop_last();
        let before = joined(rest, sep);
        a_part_stands_in_the_whole(before, sep, parts.last());
        a_part_stands_in_the_whole(before + sep, parts.last(), Seq::empty());
        assert(before + sep + parts.last() + Seq::<char>::empty() =~= all);
        if i < rest.len() {
            every_part_is_joined(rest, sep, i);
            let k = choose|k: int| occurs_at(before, parts[i], k);
            assert(all.subrange(k, k + parts[i].len()) =~= before.subrange(
                k,
                k + parts[i].len(),
            ));
            assert(occurs_at(all, parts[i], k));
        }
    }
}

/// The lower-case form of an ASCII text is as long as the text, has no
/// upper-case letter, and leaves everything but letters as it is.
pub proof fn lower_case_has_no_upper_case_letter(s: Seq<char>, i: int)
    requires
        is_ascii_chars(s),
        0 <= i < s.len(),
    ensures
        lowercase(s).len() == s.len(),
        !('A' <= lowercase(s)[i] <= 'Z'),
        !('A' <= s[i] <= 'Z') ==> lowercase(s)[i] == s[i],
        'A' <= s[i] <= 'Z' ==> lowercase(s)[i] as u32 == s[i] as u32 - 'A' as u32 + 'a' as u32,
        lowercase(lowercase(s)) == lowercase(s),
{
    let t = lowercase(s);
    assert forall|k: int| 0 <= k < t.len() implies (#[trigger] t[k] as u32) < 128 by {
        assert((s[k] as u32) < 128);
    }
    assert(is_ascii_chars(t));
    assert(lowercase(t) =~= t);
}

/// In the order of texts a text comes before what goes on where it ends, and the
/// first character in which two texts differ decides between them.
pub proof fn the_first_difference_decides(
    start: Seq<char>,
    x: char,
    a: Seq<char>,
    y: char,
    b: Seq<char>,
)
    ensures
        text_less(start, start.push(x) + a),
        x < y ==> text_less(start.push(x) + a, start.push(y) + b),
{
    let s = start.push(x) + a;
    let t = start.push(y) + b;
    assert(start.take(start.len() as int) =~= s.take(start.len() as int));
    assert(parts_at(start, s, start.len() as int));
    if x < y {
        assert(s.take(start.len() as int) =~= t.take(start.len() as int));
        assert(parts_at(s, t, start.len() as int));
    }
}

/// Of two different texts one comes before the other.
pub proof fn different_texts_are_in_order(a: Seq<char>, b: Seq<char>)
    requires
        a != b,
    ensures
        text_less(a, b) || text_less(b, a),
{
    assert(a.take(0) =~= b.take(0));
    lemma_order_from(a, b, 0);
}

proof fn lemma_order_from(a: Seq<char>, b: Seq<char>, k: int)
    requires
        0 <= k <= a.len(),
        k <= b.len(),
        a.take(k) == b.take(k),
        a != b,
    ensures
        text_less(a, b) || text_less(b, a),
    decreases a.len() - k,
{
    if k == a.len() && k == b.len() {
        assert(a.take(k) =~= a && b.take(k) =~= b);
    } else if k == a.len() {
        assert(parts_at(a, b, k));
    } else if k == b.len() {
        assert(parts_at(b, a, k));
    } else if a[k] < b[k] {
        assert(parts_at(a, b, k));
    } else if b[k] < a[k] {
        assert(parts_at(b, a, k));
    } else {
        assert(a.take(k + 1) =~= a.take(k).push(a[k]));
        assert(b.take(k + 1) =~= b.take(k).push(b[k]));
        lemma_order_from(a, b, k + 1);
    }
}

/// A text that holds anything but digits after an optional plus sign is no
/// number, nor is one without digits, nor a number that is too large.
pub proof fn other_texts_are_no_numbers(s: Seq<char>, n: nat, max: nat, i: int)
    ensures
        parsed_number(Seq::empty(), max) is None,
        parsed_number(seq!['+'], max) is None,
        0 <= i < s.len() && !('0' <= s[i] <= '9') && (i > 0 || s[i] != '+') ==> parsed_number(
            s,
            max,
        ) is None,
        n > max ==> parsed_number(decimal(n), max) is None,
        n <= max ==> parsed_number(seq!['+'] + decimal(n), max) == Some(n),
{
    lemma_decimal(n);
    let plus = seq!['+'] + decimal(n);
    assert(plus.drop_first() =~= decimal(n));
    assert('0' <= decimal(n)[0] <= '9');
    if 0 <= i < s.len() && !('0' <= s[i] <= '9') && (i > 0 || s[i] != '+') {
        if s[0] == '+' {
            assert(s.drop_first()[i - 1] == s[i]);
        }
    }
}

}
