//! Character-level text operations shared by the reducers and pipelines.
//!
//! Every operation is specified over `Seq<char>`, the view of `str` and `String`.

use vstd::prelude::*;

verus! {

/// Whether `c` is white space: one of the characters with the Unicode
/// property `White_Space`. These are the space, the controls U+0009 to
/// U+000D, U+0085, the no-break space U+00A0, U+1680, the spaces U+2000 to
/// U+200A, the separators U+2028 and U+2029, U+202F, U+205F and U+3000.
pub open spec fn is_whitespace(c: char) -> bool {
    let code = c as u32;
    ||| code == 0x20
    ||| 0x09 <= code <= 0x0d
    ||| code == 0x85
    ||| code == 0xa0
    ||| code == 0x1680
    ||| 0x2000 <= code <= 0x200a
    ||| code == 0x2028
    ||| code == 0x2029
    ||| code == 0x202f
    ||| code == 0x205f
    ||| code == 0x3000
}

/// Whether `c` is white space.
pub fn char_is_whitespace(c: char) -> (b: bool)
    ensures
        b == is_whitespace(c),
{
    let code = c as u32;
    code == 0x20 || (0x09 <= code && code <= 0x0d) || code == 0x85 || code == 0xa0 || code
        == 0x1680 || (0x2000 <= code && code <= 0x200a) || code == 0x2028 || code == 0x2029
        || code == 0x202f || code == 0x205f || code == 0x3000
}

/// The lowercase form of `s` as `str::to_lowercase` computes it.
pub uninterp spec fn lowercase(s: Seq<char>) -> Seq<char>;

/// `str::to_lowercase` follows the Unicode lowercase mapping, a function of
/// the text alone; its result is named by [`lowercase`].
pub assume_specification[ str::to_lowercase ](s: &str) -> (lower: String)
    ensures
        lower@ == lowercase(s@),
;

/// Index of the first occurrence of `c` in `s`, or `s.len()` when there is none.
pub open spec fn first_index(s: Seq<char>, c: char) -> int
    decreases s.len(),
{
    if s.len() == 0 {
        0
    } else if s[0] == c {
        0
    } else {
        1 + first_index(s.drop_first(), c)
    }
}

/// Index of the last occurrence of `c` in `s`, or `-1` when there is none.
pub open spec fn last_index(s: Seq<char>, c: char) -> int
    decreases s.len(),
{
    if s.len() == 0 {
        -1
    } else if s.last() == c {
        s.len() - 1
    } else {
        last_index(s.drop_last(), c)
    }
}

/// The pieces of `s` between occurrences of `sep`; a text without `sep` is one piece.
pub open spec fn split(s: Seq<char>, sep: char) -> Seq<Seq<char>>
    decreases s.len(),
{
    let i = first_index(s, sep);
    if i < 0 || i >= s.len() {
        seq![s]
    } else {
        seq![s.take(i)] + split(s.skip(i + 1), sep)
    }
}

/// `s` without its leading whitespace.
pub open spec fn trim_start(s: Seq<char>) -> Seq<char>
    decreases s.len(),
{
    if s.len() > 0 && is_whitespace(s[0]) {
        trim_start(s.drop_first())
    } else {
        s
    }
}

/// `s` without its trailing whitespace.
pub open spec fn trim_end(s: Seq<char>) -> Seq<char>
    decreases s.len(),
{
    if s.len() > 0 && is_whitespace(s.last()) {
        trim_end(s.drop_last())
    } else {
        s
    }
}

/// `s` without leading and trailing whitespace.
pub open spec fn trim(s: Seq<char>) -> Seq<char> {
    trim_end(trim_start(s))
}

/// Whether `s` holds nothing but whitespace.
pub open spec fn is_blank(s: Seq<char>) -> bool {
    trim(s).len() == 0
}

/// `needle` stands in `hay` at offset `i`.
pub open spec fn occurs_at(hay: Seq<char>, needle: Seq<char>, i: int) -> bool {
    &&& 0 <= i
    &&& i + needle.len() <= hay.len()
    &&& hay.subrange(i, i + needle.len()) == needle
}

/// `needle` is a contiguous part of `hay`. The empty text is part of every text.
pub open spec fn contains(hay: Seq<char>, needle: Seq<char>) -> bool {
    exists|i: int| occurs_at(hay, needle, i)
}

/// `c` with the ASCII capitals mapped to their small letters.
pub open spec fn ascii_lower(c: char) -> char {
    if 'A' <= c && c <= 'Z' {
        ((c as u32) + 32) as char
    } else {
        c
    }
}

/// `s` with every ASCII capital replaced by its small letter.
pub open spec fn to_ascii_lower(s: Seq<char>) -> Seq<char> {
    Seq::new(s.len(), |i: int| ascii_lower(s[i]))
}

/// Whether `c` is one of the ten ASCII digits.
pub open spec fn is_digit(c: char) -> bool {
    '0' <= c && c <= '9'
}

/// Whether `s` is made of ASCII digits only.
pub open spec fn all_digits(s: Seq<char>) -> bool {
    forall|i: int| 0 <= i < s.len() ==> is_digit(#[trigger] s[i])
}

/// The number that the decimal digits `s` denote.
pub open spec fn decimal_value(s: Seq<char>) -> nat
    decreases s.len(),
{
    if s.len() == 0 {
        0
    } else {
        (decimal_value(s.drop_last()) * 10 + (s.last() as int - '0' as int)) as nat
    }
}

/// The digits of a decimal number: `s` without one leading `+`.
pub open spec fn unsigned_digits(s: Seq<char>) -> Seq<char> {
    if s.len() > 0 && s[0] == '+' {
        s.drop_first()
    } else {
        s
    }
}

/// The 16-bit number that `s` spells: an optional `+`, then one or more
/// decimal digits whose value is at most 65535. Anything else spells none.
pub open spec fn parse_u16(s: Seq<char>) -> Option<u16> {
    let digits = unsigned_digits(s);
    if digits.len() > 0 && all_digits(digits) && decimal_value(digits) <= u16::MAX {
        Some(decimal_value(digits) as u16)
    } else {
        None
    }
}

/// The pieces of a comma-separated list, each trimmed.
pub open spec fn trimmed_pieces(s: Seq<char>) -> Seq<Seq<char>> {
    let pieces = split(s, ',');
    Seq::new(pieces.len(), |i: int| trim(pieces[i]))
}

/// The texts of `list` that are not empty, in their order.
pub open spec fn nonempty(list: Seq<Seq<char>>) -> Seq<Seq<char>> {
    list.filter(|p: Seq<char>| p.len() > 0)
}

/// The texts of `list`, each in lowercase.
pub open spec fn lowered(list: Seq<Seq<char>>) -> Seq<Seq<char>> {
    Seq::new(list.len(), |i: int| lowercase(list[i]))
}

/// The labels that a comma-separated list spells: its pieces, trimmed, the empty ones dropped.
pub open spec fn label_list(s: Seq<char>) -> Seq<Seq<char>> {
    nonempty(trimmed_pieces(s))
}

/// The terms that a comma-separated query spells: its pieces, trimmed and
/// put in lowercase, the empty ones dropped.
pub open spec fn search_terms(s: Seq<char>) -> Seq<Seq<char>> {
    nonempty(lowered(trimmed_pieces(s)))
}

/// The texts of `parts`, each followed by `sep` except the last.
pub open spec fn join(parts: Seq<Seq<char>>, sep: Seq<char>) -> Seq<char>
    decreases parts.len(),
{
    if parts.len() == 0 {
        Seq::empty()
    } else if parts.len() == 1 {
        parts[0]
    } else {
        join(parts.drop_last(), sep) + sep + parts.last()
    }
}

/// The first occurrence of `c` is at `j` if `c` stands there and nowhere before.
proof fn lemma_first_index(s: Seq<char>, c: char, j: int)
    requires
        0 <= j <= s.len(),
        forall|k: int| 0 <= k < j ==> s[k] != c,
        j < s.len() ==> s[j] == c,
    ensures
        first_index(s, c) == j,
    decreases s.len(),
{
    if s.len() > 0 && j > 0 {
        lemma_first_index(s.drop_first(), c, j - 1);
    }
}

/// The last occurrence of `c` is at `j` if `c` stands there and nowhere after.
proof fn lemma_last_index(s: Seq<char>, c: char, j: int)
    requires
        -1 <= j < s.len(),
        forall|k: int| j < k < s.len() ==> s[k] != c,
        0 <= j ==> s[j] == c,
    ensures
        last_index(s, c) == j,
    decreases s.len(),
{
    if s.len() > 0 && j < s.len() - 1 {
        lemma_last_index(s.drop_last(), c, j);
    }
}

/// A prefix of a digit string denotes no more than the whole string.
proof fn lemma_decimal_value_prefix(s: Seq<char>, k: int)
    requires
        0 <= k <= s.len(),
        all_digits(s),
    ensures
        decimal_value(s.take(k)) <= decimal_value(s),
    decreases s.len() - k,
{
    if k == s.len() {
        assert(s.take(k) =~= s);
    } else {
        lemma_decimal_value_prefix(s, k + 1);
        let t = s.take(k + 1);
        assert(t.drop_last() =~= s.take(k));
        assert(is_digit(s[k]));
        assert(t.last() == s[k]);
    }
}

/// The characters of `s`, for indexed access.
pub fn to_chars(s: &str) -> (chars: Vec<char>)
    ensures
        chars@ == s@,
{
    let mut chars: Vec<char> = Vec::new();
    for c in it: s.chars()
        invariant
            it.seq() == s@,
            chars@ == it.seq().take(it.index() as int),
    {
        chars.push(c);
    }
    chars
}

/// The text of characters `from..to` of `text`.
pub fn substring(text: &str, from: usize, to: usize) -> (out: String)
    requires
        from <= to <= text@.len(),
    ensures
        out@ == text@.subrange(from as int, to as int),
{
    text.substring_char(from, to).to_owned()
}

/// The first position at or after `from` where `c` stands, or the length.
pub fn find_from(chars: &Vec<char>, from: usize, c: char) -> (end: usize)
    requires
        from <= chars.len(),
    ensures
        from <= end <= chars.len(),
        end - from == first_index(chars@.skip(from as int), c),
{
    let mut end: usize = from;
    while end < chars.len() && chars[end] != c
        invariant
            from <= end <= chars.len(),
            forall|k: int| from <= k < end ==> chars@[k] != c,
        decreases chars.len() - end,
    {
        end += 1;
    }
    proof {
        lemma_first_index(chars@.skip(from as int), c, end - from);
    }
    end
}

/// The last position where `c` stands, if it stands anywhere.
pub fn rfind(chars: &Vec<char>, c: char) -> (found: Option<usize>)
    ensures
        match found {
            Some(i) => i == last_index(chars@, c) && i < chars.len(),
            None => last_index(chars@, c) == -1,
        },
{
    let mut i: usize = chars.len();
    while i > 0 && chars[i - 1] != c
        invariant
            i <= chars.len(),
            forall|k: int| i <= k < chars.len() ==> chars@[k] != c,
        decreases i,
    {
        i -= 1;
    }
    proof {
        lemma_last_index(chars@, c, i - 1);
    }
    if i == 0 {
        None
    } else {
        Some(i - 1)
    }
}

/// The bounds of `chars[from..to]` once its surrounding whitespace is cut off.
pub fn trim_bounds(chars: &Vec<char>, from: usize, to: usize) -> (r: (usize, usize))
    requires
        from <= to <= chars.len(),
    ensures
        from <= r.0 <= r.1 <= to,
        chars@.subrange(r.0 as int, r.1 as int) == trim(chars@.subrange(from as int, to as int)),
{
    let mut a: usize = from;
    while a < to && char_is_whitespace(chars[a])
        invariant
            from <= a <= to,
            to <= chars.len(),
            trim_start(chars@.subrange(from as int, to as int)) == trim_start(
                chars@.subrange(a as int, to as int),
            ),
        decreases to - a,
    {
        assert(chars@.subrange(a as int, to as int).drop_first() == chars@.subrange(
            a + 1,
            to as int,
        ));
        a += 1;
    }
    let mut b: usize = to;
    while b > a && char_is_whitespace(chars[b - 1])
        invariant
            a <= b <= to,
            to <= chars.len(),
            trim_end(chars@.subrange(a as int, to as int)) == trim_end(
                chars@.subrange(a as int, b as int),
            ),
        decreases b,
    {
        assert(chars@.subrange(a as int, b as int).drop_last() == chars@.subrange(
            a as int,
            b - 1,
        ));
        b -= 1;
    }
    (a, b)
}

/// Whether `text` is empty once trimmed.
pub fn blank(text: &str) -> (b: bool)
    ensures
        b == is_blank(text@),
{
    let chars = to_chars(text);
    let (a, b) = trim_bounds(&chars, 0, chars.len());
    assert(chars@.subrange(0, chars.len() as int) == chars@);
    a == b
}

/// Splits a comma-separated list into its trimmed pieces.
pub fn split_trimmed(list: &str) -> (out: Vec<String>)
    ensures
        out.deep_view() == trimmed_pieces(list@),
{
    let chars = to_chars(list);
    let n = chars.len();
    let mut out: Vec<String> = Vec::new();
    let mut start: usize = 0;
    let ghost mut done: Seq<Seq<char>> = Seq::empty();
    assert(chars@.skip(0) == chars@);
    loop
        invariant_except_break
            split(chars@, ',') == done + split(chars@.skip(start as int), ','),
            out.len() == done.len(),
            forall|k: int| 0 <= k < done.len() ==> out.deep_view()[k] == trim(done[k]),
        invariant
            chars@ == list@,
            n == chars.len(),
            start <= n,
        ensures
            out.deep_view() == trimmed_pieces(list@),
        decreases n - start,
    {
        let end = find_from(&chars, start, ',');
        let (a, b) = trim_bounds(&chars, start, end);
        let ghost rest = chars@.skip(start as int);
        let ghost piece = chars@.subrange(start as int, end as int);
        let ghost before = out.deep_view();
        out.push(substring(list, a, b));
        proof {
            assert(rest.take(end - start) == piece);
            assert(out.deep_view() == before.push(trim(piece)));
            if end < n {
                assert(rest.skip(end - start + 1) == chars@.skip(end + 1));
                assert(done + (seq![piece] + split(chars@.skip(end + 1), ',')) == done.push(piece)
                    + split(chars@.skip(end + 1), ','));
            } else {
                assert(rest == piece);
                assert(done + seq![piece] == done.push(piece));
            }
            done = done.push(piece);
        }
        if end >= n {
            assert(out.deep_view() == trimmed_pieces(list@));
            break ;
        }
        start = end + 1;
    }
    out
}

/// The texts of `list` that are not empty, in their order.
pub fn keep_nonempty(list: Vec<String>) -> (kept: Vec<String>)
    ensures
        kept.deep_view() == nonempty(list.deep_view()),
{
    let mut kept: Vec<String> = Vec::new();
    let mut i: usize = 0;
    let ghost full = |p: Seq<char>| p.len() > 0;
    assert(list.deep_view().take(0) == Seq::<Seq<char>>::empty());
    assert(kept.deep_view() == Seq::<Seq<char>>::empty());
    proof {
        reveal(Seq::filter);
    }
    while i < list.len()
        invariant
            i <= list.len(),
            full == |p: Seq<char>| p.len() > 0,
            kept.deep_view() == list.deep_view().take(i as int).filter(full),
        decreases list.len() - i,
    {
        let ghost seen = list.deep_view().take(i as int);
        let ghost before = kept.deep_view();
        proof {
            seen.lemma_filter_push(list[i as int]@, full);
            assert(list.deep_view().take(i + 1) == seen.push(list[i as int]@));
        }
        if list[i].as_str().unicode_len() > 0 {
            kept.push(list[i].clone());
            assert(kept.deep_view() == before.push(list[i as int]@));
        }
        i += 1;
    }
    assert(list.deep_view().take(i as int) == list.deep_view());
    kept
}

/// The texts of `list`, each in lowercase.
pub fn lowercase_all(list: &Vec<String>) -> (out: Vec<String>)
    ensures
        out.deep_view() == lowered(list.deep_view()),
{
    let mut out: Vec<String> = Vec::new();
    let mut i: usize = 0;
    while i < list.len()
        invariant
            i <= list.len(),
            out.len() == i,
            forall|k: int| 0 <= k < i ==> out.deep_view()[k] == lowercase(list.deep_view()[k]),
        decreases list.len() - i,
    {
        let ghost before = out.deep_view();
        let lower = list[i].as_str().to_lowercase();
        out.push(lower);
        assert(out.deep_view() == before.push(lower@));
        i += 1;
    }
    assert(out.deep_view() == lowered(list.deep_view()));
    out
}

/// Splits a comma-separated list into its labels.
pub fn parse_labels(labels: &str) -> (out: Vec<String>)
    ensures
        out.deep_view() == label_list(labels@),
{
    keep_nonempty(split_trimmed(labels))
}

/// Splits a comma-separated query into its lowercase search terms.
pub fn parse_search_terms(query: &str) -> (out: Vec<String>)
    ensures
        out.deep_view() == search_terms(query@),
{
    let pieces = split_trimmed(query);
    keep_nonempty(lowercase_all(&pieces))
}

/// Whether the two characters agree, with ASCII capitals in `c` read as small letters when `fold` is set.
fn same_char(c: char, other: char, fold: bool) -> (b: bool)
    ensures
        b == ((if fold {
            ascii_lower(c)
        } else {
            c
        }) == other),
{
    if fold && 'A' <= c && c <= 'Z' {
        (c as u32) + 32 == (other as u32)
    } else {
        c == other
    }
}

/// `hay` as the search reads it: folded to small ASCII letters when `fold` is set.
pub open spec fn folded(hay: Seq<char>, fold: bool) -> Seq<char> {
    if fold {
        to_ascii_lower(hay)
    } else {
        hay
    }
}

fn matches_at(hay: &Vec<char>, needle: &Vec<char>, at: usize, fold: bool) -> (b: bool)
    requires
        at + needle.len() <= hay.len(),
    ensures
        b == occurs_at(folded(hay@, fold), needle@, at as int),
{
    let ghost text = folded(hay@, fold);
    let mut j: usize = 0;
    while j < needle.len()
        invariant
            j <= needle.len(),
            at + needle.len() <= hay.len(),
            text == folded(hay@, fold),
            text.len() == hay.len(),
            forall|k: int| 0 <= k < j ==> text[at + k] == needle@[k],
        decreases needle.len() - j,
    {
        if !same_char(hay[at + j], needle[j], fold) {
            assert(text.subrange(at as int, at + needle.len())[j as int] == text[at + j]);
            return false;
        }
        j += 1;
    }
    assert(text.subrange(at as int, at + needle.len()) =~= needle@);
    true
}

/// Searches `hay` for `needle`; with `fold` set, ASCII capitals in `hay` count as small letters.
pub fn find_in(hay: &Vec<char>, needle: &Vec<char>, fold: bool) -> (found: bool)
    ensures
        found == contains(folded(hay@, fold), needle@),
{
    let ghost text = folded(hay@, fold);
    if needle.len() > hay.len() {
        assert(text.len() == hay.len());
        return false;
    }
    let last: usize = hay.len() - needle.len();
    let mut i: usize = 0;
    loop
        invariant
            i <= last,
            last == hay.len() - needle.len(),
            text == folded(hay@, fold),
            text.len() == hay.len(),
            forall|k: int| 0 <= k < i ==> !occurs_at(text, needle@, k),
        decreases last - i,
    {
        if matches_at(hay, needle, i, fold) {
            return true;
        }
        if i == last {
            return false;
        }
        i += 1;
    }
}

/// Whether `needle` is a contiguous part of `hay`.
pub fn str_contains(hay: &str, needle: &str) -> (found: bool)
    ensures
        found == contains(hay@, needle@),
{
    let h = to_chars(hay);
    let n = to_chars(needle);
    find_in(&h, &n, false)
}

/// Reads `chars[from..]` as a 16-bit decimal number.
pub fn parse_port(chars: &Vec<char>, from: usize) -> (port: Option<u16>)
    requires
        from <= chars.len(),
    ensures
        port == parse_u16(chars@.skip(from as int)),
{
    let ghost s = chars@.skip(from as int);
    let mut i: usize = from;
    if i < chars.len() && chars[i] == '+' {
        i += 1;
    }
    let first: usize = i;
    let ghost digits = unsigned_digits(s);
    assert(digits == chars@.skip(first as int));
    if i == chars.len() {
        return None;
    }
    let mut value: u32 = 0;
    while i < chars.len()
        invariant
            first <= i <= chars.len(),
            digits == chars@.skip(first as int),
            s == chars@.skip(from as int),
            digits == unsigned_digits(s),
            digits.len() > 0,
            all_digits(digits.take(i - first)),
            value == decimal_value(digits.take(i - first)),
            value <= u16::MAX,
        decreases chars.len() - i,
    {
        let c = chars[i];
        if !('0' <= c && c <= '9') {
            assert(digits[i - first] == c);
            return None;
        }
        let digit: u32 = (c as u32) - ('0' as u32);
        let next: u32 = value * 10 + digit;
        proof {
            let t = digits.take(i - first + 1);
            assert(t.drop_last() == digits.take(i - first));
            assert(t.last() == c);
            assert(all_digits(t)) by {
                assert forall|k: int| 0 <= k < t.len() implies is_digit(#[trigger] t[k]) by {
                    if k < t.len() - 1 {
                        assert(t[k] == digits.take(i - first)[k]);
                    }
                }
            }
            assert(next == decimal_value(t));
        }
        if next > 65535 {
            proof {
                if all_digits(digits) {
                    lemma_decimal_value_prefix(digits, i - first + 1);
                }
            }
            return None;
        }
        value = next;
        i += 1;
    }
    assert(digits.take(i - first) == digits);
    Some(value as u16)
}

/// Joins `parts` with `sep` between neighbours.
pub fn join_with(parts: &Vec<String>, sep: &str) -> (out: String)
    ensures
        out@ == join(parts.deep_view(), sep@),
{
    let mut out = String::new();
    let mut i: usize = 0;
    while i < parts.len()
        invariant
            i <= parts.len(),
            out@ == join(parts.deep_view().take(i as int), sep@),
        decreases parts.len() - i,
    {
        let ghost prefix = parts.deep_view().take(i as int);
        let ghost next = parts.deep_view().take(i + 1);
        assert(next.drop_last() == prefix);
        assert(next.last() == parts[i as int]@);
        if i > 0 {
            out = out.concat(sep);
        }
        out = out.concat(parts[i].as_str());
        proof {
            if i == 0 {
                assert(next[0] == parts[0]@);
            }
        }
        i += 1;
    }
    assert(parts.deep_view().take(parts.len() as int) == parts.deep_view());
    out
}


/// Whether `list` holds the text `item`.
pub fn list_contains(list: &Vec<String>, item: &str) -> (found: bool)
    ensures
        found == list.deep_view().contains(item@),
{
    let mut i: usize = 0;
    while i < list.len()
        invariant
            i <= list.len(),
            forall|k: int| 0 <= k < i ==> list.deep_view()[k] != item@,
        decreases list.len() - i,
    {
        if str_eq(list[i].as_str(), item) {
            assert(list.deep_view()[i as int] == item@);
            return true;
        }
        i += 1;
    }
    false
}

/// Whether the two texts are the same.
pub fn str_eq(a: &str, b: &str) -> (same: bool)
    ensures
        same == (a@ == b@),
{
    let x = to_chars(a);
    let y = to_chars(b);
    if x.len() != y.len() {
        return false;
    }
    let mut i: usize = 0;
    while i < x.len()
        invariant
            i <= x.len(),
            x.len() == y.len(),
            x@ == a@,
            y@ == b@,
            forall|k: int| 0 <= k < i ==> x@[k] == y@[k],
        decreases x.len() - i,
    {
        if x[i] != y[i] {
            assert(a@[i as int] != b@[i as int]);
            return false;
        }
        i += 1;
    }
    assert(x@ =~= y@);
    true
}

/// Whether the two lists hold the same texts in the same order.
pub fn list_eq(a: &Vec<String>, b: &Vec<String>) -> (same: bool)
    ensures
        same == (a.deep_view() == b.deep_view()),
{
    if a.len() != b.len() {
        assert(a.deep_view().len() != b.deep_view().len());
        return false;
    }
    let mut i: usize = 0;
    while i < a.len()
        invariant
            i <= a.len(),
            a.len() == b.len(),
            forall|k: int| 0 <= k < i ==> a.deep_view()[k] == b.deep_view()[k],
        decreases a.len() - i,
    {
        if !str_eq(a[i].as_str(), b[i].as_str()) {
            assert(a.deep_view()[i as int] != b.deep_view()[i as int]);
            return false;
        }
        i += 1;
    }
    assert(a.deep_view() =~= b.deep_view());
    true
}


/// The texts of `list` other than `item`, in their order.
pub open spec fn without(list: Seq<Seq<char>>, item: Seq<char>) -> Seq<Seq<char>> {
    list.filter(|d: Seq<char>| d != item)
}

/// The texts of `list` other than `item`, in their order.
pub fn list_without(list: &Vec<String>, item: &str) -> (kept: Vec<String>)
    ensures
        kept.deep_view() == without(list.deep_view(), item@),
{
    let mut kept: Vec<String> = Vec::new();
    let mut i: usize = 0;
    let ghost keep = |d: Seq<char>| d != item@;
    assert(list.deep_view().take(0) == Seq::<Seq<char>>::empty());
    assert(kept.deep_view() == Seq::<Seq<char>>::empty());
    proof {
        reveal(Seq::filter);
    }
    while i < list.len()
        invariant
            i <= list.len(),
            keep == |d: Seq<char>| d != item@,
            kept.deep_view() == list.deep_view().take(i as int).filter(keep),
        decreases list.len() - i,
    {
        let ghost seen = list.deep_view().take(i as int);
        let ghost before = kept.deep_view();
        proof {
            seen.lemma_filter_push(list[i as int]@, keep);
            assert(list.deep_view().take(i + 1) == seen.push(list[i as int]@));
        }
        if !str_eq(list[i].as_str(), item) {
            kept.push(list[i].clone());
            assert(kept.deep_view() == before.push(list[i as int]@));
        }
        i += 1;
    }
    assert(list.deep_view().take(i as int) == list.deep_view());
    kept
}

} // verus!
