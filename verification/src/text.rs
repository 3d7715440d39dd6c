//! Sequences of characters: searching, splitting, joining and trimming, and
//! the character classes and case mappings that come from the standard
//! library.

use vstd::prelude::*;

verus! {

/// The uppercase form of a string under the Unicode case mapping.
pub uninterp spec fn str_uppercase(s: Seq<char>) -> Seq<char>;

/// The lowercase form of a string under the Unicode case mapping.
pub uninterp spec fn str_lowercase(s: Seq<char>) -> Seq<char>;

/// Whether a character has the Unicode property `Uppercase`.
pub uninterp spec fn char_is_uppercase(c: char) -> bool;

/// The uppercase mapping of one character, which may be several characters.
pub uninterp spec fn char_uppercase(c: char) -> Seq<char>;

/// Whether a character has the Unicode property `White_Space`.
pub uninterp spec fn char_is_whitespace(c: char) -> bool;

/// `str::to_uppercase`: returns the uppercase equivalent of the slice as a new
/// string. The mapping is fixed by the Unicode tables of the standard library,
/// so the result depends on the characters of the argument alone.
pub assume_specification[ str::to_uppercase ](s: &str) -> (r: String)
    ensures
        r@ == str_uppercase(s@),
;

/// `str::to_lowercase`: returns the lowercase equivalent of the slice as a new
/// string, a function of the characters of the argument alone.
pub assume_specification[ str::to_lowercase ](s: &str) -> (r: String)
    ensures
        r@ == str_lowercase(s@),
;

/// `char::is_uppercase`: tells whether the character has the `Uppercase`
/// property.
pub assume_specification[ char::is_uppercase ](c: char) -> (r: bool)
    ensures
        r == char_is_uppercase(c),
;

/// `char::is_whitespace`: tells whether the character has the `White_Space`
/// property.
pub assume_specification[ char::is_whitespace ](c: char) -> (r: bool)
    ensures
        r == char_is_whitespace(c),
;

/// `char::to_uppercase`: yields the uppercase mapping of the character as one
/// or more characters, collected here into a string.
#[verifier::external_body]
pub(crate) fn uppercase_of_char(c: char) -> (r: String)
    ensures
        r@ == char_uppercase(c),
{
    c.to_uppercase().collect()
}

/// `String::push`: appends the character to the end of the string.
pub assume_specification[ std::string::String::push ](s: &mut String, ch: char)
    ensures
        final(s)@ == old(s)@.push(ch),
;

/// `==` on string slices: true exactly when both hold the same characters.
#[verifier::external_body]
pub(crate) fn str_eq(a: &str, b: &str) -> (r: bool)
    ensures
        r == (a@ == b@),
{
    a == b
}

/// The characters of a string, as a vector that can be indexed.
pub(crate) fn chars_of(s: &str) -> (v: Vec<char>)
    ensures
        v@ == s@,
{
    let mut v: Vec<char> = Vec::new();
    for c in it: s.chars()
        invariant
            it.seq() == s@,
            v@ == s@.take(it.index()),
    {
        v.push(c);
    }
    v
}

/// Appends the characters `chars[from..to]` to `out`.
pub(crate) fn push_range(out: &mut String, chars: &Vec<char>, from: usize, to: usize)
    requires
        from <= to <= chars.len(),
    ensures
        final(out)@ == old(out)@ + chars@.subrange(from as int, to as int),
{
    let mut i: usize = from;
    while i < to
        invariant
            from <= i <= to <= chars.len(),
            out@ == old(out)@ + chars@.subrange(from as int, i as int),
        decreases to - i,
    {
        out.push(chars[i]);
        i = i + 1;
    }
}

/// The string that holds the characters `chars[from..to]`.
pub(crate) fn string_of_range(chars: &Vec<char>, from: usize, to: usize) -> (s: String)
    requires
        from <= to <= chars.len(),
    ensures
        s@ == chars@.subrange(from as int, to as int),
{
    let mut s = String::new();
    push_range(&mut s, chars, from, to);
    s
}

/// Whether `pat` stands in `s` at index `i`.
pub open spec fn matches_at(s: Seq<char>, pat: Seq<char>, i: int) -> bool {
    0 <= i && i + pat.len() <= s.len() && s.subrange(i, i + pat.len()) == pat
}

/// The least index at or after `from` at which `pat` stands in `s`.
pub open spec fn find_from(s: Seq<char>, pat: Seq<char>, from: int) -> Option<int>
    decreases s.len() - from + 1,
{
    if from < 0 || from + pat.len() > s.len() {
        None
    } else if matches_at(s, pat, from) {
        Some(from)
    } else {
        find_from(s, pat, from + 1)
    }
}

/// Whether `pat` stands anywhere in `s`.
pub open spec fn contains(s: Seq<char>, pat: Seq<char>) -> bool {
    find_from(s, pat, 0) is Some
}

/// Whether `s` begins with `pat`.
pub open spec fn starts_with(s: Seq<char>, pat: Seq<char>) -> bool {
    matches_at(s, pat, 0)
}

/// Whether `s` ends with `pat`.
pub open spec fn ends_with(s: Seq<char>, pat: Seq<char>) -> bool {
    matches_at(s, pat, s.len() - pat.len())
}

/// What `find_from` returns is the first match at or after `from`, and `None`
/// means that there is no match there.
pub proof fn lemma_find_from(s: Seq<char>, pat: Seq<char>, from: int)
    requires
        0 <= from,
    ensures
        match find_from(s, pat, from) {
            Some(i) => from <= i && matches_at(s, pat, i) && forall|j: int|
                from <= j < i ==> !matches_at(s, pat, j),
            None => forall|j: int| from <= j ==> !matches_at(s, pat, j),
        },
    decreases s.len() - from + 1,
{
    if from + pat.len() <= s.len() && !matches_at(s, pat, from) {
        lemma_find_from(s, pat, from + 1);
    }
}

/// The pieces of `s` between the occurrences of `pat`, found from left to
/// right without overlap. A string without an occurrence is its own single
/// piece, and so is every string when `pat` is empty.
pub open spec fn split_on(s: Seq<char>, pat: Seq<char>) -> Seq<Seq<char>>
    decreases s.len(),
{
    match find_from(s, pat, 0) {
        Some(i) => {
            if pat.len() > 0 {
                proof {
                    lemma_find_from(s, pat, 0);
                }
                seq![s.take(i)] + split_on(s.skip(i + pat.len()), pat)
            } else {
                seq![s]
            }
        },
        None => seq![s],
    }
}

/// A string always has at least one piece.
pub proof fn lemma_split_nonempty(s: Seq<char>, pat: Seq<char>)
    ensures
        split_on(s, pat).len() > 0,
{
}

/// The pieces of `s` between the occurrences of the character `sep`.
pub open spec fn split(s: Seq<char>, sep: char) -> Seq<Seq<char>> {
    split_on(s, seq![sep])
}

/// The pieces joined into one string, with `sep` between neighbours.
pub open spec fn join(parts: Seq<Seq<char>>, sep: Seq<char>) -> Seq<char>
    decreases parts.len(),
{
    if parts.len() == 0 {
        Seq::empty()
    } else if parts.len() == 1 {
        parts[0]
    } else {
        join(parts.drop_last(), sep) + sep + parts.last()
    }
}

/// `s` without its leading whitespace.
pub open spec fn trim_start(s: Seq<char>) -> Seq<char>
    decreases s.len(),
{
    if s.len() > 0 && char_is_whitespace(s.first()) {
        trim_start(s.drop_first())
    } else {
        s
    }
}

/// `s` without its trailing whitespace.
pub open spec fn trim_end(s: Seq<char>) -> Seq<char>
    decreases s.len(),
{
    if s.len() > 0 && char_is_whitespace(s.last()) {
        trim_end(s.drop_last())
    } else {
        s
    }
}

/// `s` without its leading and trailing whitespace.
pub open spec fn trim(s: Seq<char>) -> Seq<char> {
    trim_end(trim_start(s))
}

/// The views of a vector of strings.
pub open spec fn strings_view(v: Seq<String>) -> Seq<Seq<char>> {
    v.map_values(|s: String| s@)
}

/// The views of a vector of character vectors.
pub open spec fn pieces_view(v: Seq<Vec<char>>) -> Seq<Seq<char>> {
    v.map_values(|p: Vec<char>| p@)
}

/// Tells whether `pat` stands in `s` at index `i`.
pub(crate) fn has_match_at(s: &Vec<char>, pat: &Vec<char>, i: usize) -> (r: bool)
    ensures
        r == matches_at(s@, pat@, i as int),
{
    if i > s.len() || pat.len() > s.len() - i {
        return false;
    }
    let mut k: usize = 0;
    while k < pat.len()
        invariant
            i <= s.len(),
            pat.len() <= s.len() - i,
            k <= pat.len(),
            forall|j: int| 0 <= j < k ==> s@[i + j] == pat@[j],
        decreases pat.len() - k,
    {
        if s[i + k] != pat[k] {
            proof {
                let sub = s@.subrange(i as int, i + pat.len());
                assert(sub[k as int] == s@[i + k]);
            }
            return false;
        }
        k = k + 1;
    }
    proof {
        assert(s@.subrange(i as int, i + pat.len()) =~= pat@);
    }
    true
}

/// Finds the first index at or after `from` at which `pat` stands in `s`.
pub(crate) fn find(s: &Vec<char>, pat: &Vec<char>, from: usize) -> (r: Option<usize>)
    ensures
        match r {
            Some(i) => find_from(s@, pat@, from as int) == Some(i as int),
            None => find_from(s@, pat@, from as int) is None,
        },
{
    if pat.len() > s.len() || from > s.len() - pat.len() {
        return None;
    }
    let last: usize = s.len() - pat.len();
    let mut i: usize = from;
    while i < last
        invariant
            from <= i <= last,
            last == s.len() - pat.len(),
            find_from(s@, pat@, from as int) == find_from(s@, pat@, i as int),
        decreases last - i,
    {
        if has_match_at(s, pat, i) {
            return Some(i);
        }
        i = i + 1;
    }
    if has_match_at(s, pat, i) {
        Some(i)
    } else {
        assert(find_from(s@, pat@, i + 1) is None);
        None
    }
}

/// Splits `s` at the occurrences of `pat`.
pub(crate) fn split_chars(s: &Vec<char>, pat: &Vec<char>) -> (parts: Vec<Vec<char>>)
    requires
        pat.len() > 0,
    ensures
        pieces_view(parts@) == split_on(s@, pat@),
{
    let mut parts: Vec<Vec<char>> = Vec::new();
    let mut start: usize = 0;
    proof {
        assert(s@.skip(0) =~= s@);
        assert(pieces_view(parts@) + split_on(s@, pat@) =~= split_on(s@, pat@));
    }
    loop
        invariant
            pat.len() > 0,
            start <= s.len(),
            split_on(s@, pat@) == pieces_view(parts@) + split_on(s@.skip(start as int), pat@),
        decreases s.len() - start,
    {
        let ghost rest = s@.skip(start as int);
        match find(s, pat, start) {
            Some(i) => {
                proof {
                    lemma_find_from(s@, pat@, start as int);
                    lemma_find_shift(s@, pat@, start as int, start as int);
                    assert(find_from(rest, pat@, 0) == Some(i - start));
                    assert(rest.take(i - start) =~= s@.subrange(start as int, i as int));
                    assert(rest.skip(i - start + pat.len()) =~= s@.skip(i + pat.len()));
                }
                let piece = slice_of(s, start, i);
                let ghost before = pieces_view(parts@);
                parts.push(piece);
                proof {
                    assert(pieces_view(parts@) =~= before + seq![piece@]);
                }
                start = i + pat.len();
            },
            None => {
                proof {
                    lemma_find_shift(s@, pat@, start as int, start as int);
                    assert(find_from(rest, pat@, 0) is None);
                    assert(rest =~= s@.subrange(start as int, s.len() as int));
                }
                let piece = slice_of(s, start, s.len());
                let ghost before = pieces_view(parts@);
                parts.push(piece);
                proof {
                    assert(pieces_view(parts@) =~= before + seq![piece@]);
                }
                return parts;
            },
        }
    }
}

/// Searching in a suffix of `s` finds what searching in `s` from that offset
/// finds, moved by the offset.
pub proof fn lemma_find_shift(s: Seq<char>, pat: Seq<char>, offset: int, from: int)
    requires
        0 <= offset <= from,
        offset <= s.len(),
    ensures
        find_from(s.skip(offset), pat, from - offset) == match find_from(s, pat, from) {
            Some(i) => Some(i - offset),
            None => None,
        },
    decreases s.len() - from + 1,
{
    let t = s.skip(offset);
    if from + pat.len() <= s.len() {
        assert(t.subrange(from - offset, from - offset + pat.len()) =~= s.subrange(
            from,
            from + pat.len(),
        ));
        if !matches_at(s, pat, from) {
            lemma_find_shift(s, pat, offset, from + 1);
        }
    }
}

/// A copy of the characters `chars[from..to]`.
pub(crate) fn slice_of(chars: &Vec<char>, from: usize, to: usize) -> (r: Vec<char>)
    requires
        from <= to <= chars.len(),
    ensures
        r@ == chars@.subrange(from as int, to as int),
{
    let mut r: Vec<char> = Vec::new();
    let mut i: usize = from;
    while i < to
        invariant
            from <= i <= to <= chars.len(),
            r@ == chars@.subrange(from as int, i as int),
        decreases to - i,
    {
        r.push(chars[i]);
        i = i + 1;
    }
    r
}

/// Joins the strings into one, with `sep` between neighbours.
pub(crate) fn join_strings(parts: &Vec<String>, sep: &str) -> (r: String)
    ensures
        r@ == join(strings_view(parts@), sep@),
{
    let mut r = String::new();
    let mut i: usize = 0;
    while i < parts.len()
        invariant
            i <= parts.len(),
            r@ == join(strings_view(parts@).take(i as int), sep@),
        decreases parts.len() - i,
    {
        proof {
            let next = strings_view(parts@).take(i + 1);
            assert(next.drop_last() =~= strings_view(parts@).take(i as int));
            assert(next.last() == parts@[i as int]@);
        }
        if i > 0 {
            r.append(sep);
        }
        r.append(parts[i].as_str());
        i = i + 1;
    }
    proof {
        assert(strings_view(parts@).take(parts.len() as int) =~= strings_view(parts@));
    }
    r
}

/// The bounds of `chars` without its leading and trailing whitespace.
pub(crate) fn trim_bounds(chars: &Vec<char>) -> (r: (usize, usize))
    ensures
        r.0 <= r.1 <= chars.len(),
        chars@.subrange(r.0 as int, r.1 as int) == trim(chars@),
{
    let n = chars.len();
    let mut a: usize = 0;
    proof {
        assert(chars@.subrange(0, n as int) =~= chars@);
    }
    while a < n && chars[a].is_whitespace()
        invariant
            a <= n == chars.len(),
            trim_start(chars@) == trim_start(chars@.subrange(a as int, n as int)),
        decreases n - a,
    {
        proof {
            let cur = chars@.subrange(a as int, n as int);
            assert(cur.drop_first() =~= chars@.subrange(a + 1, n as int));
        }
        a = a + 1;
    }
    let mut b: usize = n;
    while a < b && chars[b - 1].is_whitespace()
        invariant
            a <= b <= n == chars.len(),
            trim_start(chars@) == chars@.subrange(a as int, n as int),
            trim(chars@) == trim_end(chars@.subrange(a as int, b as int)),
        decreases b - a,
    {
        proof {
            let cur = chars@.subrange(a as int, b as int);
            assert(cur.drop_last() =~= chars@.subrange(a as int, b - 1));
        }
        b = b - 1;
    }
    (a, b)
}

/// Tells whether `s` ends with `pat`.
pub(crate) fn has_suffix(s: &Vec<char>, pat: &Vec<char>) -> (r: bool)
    ensures
        r == ends_with(s@, pat@),
{
    pat.len() <= s.len() && has_match_at(s, pat, s.len() - pat.len())
}

/// Tells whether `s` begins with `pat`.
pub(crate) fn has_prefix(s: &Vec<char>, pat: &Vec<char>) -> (r: bool)
    ensures
        r == starts_with(s@, pat@),
{
    has_match_at(s, pat, 0)
}

/// The character of a decimal digit.
pub open spec fn digit(d: int) -> char {
    if d == 0 {
        '0'
    } else if d == 1 {
        '1'
    } else if d == 2 {
        '2'
    } else if d == 3 {
        '3'
    } else if d == 4 {
        '4'
    } else if d == 5 {
        '5'
    } else if d == 6 {
        '6'
    } else if d == 7 {
        '7'
    } else if d == 8 {
        '8'
    } else {
        '9'
    }
}

/// The decimal numeral of `n`, without leading zeros.
pub open spec fn decimal(n: nat) -> Seq<char>
    decreases n,
{
    if n < 10 {
        seq![digit(n as int)]
    } else {
        decimal(n / 10).push(digit((n % 10) as int))
    }
}

/// The character of the decimal digit `d`.
pub(crate) fn digit_char(d: usize) -> (c: char)
    requires
        d < 10,
    ensures
        c == digit(d as int),
{
    match d {
        0 => '0',
        1 => '1',
        2 => '2',
        3 => '3',
        4 => '4',
        5 => '5',
        6 => '6',
        7 => '7',
        8 => '8',
        _ => '9',
    }
}

/// Appends the decimal numeral of `n` to `out`.
pub(crate) fn push_decimal(out: &mut String, n: usize)
    ensures
        final(out)@ == old(out)@ + decimal(n as nat),
    decreases n,
{
    if n >= 10 {
        push_decimal(out, n / 10);
    }
    out.push(digit_char(n % 10));
}

} // verus!
