//! Character-level string helpers with specifications over `Seq<char>`,
//! and the trusted items for the few `str` methods of std that vstd does
//! not specify.
use vstd::prelude::*;

verus! {

broadcast use vstd::string::group_string_axioms;

/// Positions `i` and `i + 1` of `s` both hold `.`.
pub open spec fn dots_at(s: Seq<char>, i: int) -> bool {
    0 <= i && i + 1 < s.len() && s[i] == '.' && s[i + 1] == '.'
}

/// `s` holds two consecutive `.` characters somewhere.
pub open spec fn has_double_dot(s: Seq<char>) -> bool {
    exists|i: int| #[trigger] dots_at(s, i)
}

/// Copies the characters of `s` into a vector.
pub fn chars_of(s: &str) -> (r: Vec<char>)
    ensures
        r@ == s@,
{
    let mut r: Vec<char> = Vec::new();
    for c in it: s.chars()
        invariant
            it.seq() == s@,
            r@ == it.seq().take(it.index() as int),
    {
        r.push(c);
    }
    r
}

/// Whether `s` begins with `p`, character by character.
pub fn starts_with_chars(s: &Vec<char>, p: &Vec<char>) -> (b: bool)
    ensures
        b == p@.is_prefix_of(s@),
{
    if p.len() > s.len() {
        return false;
    }
    let mut i: usize = 0;
    while i < p.len()
        invariant
            p.len() <= s.len(),
            i <= p.len(),
            forall|k: int| 0 <= k < i ==> s@[k] == p@[k],
        decreases p.len() - i,
    {
        if s[i] != p[i] {
            assert(s@.subrange(0, p@.len() as int)[i as int] != p@[i as int]);
            return false;
        }
        i = i + 1;
    }
    assert(p@ =~= s@.subrange(0, p@.len() as int));
    true
}

/// Whether `s` ends with `p`, character by character.
pub fn ends_with_chars(s: &Vec<char>, p: &Vec<char>) -> (b: bool)
    ensures
        b == p@.is_suffix_of(s@),
{
    if p.len() > s.len() {
        return false;
    }
    let off: usize = s.len() - p.len();
    let mut i: usize = 0;
    while i < p.len()
        invariant
            p.len() <= s.len(),
            off == s.len() - p.len(),
            i <= p.len(),
            forall|k: int| 0 <= k < i ==> s@[off + k] == p@[k],
        decreases p.len() - i,
    {
        if s[off + i] != p[i] {
            assert(s@.subrange(off as int, s@.len() as int)[i as int] != p@[i as int]);
            return false;
        }
        i = i + 1;
    }
    assert(p@ =~= s@.subrange(off as int, s@.len() as int));
    true
}

/// Whether `s`, from position `from` on, holds two consecutive dots.
pub fn has_double_dot_from(s: &Vec<char>, from: usize) -> (b: bool)
    requires
        from <= s.len(),
    ensures
        b == has_double_dot(s@.skip(from as int)),
{
    let ghost rest = s@.skip(from as int);
    let mut i: usize = from;
    while s.len() - i > 1
        invariant
            from <= i <= s.len(),
            rest == s@.skip(from as int),
            forall|k: int| from <= k < i && k + 1 < s.len() ==> !(#[trigger] s@[k] == '.' && s@[k + 1] == '.'),
        decreases s.len() - i,
    {
        if s[i] == '.' && s[i + 1] == '.' {
            assert(dots_at(rest, i - from));
            return true;
        }
        i = i + 1;
    }
    assert forall|k: int| !#[trigger] dots_at(rest, k) by {
        if 0 <= k && k + 1 < rest.len() {
            assert(s@[from + k] == rest[k]);
            assert(s@[from + k + 1] == rest[k + 1]);
        }
    }
    false
}

/// Whether the character sequence `s` is empty.
pub open spec fn is_empty_chars(s: Seq<char>) -> bool {
    s.len() == 0
}

/// An ASCII character in lowercase: `A`..`Z` become `a`..`z`, every other
/// character stays.
pub open spec fn ascii_lower_char(c: char) -> char {
    if 'A' <= c && c <= 'Z' {
        ((c as u32) + 32) as char
    } else {
        c
    }
}

/// An ASCII string in lowercase, character by character.
pub open spec fn ascii_lowercase(s: Seq<char>) -> Seq<char> {
    s.map_values(|c: char| ascii_lower_char(c))
}

/// The ASCII characters that Unicode counts as white space: tab, line feed,
/// vertical tab, form feed, carriage return and space.
pub open spec fn is_ascii_white_space(c: char) -> bool {
    c == ' ' || ('\t' <= c && c <= '\r')
}

/// `s` without its leading ASCII white space.
pub open spec fn ascii_trim_start(s: Seq<char>) -> Seq<char>
    decreases s.len(),
{
    if s.len() > 0 && is_ascii_white_space(s[0]) {
        ascii_trim_start(s.drop_first())
    } else {
        s
    }
}

/// `s` without its trailing ASCII white space.
pub open spec fn ascii_trim_end(s: Seq<char>) -> Seq<char>
    decreases s.len(),
{
    if s.len() > 0 && is_ascii_white_space(s.last()) {
        ascii_trim_end(s.drop_last())
    } else {
        s
    }
}

/// `s` is `text` stripped of its surrounding ASCII white space: a stretch of
/// `text` with nothing but white space before and after it, and with no
/// white space at either of its own ends.
pub open spec fn ascii_trimmed_from(text: Seq<char>, s: Seq<char>) -> bool {
    exists|i: int, j: int|
        #![trigger text.subrange(i, j)]
        0 <= i <= j <= text.len() && s == text.subrange(i, j) && (forall|m: int|
            0 <= m < i ==> is_ascii_white_space(#[trigger] text[m])) && (forall|m: int|
            j <= m < text.len() ==> is_ascii_white_space(#[trigger] text[m])) && (s.len() > 0
            ==> !is_ascii_white_space(s[0]) && !is_ascii_white_space(s.last()))
}

/// Where the leading ASCII white space of `s` ends.
proof fn lemma_ascii_trim_start_at(s: Seq<char>) -> (i: int)
    ensures
        0 <= i <= s.len(),
        ascii_trim_start(s) == s.subrange(i, s.len() as int),
        forall|m: int| 0 <= m < i ==> is_ascii_white_space(#[trigger] s[m]),
        i < s.len() ==> !is_ascii_white_space(s[i]),
    decreases s.len(),
{
    if s.len() > 0 && is_ascii_white_space(s[0]) {
        let k = lemma_ascii_trim_start_at(s.drop_first());
        assert(s.drop_first().subrange(k, s.drop_first().len() as int) =~= s.subrange(
            k + 1,
            s.len() as int,
        ));
        assert forall|m: int| 0 <= m < k + 1 implies is_ascii_white_space(#[trigger] s[m]) by {
            if m > 0 {
                assert(s[m] == s.drop_first()[m - 1]);
            }
        }
        k + 1
    } else {
        assert(s.subrange(0, s.len() as int) =~= s);
        0
    }
}

/// Where the trailing ASCII white space of `s` begins.
proof fn lemma_ascii_trim_end_at(s: Seq<char>) -> (j: int)
    ensures
        0 <= j <= s.len(),
        ascii_trim_end(s) == s.subrange(0, j),
        forall|m: int| j <= m < s.len() ==> is_ascii_white_space(#[trigger] s[m]),
        j > 0 ==> !is_ascii_white_space(s[j - 1]),
    decreases s.len(),
{
    if s.len() > 0 && is_ascii_white_space(s.last()) {
        let k = lemma_ascii_trim_end_at(s.drop_last());
        assert(s.drop_last().subrange(0, k) =~= s.subrange(0, k));
        assert forall|m: int| k <= m < s.len() implies is_ascii_white_space(#[trigger] s[m]) by {
            if m < s.len() - 1 {
                assert(s[m] == s.drop_last()[m]);
            }
        }
        k
    } else {
        assert(s.subrange(0, s.len() as int) =~= s);
        s.len() as int
    }
}

/// Law: trimming ASCII white space from both ends strips exactly the
/// surrounding white space.
pub proof fn lemma_ascii_trim_strips_surrounding_space(text: Seq<char>)
    ensures
        ascii_trimmed_from(text, ascii_trim_end(ascii_trim_start(text))),
{
    let i = lemma_ascii_trim_start_at(text);
    let t = text.subrange(i, text.len() as int);
    let j = lemma_ascii_trim_end_at(t);
    let s = t.subrange(0, j);
    assert(s =~= text.subrange(i, i + j));
    assert forall|m: int| i + j <= m < text.len() implies is_ascii_white_space(
        #[trigger] text[m],
    ) by {
        assert(text[m] == t[m - i]);
    }
    if s.len() > 0 {
        assert(s[0] == text[i]);
        assert(s.last() == t[j - 1]);
    }
    assert(ascii_trim_end(ascii_trim_start(text)) == text.subrange(i, i + j));
}

/// Law: text with no white space at either end is its own trimmed form.
pub proof fn lemma_trimmed_clean_text_unchanged(text: Seq<char>, s: Seq<char>)
    requires
        ascii_trimmed_from(text, s),
        text.len() > 0 ==> !is_ascii_white_space(text[0]) && !is_ascii_white_space(text.last()),
    ensures
        s == text,
{
    let (i, j) = choose|i: int, j: int|
        #![trigger text.subrange(i, j)]
        0 <= i <= j <= text.len() && s == text.subrange(i, j) && (forall|m: int|
            0 <= m < i ==> is_ascii_white_space(#[trigger] text[m])) && (forall|m: int|
            j <= m < text.len() ==> is_ascii_white_space(#[trigger] text[m])) && (s.len() > 0
            ==> !is_ascii_white_space(s[0]) && !is_ascii_white_space(s.last()));
    if i > 0 {
        assert(is_ascii_white_space(text[0]));
    }
    if j < text.len() {
        assert(is_ascii_white_space(text[text.len() - 1]));
    }
    assert(s =~= text);
}

/// Law: trimming ASCII white space from ASCII text leaves ASCII text.
pub proof fn lemma_ascii_trim_keeps_ascii(s: Seq<char>)
    requires
        vstd::utf8::is_ascii_chars(s),
    ensures
        vstd::utf8::is_ascii_chars(ascii_trim_end(ascii_trim_start(s))),
{
    lemma_ascii_trim_start_keeps_ascii(s);
    lemma_ascii_trim_end_keeps_ascii(ascii_trim_start(s));
}

proof fn lemma_ascii_trim_start_keeps_ascii(s: Seq<char>)
    requires
        vstd::utf8::is_ascii_chars(s),
    ensures
        vstd::utf8::is_ascii_chars(ascii_trim_start(s)),
    decreases s.len(),
{
    if s.len() > 0 && is_ascii_white_space(s[0]) {
        assert forall|i: int| 0 <= i < s.drop_first().len() implies '\0' <= #[trigger] s.drop_first()[i]
            <= '\u{7f}' by {
            assert(s.drop_first()[i] == s[i + 1]);
        }
        lemma_ascii_trim_start_keeps_ascii(s.drop_first());
    }
}

proof fn lemma_ascii_trim_end_keeps_ascii(s: Seq<char>)
    requires
        vstd::utf8::is_ascii_chars(s),
    ensures
        vstd::utf8::is_ascii_chars(ascii_trim_end(s)),
    decreases s.len(),
{
    if s.len() > 0 && is_ascii_white_space(s.last()) {
        assert forall|i: int| 0 <= i < s.drop_last().len() implies '\0' <= #[trigger] s.drop_last()[i]
            <= '\u{7f}' by {
            assert(s.drop_last()[i] == s[i]);
        }
        lemma_ascii_trim_end_keeps_ascii(s.drop_last());
    }
}

/// What `str::to_lowercase` of std returns for a string of these characters
/// (the Unicode lowercase mapping).
pub uninterp spec fn unicode_lowercase(s: Seq<char>) -> Seq<char>;

/// Calls `str::to_lowercase` of std. Its contract names the result, the
/// Unicode lowercase mapping of the characters of `s`, and states it for
/// ASCII text, where the mapping turns `A`..`Z` into `a`..`z` and keeps every
/// other character; for other text no clause says what the mapping is.
#[verifier::external_body]
pub(crate) fn to_lowercase(s: &str) -> (r: String)
    ensures
        r@ == unicode_lowercase(s@),
        vstd::utf8::is_ascii_chars(s@) ==> r@ == ascii_lowercase(s@),
{
    s.to_lowercase()
}

/// What `str::trim` of std returns for a string of these characters (the
/// string without leading and trailing Unicode white space).
pub uninterp spec fn unicode_trim(s: Seq<char>) -> Seq<char>;

/// Calls `str::trim` of std and copies the slice into a `String`. Its
/// contract names the result, which depends on the characters of `s` alone,
/// and states it for ASCII text, where the Unicode white space is tab, line
/// feed, vertical tab, form feed, carriage return and space; for other text
/// no clause says which characters count as white space.
#[verifier::external_body]
pub(crate) fn trim_to_string(s: &str) -> (r: String)
    ensures
        r@ == unicode_trim(s@),
        vstd::utf8::is_ascii_chars(s@) ==> r@ == ascii_trim_end(ascii_trim_start(s@)),
{
    s.trim().to_string()
}

/// Appends one character to a `String` by `String::push` of std.
#[verifier::external_body]
pub(crate) fn push_char(s: &mut String, c: char)
    ensures
        final(s)@ == old(s)@.push(c),
{
    s.push(c)
}

} // verus!

verus! {

/// Copies each string slice of `v` into an owned `String`.
pub fn strings_from(v: Vec<&str>) -> (r: Vec<String>)
    ensures
        r.deep_view() == v.deep_view(),
{
    let mut r: Vec<String> = Vec::new();
    let mut i: usize = 0;
    while i < v.len()
        invariant
            i <= v.len(),
            r@.len() == i,
            forall|k: int| 0 <= k < i ==> (#[trigger] r@[k])@ == v@[k]@,
        decreases v.len() - i,
    {
        r.push(v[i].to_owned());
        i = i + 1;
    }
    assert(r.deep_view() =~= v.deep_view());
    r
}

} // verus!

verus! {

/// Whether two strings hold the same characters.
pub fn str_eq(a: &str, b: &str) -> (r: bool)
    ensures
        r == (a@ == b@),
{
    let x = chars_of(a);
    let y = chars_of(b);
    if x.len() != y.len() {
        return false;
    }
    let mut i: usize = 0;
    while i < x.len()
        invariant
            x@ == a@,
            y@ == b@,
            x.len() == y.len(),
            i <= x.len(),
            forall|k: int| 0 <= k < i ==> x@[k] == y@[k],
        decreases x.len() - i,
    {
        if x[i] != y[i] {
            assert(a@[i as int] != b@[i as int]);
            return false;
        }
        i = i + 1;
    }
    assert(x@ =~= y@);
    true
}

} // verus!
