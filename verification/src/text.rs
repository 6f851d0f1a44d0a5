//! Character- and string-level helpers used by the parsers and printers of the library.
//!
//! Strings are handled as sequences of characters (`Seq<char>` in specifications,
//! `Vec<char>` or `&str` in executable code).
use vstd::prelude::*;

verus! {

/// `String::push` appends one character.
pub assume_specification[ String::push ](s: &mut String, ch: char)
    ensures
        final(s)@ == old(s)@.push(ch),
;

/// The Unicode lowercase form of a string, as `str::to_lowercase` computes it.
pub uninterp spec fn unicode_lowercase(s: Seq<char>) -> Seq<char>;

/// Calls `str::to_lowercase`.  The result is named by `unicode_lowercase`; on a string made of
/// ASCII characters only, each letter `A`..`Z` becomes `a`..`z` and every other character stays.
#[verifier::external_body]
pub fn to_lowercase(s: &str) -> (r: String)
    ensures
        r@ == unicode_lowercase(s@),
        all_ascii(s@) ==> r@ == ascii_lowercase(s@),
{
    s.to_lowercase()
}

// ---------------------------------------------------------------------------------------------
// Character classes
// ---------------------------------------------------------------------------------------------

pub open spec fn is_ascii_char(c: char) -> bool {
    (c as u32) < 128
}

pub open spec fn all_ascii(s: Seq<char>) -> bool {
    forall|i: int| 0 <= i < s.len() ==> is_ascii_char(#[trigger] s[i])
}

pub open spec fn is_ascii_digit(c: char) -> bool {
    '0' <= c && c <= '9'
}

pub open spec fn is_ascii_upper(c: char) -> bool {
    'A' <= c && c <= 'Z'
}

pub open spec fn is_ascii_lower(c: char) -> bool {
    'a' <= c && c <= 'z'
}

pub open spec fn is_ascii_alphanumeric(c: char) -> bool {
    is_ascii_digit(c) || is_ascii_upper(c) || is_ascii_lower(c)
}

/// The Unicode `White_Space` property, which `char::is_whitespace` tests.
pub open spec fn is_whitespace(c: char) -> bool {
    let u = c as u32;
    ||| 0x09 <= u && u <= 0x0D
    ||| u == 0x20
    ||| u == 0x85
    ||| u == 0xA0
    ||| u == 0x1680
    ||| 0x2000 <= u && u <= 0x200A
    ||| u == 0x2028
    ||| u == 0x2029
    ||| u == 0x202F
    ||| u == 0x205F
    ||| u == 0x3000
}

pub open spec fn ascii_lower_char(c: char) -> char {
    if is_ascii_upper(c) {
        ((c as u32) + 32) as char
    } else {
        c
    }
}

pub open spec fn ascii_lowercase(s: Seq<char>) -> Seq<char> {
    s.map_values(|c: char| ascii_lower_char(c))
}

pub open spec fn eq_ignore_ascii_case(a: Seq<char>, b: Seq<char>) -> bool {
    a.len() == b.len() && forall|i: int|
        0 <= i < a.len() ==> ascii_lower_char(#[trigger] a[i]) == ascii_lower_char(b[i])
}

pub fn char_is_digit(c: char) -> (b: bool)
    ensures
        b == is_ascii_digit(c),
{
    '0' <= c && c <= '9'
}

pub fn char_is_ascii_alphanumeric(c: char) -> (b: bool)
    ensures
        b == is_ascii_alphanumeric(c),
{
    ('0' <= c && c <= '9') || ('A' <= c && c <= 'Z') || ('a' <= c && c <= 'z')
}

pub fn char_is_whitespace(c: char) -> (b: bool)
    ensures
        b == is_whitespace(c),
{
    let u = c as u32;
    (0x09 <= u && u <= 0x0D) || u == 0x20 || u == 0x85 || u == 0xA0 || u == 0x1680 || (0x2000
        <= u && u <= 0x200A) || u == 0x2028 || u == 0x2029 || u == 0x202F || u == 0x205F || u
        == 0x3000
}

pub fn char_to_ascii_lower(c: char) -> (r: char)
    ensures
        r == ascii_lower_char(c),
{
    if 'A' <= c && c <= 'Z' {
        let b: u8 = c as u8;
        let r = (b + 32) as char;
        assert(r == ascii_lower_char(c)) by {
            assert(b as u32 == c as u32);
        }
        r
    } else {
        c
    }
}

// ---------------------------------------------------------------------------------------------
// Conversions between `&str`, `String` and `Vec<char>`
// ---------------------------------------------------------------------------------------------

/// The characters of a string slice, in order.
pub fn str_chars(s: &str) -> (v: Vec<char>)
    ensures
        v@ == s@,
{
    let n = s.unicode_len();
    let mut v: Vec<char> = Vec::new();
    let mut i: usize = 0;
    while i < n
        invariant
            n == s@.len(),
            i <= n,
            v@ == s@.subrange(0, i as int),
        decreases n - i,
    {
        let c = s.get_char(i);
        v.push(c);
        i = i + 1;
    }
    v
}

/// A string holding exactly the given characters.
pub fn string_from_chars(v: &[char]) -> (s: String)
    ensures
        s@ == v@,
{
    let mut s = String::new();
    let mut i: usize = 0;
    while i < v.len()
        invariant
            i <= v@.len(),
            s@ == v@.subrange(0, i as int),
        decreases v@.len() - i,
    {
        s.push(v[i]);
        i = i + 1;
    }
    s
}

/// An owned copy of a string slice.
pub fn owned(s: &str) -> (r: String)
    ensures
        r@ == s@,
{
    s.to_owned()
}

/// Appends the characters of `t` to `s`.
pub fn push_str(s: &mut String, t: &str)
    ensures
        final(s)@ == old(s)@ + t@,
{
    s.append(t);
}

/// Whether two character sequences are equal.
pub fn chars_eq(a: &[char], b: &[char]) -> (r: bool)
    ensures
        r == (a@ == b@),
{
    if a.len() != b.len() {
        return false;
    }
    let mut i: usize = 0;
    while i < a.len()
        invariant
            a@.len() == b@.len(),
            i <= a@.len(),
            forall|j: int| 0 <= j < i ==> a@[j] == b@[j],
        decreases a@.len() - i,
    {
        if a[i] != b[i] {
            return false;
        }
        i = i + 1;
    }
    assert(a@ =~= b@);
    true
}

/// Whether two string slices hold the same characters.
/// Whether the characters `l` spell `s`.
pub fn chars_are(l: &[char], s: &str) -> (r: bool)
    ensures
        r == (l@ == s@),
{
    let w = str_chars(s);
    chars_eq(l, w.as_slice())
}

pub fn str_eq(a: &str, b: &str) -> (r: bool)
    ensures
        r == (a@ == b@),
{
    let va = str_chars(a);
    let vb = str_chars(b);
    chars_eq(va.as_slice(), vb.as_slice())
}

/// ASCII case-insensitive comparison (`str::eq_ignore_ascii_case`).
pub fn chars_eq_ignore_ascii_case(a: &[char], b: &[char]) -> (r: bool)
    ensures
        r == eq_ignore_ascii_case(a@, b@),
{
    if a.len() != b.len() {
        return false;
    }
    let mut i: usize = 0;
    while i < a.len()
        invariant
            a@.len() == b@.len(),
            i <= a@.len(),
            forall|j: int| 0 <= j < i ==> ascii_lower_char(a@[j]) == ascii_lower_char(b@[j]),
        decreases a@.len() - i,
    {
        if char_to_ascii_lower(a[i]) != char_to_ascii_lower(b[i]) {
            return false;
        }
        i = i + 1;
    }
    true
}

/// The ASCII-lowercased copy of a character sequence (`to_ascii_lowercase`).
pub fn chars_to_ascii_lowercase(a: &[char]) -> (r: Vec<char>)
    ensures
        r@ == ascii_lowercase(a@),
{
    let mut r: Vec<char> = Vec::new();
    let mut i: usize = 0;
    while i < a.len()
        invariant
            i <= a@.len(),
            r@ == ascii_lowercase(a@.subrange(0, i as int)),
        decreases a@.len() - i,
    {
        r.push(char_to_ascii_lower(a[i]));
        i = i + 1;
        assert(ascii_lowercase(a@.subrange(0, i as int)) =~= ascii_lowercase(
            a@.subrange(0, i - 1),
        ).push(ascii_lower_char(a@[i - 1])));
    }
    assert(a@.subrange(0, a@.len() as int) =~= a@);
    r
}

// ---------------------------------------------------------------------------------------------
// Trimming
// ---------------------------------------------------------------------------------------------

pub open spec fn trim_start(s: Seq<char>) -> Seq<char>
    decreases s.len(),
{
    if s.len() > 0 && is_whitespace(s[0]) {
        trim_start(s.drop_first())
    } else {
        s
    }
}

pub open spec fn trim_end(s: Seq<char>) -> Seq<char>
    decreases s.len(),
{
    if s.len() > 0 && is_whitespace(s.last()) {
        trim_end(s.drop_last())
    } else {
        s
    }
}

/// What `str::trim` keeps: the characters between the leading and trailing whitespace.
pub open spec fn trim(s: Seq<char>) -> Seq<char> {
    trim_end(trim_start(s))
}

proof fn lemma_trim_start_skip(s: Seq<char>, i: int)
    requires
        0 <= i <= s.len(),
        forall|j: int| 0 <= j < i ==> is_whitespace(#[trigger] s[j]),
    ensures
        trim_start(s) == trim_start(s.subrange(i, s.len() as int)),
    decreases i,
{
    if i > 0 {
        assert(s.drop_first().subrange(i - 1, s.drop_first().len() as int) =~= s.subrange(
            i,
            s.len() as int,
        ));
        lemma_trim_start_skip(s.drop_first(), i - 1);
    } else {
        assert(s.subrange(0, s.len() as int) =~= s);
    }
}

proof fn lemma_trim_end_skip(s: Seq<char>, k: int)
    requires
        0 <= k <= s.len(),
        forall|j: int| k <= j < s.len() ==> is_whitespace(#[trigger] s[j]),
    ensures
        trim_end(s) == trim_end(s.subrange(0, k)),
    decreases s.len() - k,
{
    if k < s.len() {
        assert(s.drop_last().subrange(0, k) =~= s.subrange(0, k));
        lemma_trim_end_skip(s.drop_last(), k);
    } else {
        assert(s.subrange(0, s.len() as int) =~= s);
    }
}

/// The characters of `s` without leading and trailing whitespace (`str::trim`).
pub fn trim_chars(s: &[char]) -> (r: Vec<char>)
    ensures
        r@ == trim(s@),
{
    let n = s.len();
    let mut i: usize = 0;
    while i < n && char_is_whitespace(s[i])
        invariant
            n == s@.len(),
            i <= n,
            forall|j: int| 0 <= j < i ==> is_whitespace(#[trigger] s@[j]),
        decreases n - i,
    {
        i = i + 1;
    }
    proof {
        lemma_trim_start_skip(s@, i as int);
    }
    let ghost t = s@.subrange(i as int, n as int);
    assert(trim_start(t) == t);
    let mut k: usize = n;
    while k > i && char_is_whitespace(s[k - 1])
        invariant
            n == s@.len(),
            i <= k <= n,
            forall|j: int| k <= j < n ==> is_whitespace(#[trigger] s@[j]),
        decreases k,
    {
        k = k - 1;
    }
    proof {
        assert forall|j: int| k - i <= j < t.len() implies is_whitespace(#[trigger] t[j]) by {
            assert(t[j] == s@[j + i]);
        }
        lemma_trim_end_skip(t, k - i);
        assert(t.subrange(0, k - i) =~= s@.subrange(i as int, k as int));
        let u = s@.subrange(i as int, k as int);
        if u.len() > 0 {
            assert(u.last() == s@[k - 1]);
        }
    }
    let mut r: Vec<char> = Vec::new();
    let mut m: usize = i;
    while m < k
        invariant
            n == s@.len(),
            i <= m <= k <= n,
            r@ == s@.subrange(i as int, m as int),
        decreases k - m,
    {
        r.push(s[m]);
        m = m + 1;
    }
    r
}

// ---------------------------------------------------------------------------------------------
// Prefixes, suffixes and splitting
// ---------------------------------------------------------------------------------------------

pub open spec fn is_prefix(p: Seq<char>, s: Seq<char>) -> bool {
    p.len() <= s.len() && s.subrange(0, p.len() as int) == p
}

pub open spec fn is_suffix(p: Seq<char>, s: Seq<char>) -> bool {
    p.len() <= s.len() && s.subrange(s.len() - p.len(), s.len() as int) == p
}

/// What `str::strip_prefix` gives.
pub open spec fn strip_prefix(s: Seq<char>, p: Seq<char>) -> Option<Seq<char>> {
    if is_prefix(p, s) {
        Some(s.subrange(p.len() as int, s.len() as int))
    } else {
        None
    }
}

/// What `str::strip_suffix` gives.
pub open spec fn strip_suffix(s: Seq<char>, p: Seq<char>) -> Option<Seq<char>> {
    if is_suffix(p, s) {
        Some(s.subrange(0, s.len() - p.len()))
    } else {
        None
    }
}

pub fn chars_starts_with(s: &[char], p: &[char]) -> (r: bool)
    ensures
        r == is_prefix(p@, s@),
{
    if p.len() > s.len() {
        return false;
    }
    let mut i: usize = 0;
    while i < p.len()
        invariant
            p@.len() <= s@.len(),
            i <= p@.len(),
            forall|j: int| 0 <= j < i ==> s@[j] == p@[j],
        decreases p@.len() - i,
    {
        if s[i] != p[i] {
            assert(s@.subrange(0, p@.len() as int)[i as int] != p@[i as int]);
            return false;
        }
        i = i + 1;
    }
    assert(s@.subrange(0, p@.len() as int) =~= p@);
    true
}

pub fn chars_ends_with(s: &[char], p: &[char]) -> (r: bool)
    ensures
        r == is_suffix(p@, s@),
{
    if p.len() > s.len() {
        return false;
    }
    let off = s.len() - p.len();
    let mut i: usize = 0;
    while i < p.len()
        invariant
            p@.len() <= s@.len(),
            off + p@.len() == s@.len(),
            s@.len() == s.len(),
            i <= p@.len(),
            forall|j: int| 0 <= j < i ==> s@[off + j] == p@[j],
        decreases p@.len() - i,
    {
        if s[off + i] != p[i] {
            assert(s@.subrange(off as int, s@.len() as int)[i as int] != p@[i as int]);
            return false;
        }
        i = i + 1;
    }
    assert(s@.subrange(off as int, s@.len() as int) =~= p@);
    true
}

/// The characters of `s` from index `from` up to (not including) `to`.
pub fn chars_slice(s: &[char], from: usize, to: usize) -> (r: Vec<char>)
    requires
        from <= to <= s@.len(),
    ensures
        r@ == s@.subrange(from as int, to as int),
{
    let mut r: Vec<char> = Vec::new();
    let mut m: usize = from;
    while m < to
        invariant
            from <= m <= to <= s@.len(),
            r@ == s@.subrange(from as int, m as int),
        decreases to - m,
    {
        r.push(s[m]);
        m = m + 1;
    }
    r
}

pub fn chars_strip_prefix(s: &[char], p: &[char]) -> (r: Option<Vec<char>>)
    ensures
        r matches Some(v) ==> strip_prefix(s@, p@) == Some(v@),
        r is None ==> strip_prefix(s@, p@) is None,
{
    if chars_starts_with(s, p) {
        Some(chars_slice(s, p.len(), s.len()))
    } else {
        None
    }
}

pub fn chars_strip_suffix(s: &[char], p: &[char]) -> (r: Option<Vec<char>>)
    ensures
        r matches Some(v) ==> strip_suffix(s@, p@) == Some(v@),
        r is None ==> strip_suffix(s@, p@) is None,
{
    if chars_ends_with(s, p) {
        Some(chars_slice(s, 0, s.len() - p.len()))
    } else {
        None
    }
}

/// The pieces that `str::split` with a single-character separator yields.
pub open spec fn split(s: Seq<char>, sep: char) -> Seq<Seq<char>>
    decreases s.len(),
{
    if s.len() == 0 {
        seq![Seq::<char>::empty()]
    } else {
        let rest = split(s.drop_first(), sep);
        if s[0] == sep {
            seq![Seq::<char>::empty()] + rest
        } else {
            rest.update(0, seq![s[0]] + rest[0])
        }
    }
}

pub proof fn lemma_split_nonempty(s: Seq<char>, sep: char)
    ensures
        split(s, sep).len() >= 1,
    decreases s.len(),
{
    if s.len() > 0 {
        lemma_split_nonempty(s.drop_first(), sep);
    }
}

pub open spec fn views(v: Seq<Vec<char>>) -> Seq<Seq<char>> {
    v.map_values(|p: Vec<char>| p@)
}

/// Splits `s` at every occurrence of `sep` (`str::split`).
pub fn split_chars(s: &[char], sep: char) -> (r: Vec<Vec<char>>)
    ensures
        views(r@) == split(s@, sep),
{
    let n = s.len();
    let mut pieces: Vec<Vec<char>> = Vec::new();
    pieces.push(Vec::new());
    let mut i: usize = n;
    assert(s@.subrange(n as int, n as int) =~= Seq::<char>::empty());
    assert(views(pieces@) =~= split(s@.subrange(n as int, n as int), sep));
    while i > 0
        invariant
            n == s@.len(),
            i <= n,
            pieces@.len() >= 1,
            views(pieces@) == split(s@.subrange(i as int, n as int), sep),
        decreases i,
    {
        let c = s[i - 1];
        let ghost old_pieces = pieces@;
        let ghost sub = s@.subrange(i - 1, n as int);
        assert(sub.drop_first() =~= s@.subrange(i as int, n as int));
        assert(sub[0] == c);
        if c == sep {
            pieces.insert(0, Vec::new());
            assert(views(pieces@) =~= seq![Seq::<char>::empty()] + views(old_pieces));
        } else {
            let mut first: Vec<char> = Vec::new();
            first.push(c);
            let mut j: usize = 0;
            while j < pieces[0].len()
                invariant
                    pieces@ == old_pieces,
                    pieces@.len() >= 1,
                    j <= pieces@[0]@.len(),
                    first@ == seq![c] + pieces@[0]@.subrange(0, j as int),
                decreases pieces@[0]@.len() - j,
            {
                first.push(pieces[0][j]);
                j = j + 1;
            }
            assert(pieces@[0]@.subrange(0, j as int) =~= pieces@[0]@);
            pieces.set(0, first);
            assert(views(pieces@) =~= views(old_pieces).update(0, seq![c] + views(old_pieces)[0]));
        }
        i = i - 1;
    }
    assert(s@.subrange(0, n as int) =~= s@);
    pieces
}

/// The first index at which `sep` occurs in `s`, if any.
pub open spec fn first_index_of(s: Seq<char>, sep: char) -> Option<int> {
    if exists|i: int| 0 <= i < s.len() && s[i] == sep {
        Some(choose|i: int| 0 <= i < s.len() && s[i] == sep && forall|j: int| 0 <= j < i ==> s[j] != sep)
    } else {
        None
    }
}

/// What `str::split_once` with a single-character separator gives.
pub open spec fn split_once(s: Seq<char>, sep: char) -> Option<(Seq<char>, Seq<char>)> {
    match first_index_of(s, sep) {
        Some(i) => Some((s.subrange(0, i), s.subrange(i + 1, s.len() as int))),
        None => None,
    }
}

pub fn chars_find(s: &[char], sep: char) -> (r: Option<usize>)
    ensures
        r matches Some(i) ==> i < s.len() && first_index_of(s@, sep) == Some(i as int),
        r is None ==> first_index_of(s@, sep) is None,
{
    let mut i: usize = 0;
    while i < s.len()
        invariant
            i <= s@.len(),
            forall|j: int| 0 <= j < i ==> s@[j] != sep,
        decreases s@.len() - i,
    {
        if s[i] == sep {
            proof {
                assert(0 <= i < s@.len() && s@[i as int] == sep);
                let k = choose|k: int|
                    0 <= k < s@.len() && s@[k] == sep && forall|j: int| 0 <= j < k ==> s@[j] != sep;
                assert(k == i) by {
                    if k < i {
                    } else if k > i {
                        assert(s@[i as int] != sep);
                    }
                }
            }
            return Some(i);
        }
        i = i + 1;
    }
    None
}

pub fn chars_split_once(s: &[char], sep: char) -> (r: Option<(Vec<char>, Vec<char>)>)
    ensures
        r matches Some(p) ==> split_once(s@, sep) == Some((p.0@, p.1@)),
        r is None ==> split_once(s@, sep) is None,
{
    match chars_find(s, sep) {
        Some(i) => Some((chars_slice(s, 0, i), chars_slice(s, i + 1, s.len()))),
        None => None,
    }
}

} // verus!

verus! {

pub open spec fn lacks(s: Seq<char>, c: char) -> bool {
    forall|i: int| 0 <= i < s.len() ==> #[trigger] s[i] != c
}

/// Splitting a string without the separator yields the string itself.
pub proof fn lemma_split_without_sep(a: Seq<char>, sep: char)
    requires
        lacks(a, sep),
    ensures
        split(a, sep) == seq![a],
    decreases a.len(),
{
    if a.len() > 0 {
        lemma_split_without_sep(a.drop_first(), sep);
        assert(seq![a[0]] + a.drop_first() =~= a);
        assert(split(a, sep) =~= seq![a]);
    } else {
        assert(a =~= Seq::<char>::empty());
    }
}

/// Splitting at the first separator.
pub proof fn lemma_split_at_sep(a: Seq<char>, sep: char, b: Seq<char>)
    requires
        lacks(a, sep),
    ensures
        split(a + seq![sep] + b, sep) == seq![a] + split(b, sep),
    decreases a.len(),
{
    let s = a + seq![sep] + b;
    if a.len() == 0 {
        assert(s.drop_first() =~= b);
        assert(a =~= Seq::<char>::empty());
    } else {
        lemma_split_at_sep(a.drop_first(), sep, b);
        assert(s.drop_first() =~= a.drop_first() + seq![sep] + b);
        lemma_split_nonempty(b, sep);
        assert(seq![a[0]] + a.drop_first() =~= a);
        assert(split(s, sep) =~= seq![a] + split(b, sep));
    }
}

/// `split_once` at the first separator.
pub proof fn lemma_split_once_at(a: Seq<char>, sep: char, b: Seq<char>)
    requires
        lacks(a, sep),
    ensures
        split_once(a + seq![sep] + b, sep) == Some((a, b)),
{
    let s = a + seq![sep] + b;
    assert(s[a.len() as int] == sep);
    assert(0 <= a.len() < s.len());
    let i = choose|i: int| 0 <= i < s.len() && s[i] == sep && forall|j: int| 0 <= j < i ==> s[j] != sep;
    assert(i == a.len()) by {
        if i < a.len() {
            assert(s[i] == a[i]);
        } else if i > a.len() {
            assert(s[a.len() as int] != sep);
        }
    }
    assert(s.subrange(0, a.len() as int) =~= a);
    assert(s.subrange(a.len() as int + 1, s.len() as int) =~= b);
}

/// Lowercasing an ASCII string yields an ASCII string.
pub proof fn lemma_ascii_lowercase_len(s: Seq<char>)
    ensures
        ascii_lowercase(s).len() == s.len(),
{
}

pub proof fn lemma_ascii_lowercase_of_lower(s: Seq<char>)
    requires
        forall|i: int| 0 <= i < s.len() ==> !is_ascii_upper(#[trigger] s[i]),
    ensures
        ascii_lowercase(s) == s,
{
    assert(ascii_lowercase(s) =~= s);
}

} // verus!

verus! {

/// The pieces that `split_once` yields from an ASCII string are ASCII.
pub proof fn lemma_split_once_ascii(s: Seq<char>, sep: char)
    ensures
        all_ascii(s) ==> (split_once(s, sep) matches Some((a, b)) ==> all_ascii(a) && all_ascii(b)),
{
    if all_ascii(s) && exists|i: int| 0 <= i < s.len() && s[i] == sep {
        let i = choose|i: int|
            0 <= i < s.len() && s[i] == sep && forall|j: int| 0 <= j < i ==> s[j] != sep;
        lemma_first_index_exists(s, sep);
        let a = s.subrange(0, i);
        let b = s.subrange(i + 1, s.len() as int);
        assert(split_once(s, sep) == Some((a, b)));
        assert forall|j: int| 0 <= j < a.len() implies is_ascii_char(#[trigger] a[j]) by {
            assert(a[j] == s[j]);
        }
        assert forall|j: int| 0 <= j < b.len() implies is_ascii_char(#[trigger] b[j]) by {
            assert(b[j] == s[j + i + 1]);
        }
    }
}

/// When the separator occurs, `first_index_of` finds its first occurrence.
pub proof fn lemma_first_index_exists(s: Seq<char>, sep: char)
    requires
        exists|i: int| 0 <= i < s.len() && s[i] == sep,
    ensures
        exists|i: int| 0 <= i < s.len() && s[i] == sep && forall|j: int| 0 <= j < i ==> s[j] != sep,
{
    let k = choose|i: int| 0 <= i < s.len() && s[i] == sep;
    lemma_first_index_below(s, sep, k);
}

proof fn lemma_first_index_below(s: Seq<char>, sep: char, k: int)
    requires
        0 <= k < s.len(),
        s[k] == sep,
    ensures
        exists|i: int| 0 <= i < s.len() && s[i] == sep && forall|j: int| 0 <= j < i ==> s[j] != sep,
    decreases k,
{
    if exists|j: int| 0 <= j < k && s[j] == sep {
        let j = choose|j: int| 0 <= j < k && s[j] == sep;
        lemma_first_index_below(s, sep, j);
    } else {
        assert(forall|j: int| 0 <= j < k ==> s[j] != sep);
    }
}

} // verus!

verus! {

pub proof fn lemma_strip_prefix_concat(p: Seq<char>, x: Seq<char>)
    ensures
        strip_prefix(p + x, p) == Some(x),
{
    assert((p + x).subrange(0, p.len() as int) =~= p);
    assert((p + x).subrange(p.len() as int, (p + x).len() as int) =~= x);
}

pub proof fn lemma_strip_suffix_concat(x: Seq<char>, q: Seq<char>)
    ensures
        strip_suffix(x + q, q) == Some(x),
{
    let s = x + q;
    assert(s.subrange(s.len() - q.len(), s.len() as int) =~= q);
    assert(s.subrange(0, s.len() - q.len()) =~= x);
}

/// A string with no whitespace at either end is its own trim.
pub proof fn lemma_trim_noop(s: Seq<char>)
    requires
        s.len() > 0,
        !is_whitespace(s[0]),
        !is_whitespace(s.last()),
    ensures
        trim(s) == s,
{
}

/// Trimming a string that starts with one space and has no whitespace at the ends otherwise.
pub proof fn lemma_trim_leading_space(x: Seq<char>)
    requires
        x.len() > 0,
        !is_whitespace(x[0]),
        !is_whitespace(x.last()),
    ensures
        trim(seq![' '] + x) == x,
{
    let s = seq![' '] + x;
    assert(s.drop_first() =~= x);
    assert(is_whitespace(s[0]));
    assert(trim_start(s) == trim_start(x));
}

/// Equal strings are equal ignoring ASCII case.
pub proof fn lemma_eq_ignore_case_refl(s: Seq<char>)
    ensures
        eq_ignore_ascii_case(s, s),
{
}

} // verus!

verus! {

/// `split` turns a separator-joined concatenation into the concatenation of the splits.
pub proof fn lemma_split_concat_sep(a: Seq<char>, sep: char, b: Seq<char>)
    ensures
        split(a + seq![sep] + b, sep) == split(a, sep) + split(b, sep),
    decreases a.len(),
{
    let s = a + seq![sep] + b;
    if a.len() == 0 {
        assert(s.drop_first() =~= b);
        assert(a =~= Seq::<char>::empty());
        assert(split(a, sep) =~= seq![Seq::<char>::empty()]);
        assert(split(s, sep) =~= split(a, sep) + split(b, sep));
    } else {
        lemma_split_concat_sep(a.drop_first(), sep, b);
        assert(s.drop_first() =~= a.drop_first() + seq![sep] + b);
        lemma_split_nonempty(a.drop_first(), sep);
        lemma_split_nonempty(b, sep);
        let ra = split(a.drop_first(), sep);
        let rb = split(b, sep);
        if a[0] == sep {
            assert(split(s, sep) =~= split(a, sep) + rb);
        } else {
            assert((ra + rb)[0] == ra[0]);
            assert((ra + rb).update(0, seq![a[0]] + ra[0]) =~= ra.update(0, seq![a[0]] + ra[0])
                + rb);
        }
    }
}

/// Every piece of an ASCII string's split is ASCII.
pub proof fn lemma_split_ascii(s: Seq<char>, sep: char)
    requires
        all_ascii(s),
    ensures
        forall|i: int| 0 <= i < split(s, sep).len() ==> all_ascii(#[trigger] split(s, sep)[i]),
    decreases s.len(),
{
    if s.len() > 0 {
        let t = s.drop_first();
        assert(all_ascii(t)) by {
            assert forall|j: int| 0 <= j < t.len() implies is_ascii_char(#[trigger] t[j]) by {
                assert(t[j] == s[j + 1]);
            }
        }
        lemma_split_ascii(t, sep);
        lemma_split_nonempty(t, sep);
        let rest = split(t, sep);
        if s[0] != sep {
            let first = seq![s[0]] + rest[0];
            assert(all_ascii(rest[0]));
            assert(all_ascii(first)) by {
                assert forall|j: int| 0 <= j < first.len() implies is_ascii_char(#[trigger] first[j]) by {
                    if j > 0 {
                        assert(first[j] == rest[0][j - 1]);
                    }
                }
            }
            assert forall|i: int| 0 <= i < split(s, sep).len() implies all_ascii(
                #[trigger] split(s, sep)[i],
            ) by {
                if i > 0 {
                    assert(split(s, sep)[i] == rest[i]);
                }
            }
        } else {
            assert forall|i: int| 0 <= i < split(s, sep).len() implies all_ascii(
                #[trigger] split(s, sep)[i],
            ) by {
                if i > 0 {
                    assert(split(s, sep)[i] == rest[i - 1]);
                } else {
                    assert(split(s, sep)[0] =~= Seq::<char>::empty());
                }
            }
        }
    }
}

proof fn lemma_trim_start_ascii(s: Seq<char>)
    requires
        all_ascii(s),
    ensures
        all_ascii(trim_start(s)),
    decreases s.len(),
{
    if s.len() > 0 && is_whitespace(s[0]) {
        let t = s.drop_first();
        assert forall|j: int| 0 <= j < t.len() implies is_ascii_char(#[trigger] t[j]) by {
            assert(t[j] == s[j + 1]);
        }
        lemma_trim_start_ascii(t);
    }
}

proof fn lemma_trim_end_ascii(s: Seq<char>)
    requires
        all_ascii(s),
    ensures
        all_ascii(trim_end(s)),
    decreases s.len(),
{
    if s.len() > 0 && is_whitespace(s.last()) {
        let t = s.drop_last();
        assert forall|j: int| 0 <= j < t.len() implies is_ascii_char(#[trigger] t[j]) by {
            assert(t[j] == s[j]);
        }
        lemma_trim_end_ascii(t);
    }
}

/// Trimming an ASCII string gives an ASCII string.
pub proof fn lemma_trim_ascii(s: Seq<char>)
    requires
        all_ascii(s),
    ensures
        all_ascii(trim(s)),
{
    lemma_trim_start_ascii(s);
    lemma_trim_end_ascii(trim_start(s));
}

} // verus!
