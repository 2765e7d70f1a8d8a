//! Text handling shared by the command modules.
//!
//! Strings are modelled by their `Seq<char>` views. Executable helpers work
//! on `Vec<char>` and are specified by the spec functions of this module,
//! which follow the behaviour of the corresponding `str` methods of std.
use vstd::prelude::*;

verus! {

// ───────────────────────── character classes ─────────────────────────

/// Whether a character has the Unicode `White_Space` property: the code
/// points that the Unicode character database lists for it.
pub open spec fn white_space(c: char) -> bool {
    let u = c as u32;
    ||| 0x09 <= u && u <= 0x0D
    ||| u == 0x20
    ||| u == 0x85
    ||| u == 0xA0
    ||| u == 0x1680
    ||| 0x2000 <= u && u <= 0x200A
    ||| u == 0x2028
    ||| u == 0x2029
    ||| u == 0x202F
    ||| u == 0x205F
    ||| u == 0x3000
}

/// Whether a character outside ASCII has the Unicode `Uppercase` property.
pub uninterp spec fn uppercase_prop(c: char) -> bool;

/// Whether a character has the Unicode `Uppercase` property: among the
/// ASCII characters exactly `'A'..='Z'`, beyond them the Unicode table.
pub open spec fn is_upper(c: char) -> bool {
    if (c as u32) < 0x80 {
        'A' <= c && c <= 'Z'
    } else {
        uppercase_prop(c)
    }
}

/// Whether a character outside ASCII is alphabetic or numeric in the
/// Unicode sense.
pub uninterp spec fn alphanumeric_prop(c: char) -> bool;

/// Whether a character is alphabetic or numeric: among the ASCII characters
/// exactly the digits and the letters, beyond them the Unicode tables.
pub open spec fn is_alnum(c: char) -> bool {
    if (c as u32) < 0x80 {
        ('0' <= c && c <= '9') || ('A' <= c && c <= 'Z') || ('a' <= c && c <= 'z')
    } else {
        alphanumeric_prop(c)
    }
}

/// Whether a character has the `White_Space` property, as
/// `char::is_whitespace` answers it.
pub fn is_whitespace(c: char) -> (b: bool)
    ensures
        b == white_space(c),
{
    let u = c as u32;
    (0x09 <= u && u <= 0x0D) || u == 0x20 || u == 0x85 || u == 0xA0 || u == 0x1680 || (0x2000 <= u
        && u <= 0x200A) || u == 0x2028 || u == 0x2029 || u == 0x202F || u == 0x205F || u == 0x3000
}

/// `char::is_uppercase`: the result is the `Uppercase` property of `c`.
/// Among the ASCII characters that property holds of the capitals
/// `'A'..='Z'` alone; beyond ASCII the Unicode table is not restated.
#[verifier::external_body]
pub(crate) fn is_uppercase(c: char) -> (b: bool)
    ensures
        (c as u32) < 0x80 ==> (b <==> ('A' <= c && c <= 'Z')),
        (c as u32) >= 0x80 ==> (b == uppercase_prop(c)),
{
    c.is_uppercase()
}

/// `char::is_alphanumeric`: the result is the alphanumeric property of `c`.
/// Among the ASCII characters that property holds of the digits and the
/// letters alone; beyond ASCII the Unicode tables are not restated.
#[verifier::external_body]
pub(crate) fn is_alphanumeric(c: char) -> (b: bool)
    ensures
        (c as u32) < 0x80 ==> (b <==> (('0' <= c && c <= '9') || ('A' <= c && c <= 'Z') || ('a' <= c
            && c <= 'z'))),
        (c as u32) >= 0x80 ==> (b == alphanumeric_prop(c)),
{
    c.is_alphanumeric()
}

/// The ASCII lower-case form of a character: `'A'..='Z'` move to
/// `'a'..='z'`, everything else stays.
pub open spec fn ascii_lower(c: char) -> char {
    if 'A' <= c && c <= 'Z' {
        ((c as u32) + 32) as char
    } else {
        c
    }
}

/// The ASCII upper-case form of a character.
pub open spec fn ascii_upper(c: char) -> char {
    if 'a' <= c && c <= 'z' {
        ((c as u32) - 32) as char
    } else {
        c
    }
}

/// The ASCII lower-case form of a character, as `char::to_ascii_lowercase`
/// gives it.
pub fn to_ascii_lowercase(c: char) -> (r: char)
    ensures
        r == ascii_lower(c),
{
    if 'A' <= c && c <= 'Z' {
        let b: u8 = (c as u8) + 32;
        b as char
    } else {
        c
    }
}

/// The ASCII upper-case form of a character, as `char::to_ascii_uppercase`
/// gives it.
pub fn to_ascii_uppercase(c: char) -> (r: char)
    ensures
        r == ascii_upper(c),
{
    if 'a' <= c && c <= 'z' {
        let b: u8 = (c as u8) - 32;
        b as char
    } else {
        c
    }
}

/// The full Unicode lower-case mapping of a string that holds a character
/// beyond ASCII.
pub uninterp spec fn unicode_lowercase(s: Seq<char>) -> Seq<char>;

/// The full Unicode upper-case mapping of a string that holds a character
/// beyond ASCII.
pub uninterp spec fn unicode_uppercase(s: Seq<char>) -> Seq<char>;

/// Whether every character of a string is ASCII.
pub open spec fn is_ascii_text(s: Seq<char>) -> bool {
    forall|i: int| 0 <= i < s.len() ==> (#[trigger] s[i] as u32) < 0x80
}

/// The lower-case form of a string, as `str::to_lowercase` gives it: on
/// ASCII text each capital becomes its small letter, beyond ASCII the
/// Unicode mapping.
pub open spec fn lowercase(s: Seq<char>) -> Seq<char> {
    if is_ascii_text(s) {
        s.map_values(|c: char| ascii_lower(c))
    } else {
        unicode_lowercase(s)
    }
}

/// The upper-case form of a string, as `str::to_uppercase` gives it: on
/// ASCII text each small letter becomes its capital, beyond ASCII the
/// Unicode mapping.
pub open spec fn uppercase(s: Seq<char>) -> Seq<char> {
    if is_ascii_text(s) {
        s.map_values(|c: char| ascii_upper(c))
    } else {
        unicode_uppercase(s)
    }
}

/// `str::to_lowercase`: the Unicode lower-case mapping of the argument. On
/// ASCII text that mapping takes `'A'..='Z'` to `'a'..='z'` and keeps every
/// other character; beyond ASCII the mapping tables are not restated.
#[verifier::external_body]
pub(crate) fn to_lowercase(s: &str) -> (r: String)
    ensures
        is_ascii_text(s@) ==> r@ == s@.map_values(|c: char| ascii_lower(c)),
        !is_ascii_text(s@) ==> r@ == unicode_lowercase(s@),
{
    s.to_lowercase()
}

/// `str::to_uppercase`: the Unicode upper-case mapping of the argument. On
/// ASCII text that mapping takes `'a'..='z'` to `'A'..='Z'` and keeps every
/// other character; beyond ASCII the mapping tables are not restated.
#[verifier::external_body]
pub(crate) fn to_uppercase(s: &str) -> (r: String)
    ensures
        is_ascii_text(s@) ==> r@ == s@.map_values(|c: char| ascii_upper(c)),
        !is_ascii_text(s@) ==> r@ == unicode_uppercase(s@),
{
    s.to_uppercase()
}

/// `String::push`: appends one character.
#[verifier::external_body]
pub(crate) fn push_char(s: &mut String, c: char)
    ensures
        final(s)@ == old(s)@.push(c),
{
    s.push(c)
}

// ───────────────────────── conversions ─────────────────────────

/// The characters of a string slice, in order.
pub fn chars_of(s: &str) -> (v: Vec<char>)
    ensures
        v@ == s@,
{
    let mut v: Vec<char> = Vec::new();
    for c in it: s.chars()
        invariant
            v@ == it.seq().take(it.index() as int),
            it.seq() == s@,
    {
        v.push(c);
    }
    v
}

/// A `String` holding the given characters.
pub fn string_of(v: &Vec<char>) -> (s: String)
    ensures
        s@ == v@,
{
    let mut s = String::new();
    let mut i: usize = 0;
    while i < v.len()
        invariant
            i <= v.len(),
            s@ == v@.take(i as int),
        decreases v.len() - i,
    {
        push_char(&mut s, v[i]);
        assert(v@.take(i as int + 1) == v@.take(i as int).push(v@[i as int]));
        i += 1;
    }
    assert(v@.take(v.len() as int) == v@);
    s
}

/// Appends the characters of `other` to `v`.
pub fn extend(v: &mut Vec<char>, other: &Vec<char>)
    ensures
        final(v)@ == old(v)@ + other@,
{
    let mut i: usize = 0;
    while i < other.len()
        invariant
            i <= other.len(),
            v@ == old(v)@ + other@.take(i as int),
        decreases other.len() - i,
    {
        v.push(other[i]);
        assert(other@.take(i as int + 1) == other@.take(i as int).push(other@[i as int]));
        i += 1;
    }
    assert(other@.take(other.len() as int) == other@);
}

/// Appends the characters of a string slice to `v`.
pub fn extend_str(v: &mut Vec<char>, s: &str)
    ensures
        final(v)@ == old(v)@ + s@,
{
    let cs = chars_of(s);
    extend(v, &cs);
}

/// The characters `s[from..to]`.
pub fn slice(s: &Vec<char>, from: usize, to: usize) -> (r: Vec<char>)
    requires
        from <= to <= s.len(),
    ensures
        r@ == s@.subrange(from as int, to as int),
{
    let mut r: Vec<char> = Vec::new();
    let mut i: usize = from;
    while i < to
        invariant
            from <= i <= to <= s.len(),
            r@ == s@.subrange(from as int, i as int),
        decreases to - i,
    {
        r.push(s[i]);
        assert(s@.subrange(from as int, i as int + 1) == s@.subrange(from as int, i as int).push(
            s@[i as int],
        ));
        i += 1;
    }
    r
}

/// Whether two strings hold the same characters.
pub fn str_eq(a: &str, b: &str) -> (r: bool)
    ensures
        r == (a@ == b@),
{
    let x = chars_of(a);
    let y = chars_of(b);
    seq_eq(&x, &y)
}

/// Whether two character vectors are equal.
pub fn seq_eq(x: &Vec<char>, y: &Vec<char>) -> (r: bool)
    ensures
        r == (x@ == y@),
{
    if x.len() != y.len() {
        return false;
    }
    let mut i: usize = 0;
    while i < x.len()
        invariant
            x.len() == y.len(),
            i <= x.len(),
            forall|j: int| 0 <= j < i ==> x@[j] == y@[j],
        decreases x.len() - i,
    {
        if x[i] != y[i] {
            return false;
        }
        i += 1;
    }
    assert(x@ =~= y@);
    true
}

// ───────────────────────── searching ─────────────────────────

/// `p` occurs in `s` at position `i`.
pub open spec fn occurs_at(s: Seq<char>, p: Seq<char>, i: int) -> bool {
    0 <= i && i + p.len() <= s.len() && s.subrange(i, i + p.len()) == p
}

/// The first position at or after `i` where `p` occurs in `s`.
pub open spec fn find_from(s: Seq<char>, p: Seq<char>, i: int) -> Option<int>
    decreases s.len() + 1 - i,
{
    if i < 0 || i + p.len() > s.len() {
        None
    } else if occurs_at(s, p, i) {
        Some(i)
    } else {
        find_from(s, p, i + 1)
    }
}

/// `str::find` with a string pattern: the first position of `p` in `s`.
pub open spec fn find(s: Seq<char>, p: Seq<char>) -> Option<int> {
    find_from(s, p, 0)
}

/// `str::contains` with a string pattern.
pub open spec fn contains(s: Seq<char>, p: Seq<char>) -> bool {
    find(s, p) is Some
}

/// `str::starts_with` with a string pattern.
pub open spec fn starts_with(s: Seq<char>, p: Seq<char>) -> bool {
    p.len() <= s.len() && s.subrange(0, p.len() as int) == p
}

/// `str::ends_with` with a string pattern.
pub open spec fn ends_with(s: Seq<char>, p: Seq<char>) -> bool {
    p.len() <= s.len() && s.subrange(s.len() - p.len(), s.len() as int) == p
}

/// What `find_from` returns: the first occurrence at or after `i`.
pub proof fn lemma_find_from(s: Seq<char>, p: Seq<char>, i: int)
    requires
        0 <= i,
    ensures
        find_from(s, p, i) matches Some(k) ==> {
            &&& i <= k
            &&& occurs_at(s, p, k)
            &&& forall|j: int| i <= j < k ==> !occurs_at(s, p, j)
        },
        find_from(s, p, i) is None ==> forall|j: int| i <= j ==> !occurs_at(s, p, j),
    decreases s.len() + 1 - i,
{
    if i < 0 || i + p.len() > s.len() {
    } else if occurs_at(s, p, i) {
    } else {
        lemma_find_from(s, p, i + 1);
    }
}

/// Whether `p` occurs at position `i` of `s`.
pub fn occurs_at_exec(s: &Vec<char>, p: &Vec<char>, i: usize) -> (r: bool)
    ensures
        r == occurs_at(s@, p@, i as int),
{
    if i > s.len() || p.len() > s.len() - i {
        return false;
    }
    let mut j: usize = 0;
    while j < p.len()
        invariant
            i + p.len() <= s.len(),
            j <= p.len(),
            forall|t: int| 0 <= t < j ==> s@[i + t] == p@[t],
        decreases p.len() - j,
    {
        if s[i + j] != p[j] {
            assert(s@.subrange(i as int, i + p.len())[j as int] != p@[j as int]);
            return false;
        }
        j += 1;
    }
    assert(s@.subrange(i as int, i + p.len()) =~= p@);
    true
}

/// `str::find` from position `from`: the first occurrence of `p` at or
/// after `from`.
pub fn find_at(s: &Vec<char>, p: &Vec<char>, from: usize) -> (r: Option<usize>)
    ensures
        match r {
            Some(k) => find_from(s@, p@, from as int) == Some(k as int),
            None => find_from(s@, p@, from as int) is None,
        },
{
    if from > s.len() || p.len() > s.len() - from {
        return None;
    }
    let mut i: usize = from;
    while i <= s.len() && p.len() <= s.len() - i
        invariant
            from <= i,
            find_from(s@, p@, from as int) == find_from(s@, p@, i as int),
        decreases s.len() + 1 - i,
    {
        if occurs_at_exec(s, p, i) {
            return Some(i);
        }
        assert(i < s.len()) by {
            if i == s.len() {
                assert(s@.subrange(i as int, i as int) =~= p@);
            }
        }
        i += 1;
    }
    None
}

/// `str::find`: the first occurrence of `p` in `s`.
pub fn find_exec(s: &Vec<char>, p: &Vec<char>) -> (r: Option<usize>)
    ensures
        match r {
            Some(k) => find(s@, p@) == Some(k as int),
            None => find(s@, p@) is None,
        },
{
    find_at(s, p, 0)
}

/// `str::contains`.
pub fn contains_exec(s: &Vec<char>, p: &Vec<char>) -> (r: bool)
    ensures
        r == contains(s@, p@),
{
    find_at(s, p, 0).is_some()
}

/// `str::starts_with`.
pub fn starts_with_exec(s: &Vec<char>, p: &Vec<char>) -> (r: bool)
    ensures
        r == starts_with(s@, p@),
{
    occurs_at_exec(s, p, 0)
}

/// `str::ends_with`.
pub fn ends_with_exec(s: &Vec<char>, p: &Vec<char>) -> (r: bool)
    ensures
        r == ends_with(s@, p@),
{
    if p.len() > s.len() {
        return false;
    }
    occurs_at_exec(s, p, s.len() - p.len())
}


// ───────────────────────── whitespace ─────────────────────────

/// The first position at or after `i` that does not hold white space.
pub open spec fn skip_ws(s: Seq<char>, i: int) -> int
    decreases s.len() - i,
{
    if 0 <= i < s.len() && white_space(s[i]) {
        skip_ws(s, i + 1)
    } else {
        i
    }
}

/// The position just after the last character before `j` that is not
/// white space (0 if there is none).
pub open spec fn rskip_ws(s: Seq<char>, j: int) -> int
    decreases j,
{
    if 0 < j <= s.len() && white_space(s[j - 1]) {
        rskip_ws(s, j - 1)
    } else {
        j
    }
}

/// `str::trim_start`.
pub open spec fn trim_start(s: Seq<char>) -> Seq<char> {
    s.subrange(skip_ws(s, 0), s.len() as int)
}

/// `str::trim_end`.
pub open spec fn trim_end(s: Seq<char>) -> Seq<char> {
    s.subrange(0, rskip_ws(s, s.len() as int))
}

/// `str::trim`.
pub open spec fn trim(s: Seq<char>) -> Seq<char> {
    trim_end(trim_start(s))
}

pub proof fn lemma_skip_ws(s: Seq<char>, i: int)
    requires
        0 <= i <= s.len(),
    ensures
        i <= skip_ws(s, i) <= s.len(),
        forall|k: int| i <= k < skip_ws(s, i) ==> white_space(s[k]),
        skip_ws(s, i) < s.len() ==> !white_space(s[skip_ws(s, i)]),
    decreases s.len() - i,
{
    if 0 <= i < s.len() && white_space(s[i]) {
        lemma_skip_ws(s, i + 1);
    }
}

pub proof fn lemma_rskip_ws(s: Seq<char>, j: int)
    requires
        0 <= j <= s.len(),
    ensures
        0 <= rskip_ws(s, j) <= j,
        forall|k: int| rskip_ws(s, j) <= k < j ==> white_space(s[k]),
        rskip_ws(s, j) > 0 ==> !white_space(s[rskip_ws(s, j) - 1]),
    decreases j,
{
    if 0 < j <= s.len() && white_space(s[j - 1]) {
        lemma_rskip_ws(s, j - 1);
    }
}

/// The first position at or after `i` that holds no white space.
pub fn skip_ws_exec(s: &Vec<char>, i: usize) -> (r: usize)
    requires
        i <= s.len(),
    ensures
        r == skip_ws(s@, i as int),
        i <= r <= s.len(),
{
    proof {
        lemma_skip_ws(s@, i as int);
    }
    let mut k = i;
    while k < s.len() && is_whitespace(s[k])
        invariant
            i <= k <= s.len(),
            skip_ws(s@, i as int) == skip_ws(s@, k as int),
        decreases s.len() - k,
    {
        k += 1;
    }
    k
}

/// `str::trim_start`.
pub fn trim_start_exec(s: &Vec<char>) -> (r: Vec<char>)
    ensures
        r@ == trim_start(s@),
{
    let a = skip_ws_exec(s, 0);
    slice(s, a, s.len())
}

/// `str::trim_end`.
pub fn trim_end_exec(s: &Vec<char>) -> (r: Vec<char>)
    ensures
        r@ == trim_end(s@),
{
    let mut j = s.len();
    while j > 0 && is_whitespace(s[j - 1])
        invariant
            j <= s.len(),
            rskip_ws(s@, s.len() as int) == rskip_ws(s@, j as int),
        decreases j,
    {
        j -= 1;
    }
    slice(s, 0, j)
}

/// `str::trim`.
pub fn trim_exec(s: &Vec<char>) -> (r: Vec<char>)
    ensures
        r@ == trim(s@),
{
    let t = trim_start_exec(s);
    trim_end_exec(&t)
}

// ───────────────────────── words ─────────────────────────

/// The first position at or after `i` that holds white space (or the end).
pub open spec fn word_end(s: Seq<char>, i: int) -> int
    decreases s.len() - i,
{
    if 0 <= i < s.len() && !white_space(s[i]) {
        word_end(s, i + 1)
    } else {
        i
    }
}

pub proof fn lemma_word_end(s: Seq<char>, i: int)
    requires
        0 <= i <= s.len(),
    ensures
        i <= word_end(s, i) <= s.len(),
        forall|k: int| i <= k < word_end(s, i) ==> !white_space(s[k]),
        word_end(s, i) < s.len() ==> white_space(s[word_end(s, i)]),
        i < s.len() && !white_space(s[i]) ==> i < word_end(s, i),
    decreases s.len() - i,
{
    if 0 <= i < s.len() && !white_space(s[i]) {
        lemma_word_end(s, i + 1);
    }
}

/// The white-space separated words of `s` from position `i` on.
pub open spec fn words_from(s: Seq<char>, i: int) -> Seq<Seq<char>>
    decreases s.len() - i,
{
    if 0 <= i <= s.len() {
        let a = skip_ws(s, i);
        if a >= s.len() {
            seq![]
        } else {
            let b = word_end(s, a);
            proof {
                lemma_skip_ws(s, i);
                lemma_word_end(s, a);
            }
            seq![s.subrange(a, b)] + words_from(s, b)
        }
    } else {
        seq![]
    }
}

/// `str::split_whitespace`, as a sequence of words.
pub open spec fn split_whitespace(s: Seq<char>) -> Seq<Seq<char>> {
    words_from(s, 0)
}

/// The first white-space separated word of `s` from position `i` on, with
/// the position just after it.
pub fn next_word(s: &Vec<char>, i: usize) -> (r: Option<(Vec<char>, usize)>)
    requires
        i <= s.len(),
    ensures
        match r {
            None => words_from(s@, i as int) == Seq::<Seq<char>>::empty(),
            Some((w, e)) => {
                &&& i < e <= s.len()
                &&& words_from(s@, i as int) == seq![w@] + words_from(s@, e as int)
            },
        },
{
    let a = skip_ws_exec(s, i);
    if a >= s.len() {
        return None;
    }
    proof {
        lemma_skip_ws(s@, i as int);
        lemma_word_end(s@, a as int);
    }
    let mut b = a;
    while b < s.len() && !is_whitespace(s[b])
        invariant
            a <= b <= s.len(),
            word_end(s@, a as int) == word_end(s@, b as int),
        decreases s.len() - b,
    {
        b += 1;
    }
    let w = slice(s, a, b);
    Some((w, b))
}

/// The views of a sequence of character vectors.
pub open spec fn views(v: Seq<Vec<char>>) -> Seq<Seq<char>> {
    Seq::new(v.len(), |i: int| v[i]@)
}

/// `str::split_whitespace`, collected.
pub fn split_whitespace_exec(s: &Vec<char>) -> (r: Vec<Vec<char>>)
    ensures
        views(r@) == split_whitespace(s@),
{
    let mut r: Vec<Vec<char>> = Vec::new();
    let mut i: usize = 0;
    loop
        invariant
            i <= s.len(),
            views(r@) + words_from(s@, i as int) == split_whitespace(s@),
        decreases s.len() - i,
    {
        match next_word(s, i) {
            None => {
                assert(views(r@) + Seq::<Seq<char>>::empty() =~= views(r@));
                return r;
            },
            Some((w, e)) => {
                let ghost old_r = views(r@);
                r.push(w);
                assert(views(r@) =~= old_r.push(w@));
                assert(views(r@) + words_from(s@, e as int) =~= old_r + (seq![w@]
                    + words_from(s@, e as int)));
                i = e;
            },
        }
    }
}

// ───────────────────────── lines ─────────────────────────

/// The first position at or after `i` holding `c`.
pub open spec fn index_of_from(s: Seq<char>, c: char, i: int) -> Option<int>
    decreases s.len() - i,
{
    if i < 0 || i >= s.len() {
        None
    } else if s[i] == c {
        Some(i)
    } else {
        index_of_from(s, c, i + 1)
    }
}

pub proof fn lemma_index_of_from(s: Seq<char>, c: char, i: int)
    requires
        0 <= i,
    ensures
        index_of_from(s, c, i) matches Some(k) ==> {
            &&& i <= k < s.len()
            &&& s[k] == c
            &&& forall|j: int| i <= j < k ==> s[j] != c
        },
        index_of_from(s, c, i) is None ==> forall|j: int| i <= j < s.len() ==> s[j] != c,
    decreases s.len() - i,
{
    if i < 0 || i >= s.len() {
    } else if s[i] == c {
    } else {
        lemma_index_of_from(s, c, i + 1);
    }
}

/// The first position at or after `from` holding `c`.
pub fn index_of(s: &Vec<char>, c: char, from: usize) -> (r: Option<usize>)
    ensures
        match r {
            Some(k) => index_of_from(s@, c, from as int) == Some(k as int),
            None => index_of_from(s@, c, from as int) is None,
        },
{
    let mut i = from;
    while i < s.len()
        invariant
            from <= i,
            index_of_from(s@, c, from as int) == index_of_from(s@, c, i as int),
        decreases s.len() - i,
    {
        if s[i] == c {
            return Some(i);
        }
        i += 1;
    }
    None
}

/// A line without the carriage return that may precede its line feed.
pub open spec fn strip_cr(line: Seq<char>) -> Seq<char> {
    if line.len() > 0 && line.last() == '\r' {
        line.drop_last()
    } else {
        line
    }
}

/// The lines of `s` from position `i` on, as `str::lines` yields them: a
/// line ends at `\n` (a `\r` just before it is dropped too), and a last
/// line without `\n` is kept as it is.
pub open spec fn lines_from(s: Seq<char>, i: int) -> Seq<Seq<char>>
    decreases s.len() - i,
{
    if i < 0 || i >= s.len() {
        seq![]
    } else {
        match index_of_from(s, '\n', i) {
            Some(k) => {
                proof {
                    lemma_index_of_from(s, '\n', i);
                }
                seq![strip_cr(s.subrange(i, k))] + lines_from(s, k + 1)
            },
            None => seq![s.subrange(i, s.len() as int)],
        }
    }
}

/// `str::lines`.
pub open spec fn lines(s: Seq<char>) -> Seq<Seq<char>> {
    lines_from(s, 0)
}

/// `str::lines`, collected.
pub fn lines_exec(s: &Vec<char>) -> (r: Vec<Vec<char>>)
    ensures
        views(r@) == lines(s@),
{
    let mut r: Vec<Vec<char>> = Vec::new();
    let mut i: usize = 0;
    while i < s.len()
        invariant
            views(r@) + lines_from(s@, i as int) == lines(s@),
        decreases s.len() - i,
    {
        let ghost old_r = views(r@);
        proof {
            lemma_index_of_from(s@, '\n', i as int);
        }
        match index_of(s, '\n', i) {
            Some(k) => {
                let mut line = slice(s, i, k);
                if line.len() > 0 && line[line.len() - 1] == '\r' {
                    line.pop();
                }
                assert(line@ =~= strip_cr(s@.subrange(i as int, k as int)));
                r.push(line);
                assert(views(r@) =~= old_r.push(line@));
                assert(views(r@) + lines_from(s@, k + 1) =~= old_r + lines_from(
                    s@,
                    i as int,
                ));
                i = k + 1;
            },
            None => {
                let line = slice(s, i, s.len());
                r.push(line);
                assert(views(r@) =~= old_r + lines_from(s@, i as int));
                assert(lines_from(s@, s.len() as int) =~= Seq::<Seq<char>>::empty());
                assert(views(r@) + lines_from(s@, s.len() as int) =~= views(r@));
                i = s.len();
            },
        }
    }
    assert(lines_from(s@, i as int) =~= Seq::<Seq<char>>::empty());
    assert(views(r@) + lines_from(s@, i as int) =~= views(r@));
    r
}

/// No character of `s` is `c`.
pub open spec fn lacks(s: Seq<char>, c: char) -> bool {
    forall|i: int| 0 <= i < s.len() ==> s[i] != c
}

pub proof fn lemma_lacks_concat(a: Seq<char>, b: Seq<char>, c: char)
    requires
        lacks(a, c),
        lacks(b, c),
    ensures
        lacks(a + b, c),
{
    assert forall|i: int| 0 <= i < (a + b).len() implies (a + b)[i] != c by {
        if i >= a.len() {
            assert((a + b)[i] == b[i - a.len()]);
        }
    }
}

/// The first `c` at or after `i` is at `k` (or there is none when `k` is
/// the length), given the characters before it.
pub proof fn lemma_index_of_first(s: Seq<char>, c: char, i: int, k: int)
    requires
        0 <= i <= k <= s.len(),
        forall|j: int| i <= j < k ==> s[j] != c,
        k < s.len() ==> s[k] == c,
    ensures
        index_of_from(s, c, i) == (if k < s.len() { Some(k) } else { None::<int> }),
    decreases k - i,
{
    if i < k {
        lemma_index_of_first(s, c, i + 1, k);
    }
}

/// Searching in `x + y` from inside `y` finds what searching `y` finds,
/// shifted by the length of `x`.
pub proof fn lemma_index_of_shift(x: Seq<char>, y: Seq<char>, c: char, j: int)
    requires
        0 <= j,
    ensures
        match index_of_from(y, c, j) {
            Some(k) => index_of_from(x + y, c, x.len() + j) == Some(k + x.len()),
            None => index_of_from(x + y, c, x.len() + j) is None,
        },
{
    lemma_index_of_from(y, c, j);
    let s = x + y;
    if j > y.len() {
        assert(index_of_from(s, c, x.len() + j) is None);
    } else {
        match index_of_from(y, c, j) {
            Some(k) => {
                assert forall|t: int| x.len() + j <= t < x.len() + k implies s[t] != c by {
                    assert(s[t] == y[t - x.len()]);
                }
                assert(s[x.len() + k] == y[k]);
                lemma_index_of_first(s, c, x.len() + j, x.len() + k);
            },
            None => {
                assert forall|t: int| x.len() + j <= t < s.len() implies s[t] != c by {
                    assert(s[t] == y[t - x.len()]);
                }
                lemma_index_of_first(s, c, x.len() + j, s.len() as int);
            },
        }
    }
}

/// The lines of `x + y` from inside `y` are the lines of `y` from there.
pub proof fn lemma_lines_shift(x: Seq<char>, y: Seq<char>, j: int)
    requires
        0 <= j,
    ensures
        lines_from(x + y, x.len() + j) == lines_from(y, j),
    decreases y.len() - j,
{
    let s = x + y;
    if j < y.len() {
        lemma_index_of_shift(x, y, '\n', j);
        lemma_index_of_from(y, '\n', j);
        match index_of_from(y, '\n', j) {
            Some(k) => {
                assert(s.subrange(x.len() + j, x.len() + k) =~= y.subrange(j, k));
                lemma_lines_shift(x, y, k + 1);
            },
            None => {
                assert(s.subrange(x.len() + j, s.len() as int) =~= y.subrange(j, y.len() as int));
            },
        }
    }
}

proof fn lemma_lines_concat_from(a: Seq<char>, b: Seq<char>, i: int)
    requires
        0 <= i <= a.len(),
        a.len() == 0 || a.last() == '\n',
    ensures
        lines_from(a + b, i) == lines_from(a, i) + lines(b),
    decreases a.len() - i,
{
    let s = a + b;
    if i == a.len() {
        lemma_lines_shift(a, b, 0);
        assert(lines_from(a, i) =~= Seq::<Seq<char>>::empty());
        assert(lines_from(a, i) + lines(b) =~= lines(b));
    } else {
        lemma_index_of_from(a, '\n', i);
        let k = match index_of_from(a, '\n', i) {
            Some(k) => k,
            None => a.len() - 1,
        };
        assert(index_of_from(a, '\n', i) == Some(k));
        assert forall|t: int| i <= t < k implies s[t] != '\n' by {
            assert(s[t] == a[t]);
        }
        assert(s[k] == a[k]);
        lemma_index_of_first(s, '\n', i, k);
        assert(s.subrange(i, k) =~= a.subrange(i, k));
        lemma_lines_concat_from(a, b, k + 1);
        assert(lines_from(a, i) == seq![strip_cr(a.subrange(i, k))] + lines_from(a, k + 1));
        assert(lines_from(s, i) == seq![strip_cr(s.subrange(i, k))] + lines_from(s, k + 1));
        assert(lines_from(s, i) =~= lines_from(a, i) + lines(b));
    }
}

/// Lines split at a line boundary: the lines of `a + b` are those of `a`
/// followed by those of `b` when `a` is empty or ends with a line feed.
pub proof fn lemma_lines_concat(a: Seq<char>, b: Seq<char>)
    requires
        a.len() == 0 || a.last() == '\n',
    ensures
        lines(a + b) == lines(a) + lines(b),
{
    lemma_lines_concat_from(a, b, 0);
}

/// A text with one line feed, at its end, and no carriage return just
/// before it is one line.
pub proof fn lemma_single_line(l: Seq<char>)
    requires
        l.len() > 0,
        l.last() == '\n',
        lacks(l.drop_last(), '\n'),
        l.len() < 2 || l[l.len() - 2] != '\r',
    ensures
        lines(l) == seq![l.drop_last()],
{
    let n = l.len() - 1;
    assert forall|t: int| 0 <= t < n implies l[t] != '\n' by {
        assert(l.drop_last()[t] == l[t]);
    }
    lemma_index_of_first(l, '\n', 0, n);
    assert(l.subrange(0, n) =~= l.drop_last());
    if n > 0 {
        assert(l.drop_last().last() == l[n - 1]);
    }
    assert(lines_from(l, n + 1) =~= Seq::<Seq<char>>::empty());
    assert(lines(l) =~= seq![l.drop_last()]);
}

/// A non-empty text without a line feed is one line.
pub proof fn lemma_lines_no_break(l: Seq<char>)
    requires
        l.len() > 0,
        lacks(l, '\n'),
    ensures
        lines(l) == seq![l],
{
    lemma_index_of_first(l, '\n', 0, l.len() as int);
    assert(l.subrange(0, l.len() as int) =~= l);
}

/// A text with some character has some line.
pub proof fn lemma_lines_nonempty(s: Seq<char>)
    requires
        s.len() > 0,
    ensures
        lines(s).len() > 0,
{
}

/// Joining the lines of a text with line feeds gives the text back (with
/// its final line feed added again when it had one), when it holds no
/// carriage return.
pub proof fn lemma_join_lines(s: Seq<char>)
    requires
        lacks(s, '\r'),
    ensures
        ends_with(s, "\n"@) ==> join(lines(s), "\n"@) + "\n"@ == s,
        !ends_with(s, "\n"@) ==> join(lines(s), "\n"@) == s,
    decreases s.len(),
{
    reveal_strlit("\n");
    let nl = "\n"@;
    assert(nl.len() == 1 && nl[0] == '\n');
    if s.len() == 0 {
        assert(lines(s) =~= Seq::<Seq<char>>::empty());
        assert(!ends_with(s, nl));
    } else {
        let ends = s.last() == '\n';
        assert(ends_with(s, nl) == ends) by {
            if ends {
                assert(s.subrange(s.len() - 1, s.len() as int) =~= nl);
            }
            if ends_with(s, nl) {
                assert(s.subrange(s.len() - 1, s.len() as int)[0] == s.last());
            }
        }
        let body_end = if ends { s.len() - 1 } else { s.len() as int };
        lemma_last_index_before(s, '\n', body_end);
        let j = last_index_before(s, '\n', body_end);
        let s1 = s.subrange(0, j + 1);
        let rest = s.subrange(j + 1, s.len() as int);
        assert(s =~= s1 + rest);
        assert(s1.len() == 0 || s1.last() == '\n');
        lemma_lines_concat(s1, rest);
        assert(lacks(s1, '\r'));
        assert(lacks(rest, '\r'));
        let l = s.subrange(j + 1, body_end);
        if ends {
            assert(rest.drop_last() =~= l);
            assert(lacks(rest.drop_last(), '\n'));
            if rest.len() >= 2 {
                assert(rest[rest.len() - 2] == s[s.len() - 2]);
            }
            lemma_single_line(rest);
        } else {
            assert(rest =~= l);
            assert(lacks(rest, '\n'));
            lemma_lines_no_break(rest);
        }
        assert(lines(s) == lines(s1) + seq![l]);
        if s1.len() == 0 {
            assert(lines(s1) =~= Seq::<Seq<char>>::empty());
            assert(lines(s) =~= seq![l]);
            assert(join(lines(s), nl) == l);
        } else {
            lemma_join_lines(s1);
            assert(ends_with(s1, nl)) by {
                assert(s1.subrange(s1.len() - 1, s1.len() as int) =~= nl);
            }
            lemma_lines_nonempty(s1);
            let ls = lines(s);
            assert(ls.drop_last() =~= lines(s1));
            assert(ls.last() == l);
            assert(join(ls, nl) == join(lines(s1), nl) + nl + l);
            assert(s1 == join(lines(s1), nl) + nl);
        }
        if ends {
            assert(s =~= s1 + l + nl);
        } else {
            assert(s =~= s1 + l);
        }
    }
}

/// Some occurrence of `p` in a piece of `s` is an occurrence in `s`.
pub proof fn lemma_contains_subrange(s: Seq<char>, a: int, b: int, p: Seq<char>)
    requires
        0 <= a <= b <= s.len(),
        contains(s.subrange(a, b), p),
    ensures
        contains(s, p),
{
    let sub = s.subrange(a, b);
    lemma_find_from(sub, p, 0);
    let k = find(sub, p)->0;
    assert(s.subrange(a + k, a + k + p.len()) =~= sub.subrange(k, k + p.len()));
    assert(occurs_at(s, p, a + k));
    lemma_find_from(s, p, 0);
}

/// No line of a text mentions what the text does not mention.
pub proof fn lemma_lines_no_mention(s: Seq<char>, i: int, p: Seq<char>)
    requires
        0 <= i,
        !contains(s, p),
    ensures
        forall|t: int| 0 <= t < lines_from(s, i).len() ==> !contains(#[trigger] lines_from(s, i)[t], p),
    decreases s.len() - i,
{
    if i < s.len() {
        lemma_index_of_from(s, '\n', i);
        match index_of_from(s, '\n', i) {
            Some(k) => {
                lemma_lines_no_mention(s, k + 1, p);
                let first = strip_cr(s.subrange(i, k));
                let e = if k > i && s.subrange(i, k).last() == '\r' { k - 1 } else { k };
                assert(first =~= s.subrange(i, e));
                if contains(first, p) {
                    lemma_contains_subrange(s, i, e, p);
                }
                let ls = lines_from(s, i);
                assert forall|t: int| 0 <= t < ls.len() implies !contains(#[trigger] ls[t], p) by {
                    if t > 0 {
                        assert(ls[t] == lines_from(s, k + 1)[t - 1]);
                    }
                }
            },
            None => {
                if contains(s.subrange(i, s.len() as int), p) {
                    lemma_contains_subrange(s, i, s.len() as int, p);
                }
            },
        }
    }
}

/// The parts joined, with `sep` between neighbours.
pub open spec fn join(parts: Seq<Seq<char>>, sep: Seq<char>) -> Seq<char>
    decreases parts.len(),
{
    if parts.len() == 0 {
        seq![]
    } else if parts.len() == 1 {
        parts[0]
    } else {
        join(parts.drop_last(), sep) + sep + parts.last()
    }
}

/// `[String]::join`.
pub fn join_exec(parts: &Vec<Vec<char>>, sep: &Vec<char>) -> (r: Vec<char>)
    ensures
        r@ == join(views(parts@), sep@),
{
    let mut r: Vec<char> = Vec::new();
    let mut i: usize = 0;
    while i < parts.len()
        invariant
            i <= parts.len(),
            r@ == join(views(parts@).take(i as int), sep@),
        decreases parts.len() - i,
    {
        let ghost pv = views(parts@);
        assert(pv.take(i + 1).drop_last() =~= pv.take(i as int));
        assert(pv.take(i + 1).last() == parts[i as int]@);
        if i > 0 {
            extend(&mut r, sep);
        } else {
            assert(pv.take(1) =~= seq![parts[0]@]);
        }
        extend(&mut r, &parts[i]);
        i += 1;
    }
    assert(views(parts@).take(parts.len() as int) =~= views(parts@));
    r
}

// ───────────────────────── replacing ─────────────────────────

/// `s[i..]` with every non-overlapping occurrence of `p` (searched left to
/// right) replaced by `r`.
pub open spec fn replace_from(s: Seq<char>, p: Seq<char>, r: Seq<char>, i: int) -> Seq<char>
    decreases s.len() + 1 - i,
{
    if p.len() == 0 || i < 0 || i > s.len() {
        seq![]
    } else {
        match find_from(s, p, i) {
            Some(k) => {
                proof {
                    lemma_find_from(s, p, i);
                }
                s.subrange(i, k) + r + replace_from(s, p, r, k + p.len())
            },
            None => s.subrange(i, s.len() as int),
        }
    }
}

/// `str::replace` with a non-empty pattern.
pub open spec fn replace_all(s: Seq<char>, p: Seq<char>, r: Seq<char>) -> Seq<char> {
    replace_from(s, p, r, 0)
}

/// `str::replace` with a non-empty pattern.
pub fn replace_exec(s: &Vec<char>, p: &Vec<char>, r: &Vec<char>) -> (out: Vec<char>)
    requires
        p.len() > 0,
    ensures
        out@ == replace_all(s@, p@, r@),
{
    let mut out: Vec<char> = Vec::new();
    let mut i: usize = 0;
    loop
        invariant
            p.len() > 0,
            i <= s.len(),
            out@ + replace_from(s@, p@, r@, i as int) == replace_all(s@, p@, r@),
        decreases s.len() + 1 - i,
    {
        proof {
            lemma_find_from(s@, p@, i as int);
        }
        match find_at(s, p, i) {
            Some(k) => {
                let ghost old_out = out@;
                let piece = slice(s, i, k);
                extend(&mut out, &piece);
                extend(&mut out, r);
                assert(out@ + replace_from(s@, p@, r@, k + p.len()) =~= old_out + replace_from(
                    s@,
                    p@,
                    r@,
                    i as int,
                ));
                i = k + p.len();
            },
            None => {
                let ghost old_out = out@;
                let piece = slice(s, i, s.len());
                extend(&mut out, &piece);
                assert(out@ =~= old_out + replace_from(s@, p@, r@, i as int));
                return out;
            },
        }
    }
}

/// `str::replace` on string slices, with a non-empty pattern.
pub fn replace_str(s: &str, p: &str, r: &str) -> (out: Vec<char>)
    requires
        p@.len() > 0,
    ensures
        out@ == replace_all(s@, p@, r@),
{
    let sv = chars_of(s);
    let pv = chars_of(p);
    let rv = chars_of(r);
    replace_exec(&sv, &pv, &rv)
}

/// Replacing a pattern that does not occur changes nothing.
pub proof fn lemma_replace_absent(s: Seq<char>, p: Seq<char>, r: Seq<char>)
    requires
        p.len() > 0,
        !contains(s, p),
    ensures
        replace_all(s, p, r) == s,
{
    assert(s.subrange(0, s.len() as int) =~= s);
}

/// Searching `s` followed by a pattern whose first character occurs nowhere
/// else in it finds what searching `s` finds, else the appended copy.
proof fn lemma_find_with_trailing(s: Seq<char>, p: Seq<char>, i: int)
    requires
        p.len() > 0,
        forall|m: int| 0 < m < p.len() ==> #[trigger] p[m] != p[0],
        0 <= i <= s.len(),
    ensures
        find_from(s + p, p, i) == (match find_from(s, p, i) {
            Some(k) => Some(k),
            None => Some(s.len() as int),
        }),
    decreases s.len() + 1 - i,
{
    let sp = s + p;
    if i == s.len() {
        assert(sp.subrange(i, i + p.len()) =~= p);
    } else if i + p.len() > s.len() {
        let m = s.len() - i;
        if occurs_at(sp, p, i) {
            assert(sp.subrange(i, i + p.len())[m] == sp[s.len() as int]);
            assert(sp[s.len() as int] == p[0]);
        }
        lemma_find_with_trailing(s, p, i + 1);
    } else {
        assert(sp.subrange(i, i + p.len()) =~= s.subrange(i, i + p.len()));
        if !occurs_at(s, p, i) {
            lemma_find_with_trailing(s, p, i + 1);
        }
    }
}

proof fn lemma_replace_from_trailing(s: Seq<char>, p: Seq<char>, i: int)
    requires
        p.len() > 0,
        forall|m: int| 0 < m < p.len() ==> #[trigger] p[m] != p[0],
        0 <= i <= s.len(),
    ensures
        replace_from(s + p, p, ""@, i) == replace_from(s, p, ""@, i),
    decreases s.len() + 1 - i,
{
    let sp = s + p;
    reveal_strlit("");
    lemma_find_with_trailing(s, p, i);
    lemma_find_from(s, p, i);
    match find_from(s, p, i) {
        Some(k) => {
            lemma_replace_from_trailing(s, p, k + p.len());
            assert(sp.subrange(i, k) =~= s.subrange(i, k));
        },
        None => {
            let e = sp.len() as int;
            assert(find_from(sp, p, e) is None);
            assert(replace_from(sp, p, ""@, e) =~= Seq::<char>::empty());
            assert(sp.subrange(i, s.len() as int) =~= s.subrange(i, s.len() as int));
            assert(replace_from(sp, p, ""@, i) == sp.subrange(i, s.len() as int) + ""@ + replace_from(
                sp,
                p,
                ""@,
                e,
            ));
            assert(replace_from(sp, p, ""@, i) =~= s.subrange(i, s.len() as int));
        },
    }
}

/// Removing every occurrence of a pattern whose first character occurs
/// nowhere else in it gives the same text whether or not one more copy of
/// the pattern follows.
pub proof fn lemma_remove_ignores_trailing_copy(s: Seq<char>, p: Seq<char>)
    requires
        p.len() > 0,
        forall|m: int| 0 < m < p.len() ==> #[trigger] p[m] != p[0],
    ensures
        replace_all(s + p, p, ""@) == replace_all(s, p, ""@),
{
    lemma_replace_from_trailing(s, p, 0);
}

/// After a replacement, the text holds `q` when the replacement holds it
/// and the pattern occurs, or when the text held `q` and nothing was
/// replaced.
pub proof fn lemma_replace_keeps(s: Seq<char>, p: Seq<char>, r: Seq<char>, q: Seq<char>)
    requires
        p.len() > 0,
        contains(r, q),
        contains(s, q) || contains(s, p),
    ensures
        contains(replace_all(s, p, r), q),
{
    if contains(s, p) {
        lemma_find_from(s, p, 0);
        let k = find(s, p)->0;
        let out = replace_all(s, p, r);
        let rest = replace_from(s, p, r, k + p.len());
        assert(out == s.subrange(0, k) + r + rest);
        assert(out.subrange(k, k + r.len()) =~= r);
        lemma_contains_subrange(out, k, k + r.len(), q);
    } else {
        lemma_replace_absent(s, p, r);
    }
}

/// A text that holds `p2` holds every prefix of it.
pub proof fn lemma_contains_prefix(s: Seq<char>, p2: Seq<char>, p1: Seq<char>)
    requires
        contains(s, p2),
        p1.len() <= p2.len(),
        p2.subrange(0, p1.len() as int) == p1,
    ensures
        contains(s, p1),
{
    lemma_find_from(s, p2, 0);
    let k = find(s, p2)->0;
    assert(s.subrange(k, k + p1.len()) =~= p2.subrange(0, p1.len() as int));
    assert(occurs_at(s, p1, k));
    lemma_find_from(s, p1, 0);
}

/// `q` occurs in `r` at `k`, so `r` contains it.
pub proof fn lemma_occurs_contains(r: Seq<char>, q: Seq<char>, k: int)
    requires
        occurs_at(r, q, k),
    ensures
        contains(r, q),
{
    lemma_find_from(r, q, 0);
}

// ───────────────────────── numbers ─────────────────────────

/// An ASCII decimal digit.
pub open spec fn is_digit(c: char) -> bool {
    '0' <= c && c <= '9'
}

/// The value of an ASCII decimal digit.
pub open spec fn digit_value(c: char) -> nat {
    ((c as u32) - ('0' as u32)) as nat
}

/// The value of a string of decimal digits.
pub open spec fn digits_value(d: Seq<char>) -> nat
    decreases d.len(),
{
    if d.len() == 0 {
        0
    } else {
        digits_value(d.drop_last()) * 10 + digit_value(d.last())
    }
}

/// Every character is an ASCII decimal digit.
pub open spec fn all_digits(d: Seq<char>) -> bool {
    forall|i: int| 0 <= i < d.len() ==> is_digit(#[trigger] d[i])
}

/// The digits that `from_str` reads for an unsigned type: one leading `+`
/// is allowed.
pub open spec fn unsigned_digits(s: Seq<char>) -> Seq<char> {
    if s.len() > 0 && s[0] == '+' {
        s.drop_first()
    } else {
        s
    }
}

/// What `str::parse` gives for an unsigned integer type whose largest value
/// is `max`: the value of the digits, or `None` when there are none, when
/// one of them is not an ASCII digit, or when the value exceeds `max`.
pub open spec fn parse_unsigned(s: Seq<char>, max: nat) -> Option<nat> {
    let d = unsigned_digits(s);
    if d.len() > 0 && all_digits(d) && digits_value(d) <= max {
        Some(digits_value(d))
    } else {
        None
    }
}

proof fn lemma_digits_prefix(d: Seq<char>, k: int)
    requires
        0 <= k < d.len(),
    ensures
        digits_value(d.take(k + 1)) == digits_value(d.take(k)) * 10 + digit_value(d[k]),
{
    assert(d.take(k + 1).drop_last() =~= d.take(k));
}

/// The value of a digit character; only ASCII digits are passed.
fn digit_of(c: char) -> (v: u64)
    requires
        is_digit(c),
    ensures
        v == digit_value(c),
        v < 10,
{
    ((c as u32) - ('0' as u32)) as u64
}

/// `str::parse` for an unsigned integer type whose largest value is `max`.
pub fn parse_unsigned_exec(s: &Vec<char>, max: u64) -> (r: Option<u64>)
    ensures
        match r {
            Some(v) => parse_unsigned(s@, max as nat) == Some(v as nat),
            None => parse_unsigned(s@, max as nat) is None,
        },
{
    let start: usize = if s.len() > 0 && s[0] == '+' {
        1
    } else {
        0
    };
    let ghost d = unsigned_digits(s@);
    assert(d =~= s@.subrange(start as int, s.len() as int));
    if start >= s.len() {
        return None;
    }
    let mut acc: u64 = 0;
    let mut too_big = false;
    let mut i = start;
    while i < s.len()
        invariant
            start <= i <= s.len(),
            d =~= s@.subrange(start as int, s.len() as int),
            d == unsigned_digits(s@),
            forall|j: int| 0 <= j < i - start ==> is_digit(#[trigger] d[j]),
            !too_big ==> acc == digits_value(d.take(i - start)) && acc <= max,
            too_big ==> digits_value(d.take(i - start)) > max,
        decreases s.len() - i,
    {
        let c = s[i];
        assert(d[i - start] == c);
        if !('0' <= c && c <= '9') {
            assert(!is_digit(d[i - start]));
            assert(!all_digits(d));
            return None;
        }
        let v = digit_of(c);
        proof {
            lemma_digits_prefix(d, i - start);
        }
        if !too_big {
            if v > max || acc > (max - v) / 10 {
                too_big = true;
                assert(acc * 10 + v > max) by (nonlinear_arith)
                    requires
                        v > max || acc > (max - v) / 10,
                ;
            } else {
                assert(acc * 10 + v <= max) by (nonlinear_arith)
                    requires
                        acc <= (max - v) / 10,
                        v <= max,
                ;
                acc = acc * 10 + v;
            }
        }
        i += 1;
    }
    assert(d.take(d.len() as int) =~= d);
    if too_big {
        None
    } else {
        Some(acc)
    }
}


/// The ASCII digit for a value below 10.
pub open spec fn digit_char(d: nat) -> char {
    if d == 0 {
        '0'
    } else if d == 1 {
        '1'
    } else if d == 2 {
        '2'
    } else if d == 3 {
        '3'
    } else if d == 4 {
        '4'
    } else if d == 5 {
        '5'
    } else if d == 6 {
        '6'
    } else if d == 7 {
        '7'
    } else if d == 8 {
        '8'
    } else {
        '9'
    }
}

/// The decimal form of a number, as `Display` writes it.
pub open spec fn decimal(n: nat) -> Seq<char>
    decreases n,
{
    if n < 10 {
        seq![digit_char(n)]
    } else {
        decimal(n / 10).push(digit_char(n % 10))
    }
}

fn digit_char_exec(d: u64) -> (c: char)
    requires
        d < 10,
    ensures
        c == digit_char(d as nat),
{
    if d == 0 {
        '0'
    } else if d == 1 {
        '1'
    } else if d == 2 {
        '2'
    } else if d == 3 {
        '3'
    } else if d == 4 {
        '4'
    } else if d == 5 {
        '5'
    } else if d == 6 {
        '6'
    } else if d == 7 {
        '7'
    } else if d == 8 {
        '8'
    } else {
        '9'
    }
}

/// The decimal form of a number.
pub fn decimal_exec(n: u64) -> (r: Vec<char>)
    ensures
        r@ == decimal(n as nat),
    decreases n,
{
    if n < 10 {
        let mut v: Vec<char> = Vec::new();
        v.push(digit_char_exec(n));
        assert(v@ =~= seq![digit_char(n as nat)]);
        v
    } else {
        let mut v = decimal_exec(n / 10);
        v.push(digit_char_exec(n % 10));
        v
    }
}


/// Two strings, one after the other.
pub fn cat2(a: &str, b: &str) -> (r: String)
    ensures
        r@ == a@ + b@,
{
    let mut v = chars_of(a);
    extend_str(&mut v, b);
    string_of(&v)
}

/// Three strings, one after the other.
pub fn cat3(a: &str, b: &str, c: &str) -> (r: String)
    ensures
        r@ == a@ + b@ + c@,
{
    let mut v = chars_of(a);
    extend_str(&mut v, b);
    extend_str(&mut v, c);
    string_of(&v)
}

/// `s` without its leading characters equal to `c`.
pub open spec fn strip_start_char(s: Seq<char>, c: char) -> Seq<char>
    decreases s.len(),
{
    if s.len() > 0 && s[0] == c {
        strip_start_char(s.drop_first(), c)
    } else {
        s
    }
}

/// `s` without its trailing characters equal to `c`.
pub open spec fn strip_end_char(s: Seq<char>, c: char) -> Seq<char>
    decreases s.len(),
{
    if s.len() > 0 && s.last() == c {
        strip_end_char(s.drop_last(), c)
    } else {
        s
    }
}

/// `str::trim_matches` with a character pattern.
pub open spec fn trim_matches(s: Seq<char>, c: char) -> Seq<char> {
    strip_end_char(strip_start_char(s, c), c)
}

/// `str::trim_matches` with a character pattern.
pub fn trim_matches_exec(s: &Vec<char>, c: char) -> (r: Vec<char>)
    ensures
        r@ == trim_matches(s@, c),
{
    let mut a: usize = 0;
    assert(s@.subrange(0, s.len() as int) =~= s@);
    while a < s.len() && s[a] == c
        invariant
            a <= s.len(),
            strip_start_char(s@, c) == strip_start_char(s@.subrange(a as int, s.len() as int), c),
        decreases s.len() - a,
    {
        assert(s@.subrange(a as int, s.len() as int).drop_first() =~= s@.subrange(
            a + 1,
            s.len() as int,
        ));
        a += 1;
    }
    assert(s@.subrange(0, s.len() as int) =~= s@);
    let t = slice(s, a, s.len());
    let mut b: usize = t.len();
    assert(t@.subrange(0, t.len() as int) =~= t@);
    while b > 0 && t[b - 1] == c
        invariant
            b <= t.len(),
            strip_end_char(t@, c) == strip_end_char(t@.subrange(0, b as int), c),
        decreases b,
    {
        assert(t@.subrange(0, b as int).drop_last() =~= t@.subrange(0, b - 1));
        b -= 1;
    }
    assert(t@.subrange(0, t.len() as int) =~= t@);
    slice(&t, 0, b)
}

/// The position of the last `c` before position `j` (-1 if none).
pub open spec fn last_index_before(s: Seq<char>, c: char, j: int) -> int
    decreases j,
{
    if j <= 0 || j > s.len() {
        -1
    } else if s[j - 1] == c {
        j - 1
    } else {
        last_index_before(s, c, j - 1)
    }
}

pub proof fn lemma_last_index_before(s: Seq<char>, c: char, j: int)
    requires
        0 <= j <= s.len(),
    ensures
        -1 <= last_index_before(s, c, j) < j,
        last_index_before(s, c, j) >= 0 ==> s[last_index_before(s, c, j)] == c,
        forall|t: int| last_index_before(s, c, j) < t < j ==> s[t] != c,
    decreases j,
{
    if j > 0 && s[j - 1] != c {
        lemma_last_index_before(s, c, j - 1);
    }
}

/// The part of `s` after its last `c` (all of `s` when there is none): the
/// last item of `str::split(c)`.
pub open spec fn after_last(s: Seq<char>, c: char) -> Seq<char> {
    s.subrange(last_index_before(s, c, s.len() as int) + 1, s.len() as int)
}

/// The part of `s` before its first `c` (all of `s` when there is none):
/// the first item of `str::split(c)`.
pub open spec fn before_first(s: Seq<char>, c: char) -> Seq<char> {
    match index_of_from(s, c, 0) {
        Some(k) => s.subrange(0, k),
        None => s,
    }
}

/// The first item of `str::split(c)`.
pub fn before_first_exec(s: &Vec<char>, c: char) -> (r: Vec<char>)
    ensures
        r@ == before_first(s@, c),
{
    proof {
        lemma_index_of_from(s@, c, 0);
    }
    match index_of(s, c, 0) {
        Some(k) => slice(s, 0, k),
        None => slice(s, 0, s.len()),
    }
}

/// The last item of `str::split(c)`.
pub fn after_last_exec(s: &Vec<char>, c: char) -> (r: Vec<char>)
    ensures
        r@ == after_last(s@, c),
{
    proof {
        lemma_last_index_before(s@, c, s.len() as int);
    }
    let mut j: usize = s.len();
    while j > 0 && s[j - 1] != c
        invariant
            j <= s.len(),
            last_index_before(s@, c, s.len() as int) == last_index_before(s@, c, j as int),
        decreases j,
    {
        j -= 1;
    }
    slice(s, j, s.len())
}

} // verus!
