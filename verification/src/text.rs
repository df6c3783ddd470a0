//! Character-sequence toolkit shared by the codecs, the query builders and
//! the line parsers: decimal rendering and parsing, trimming, line and field
//! splitting, substring search and quoting, each with its own specification.
use vstd::prelude::*;
use vstd::string::*;

verus! {

// ---------------------------------------------------------------------------
// Decimal numbers
// ---------------------------------------------------------------------------

/// The ASCII digit for `d` (0..=9).
pub open spec fn digit_char(d: nat) -> char {
    (48 + d) as char
}

/// Decimal rendering of `n`, most significant digit first, without leading zeros.
pub open spec fn dec(n: nat) -> Seq<char>
    decreases n,
{
    if n < 10 {
        seq![digit_char(n)]
    } else {
        dec(n / 10).push(digit_char(n % 10))
    }
}

pub open spec fn is_digit(c: char) -> bool {
    '0' <= c && c <= '9'
}

/// Value of a sequence of ASCII digits read in base ten.
pub open spec fn digits_value(s: Seq<char>) -> nat
    decreases s.len(),
{
    if s.len() == 0 {
        0
    } else {
        digits_value(s.drop_last()) * 10 + ((s.last() as int - 48) as nat)
    }
}

pub open spec fn all_digits(s: Seq<char>) -> bool {
    forall|i: int| 0 <= i < s.len() ==> is_digit(#[trigger] s[i])
}

pub proof fn lemma_dec_digits(n: nat)
    ensures
        all_digits(dec(n)),
        dec(n).len() >= 1,
        digits_value(dec(n)) == n,
    decreases n,
{
    if n >= 10 {
        lemma_dec_digits(n / 10);
        let d = dec(n / 10);
        assert(dec(n).drop_last() =~= d);
        assert(dec(n).last() == digit_char(n % 10));
        assert((digit_char(n % 10) as int) == 48 + n % 10);
        assert(n == (n / 10) * 10 + n % 10);
        assert(digits_value(dec(n)) == digits_value(d) * 10 + (n % 10));
    } else {
        assert((digit_char(n) as int) == 48 + n);
        assert(dec(n).drop_last() =~= Seq::<char>::empty());
        assert(digits_value(dec(n)) == digits_value(Seq::<char>::empty()) * 10 + n);
    }
}

fn digit_of(d: u64) -> (c: char)
    requires
        d < 10,
    ensures
        c == digit_char(d as nat),
{
    let b: u8 = (48 + d) as u8;
    b as char
}

/// Appends the decimal rendering of `n`.
pub fn push_dec(s: &mut String, n: u64)
    ensures
        final(s)@ == old(s)@ + dec(n as nat),
    decreases n,
{
    if n >= 10 {
        push_dec(s, n / 10);
    }
    let c = digit_of(n % 10);
    push_char(s, c);
    proof {
        if n >= 10 {
            assert(old(s)@ + dec(n as nat) =~= old(s)@ + dec((n / 10) as nat) + seq![c]);
        } else {
            assert(old(s)@ + dec(n as nat) =~= old(s)@.push(c));
        }
    }
}

// ---------------------------------------------------------------------------
// Building strings
// ---------------------------------------------------------------------------

/// Appends one character (`String::push`).
#[verifier::external_body]
pub fn push_char(s: &mut String, c: char)
    ensures
        final(s)@ == old(s)@.push(c),
{
    s.push(c);
}

/// Appends a string slice.
pub fn push_str(s: &mut String, t: &str)
    ensures
        final(s)@ == old(s)@ + t@,
{
    s.append(t);
}

/// Appends a sequence of characters.
pub fn push_chars(s: &mut String, t: &[char])
    ensures
        final(s)@ == old(s)@ + t@,
{
    let mut i: usize = 0;
    while i < t.len()
        invariant
            i <= t@.len(),
            s@ == old(s)@ + t@.subrange(0, i as int),
        decreases t@.len() - i,
    {
        push_char(s, t[i]);
        i = i + 1;
        assert(t@.subrange(0, i as int) =~= t@.subrange(0, i - 1).push(t@[i - 1]));
    }
    assert(t@.subrange(0, t@.len() as int) =~= t@);
}

/// A `String` holding exactly `t`.
pub fn string_of(t: &[char]) -> (s: String)
    ensures
        s@ == t@,
{
    let mut s = String::new();
    push_chars(&mut s, t);
    s
}

/// The characters of `s`.
pub fn chars_of(s: &str) -> (v: Vec<char>)
    ensures
        v@ == s@,
{
    let mut v: Vec<char> = Vec::new();
    for c in it: s.chars()
        invariant
            v@ == it.seq().take(it.index() as int),
    {
        v.push(c);
    }
    v
}

/// The characters of an optional string.
pub open spec fn opt_chars(o: Option<String>) -> Option<Seq<char>> {
    match o {
        Some(s) => Some(s@),
        None => None,
    }
}

/// A copy of an optional string.
pub fn clone_opt(o: &Option<String>) -> (r: Option<String>)
    ensures
        opt_chars(r) == opt_chars(*o),
{
    match o {
        Some(s) => Some(s.clone()),
        None => None,
    }
}

/// What `format!("{:?}", s)` renders for a string slice: the quoted text
/// with its special characters escaped.
pub uninterp spec fn str_debug_text(s: Seq<char>) -> Seq<char>;

/// The `Debug` rendering of a string slice (`format!("{:?}", s)`).
#[verifier::external_body]
pub(crate) fn str_debug(s: &str) -> (r: String)
    ensures
        r@ == str_debug_text(s@),
{
    format!("{:?}", s)
}

/// The decimal rendering of `n` as a `String`.
pub fn dec_string(n: u64) -> (s: String)
    ensures
        s@ == dec(n as nat),
{
    let mut s = String::new();
    push_dec(&mut s, n);
    assert(s@ =~= dec(n as nat));
    s
}

} // verus!

verus! {

// ---------------------------------------------------------------------------
// Character classes that std defines by Unicode properties
// ---------------------------------------------------------------------------

/// Whether `c` has the Unicode `White_Space` property (`char::is_whitespace`):
/// tab to carriage return, space, next line, no-break space, ogham space
/// mark, the en quad to hair space, line and paragraph separators, narrow
/// no-break space, medium mathematical space and ideographic space.
pub open spec fn char_is_whitespace(c: char) -> bool {
    let u = c as u32;
    ||| 0x09 <= u && u <= 0x0D
    ||| u == 0x20
    ||| u == 0x85
    ||| u == 0xA0
    ||| u == 0x1680
    ||| 0x2000 <= u && u <= 0x200A
    ||| u == 0x2028
    ||| u == 0x2029
    ||| u == 0x202F
    ||| u == 0x205F
    ||| u == 0x3000
}

/// Whether a character outside ASCII is alphabetic or numeric in Unicode
/// terms (`char::is_alphanumeric` beyond ASCII).
pub uninterp spec fn unicode_alphanumeric(c: char) -> bool;

/// Whether `c` is alphabetic or numeric in Unicode terms
/// (`char::is_alphanumeric`): in ASCII exactly the letters and digits.
pub open spec fn char_is_alphanumeric(c: char) -> bool {
    if (c as u32) < 128 {
        ('a' <= c && c <= 'z') || ('A' <= c && c <= 'Z') || ('0' <= c && c <= '9')
    } else {
        unicode_alphanumeric(c)
    }
}

/// Whether `c` has the Unicode general category `Cc` (`char::is_control`):
/// U+0000 to U+001F and U+007F to U+009F.
pub open spec fn char_is_control(c: char) -> bool {
    let u = c as u32;
    u <= 0x1F || (0x7F <= u && u <= 0x9F)
}

/// The Unicode lowercase mapping of a string that holds a character
/// beyond ASCII (`str::to_lowercase` there).
pub uninterp spec fn unicode_lowercase(s: Seq<char>) -> Seq<char>;

/// Whether every character of `s` is ASCII.
pub open spec fn all_ascii(s: Seq<char>) -> bool {
    forall|i: int| 0 <= i < s.len() ==> (#[trigger] s[i] as u32) < 128
}

/// The Unicode lowercase mapping of a whole string (`str::to_lowercase`):
/// on ASCII text, `A`-`Z` become `a`-`z` and every other character stays.
pub open spec fn str_lowercase(s: Seq<char>) -> Seq<char> {
    if all_ascii(s) {
        ascii_lower_seq(s)
    } else {
        unicode_lowercase(s)
    }
}

/// `char::is_whitespace`.
pub(crate) fn is_whitespace(c: char) -> (b: bool)
    ensures
        b == char_is_whitespace(c),
{
    let u = c as u32;
    (0x09 <= u && u <= 0x0D) || u == 0x20 || u == 0x85 || u == 0xA0 || u == 0x1680 || (0x2000 <= u
        && u <= 0x200A) || u == 0x2028 || u == 0x2029 || u == 0x202F || u == 0x205F || u == 0x3000
}

/// `char::is_alphanumeric`; beyond ASCII the contract only names std's
/// Unicode table.
#[verifier::external_body]
pub(crate) fn is_alphanumeric(c: char) -> (b: bool)
    ensures
        b == char_is_alphanumeric(c),
        (c as u32) >= 128 ==> b == unicode_alphanumeric(c),
{
    c.is_alphanumeric()
}

/// `char::is_control`.
pub(crate) fn is_control(c: char) -> (b: bool)
    ensures
        b == char_is_control(c),
{
    let u = c as u32;
    u <= 0x1F || (0x7F <= u && u <= 0x9F)
}

/// `str::to_lowercase`; the contract states the ASCII mapping and beyond
/// ASCII only names std's Unicode mapping.
#[verifier::external_body]
pub(crate) fn to_lowercase(s: &str) -> (r: String)
    ensures
        r@ == str_lowercase(s@),
        !all_ascii(s@) ==> r@ == unicode_lowercase(s@),
{
    s.to_lowercase()
}

// ---------------------------------------------------------------------------
// Subsequences
// ---------------------------------------------------------------------------

/// `s[a..b]` as a vector.
pub fn sub_vec(s: &[char], a: usize, b: usize) -> (r: Vec<char>)
    requires
        a <= b <= s@.len(),
    ensures
        r@ == s@.subrange(a as int, b as int),
{
    let mut r: Vec<char> = Vec::new();
    let mut i = a;
    while i < b
        invariant
            a <= i <= b <= s@.len(),
            r@ == s@.subrange(a as int, i as int),
        decreases b - i,
    {
        r.push(s[i]);
        i = i + 1;
        assert(r@ =~= s@.subrange(a as int, i as int));
    }
    r
}

pub open spec fn starts_with(s: Seq<char>, p: Seq<char>) -> bool {
    p.len() <= s.len() && s.subrange(0, p.len() as int) == p
}

pub open spec fn ends_with(s: Seq<char>, p: Seq<char>) -> bool {
    p.len() <= s.len() && s.subrange(s.len() - p.len(), s.len() as int) == p
}

/// `p` occurs in `s` at position `i`.
pub open spec fn occurs_at(s: Seq<char>, p: Seq<char>, i: int) -> bool {
    0 <= i && i + p.len() <= s.len() && s.subrange(i, i + p.len()) == p
}

pub open spec fn contains(s: Seq<char>, p: Seq<char>) -> bool {
    exists|i: int| #[trigger] occurs_at(s, p, i)
}

/// Whether `p` is a prefix of `s[at..]`.
pub fn matches_at(s: &[char], p: &[char], at: usize) -> (b: bool)
    requires
        at <= s@.len(),
    ensures
        b == occurs_at(s@, p@, at as int),
{
    if p.len() > s.len() - at {
        return false;
    }
    let mut k: usize = 0;
    while k < p.len()
        invariant
            k <= p@.len(),
            at + p.len() <= s.len(),
            forall|j: int| 0 <= j < k ==> s@[at + j] == p@[j],
        decreases p@.len() - k,
    {
        if s[at + k] != p[k] {
            assert(s@.subrange(at as int, at + p@.len())[k as int] != p@[k as int]);
            return false;
        }
        k = k + 1;
    }
    assert(s@.subrange(at as int, at + p@.len()) =~= p@);
    true
}

pub fn starts_with_exec(s: &[char], p: &[char]) -> (b: bool)
    ensures
        b == starts_with(s@, p@),
{
    let r = matches_at(s, p, 0);
    assert(r == starts_with(s@, p@));
    r
}

pub fn ends_with_exec(s: &[char], p: &[char]) -> (b: bool)
    ensures
        b == ends_with(s@, p@),
{
    if p.len() > s.len() {
        return false;
    }
    matches_at(s, p, s.len() - p.len())
}

/// Whether `p` occurs anywhere in `s`.
pub fn contains_exec(s: &[char], p: &[char]) -> (b: bool)
    ensures
        b == contains(s@, p@),
{
    if p.len() > s.len() {
        return false;
    }
    let last = s.len() - p.len();
    let mut i: usize = 0;
    while i <= last
        invariant
            last == s@.len() - p@.len(),
            forall|j: int| 0 <= j < i ==> !occurs_at(s@, p@, j),
        decreases last + 1 - i,
    {
        if matches_at(s, p, i) {
            return true;
        }
        if i == last {
            assert forall|j: int| !occurs_at(s@, p@, j) by {
                if 0 <= j && j + p@.len() <= s@.len() {
                    assert(j <= i);
                }
            }
            return false;
        }
        i = i + 1;
    }
    false
}

/// Whether the character `c` occurs in `s`.
pub fn has_char(s: &[char], c: char) -> (b: bool)
    ensures
        b == s@.contains(c),
{
    let mut i: usize = 0;
    while i < s.len()
        invariant
            i <= s@.len(),
            forall|j: int| 0 <= j < i ==> s@[j] != c,
        decreases s@.len() - i,
    {
        if s[i] == c {
            return true;
        }
        i = i + 1;
    }
    false
}

// ---------------------------------------------------------------------------
// Trimming
// ---------------------------------------------------------------------------

pub open spec fn trim_start_by(s: Seq<char>, p: spec_fn(char) -> bool) -> Seq<char>
    decreases s.len(),
{
    if s.len() > 0 && p(s[0]) {
        trim_start_by(s.drop_first(), p)
    } else {
        s
    }
}

pub open spec fn trim_end_by(s: Seq<char>, p: spec_fn(char) -> bool) -> Seq<char>
    decreases s.len(),
{
    if s.len() > 0 && p(s.last()) {
        trim_end_by(s.drop_last(), p)
    } else {
        s
    }
}

pub open spec fn ws() -> spec_fn(char) -> bool {
    |c: char| char_is_whitespace(c)
}

/// `str::trim`: both ends stripped of Unicode white space.
pub open spec fn trim(s: Seq<char>) -> Seq<char> {
    trim_end_by(trim_start_by(s, ws()), ws())
}

} // verus!

verus! {

proof fn lemma_trim_start_step(s: Seq<char>, p: spec_fn(char) -> bool, i: int)
    requires
        0 <= i < s.len(),
        p(s[i]),
    ensures
        trim_start_by(s.subrange(i, s.len() as int), p) == trim_start_by(
            s.subrange(i + 1, s.len() as int),
            p,
        ),
{
    let t = s.subrange(i, s.len() as int);
    assert(t.drop_first() =~= s.subrange(i + 1, s.len() as int));
}

proof fn lemma_trim_end_step(s: Seq<char>, p: spec_fn(char) -> bool, a: int, j: int)
    requires
        0 <= a < j <= s.len(),
        p(s[j - 1]),
    ensures
        trim_end_by(s.subrange(a, j), p) == trim_end_by(s.subrange(a, j - 1), p),
{
    let t = s.subrange(a, j);
    assert(t.drop_last() =~= s.subrange(a, j - 1));
}

/// Bounds `(a, b)` with `s[a..b]` equal to `s` stripped at both ends of the
/// characters that `strip` selects.
fn trim_bounds(s: &[char], ws_only: bool, strip_char: char) -> (r: (usize, usize))
    ensures
        r.0 <= r.1 <= s@.len(),
        s@.subrange(r.0 as int, r.1 as int) == trim_end_by(
            trim_start_by(s@, strip_pred(ws_only, strip_char)),
            strip_pred(ws_only, strip_char),
        ),
{
    let ghost p = strip_pred(ws_only, strip_char);
    let mut a: usize = 0;
    assert(s@.subrange(0, s@.len() as int) =~= s@);
    while a < s.len() && strip_test(ws_only, strip_char, s[a])
        invariant
            a <= s@.len(),
            p == strip_pred(ws_only, strip_char),
            trim_start_by(s@, p) == trim_start_by(s@.subrange(a as int, s@.len() as int), p),
        decreases s@.len() - a,
    {
        proof {
            lemma_trim_start_step(s@, p, a as int);
        }
        a = a + 1;
    }
    let mut b: usize = s.len();
    while b > a && strip_test(ws_only, strip_char, s[b - 1])
        invariant
            a <= b <= s@.len(),
            p == strip_pred(ws_only, strip_char),
            trim_start_by(s@, p) == s@.subrange(a as int, s@.len() as int),
            trim_end_by(trim_start_by(s@, p), p) == trim_end_by(s@.subrange(a as int, b as int), p),
        decreases b - a,
    {
        proof {
            lemma_trim_end_step(s@, p, a as int, b as int);
        }
        b = b - 1;
    }
    (a, b)
}

/// The predicate selecting the characters to strip: Unicode white space, or one character.
pub open spec fn strip_pred(ws_only: bool, c: char) -> spec_fn(char) -> bool {
    if ws_only {
        ws()
    } else {
        |x: char| x == c
    }
}

fn strip_test(ws_only: bool, c: char, x: char) -> (b: bool)
    ensures
        b == (strip_pred(ws_only, c))(x),
{
    if ws_only {
        is_whitespace(x)
    } else {
        x == c
    }
}

/// `str::trim` on a character sequence.
pub fn trim_chars(s: &[char]) -> (r: Vec<char>)
    ensures
        r@ == trim(s@),
{
    let (a, b) = trim_bounds(s, true, ' ');
    sub_vec(s, a, b)
}

/// `str::trim_end_matches(c)` on a character sequence.
pub fn trim_end_char(s: &[char], c: char) -> (r: Vec<char>)
    ensures
        r@ == trim_end_by(s@, strip_pred(false, c)),
{
    let ghost p = strip_pred(false, c);
    let mut b: usize = s.len();
    assert(s@.subrange(0, s@.len() as int) =~= s@);
    while b > 0 && s[b - 1] == c
        invariant
            b <= s@.len(),
            p == strip_pred(false, c),
            trim_end_by(s@, p) == trim_end_by(s@.subrange(0, b as int), p),
        decreases b,
    {
        proof {
            lemma_trim_end_step(s@, p, 0, b as int);
        }
        b = b - 1;
    }
    sub_vec(s, 0, b)
}

/// `str::trim` on a string slice.
pub fn trim_str(s: &str) -> (r: Vec<char>)
    ensures
        r@ == trim(s@),
{
    let v = chars_of(s);
    trim_chars(v.as_slice())
}

} // verus!

verus! {

// ---------------------------------------------------------------------------
// Searching for one character
// ---------------------------------------------------------------------------

/// Index of the first `c` in `s`, or `s.len()` when there is none.
pub open spec fn index_of(s: Seq<char>, c: char) -> nat
    decreases s.len(),
{
    if s.len() == 0 {
        0
    } else if s[0] == c {
        0
    } else {
        1 + index_of(s.drop_first(), c)
    }
}

pub proof fn lemma_index_of(s: Seq<char>, c: char)
    ensures
        index_of(s, c) <= s.len(),
        forall|j: int| 0 <= j < index_of(s, c) ==> s[j] != c,
        index_of(s, c) < s.len() ==> s[index_of(s, c) as int] == c,
    decreases s.len(),
{
    if s.len() > 0 && s[0] != c {
        lemma_index_of(s.drop_first(), c);
        assert forall|j: int| 0 <= j < index_of(s, c) implies s[j] != c by {
            if j > 0 {
                assert(s[j] == s.drop_first()[j - 1]);
            }
        }
    }
}

pub proof fn lemma_index_of_unique(s: Seq<char>, c: char, k: int)
    requires
        0 <= k <= s.len(),
        forall|j: int| 0 <= j < k ==> s[j] != c,
        k < s.len() ==> s[k] == c,
    ensures
        index_of(s, c) == k,
    decreases s.len(),
{
    if s.len() > 0 && s[0] != c {
        assert forall|j: int| 0 <= j < k - 1 implies s.drop_first()[j] != c by {
            assert(s.drop_first()[j] == s[j + 1]);
        }
        if k - 1 < s.drop_first().len() {
            assert(s.drop_first()[k - 1] == s[k]);
        }
        lemma_index_of_unique(s.drop_first(), c, k - 1);
    }
}

/// Index of the first `c` in `s[from..]`, as a position in `s`, or `s.len()`.
pub fn find_char(s: &[char], c: char, from: usize) -> (r: usize)
    requires
        from <= s@.len(),
    ensures
        r == from + index_of(s@.subrange(from as int, s@.len() as int), c),
        r <= s@.len(),
{
    let ghost t = s@.subrange(from as int, s@.len() as int);
    let mut i = from;
    while i < s.len() && s[i] != c
        invariant
            from <= i <= s@.len(),
            t == s@.subrange(from as int, s@.len() as int),
            forall|j: int| from <= j < i ==> s@[j] != c,
        decreases s@.len() - i,
    {
        i = i + 1;
    }
    proof {
        assert forall|j: int| 0 <= j < i - from implies t[j] != c by {
            assert(t[j] == s@[from + j]);
        }
        if i < s@.len() {
            assert(t[i - from] == s@[i as int]);
        }
        lemma_index_of_unique(t, c, i - from);
    }
    i
}

/// `str::split_once(c)`: the text before and after the first `c`.
pub open spec fn split_once(s: Seq<char>, c: char) -> Option<(Seq<char>, Seq<char>)> {
    let k = index_of(s, c);
    if k < s.len() {
        Some((s.subrange(0, k as int), s.subrange(k + 1 as int, s.len() as int)))
    } else {
        None
    }
}

pub fn split_once_exec(s: &[char], c: char) -> (r: Option<(Vec<char>, Vec<char>)>)
    ensures
        match r {
            Some((a, b)) => split_once(s@, c) == Some((a@, b@)),
            None => split_once(s@, c) is None,
        },
{
    let k = find_char(s, c, 0);
    assert(s@.subrange(0, s@.len() as int) =~= s@);
    if k < s.len() {
        let a = sub_vec(s, 0, k);
        let b = sub_vec(s, k + 1, s.len());
        Some((a, b))
    } else {
        None
    }
}

// ---------------------------------------------------------------------------
// Lines
// ---------------------------------------------------------------------------

/// A line with the `'\r'` of a `"\r\n"` ending removed.
pub open spec fn strip_cr(l: Seq<char>) -> Seq<char> {
    if l.len() > 0 && l.last() == '\r' {
        l.drop_last()
    } else {
        l
    }
}

/// `str::lines`: split at `'\n'`, each `"\r\n"` ending counting as one, with
/// no empty line after a final line ending; a `'\r'` not followed by `'\n'`
/// stays in the line.
pub open spec fn lines(s: Seq<char>) -> Seq<Seq<char>>
    decreases s.len(),
{
    if s.len() == 0 {
        seq![]
    } else {
        let k = index_of(s, '\n');
        if k >= s.len() {
            seq![s]
        } else {
            seq![strip_cr(s.subrange(0, k as int))] + lines(s.subrange(k + 1 as int, s.len() as int))
        }
    }
}

pub open spec fn views(v: Seq<Vec<char>>) -> Seq<Seq<char>> {
    v.map_values(|l: Vec<char>| l@)
}

fn strip_cr_exec(l: Vec<char>) -> (r: Vec<char>)
    ensures
        r@ == strip_cr(l@),
{
    let mut l = l;
    if l.len() > 0 && l[l.len() - 1] == '\r' {
        l.pop();
    }
    l
}

/// The lines of `s`, as `str::lines` yields them.
pub fn lines_of(s: &[char]) -> (r: Vec<Vec<char>>)
    ensures
        views(r@) == lines(s@),
{
    let mut out: Vec<Vec<char>> = Vec::new();
    let mut start: usize = 0;
    assert(s@.subrange(0, s@.len() as int) =~= s@);
    while start < s.len()
        invariant
            start <= s@.len(),
            lines(s@) == views(out@) + lines(s@.subrange(start as int, s@.len() as int)),
        decreases s@.len() - start,
    {
        let ghost t = s@.subrange(start as int, s@.len() as int);
        let k = find_char(s, '\n', start);
        proof {
            lemma_index_of(t, '\n');
        }
        if k < s.len() {
            let line = strip_cr_exec(sub_vec(s, start, k));
            proof {
                assert(t.subrange(0, k - start) =~= s@.subrange(start as int, k as int));
                assert(t.subrange(k - start + 1, t.len() as int) =~= s@.subrange(k + 1, s@.len() as int));
            }
            out.push(line);
            assert(views(out@) =~= views(out@.drop_last()).push(line@));
            start = k + 1;
        } else {
            let line = sub_vec(s, start, s.len());
            out.push(line);
            assert(views(out@) =~= views(out@.drop_last()).push(line@));
            start = s.len();
            assert(s@.subrange(start as int, s@.len() as int) =~= Seq::<char>::empty());
        }
    }
    assert(s@.subrange(start as int, s@.len() as int) =~= Seq::<char>::empty());
    assert(views(out@) + Seq::<Seq<char>>::empty() =~= views(out@));
    out
}

} // verus!

verus! {

// ---------------------------------------------------------------------------
// Splitting into fields
// ---------------------------------------------------------------------------

/// `str::split` with a character predicate: the pieces between separators,
/// empty ones included (always at least one piece).
pub open spec fn split_by(s: Seq<char>, p: spec_fn(char) -> bool) -> Seq<Seq<char>>
    decreases s.len(),
{
    if s.len() == 0 {
        seq![Seq::<char>::empty()]
    } else {
        let prev = split_by(s.drop_last(), p);
        if p(s.last()) {
            prev.push(Seq::<char>::empty())
        } else {
            prev.update(prev.len() - 1, prev.last().push(s.last()))
        }
    }
}

pub proof fn lemma_split_by_nonempty(s: Seq<char>, p: spec_fn(char) -> bool)
    ensures
        split_by(s, p).len() >= 1,
    decreases s.len(),
{
    if s.len() > 0 {
        lemma_split_by_nonempty(s.drop_last(), p);
    }
}

/// The non-empty pieces (`split(..).filter(|x| !x.is_empty())`, and
/// `str::split_whitespace` for the white-space predicate).
pub open spec fn fields_by(s: Seq<char>, p: spec_fn(char) -> bool) -> Seq<Seq<char>> {
    split_by(s, p).filter(|x: Seq<char>| x.len() > 0)
}

/// Pieces joined with one separator character between consecutive pieces.
pub open spec fn join(parts: Seq<Seq<char>>, sep: char) -> Seq<char>
    decreases parts.len(),
{
    if parts.len() == 0 {
        Seq::<char>::empty()
    } else if parts.len() == 1 {
        parts[0]
    } else {
        join(parts.drop_last(), sep).push(sep) + parts.last()
    }
}

/// Each piece of `split_by(s, p)` holds only characters that `p` does not
/// select, and they satisfy `q` when every such character of `s` does.
pub proof fn lemma_split_by_chars(s: Seq<char>, p: spec_fn(char) -> bool, q: spec_fn(char) -> bool)
    requires
        forall|i: int| 0 <= i < s.len() && !p(s[i]) ==> q(s[i]),
    ensures
        forall|k: int, j: int|
            0 <= k < split_by(s, p).len() && 0 <= j < split_by(s, p)[k].len() ==> !p(
                #[trigger] split_by(s, p)[k][j],
            ) && q(split_by(s, p)[k][j]),
    decreases s.len(),
{
    lemma_split_by_nonempty(s, p);
    if s.len() > 0 {
        let t = s.drop_last();
        assert forall|i: int| 0 <= i < t.len() && !p(t[i]) implies q(t[i]) by {
            assert(t[i] == s[i]);
        }
        lemma_split_by_chars(t, p, q);
        lemma_split_by_nonempty(t, p);
        let prev = split_by(t, p);
        let r = split_by(s, p);
        assert forall|k: int, j: int| 0 <= k < r.len() && 0 <= j < r[k].len() implies !p(
            #[trigger] r[k][j],
        ) && q(r[k][j]) by {
            if p(s.last()) {
                assert(r == prev.push(Seq::<char>::empty()));
                if k < prev.len() {
                    assert(r[k] == prev[k]);
                }
            } else {
                assert(r == prev.update(prev.len() - 1, prev.last().push(s.last())));
                if k < prev.len() - 1 {
                    assert(r[k] == prev[k]);
                } else {
                    assert(r[k] == prev.last().push(s.last()));
                    if j < prev.last().len() {
                        assert(r[k][j] == prev[prev.len() - 1][j]);
                    } else {
                        assert(r[k][j] == s[s.len() - 1]);
                    }
                }
            }
        }
    }
}

/// The pieces of `fields_by(s, p)` are non-empty and hold only characters
/// that `p` does not select, each satisfying `q` when every such character
/// of `s` does.
pub proof fn lemma_fields_by_chars(s: Seq<char>, p: spec_fn(char) -> bool, q: spec_fn(char) -> bool)
    requires
        forall|i: int| 0 <= i < s.len() && !p(s[i]) ==> q(s[i]),
    ensures
        forall|k: int| 0 <= k < fields_by(s, p).len() ==> #[trigger] fields_by(s, p)[k].len() > 0,
        forall|k: int, j: int|
            0 <= k < fields_by(s, p).len() && 0 <= j < fields_by(s, p)[k].len() ==> !p(
                #[trigger] fields_by(s, p)[k][j],
            ) && q(fields_by(s, p)[k][j]),
{
    lemma_split_by_chars(s, p, q);
    let all = split_by(s, p);
    let keep = |x: Seq<char>| x.len() > 0;
    let f = fields_by(s, p);
    assert(f == all.filter(keep));
    assert forall|k: int| 0 <= k < f.len() implies #[trigger] f[k].len() > 0 by {
        all.lemma_filter_pred(keep, k);
    }
    assert forall|k: int, j: int| 0 <= k < f.len() && 0 <= j < f[k].len() implies !p(
        #[trigger] f[k][j],
    ) && q(f[k][j]) by {
        assert(f.contains(f[k]));
        all.lemma_filter_contains_rev(keep, f[k]);
        let idx = choose|idx: int| 0 <= idx < all.len() && all[idx] == f[k];
        assert(all[idx][j] == f[k][j]);
    }
}

/// Joining non-empty pieces that hold no separator, each character
/// satisfying `q`: the result holds only separators and such characters,
/// neither begins nor ends with a separator, and never has two in a row.
pub proof fn lemma_join_shape(parts: Seq<Seq<char>>, sep: char, q: spec_fn(char) -> bool)
    requires
        forall|k: int| 0 <= k < parts.len() ==> #[trigger] parts[k].len() > 0,
        forall|k: int, j: int|
            0 <= k < parts.len() && 0 <= j < parts[k].len() ==> #[trigger] parts[k][j] != sep && q(
                parts[k][j],
            ),
    ensures
        (join(parts, sep).len() == 0) == (parts.len() == 0),
        forall|i: int| 0 <= i < join(parts, sep).len() ==> #[trigger] join(parts, sep)[i] == sep || q(join(parts, sep)[i]),
        join(parts, sep).len() > 0 ==> join(parts, sep)[0] != sep && join(parts, sep).last() != sep,
        forall|i: int|
            0 <= i < join(parts, sep).len() - 1 ==> !(#[trigger] join(parts, sep)[i] == sep && join(
                parts,
                sep,
            )[i + 1] == sep),
    decreases parts.len(),
{
    let r = join(parts, sep);
    if parts.len() == 0 {
    } else if parts.len() == 1 {
        assert(r == parts[0]);
        assert forall|i: int| 0 <= i < r.len() implies #[trigger] r[i] == sep || q(r[i]) by {
            assert(r[i] == parts[0][i]);
        }
        assert(r[0] == parts[0][0]);
        assert(r.last() == parts[0][r.len() - 1]);
        assert forall|i: int| 0 <= i < r.len() - 1 implies !(#[trigger] r[i] == sep && r[i + 1] == sep) by {
            assert(r[i] == parts[0][i]);
        }
    } else {
        let init = parts.drop_last();
        let last = parts.last();
        assert forall|k: int| 0 <= k < init.len() implies #[trigger] init[k].len() > 0 by {
            assert(init[k] == parts[k]);
        }
        assert forall|k: int, j: int| 0 <= k < init.len() && 0 <= j < init[k].len() implies #[trigger] init[k][j]
            != sep && q(init[k][j]) by {
            assert(init[k] == parts[k]);
        }
        lemma_join_shape(init, sep, q);
        let a = join(init, sep);
        assert(r == a.push(sep) + last);
        let n = a.len();
        assert(last == parts[parts.len() - 1]);
        assert(last.len() > 0);
        assert forall|i: int| 0 <= i < r.len() implies #[trigger] r[i] == sep || q(r[i]) by {
            if i < n {
                assert(r[i] == a[i]);
            } else if i > n {
                assert(r[i] == last[i - n - 1]);
                assert(last[i - n - 1] == parts[parts.len() - 1][i - n - 1]);
            }
        }
        assert(r[0] == a[0]);
        assert(r.last() == last[last.len() - 1]);
        assert(last[last.len() - 1] == parts[parts.len() - 1][last.len() - 1]);
        assert forall|i: int| 0 <= i < r.len() - 1 implies !(#[trigger] r[i] == sep && r[i + 1] == sep) by {
            if i < n - 1 {
                assert(r[i] == a[i]);
                assert(r[i + 1] == a[i + 1]);
            } else if i == n - 1 {
                assert(r[i] == a[n - 1]);
                assert(a[n - 1] == a.last());
            } else if i == n {
                assert(r[i + 1] == last[0]);
                assert(last[0] == parts[parts.len() - 1][0]);
            } else {
                assert(r[i] == last[i - n - 1]);
                assert(last[i - n - 1] == parts[parts.len() - 1][i - n - 1]);
            }
        }
    }
}

/// Text holding no separator is one piece.
proof fn lemma_split_by_no_sep(s: Seq<char>, p: spec_fn(char) -> bool)
    requires
        forall|i: int| 0 <= i < s.len() ==> !p(#[trigger] s[i]),
    ensures
        split_by(s, p) == seq![s],
    decreases s.len(),
{
    if s.len() > 0 {
        let t = s.drop_last();
        assert forall|i: int| 0 <= i < t.len() implies !p(#[trigger] t[i]) by {
            assert(t[i] == s[i]);
        }
        lemma_split_by_no_sep(t, p);
        assert(!p(s[s.len() - 1]));
        assert(t.push(s.last()) =~= s);
        assert(seq![t].update(0, t.push(s.last())) =~= seq![s]);
    } else {
        assert(s =~= Seq::<char>::empty());
    }
}

/// A separator followed by text holding none starts one more piece, which
/// is that text.
proof fn lemma_split_by_after_sep(x: Seq<char>, sep: char, y: Seq<char>, p: spec_fn(char) -> bool)
    requires
        p(sep),
        forall|i: int| 0 <= i < y.len() ==> !p(#[trigger] y[i]),
    ensures
        split_by(x.push(sep) + y, p) == split_by(x, p).push(y),
    decreases y.len(),
{
    let z = x.push(sep) + y;
    if y.len() == 0 {
        assert(z =~= x.push(sep));
        assert(z.drop_last() =~= x);
        assert(y =~= Seq::<char>::empty());
    } else {
        let y0 = y.drop_last();
        assert forall|i: int| 0 <= i < y0.len() implies !p(#[trigger] y0[i]) by {
            assert(y0[i] == y[i]);
        }
        lemma_split_by_after_sep(x, sep, y0, p);
        assert(z.drop_last() =~= x.push(sep) + y0);
        assert(z.last() == y[y.len() - 1]);
        let prev = split_by(x, p).push(y0);
        assert(prev.last() == y0);
        assert(y0.push(z.last()) =~= y);
        assert(prev.update(prev.len() - 1, prev.last().push(z.last())) =~= split_by(x, p).push(y));
    }
}

/// Splitting pieces joined with a separator that none of them holds gives
/// the pieces back.
pub proof fn lemma_split_by_join(parts: Seq<Seq<char>>, sep: char, p: spec_fn(char) -> bool)
    requires
        parts.len() > 0,
        p(sep),
        forall|k: int, j: int| 0 <= k < parts.len() && 0 <= j < parts[k].len() ==> !p(#[trigger] parts[k][j]),
    ensures
        split_by(join(parts, sep), p) == parts,
    decreases parts.len(),
{
    if parts.len() == 1 {
        assert forall|i: int| 0 <= i < parts[0].len() implies !p(#[trigger] parts[0][i]) by {}
        lemma_split_by_no_sep(parts[0], p);
        assert(seq![parts[0]] =~= parts);
    } else {
        let init = parts.drop_last();
        assert forall|k: int, j: int| 0 <= k < init.len() && 0 <= j < init[k].len() implies !p(#[trigger] init[k][j]) by {
            assert(init[k] == parts[k]);
        }
        lemma_split_by_join(init, sep, p);
        let last = parts.last();
        assert forall|i: int| 0 <= i < last.len() implies !p(#[trigger] last[i]) by {
            assert(last == parts[parts.len() - 1]);
        }
        lemma_split_by_after_sep(join(init, sep), sep, last, p);
        assert(init.push(last) =~= parts);
    }
}

/// The fields of non-empty pieces joined with a separator that none of
/// them holds are the pieces.
pub proof fn lemma_fields_by_join(parts: Seq<Seq<char>>, sep: char, p: spec_fn(char) -> bool)
    requires
        p(sep),
        forall|k: int| 0 <= k < parts.len() ==> #[trigger] parts[k].len() > 0,
        forall|k: int, j: int| 0 <= k < parts.len() && 0 <= j < parts[k].len() ==> !p(#[trigger] parts[k][j]),
    ensures
        fields_by(join(parts, sep), p) == parts,
{
    let keep = |x: Seq<char>| x.len() > 0;
    if parts.len() == 0 {
        assert(join(parts, sep) =~= Seq::<char>::empty());
        assert(split_by(Seq::<char>::empty(), p) == seq![Seq::<char>::empty()]);
        reveal_with_fuel(Seq::<_>::filter, 2);
        assert(seq![Seq::<char>::empty()].drop_last() =~= Seq::<Seq<char>>::empty());
        assert(seq![Seq::<char>::empty()].filter(keep) =~= parts);
    } else {
        lemma_split_by_join(parts, sep, p);
        lemma_filter_keeps_all(parts);
    }
}

/// Keeping the non-empty pieces of non-empty pieces keeps them all.
proof fn lemma_filter_keeps_all(parts: Seq<Seq<char>>)
    requires
        forall|k: int| 0 <= k < parts.len() ==> #[trigger] parts[k].len() > 0,
    ensures
        parts.filter(|x: Seq<char>| x.len() > 0) == parts,
    decreases parts.len(),
{
    reveal_with_fuel(Seq::<_>::filter, 1);
    if parts.len() > 0 {
        let init = parts.drop_last();
        assert forall|k: int| 0 <= k < init.len() implies #[trigger] init[k].len() > 0 by {
            assert(init[k] == parts[k]);
        }
        lemma_filter_keeps_all(init);
        assert(parts.last().len() > 0);
        assert(init.push(parts.last()) =~= parts);
    }
}

/// `str::split` on the characters that `strip_pred(ws_only, sep)` selects.
pub fn split_exec(s: &[char], ws_only: bool, sep: char) -> (r: Vec<Vec<char>>)
    ensures
        views(r@) == split_by(s@, strip_pred(ws_only, sep)),
        r@.len() >= 1,
{
    let ghost p = strip_pred(ws_only, sep);
    let mut parts: Vec<Vec<char>> = Vec::new();
    let mut cur: Vec<char> = Vec::new();
    let mut i: usize = 0;
    assert(s@.take(0) =~= Seq::<char>::empty());
    assert(views(parts@).push(cur@) =~= seq![Seq::<char>::empty()]);
    while i < s.len()
        invariant
            i <= s@.len(),
            p == strip_pred(ws_only, sep),
            split_by(s@.take(i as int), p) == views(parts@).push(cur@),
        decreases s@.len() - i,
    {
        let c = s[i];
        let ghost prev = split_by(s@.take(i as int), p);
        assert(s@.take(i + 1).drop_last() =~= s@.take(i as int));
        if strip_test(ws_only, sep, c) {
            let done = cur;
            parts.push(done);
            cur = Vec::new();
            assert(views(parts@) =~= views(parts@.drop_last()).push(done@));
            assert(views(parts@).push(cur@) =~= prev.push(Seq::<char>::empty()));
        } else {
            cur.push(c);
            assert(views(parts@).push(cur@) =~= prev.update(prev.len() - 1, prev.last().push(c)));
        }
        i = i + 1;
    }
    assert(s@.take(s@.len() as int) =~= s@);
    let last = cur;
    parts.push(last);
    assert(views(parts@) =~= views(parts@.drop_last()).push(last@));
    parts
}

/// The non-empty pieces of `split_exec`.
pub fn fields_exec(s: &[char], ws_only: bool, sep: char) -> (r: Vec<Vec<char>>)
    ensures
        views(r@) == fields_by(s@, strip_pred(ws_only, sep)),
{
    let parts = split_exec(s, ws_only, sep);
    let ghost all = views(parts@);
    let ghost keep = |x: Seq<char>| x.len() > 0;
    let mut out: Vec<Vec<char>> = Vec::new();
    let mut i: usize = 0;
    assert(all.take(0).filter(keep) =~= Seq::<Seq<char>>::empty()) by {
        reveal_with_fuel(Seq::<_>::filter, 1);
    }
    while i < parts.len()
        invariant
            i <= parts@.len(),
            all == views(parts@),
            keep == (|x: Seq<char>| x.len() > 0),
            views(out@) == all.take(i as int).filter(keep),
        decreases parts@.len() - i,
    {
        reveal_with_fuel(Seq::<_>::filter, 1);
        assert(all.take(i + 1).drop_last() =~= all.take(i as int));
        assert(all[i as int] == parts@[i as int]@);
        if parts[i].len() > 0 {
            let piece = sub_vec(parts[i].as_slice(), 0, parts[i].len());
            assert(piece@ =~= parts@[i as int]@);
            out.push(piece);
            assert(views(out@) =~= views(out@.drop_last()).push(piece@));
        }
        i = i + 1;
    }
    assert(all.take(parts@.len() as int) =~= all);
    out
}

/// Pieces joined with `sep` between consecutive ones.
pub fn join_exec(parts: &Vec<Vec<char>>, sep: char) -> (r: Vec<char>)
    ensures
        r@ == join(views(parts@), sep),
{
    let ghost all = views(parts@);
    let mut out: Vec<char> = Vec::new();
    let mut i: usize = 0;
    assert(all.take(0) =~= Seq::<Seq<char>>::empty());
    while i < parts.len()
        invariant
            i <= parts@.len(),
            all == views(parts@),
            out@ == join(all.take(i as int), sep),
        decreases parts@.len() - i,
    {
        assert(all.take(i + 1).drop_last() =~= all.take(i as int));
        assert(all[i as int] == parts@[i as int]@);
        let ghost before = out@;
        if i > 0 {
            out.push(sep);
        }
        let mut k: usize = 0;
        while k < parts[i].len()
            invariant
                i < parts@.len(),
                k <= parts@[i as int]@.len(),
                out@ == (if i > 0 { before.push(sep) } else { before }) + parts@[i as int]@.take(k as int),
            decreases parts@[i as int]@.len() - k,
        {
            out.push(parts[i][k]);
            k = k + 1;
            assert(out@ =~= (if i > 0 { before.push(sep) } else { before }) + parts@[i as int]@.take(k as int));
        }
        assert(parts@[i as int]@.take(k as int) =~= parts@[i as int]@);
        if i == 0 {
            assert(all.take(1) =~= seq![all[0]]);
            assert(out@ =~= join(all.take(1), sep));
        }
        i = i + 1;
    }
    assert(all.take(parts@.len() as int) =~= all);
    out
}

// ---------------------------------------------------------------------------
// Quoting and replacing
// ---------------------------------------------------------------------------

/// `s.replace('\'', "''")`: every single quote doubled, for a PowerShell
/// single-quoted string.
pub open spec fn escape_quotes(s: Seq<char>) -> Seq<char>
    decreases s.len(),
{
    if s.len() == 0 {
        s
    } else if s.last() == '\'' {
        escape_quotes(s.drop_last()) + seq!['\'', '\'']
    } else {
        escape_quotes(s.drop_last()).push(s.last())
    }
}

/// Appends `escape_quotes(t)`.
pub fn push_escaped(out: &mut String, t: &[char])
    ensures
        final(out)@ == old(out)@ + escape_quotes(t@),
{
    let mut i: usize = 0;
    assert(t@.take(0) =~= Seq::<char>::empty());
    assert(old(out)@ + escape_quotes(Seq::<char>::empty()) =~= old(out)@);
    while i < t.len()
        invariant
            i <= t@.len(),
            out@ == old(out)@ + escape_quotes(t@.take(i as int)),
        decreases t@.len() - i,
    {
        assert(t@.take(i + 1).drop_last() =~= t@.take(i as int));
        let c = t[i];
        if c == '\'' {
            push_char(out, '\'');
            push_char(out, '\'');
            assert(out@ =~= old(out)@ + escape_quotes(t@.take(i + 1)));
        } else {
            push_char(out, c);
            assert(out@ =~= old(out)@ + escape_quotes(t@.take(i + 1)));
        }
        i = i + 1;
    }
    assert(t@.take(t@.len() as int) =~= t@);
}

/// `str::replace(from, to)` for a non-empty `from`: matches taken left to
/// right without overlapping.
pub open spec fn replace(s: Seq<char>, from: Seq<char>, to: Seq<char>) -> Seq<char>
    decreases s.len(),
{
    if s.len() == 0 || from.len() == 0 {
        s
    } else if starts_with(s, from) {
        to + replace(s.subrange(from.len() as int, s.len() as int), from, to)
    } else {
        seq![s[0]] + replace(s.drop_first(), from, to)
    }
}

pub fn replace_exec(s: &[char], from: &[char], to: &[char]) -> (r: Vec<char>)
    requires
        from@.len() > 0,
    ensures
        r@ == replace(s@, from@, to@),
{
    let mut out: Vec<char> = Vec::new();
    let mut i: usize = 0;
    assert(s@.subrange(0, s@.len() as int) =~= s@);
    while i < s.len()
        invariant
            i <= s@.len(),
            from@.len() > 0,
            replace(s@, from@, to@) == out@ + replace(s@.subrange(i as int, s@.len() as int), from@, to@),
        decreases s@.len() - i,
    {
        let ghost t = s@.subrange(i as int, s@.len() as int);
        if matches_at(s, from, i) {
            assert(t.subrange(0, from@.len() as int) =~= s@.subrange(i as int, i + from@.len()));
            assert(t.subrange(from@.len() as int, t.len() as int) =~= s@.subrange(i + from@.len(), s@.len() as int));
            let mut k: usize = 0;
            let ghost before = out@;
            while k < to.len()
                invariant
                    k <= to@.len(),
                    out@ == before + to@.take(k as int),
                decreases to@.len() - k,
            {
                out.push(to[k]);
                k = k + 1;
                assert(out@ =~= before + to@.take(k as int));
            }
            assert(to@.take(k as int) =~= to@);
            assert(before + (to@ + replace(s@.subrange(i + from@.len(), s@.len() as int), from@, to@))
                =~= out@ + replace(s@.subrange(i + from@.len(), s@.len() as int), from@, to@));
            i = i + from.len();
        } else {
            assert(!starts_with(t, from@)) by {
                if from@.len() <= t.len() {
                    assert(t.subrange(0, from@.len() as int) =~= s@.subrange(i as int, i + from@.len()));
                }
            }
            assert(t.drop_first() =~= s@.subrange(i + 1, s@.len() as int));
            let ghost before = out@;
            out.push(s[i]);
            assert(before + (seq![s@[i as int]] + replace(t.drop_first(), from@, to@))
                =~= out@ + replace(t.drop_first(), from@, to@));
            i = i + 1;
        }
    }
    assert(out@ + replace(s@.subrange(i as int, s@.len() as int), from@, to@) =~= out@);
    out
}

// ---------------------------------------------------------------------------
// ASCII case
// ---------------------------------------------------------------------------

pub open spec fn ascii_lower(c: char) -> char {
    if 'A' <= c && c <= 'Z' {
        ((c as int) + 32) as char
    } else {
        c
    }
}

pub open spec fn ascii_lower_seq(s: Seq<char>) -> Seq<char> {
    s.map_values(|c: char| ascii_lower(c))
}

/// `char::to_ascii_lowercase`.
pub fn ascii_lower_exec(c: char) -> (r: char)
    ensures
        r == ascii_lower(c),
{
    if 'A' <= c && c <= 'Z' {
        let u: u32 = c as u32;
        let b: u8 = (u + 32) as u8;
        b as char
    } else {
        c
    }
}

/// `str::to_ascii_lowercase`.
pub fn ascii_lower_vec(s: &[char]) -> (r: Vec<char>)
    ensures
        r@ == ascii_lower_seq(s@),
{
    let mut r: Vec<char> = Vec::new();
    let mut i: usize = 0;
    while i < s.len()
        invariant
            i <= s@.len(),
            r@ == ascii_lower_seq(s@.take(i as int)),
        decreases s@.len() - i,
    {
        r.push(ascii_lower_exec(s[i]));
        i = i + 1;
        assert(r@ =~= ascii_lower_seq(s@.take(i as int)));
    }
    assert(s@.take(s@.len() as int) =~= s@);
    r
}

/// `str::eq_ignore_ascii_case`.
pub fn eq_ignore_ascii_case(a: &[char], b: &[char]) -> (r: bool)
    ensures
        r == (ascii_lower_seq(a@) == ascii_lower_seq(b@)),
{
    let la = ascii_lower_vec(a);
    let lb = ascii_lower_vec(b);
    if la.len() != lb.len() {
        return false;
    }
    let mut i: usize = 0;
    while i < la.len()
        invariant
            i <= la@.len(),
            la@.len() == lb@.len(),
            la@ == ascii_lower_seq(a@),
            lb@ == ascii_lower_seq(b@),
            forall|j: int| 0 <= j < i ==> la@[j] == lb@[j],
        decreases la@.len() - i,
    {
        if la[i] != lb[i] {
            assert(la@[i as int] != lb@[i as int]);
            return false;
        }
        i = i + 1;
    }
    assert(la@ =~= lb@);
    true
}

/// Whether two character sequences are equal.
pub fn chars_eq(a: &[char], b: &[char]) -> (r: bool)
    ensures
        r == (a@ == b@),
{
    if a.len() != b.len() {
        return false;
    }
    let mut i: usize = 0;
    while i < a.len()
        invariant
            i <= a@.len(),
            a@.len() == b@.len(),
            forall|j: int| 0 <= j < i ==> a@[j] == b@[j],
        decreases a@.len() - i,
    {
        if a[i] != b[i] {
            return false;
        }
        i = i + 1;
    }
    assert(a@ =~= b@);
    true
}

} // verus!

verus! {

// ---------------------------------------------------------------------------
// Parsing unsigned integers
// ---------------------------------------------------------------------------

/// `str::parse` for an unsigned integer type whose largest value is `max`:
/// an optional `'+'`, then at least one ASCII digit, and a value that fits.
pub open spec fn parse_uint(s: Seq<char>, max: nat) -> Option<nat> {
    let d = if s.len() > 0 && s[0] == '+' { s.drop_first() } else { s };
    if d.len() > 0 && all_digits(d) && digits_value(d) <= max {
        Some(digits_value(d))
    } else {
        None
    }
}

proof fn lemma_digits_value_prefix(s: Seq<char>, i: int)
    requires
        0 <= i <= s.len(),
        all_digits(s),
    ensures
        digits_value(s.take(i)) <= digits_value(s),
    decreases s.len(),
{
    if i < s.len() {
        assert(all_digits(s.drop_last())) by {
            assert forall|j: int| 0 <= j < s.drop_last().len() implies is_digit(
                #[trigger] s.drop_last()[j],
            ) by {
                assert(s.drop_last()[j] == s[j]);
            }
        }
        lemma_digits_value_prefix(s.drop_last(), i);
        assert(s.drop_last().take(i) =~= s.take(i));
    } else {
        assert(s.take(i) =~= s);
    }
}

/// Parses `s` as `str::parse` does for an unsigned type bounded by `max`.
pub fn parse_uint_exec(s: &[char], max: u64) -> (r: Option<u64>)
    ensures
        match r {
            Some(v) => parse_uint(s@, max as nat) == Some(v as nat),
            None => parse_uint(s@, max as nat) is None,
        },
{
    let start: usize = if s.len() > 0 && s[0] == '+' { 1 } else { 0 };
    let ghost d = if s@.len() > 0 && s@[0] == '+' { s@.drop_first() } else { s@ };
    assert(d =~= s@.subrange(start as int, s@.len() as int));
    if start >= s.len() {
        return None;
    }
    let mut v: u64 = 0;
    let mut i: usize = start;
    assert(d.take(0) =~= Seq::<char>::empty());
    while i < s.len()
        invariant
            start <= i <= s@.len(),
            start < s@.len(),
            d == s@.subrange(start as int, s@.len() as int),
            d == (if s@.len() > 0 && s@[0] == '+' { s@.drop_first() } else { s@ }),
            forall|j: int| 0 <= j < i - start ==> is_digit(#[trigger] d[j]),
            v as nat == digits_value(d.take(i - start)),
            v <= max,
        decreases s@.len() - i,
    {
        let c = s[i];
        assert(d[i - start] == c);
        if !('0' <= c && c <= '9') {
            assert(!is_digit(d[i - start]));
            return None;
        }
        let dig: u64 = (c as u32 - 48) as u64;
        assert(d.take(i - start + 1).drop_last() =~= d.take(i - start));
        if dig > max || v > (max - dig) / 10 {
            proof {
                assert(v * 10 + dig > max) by (nonlinear_arith)
                    requires dig > max || v > (max - dig) / 10, dig <= 9;
                assert(digits_value(d.take(i - start + 1)) == v * 10 + dig);
                if all_digits(d) {
                    lemma_digits_value_prefix(d, i - start + 1);
                }
            }
            return None;
        }
        assert(v * 10 + dig <= max) by (nonlinear_arith)
            requires v <= (max - dig) / 10, dig <= max;
        v = v * 10 + dig;
        i = i + 1;
        assert(digits_value(d.take(i - start)) == digits_value(d.take(i - start - 1)) * 10 + dig);
    }
    assert(d.take(i - start) =~= d);
    Some(v)
}

/// `str::parse::<u64>` on a character sequence.
pub fn parse_u64(s: &[char]) -> (r: Option<u64>)
    ensures
        match r {
            Some(v) => parse_uint(s@, u64::MAX as nat) == Some(v as nat),
            None => parse_uint(s@, u64::MAX as nat) is None,
        },
{
    parse_uint_exec(s, u64::MAX)
}

/// `str::parse::<u32>` on a character sequence.
pub fn parse_u32(s: &[char]) -> (r: Option<u32>)
    ensures
        match r {
            Some(v) => parse_uint(s@, u32::MAX as nat) == Some(v as nat),
            None => parse_uint(s@, u32::MAX as nat) is None,
        },
{
    match parse_uint_exec(s, u32::MAX as u64) {
        Some(v) => Some(v as u32),
        None => None,
    }
}

} // verus!

verus! {

// ---------------------------------------------------------------------------
// Comparing with literals, signed and hexadecimal renderings
// ---------------------------------------------------------------------------

/// Whether the characters `d` spell exactly `s`.
pub fn eq_str(d: &[char], s: &str) -> (r: bool)
    ensures
        r == (d@ == s@),
{
    let t = chars_of(s);
    chars_eq(d, t.as_slice())
}

/// Decimal rendering of a signed integer: a `-` before the magnitude when negative.
pub open spec fn int_text(i: int) -> Seq<char> {
    if i < 0 {
        seq!['-'] + dec((-i) as nat)
    } else {
        dec(i as nat)
    }
}

/// Appends the decimal rendering of `v`.
pub fn push_int(s: &mut String, v: i64)
    ensures
        final(s)@ == old(s)@ + int_text(v as int),
{
    if v < 0 {
        push_char(s, '-');
        let m: u64 = if v == i64::MIN { 0x8000_0000_0000_0000u64 } else { (-v) as u64 };
        assert(m as int == -(v as int));
        push_dec(s, m);
        assert(final(s)@ =~= old(s)@ + int_text(v as int));
    } else {
        push_dec(s, v as u64);
    }
}

/// The lower-case hexadecimal digit for `d` (0..=15).
pub open spec fn hex_char(d: nat) -> char {
    if d < 10 {
        (48 + d) as char
    } else {
        (87 + d) as char
    }
}

/// `format!("{:04x}", n)`: four lower-case hexadecimal digits.
pub open spec fn hex4(n: u16) -> Seq<char> {
    seq![
        hex_char((n / 4096) as nat),
        hex_char(((n / 256) % 16) as nat),
        hex_char(((n / 16) % 16) as nat),
        hex_char((n % 16) as nat),
    ]
}

fn hex_digit(d: u16) -> (c: char)
    requires
        d < 16,
    ensures
        c == hex_char(d as nat),
{
    let b: u8 = if d < 10 { (48 + d) as u8 } else { (87 + d) as u8 };
    b as char
}

/// Appends `hex4(n)`.
pub fn push_hex4(s: &mut String, n: u16)
    ensures
        final(s)@ == old(s)@ + hex4(n),
{
    push_char(s, hex_digit(n / 4096));
    push_char(s, hex_digit((n / 256) % 16));
    push_char(s, hex_digit((n / 16) % 16));
    push_char(s, hex_digit(n % 16));
    assert(final(s)@ =~= old(s)@ + hex4(n));
}

} // verus!

verus! {

/// At most the first `n` characters of `s` (`s.chars().take(n)`).
pub open spec fn prefix_upto(s: Seq<char>, n: nat) -> Seq<char> {
    if s.len() <= n {
        s
    } else {
        s.take(n as int)
    }
}

/// The first `n` characters of `s`, or all of them when it is shorter.
pub fn take_chars(s: &str, n: usize) -> (r: String)
    ensures
        r@ == prefix_upto(s@, n as nat),
{
    let cs = chars_of(s);
    if cs.len() <= n {
        string_of(cs.as_slice())
    } else {
        let head = sub_vec(cs.as_slice(), 0, n);
        string_of(head.as_slice())
    }
}

} // verus!
