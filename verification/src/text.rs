//! Character-level text utilities shared by the parsers and formatters:
//! decimal rendering and parsing, substring search, and the line, word and
//! trim splits of `str`, each stated over `Seq<char>`.
use vstd::prelude::*;

verus! {

// ---------------------------------------------------------------------------
// Character classes
// ---------------------------------------------------------------------------

pub open spec fn is_digit(c: char) -> bool {
    '0' <= c && c <= '9'
}

pub open spec fn is_lower(c: char) -> bool {
    'a' <= c && c <= 'z'
}

pub open spec fn is_upper(c: char) -> bool {
    'A' <= c && c <= 'Z'
}

pub open spec fn is_ascii_alnum(c: char) -> bool {
    is_digit(c) || is_lower(c) || is_upper(c)
}

/// Whether `c` has the Unicode `White_Space` property, as `char::is_whitespace` decides:
/// tab through carriage return, space, next line, no-break space, ogham space mark,
/// en quad through hair space, line and paragraph separator, narrow no-break space,
/// medium mathematical space and ideographic space.
pub open spec fn unicode_whitespace(c: char) -> bool {
    let u = c as u32;
    ||| 0x09 <= u && u <= 0x0d
    ||| u == 0x20
    ||| u == 0x85
    ||| u == 0xa0
    ||| u == 0x1680
    ||| 0x2000 <= u && u <= 0x200a
    ||| u == 0x2028
    ||| u == 0x2029
    ||| u == 0x202f
    ||| u == 0x205f
    ||| u == 0x3000
}

/// Whether `c` is Unicode alphabetic or numeric, as `char::is_alphanumeric` decides.
pub uninterp spec fn unicode_alphanumeric(c: char) -> bool;

/// Whether `c` is white space, as `char::is_whitespace` decides (see
/// `unicode_whitespace`).
pub(crate) fn is_whitespace(c: char) -> (b: bool)
    ensures
        b == unicode_whitespace(c),
        (c == ' ' || c == '\t' || c == '\n' || c == '\r') ==> b,
        is_ascii_alnum(c) ==> !b,
{
    let u = c as u32;
    (0x09 <= u && u <= 0x0d) || u == 0x20 || u == 0x85 || u == 0xa0 || u == 0x1680 || (0x2000
        <= u && u <= 0x200a) || u == 0x2028 || u == 0x2029 || u == 0x202f || u == 0x205f || u
        == 0x3000
}

/// `char::is_alphanumeric`: Unicode `Alphabetic` or `Numeric`. Its documentation makes
/// every ASCII letter and digit alphanumeric, and no other ASCII character; the rest of
/// the Unicode table is left to the name.
#[verifier::external_body]
pub(crate) fn is_alphanumeric(c: char) -> (b: bool)
    ensures
        b == unicode_alphanumeric(c),
        (c as u32) < 128 ==> (b == is_ascii_alnum(c)),
{
    c.is_alphanumeric()
}

// ---------------------------------------------------------------------------
// Strings as character vectors
// ---------------------------------------------------------------------------

/// `String::push`: appends one character.
#[verifier::external_body]
pub(crate) fn push_char(s: &mut String, c: char)
    ensures
        final(s)@ == old(s)@.push(c),
{
    s.push(c);
}

/// The characters of a string slice, in order.
pub fn chars_of(s: &str) -> (v: Vec<char>)
    ensures
        v@ == s@,
{
    let mut v: Vec<char> = Vec::new();
    for c in it: s.chars()
        invariant
            v@ == it.seq().take(it.index()),
            it.seq() == s@,
    {
        v.push(c);
    }
    v
}

/// A `String` holding exactly the given characters.
pub fn string_of(v: &Vec<char>) -> (s: String)
    ensures
        s@ == v@,
{
    let mut s = String::new();
    let mut i: usize = 0;
    while i < v.len()
        invariant
            i <= v.len(),
            s@ == v@.take(i as int),
        decreases v.len() - i,
    {
        push_char(&mut s, v[i]);
        assert(v@.take(i as int).push(v@[i as int]) =~= v@.take(i as int + 1));
        i = i + 1;
    }
    assert(v@.take(v.len() as int) =~= v@);
    s
}

/// A `String` holding the characters of `head` followed by `v`.
pub fn string_after(head: &str, v: &Vec<char>) -> (s: String)
    ensures
        s@ == head@ + v@,
{
    let mut s = String::from_str(head);
    let mut i: usize = 0;
    while i < v.len()
        invariant
            i <= v.len(),
            s@ == head@ + v@.take(i as int),
        decreases v.len() - i,
    {
        push_char(&mut s, v[i]);
        assert(v@.take(i as int).push(v@[i as int]) =~= v@.take(i as int + 1));
        i = i + 1;
    }
    assert(v@.take(v.len() as int) =~= v@);
    s
}

/// Appends the characters of `v` to `s`.
pub fn append_chars(s: &mut String, v: &Vec<char>)
    ensures
        final(s)@ == old(s)@ + v@,
{
    let ghost start = s@;
    let mut i: usize = 0;
    while i < v.len()
        invariant
            i <= v.len(),
            s@ == start + v@.take(i as int),
        decreases v.len() - i,
    {
        push_char(s, v[i]);
        assert(v@.take(i as int).push(v@[i as int]) =~= v@.take(i as int + 1));
        i = i + 1;
    }
    assert(v@.take(v.len() as int) =~= v@);
}

// ---------------------------------------------------------------------------
// Decimal rendering
// ---------------------------------------------------------------------------

pub open spec fn digit_char(d: nat) -> char {
    ((48 + d) as u32) as char
}

/// The decimal digits of `n`, most significant first, without leading zeros.
pub open spec fn decimal(n: nat) -> Seq<char>
    decreases n,
{
    if n < 10 {
        seq![digit_char(n)]
    } else {
        decimal(n / 10).push(digit_char(n % 10))
    }
}

fn digit(d: u64) -> (c: char)
    requires
        d < 10,
    ensures
        c == digit_char(d as nat),
{
    match d {
        0 => '0',
        1 => '1',
        2 => '2',
        3 => '3',
        4 => '4',
        5 => '5',
        6 => '6',
        7 => '7',
        8 => '8',
        _ => '9',
    }
}

/// The decimal digits of `n`.
pub fn decimal_chars(n: u64) -> (v: Vec<char>)
    ensures
        v@ == decimal(n as nat),
    decreases n,
{
    if n < 10 {
        let mut v = Vec::new();
        v.push(digit(n));
        assert(v@ =~= seq![digit_char(n as nat)]);
        v
    } else {
        let mut v = decimal_chars(n / 10);
        v.push(digit(n % 10));
        v
    }
}

/// Appends the decimal digits of `n` to `s`.
pub fn append_decimal(s: &mut String, n: u64)
    ensures
        final(s)@ == old(s)@ + decimal(n as nat),
{
    let v = decimal_chars(n);
    append_chars(s, &v);
}

/// The text `true` or `false`, as `bool` displays.
pub open spec fn bool_text(b: bool) -> Seq<char> {
    if b { "true"@ } else { "false"@ }
}

pub fn append_bool(s: &mut String, b: bool)
    ensures
        final(s)@ == old(s)@ + bool_text(b),
{
    if b {
        s.append("true");
    } else {
        s.append("false");
    }
}

// ---------------------------------------------------------------------------
// Substring search
// ---------------------------------------------------------------------------

/// `t` occurs in `s` at position `i`.
pub open spec fn occurs_at(s: Seq<char>, t: Seq<char>, i: int) -> bool {
    0 <= i && i + t.len() <= s.len() && s.subrange(i, i + t.len()) == t
}

/// `t` occurs somewhere in `s`, as `str::contains` decides for a string pattern.
pub open spec fn has_sub(s: Seq<char>, t: Seq<char>) -> bool {
    exists|i: int| occurs_at(s, t, i)
}

/// `c` occurs in `s`.
pub open spec fn has_char(s: Seq<char>, c: char) -> bool {
    exists|i: int| 0 <= i < s.len() && s[i] == c
}

fn occurs_at_exec(s: &Vec<char>, t: &Vec<char>, i: usize) -> (b: bool)
    requires
        i + t.len() <= s.len(),
    ensures
        b == occurs_at(s@, t@, i as int),
{
    let mut j: usize = 0;
    while j < t.len()
        invariant
            i + t.len() <= s.len(),
            j <= t.len(),
            forall|k: int| 0 <= k < j ==> s@[i + k] == t@[k],
        decreases t.len() - j,
    {
        if s[i + j] != t[j] {
            assert(s@.subrange(i as int, i + t.len())[j as int] != t@[j as int]);
            return false;
        }
        j = j + 1;
    }
    assert(s@.subrange(i as int, i + t.len()) =~= t@);
    true
}

/// Whether `t` occurs in `s`.
pub fn contains_seq(s: &Vec<char>, t: &Vec<char>) -> (b: bool)
    ensures
        b == has_sub(s@, t@),
{
    if t.len() > s.len() {
        assert(forall|i: int| !occurs_at(s@, t@, i));
        return false;
    }
    let mut i: usize = 0;
    let last = s.len() - t.len();
    while i < last
        invariant
            t.len() <= s.len(),
            last == s.len() - t.len(),
            i <= last,
            forall|k: int| 0 <= k < i ==> !occurs_at(s@, t@, k),
        decreases last - i,
    {
        if occurs_at_exec(s, t, i) {
            return true;
        }
        i = i + 1;
    }
    if occurs_at_exec(s, t, last) {
        return true;
    }
    assert forall|k: int| !occurs_at(s@, t@, k) by {
        if 0 <= k && k + t.len() <= s.len() {
            assert(k <= last);
        }
    }
    false
}

/// `str::contains` with a string pattern.
pub fn str_contains(s: &str, t: &str) -> (b: bool)
    ensures
        b == has_sub(s@, t@),
{
    let sv = chars_of(s);
    let tv = chars_of(t);
    contains_seq(&sv, &tv)
}

/// Whether the character `c` occurs in `s`.
pub fn contains_char(s: &Vec<char>, c: char) -> (b: bool)
    ensures
        b == has_char(s@, c),
{
    let mut i: usize = 0;
    while i < s.len()
        invariant
            i <= s.len(),
            forall|k: int| 0 <= k < i ==> s@[k] != c,
        decreases s.len() - i,
    {
        if s[i] == c {
            return true;
        }
        i = i + 1;
    }
    false
}

/// Whether `t` is a prefix of `s`.
pub fn starts_with_seq(s: &Vec<char>, t: &Vec<char>) -> (b: bool)
    ensures
        b == t@.is_prefix_of(s@),
{
    if t.len() > s.len() {
        return false;
    }
    let r = occurs_at_exec(s, t, 0);
    assert(t@.is_prefix_of(s@) <==> occurs_at(s@, t@, 0));
    r
}

/// The characters of `s` from `lo` up to `hi`.
pub fn slice_chars(s: &Vec<char>, lo: usize, hi: usize) -> (v: Vec<char>)
    requires
        lo <= hi <= s.len(),
    ensures
        v@ == s@.subrange(lo as int, hi as int),
{
    let mut v: Vec<char> = Vec::new();
    let mut i = lo;
    while i < hi
        invariant
            lo <= i <= hi <= s.len(),
            v@ == s@.subrange(lo as int, i as int),
        decreases hi - i,
    {
        v.push(s[i]);
        assert(s@.subrange(lo as int, i as int).push(s@[i as int]) =~= s@.subrange(lo as int, i + 1));
        i = i + 1;
    }
    v
}


/// The last position at which `t` occurs in `s`.
pub open spec fn is_last_occurrence(s: Seq<char>, t: Seq<char>, i: int) -> bool {
    occurs_at(s, t, i) && forall|j: int| i < j ==> !occurs_at(s, t, j)
}

/// The last position of `t` in `s`, as `str::rfind` finds it.
pub fn rfind_seq(s: &Vec<char>, t: &Vec<char>) -> (r: Option<usize>)
    ensures
        r matches Some(i) ==> is_last_occurrence(s@, t@, i as int),
        r is None ==> !has_sub(s@, t@),
{
    if t.len() > s.len() {
        assert(forall|i: int| !occurs_at(s@, t@, i));
        return None;
    }
    let mut i: usize = s.len() - t.len();
    loop
        invariant
            t.len() <= s.len(),
            i <= s.len() - t.len(),
            forall|k: int| i < k ==> !occurs_at(s@, t@, k),
        decreases i,
    {
        if occurs_at_exec(s, t, i) {
            return Some(i);
        }
        if i == 0 {
            assert forall|k: int| !occurs_at(s@, t@, k) by {
                if 0 <= k {
                    assert(i <= k);
                }
            }
            return None;
        }
        i = i - 1;
    }
}

/// The first position of the character `c` in `s`.
pub fn find_char(s: &Vec<char>, c: char) -> (r: Option<usize>)
    ensures
        r matches Some(i) ==> i < s.len() && s@[i as int] == c && !has_char(s@.take(i as int), c),
        r is None ==> !has_char(s@, c),
{
    let mut i: usize = 0;
    while i < s.len()
        invariant
            i <= s.len(),
            forall|k: int| 0 <= k < i ==> s@[k] != c,
        decreases s.len() - i,
    {
        if s[i] == c {
            return Some(i);
        }
        i = i + 1;
    }
    None
}

/// The last position of the character `c` in `s`.
pub fn rfind_char(s: &Vec<char>, c: char) -> (r: Option<usize>)
    ensures
        r matches Some(i) ==> i < s.len() && s@[i as int] == c && !has_char(s@.skip(i + 1), c),
        r is None ==> !has_char(s@, c),
{
    let mut i: usize = s.len();
    while i > 0
        invariant
            i <= s.len(),
            forall|k: int| i <= k < s.len() ==> s@[k] != c,
        decreases i,
    {
        if s[i - 1] == c {
            assert forall|k: int| 0 <= k < s@.skip(i as int).len() implies s@.skip(i as int)[k] != c by {
                assert(s@.skip(i as int)[k] == s@[i + k]);
            }
            return Some(i - 1);
        }
        i = i - 1;
    }
    None
}

// ---------------------------------------------------------------------------
// Splitting into pieces, lines and words
// ---------------------------------------------------------------------------

/// The character sequences of a vector of character vectors.
pub open spec fn views(v: Seq<Vec<char>>) -> Seq<Seq<char>> {
    v.map_values(|x: Vec<char>| x@)
}

/// The pieces of `s` between occurrences of `sep`, as `str::split` with a `char`
/// pattern yields them; there is always at least one piece.
pub open spec fn split_on(s: Seq<char>, sep: char) -> Seq<Seq<char>>
    decreases s.len(),
{
    if s.len() == 0 {
        seq![Seq::<char>::empty()]
    } else {
        let p = split_on(s.drop_last(), sep);
        if s.last() == sep {
            p.push(Seq::<char>::empty())
        } else {
            p.update(p.len() - 1, p.last().push(s.last()))
        }
    }
}

pub proof fn lemma_split_on_len(s: Seq<char>, sep: char)
    ensures
        split_on(s, sep).len() >= 1,
    decreases s.len(),
{
    if s.len() > 0 {
        lemma_split_on_len(s.drop_last(), sep);
    }
}

/// A line without the carriage return that ended it.
pub open spec fn strip_cr(l: Seq<char>) -> Seq<char> {
    if l.len() > 0 && l.last() == '\r' {
        l.drop_last()
    } else {
        l
    }
}

/// The lines of `s`, as `str::lines` yields them: the pieces between line feeds,
/// each stripped of a carriage return just before its line feed, without a final
/// empty piece.
pub open spec fn lines(s: Seq<char>) -> Seq<Seq<char>> {
    let p = split_on(s, '\n');
    let body = p.drop_last().map_values(|l: Seq<char>| strip_cr(l));
    if p.last().len() == 0 {
        body
    } else {
        body.push(p.last())
    }
}

fn strip_cr_exec(v: Vec<char>) -> (r: Vec<char>)
    ensures
        r@ == strip_cr(v@),
{
    let mut v = v;
    if v.len() > 0 && v[v.len() - 1] == '\r' {
        v.pop();
    }
    v
}

/// The pieces of `s` between occurrences of `sep`.
pub fn split_chars(s: &Vec<char>, sep: char) -> (r: Vec<Vec<char>>)
    ensures
        views(r@) == split_on(s@, sep),
{
    let mut done: Vec<Vec<char>> = Vec::new();
    let mut cur: Vec<char> = Vec::new();
    for i in 0..s.len()
        invariant
            split_on(s@.take(i as int), sep) == views(done@).push(cur@),
    {
        proof {
            lemma_split_on_len(s@.take(i as int), sep);
            assert(s@.take(i as int + 1).drop_last() =~= s@.take(i as int));
        }
        let ghost before = views(done@).push(cur@);
        if s[i] == sep {
            done.push(cur);
            cur = Vec::new();
            assert(views(done@).push(cur@) =~= before.push(Seq::<char>::empty()));
        } else {
            cur.push(s[i]);
            assert(views(done@).push(cur@) =~= before.update(before.len() - 1, before.last().push(s@[i as int])));
        }
    }
    assert(s@.take(s.len() as int) =~= s@);
    done.push(cur);
    done
}

/// The lines of `s`.
pub fn lines_of(s: &Vec<char>) -> (r: Vec<Vec<char>>)
    ensures
        views(r@) == lines(s@),
{
    let mut done: Vec<Vec<char>> = Vec::new();
    let mut cur: Vec<char> = Vec::new();
    for i in 0..s.len()
        invariant
            split_on(s@.take(i as int), '\n').drop_last().map_values(|l: Seq<char>| strip_cr(l))
                == views(done@),
            split_on(s@.take(i as int), '\n').last() == cur@,
            split_on(s@.take(i as int), '\n').len() >= 1,
    {
        proof {
            lemma_split_on_len(s@.take(i as int), '\n');
            assert(s@.take(i as int + 1).drop_last() =~= s@.take(i as int));
        }
        let ghost p = split_on(s@.take(i as int), '\n');
        let ghost p2 = split_on(s@.take(i as int + 1), '\n');
        if s[i] == '\n' {
            let piece = strip_cr_exec(cur);
            done.push(piece);
            cur = Vec::new();
            assert(p2 == p.push(Seq::<char>::empty()));
            assert(p2.drop_last() =~= p);
            assert(p.map_values(|l: Seq<char>| strip_cr(l)) =~= p.drop_last().map_values(
                |l: Seq<char>| strip_cr(l),
            ).push(strip_cr(p.last())));
            assert(views(done@) =~= p2.drop_last().map_values(|l: Seq<char>| strip_cr(l)));
        } else {
            cur.push(s[i]);
            assert(p2 == p.update(p.len() - 1, p.last().push(s@[i as int])));
            assert(p2.drop_last() =~= p.drop_last());
        }
    }
    assert(s@.take(s.len() as int) =~= s@);
    if cur.len() == 0 {
        done
    } else {
        done.push(cur);
        done
    }
}

/// The whitespace-separated words of `s`, as `str::split_whitespace` yields them.
pub open spec fn words(s: Seq<char>) -> Seq<Seq<char>>
    decreases s.len(),
{
    if s.len() == 0 {
        Seq::empty()
    } else {
        let w = words(s.drop_last());
        let c = s.last();
        if unicode_whitespace(c) {
            w
        } else if s.len() >= 2 && !unicode_whitespace(s[s.len() - 2]) {
            w.update(w.len() - 1, w.last().push(c))
        } else {
            w.push(seq![c])
        }
    }
}

pub proof fn lemma_words_nonempty(s: Seq<char>)
    requires
        s.len() >= 1,
        !unicode_whitespace(s.last()),
    ensures
        words(s).len() >= 1,
    decreases s.len(),
{
    if s.len() >= 2 && !unicode_whitespace(s[s.len() - 2]) {
        lemma_words_nonempty(s.drop_last());
    }
}

/// The whitespace-separated words of `s`.
pub fn words_of(s: &Vec<char>) -> (r: Vec<Vec<char>>)
    ensures
        views(r@) == words(s@),
{
    let mut out: Vec<Vec<char>> = Vec::new();
    let mut prev_ws = true;
    for i in 0..s.len()
        invariant
            views(out@) == words(s@.take(i as int)),
            prev_ws == (i == 0 || unicode_whitespace(s@[i - 1])),
    {
        proof {
            assert(s@.take(i as int + 1).drop_last() =~= s@.take(i as int));
        }
        let c = s[i];
        let ws = is_whitespace(c);
        let ghost before = views(out@);
        if ws {
        } else if !prev_ws {
            proof {
                assert(s@.take(i as int)[i - 1] == s@[i - 1]);
                lemma_words_nonempty(s@.take(i as int));
            }
            let mut last = out.pop().unwrap();
            last.push(c);
            out.push(last);
            assert(views(out@) =~= before.update(before.len() - 1, before.last().push(c)));
        } else {
            let mut w = Vec::new();
            w.push(c);
            out.push(w);
            assert(views(out@) =~= before.push(seq![c]));
        }
        prev_ws = ws;
    }
    assert(s@.take(s.len() as int) =~= s@);
    out
}

// ---------------------------------------------------------------------------
// Trimming
// ---------------------------------------------------------------------------

pub open spec fn trim_start(s: Seq<char>) -> Seq<char>
    decreases s.len(),
{
    if s.len() > 0 && unicode_whitespace(s[0]) {
        trim_start(s.drop_first())
    } else {
        s
    }
}

pub open spec fn trim_end(s: Seq<char>) -> Seq<char>
    decreases s.len(),
{
    if s.len() > 0 && unicode_whitespace(s.last()) {
        trim_end(s.drop_last())
    } else {
        s
    }
}

/// `s` without leading and trailing whitespace, as `str::trim` gives it.
pub open spec fn trim(s: Seq<char>) -> Seq<char> {
    trim_end(trim_start(s))
}

/// `s` without leading and trailing whitespace.
pub fn trim_chars(s: &Vec<char>) -> (r: Vec<char>)
    ensures
        r@ == trim(s@),
{
    let n = s.len();
    let mut a: usize = 0;
    assert(s@.subrange(0, n as int) =~= s@);
    while a < n && is_whitespace(s[a])
        invariant
            n == s.len(),
            a <= n,
            trim_start(s@) == trim_start(s@.subrange(a as int, n as int)),
        decreases n - a,
    {
        assert(s@.subrange(a as int, n as int).drop_first() =~= s@.subrange(a + 1, n as int));
        a = a + 1;
    }
    assert(trim_start(s@.subrange(a as int, n as int)) == s@.subrange(a as int, n as int));
    let mut b: usize = n;
    while b > a && is_whitespace(s[b - 1])
        invariant
            n == s.len(),
            a <= b <= n,
            trim(s@) == trim_end(s@.subrange(a as int, b as int)),
        decreases b,
    {
        assert(s@.subrange(a as int, b as int).drop_last() =~= s@.subrange(a as int, b - 1));
        b = b - 1;
    }
    slice_chars(s, a, b)
}


// ---------------------------------------------------------------------------
// Decimal parsing, as `str::parse` does it for the integer types
// ---------------------------------------------------------------------------

pub open spec fn all_digits(s: Seq<char>) -> bool {
    forall|i: int| 0 <= i < s.len() ==> is_digit(#[trigger] s[i])
}

pub open spec fn digit_value(c: char) -> nat {
    ((c as u32) - 48) as nat
}

/// The number that a run of decimal digits denotes.
pub open spec fn digits_value(s: Seq<char>) -> nat
    decreases s.len(),
{
    if s.len() == 0 {
        0
    } else {
        digits_value(s.drop_last()) * 10 + digit_value(s.last())
    }
}

/// The text after an optional leading `+`.
pub open spec fn unsigned_body(s: Seq<char>) -> Seq<char> {
    if s.len() > 0 && s[0] == '+' {
        s.drop_first()
    } else {
        s
    }
}

/// The number that `s` denotes in the syntax that `str::parse` accepts for an unsigned
/// integer: an optional `+` and then one or more ASCII digits.
pub open spec fn unsigned_text_value(s: Seq<char>) -> Option<nat> {
    let b = unsigned_body(s);
    if b.len() > 0 && all_digits(b) {
        Some(digits_value(b))
    } else {
        None
    }
}

/// `s.parse::<u64>().ok()`.
pub open spec fn parse_u64_text(s: Seq<char>) -> Option<u64> {
    match unsigned_text_value(s) {
        Some(v) => if v <= u64::MAX { Some(v as u64) } else { None },
        None => None,
    }
}

/// `s.parse::<u32>().ok()`.
pub open spec fn parse_u32_text(s: Seq<char>) -> Option<u32> {
    match unsigned_text_value(s) {
        Some(v) => if v <= u32::MAX { Some(v as u32) } else { None },
        None => None,
    }
}

/// `s.parse::<i64>().ok()`: an optional sign and then one or more ASCII digits,
/// in the range of `i64`.
pub open spec fn parse_i64_text(s: Seq<char>) -> Option<i64> {
    if s.len() > 0 && s[0] == '-' {
        let b = s.drop_first();
        if b.len() > 0 && all_digits(b) && digits_value(b) <= 0x8000_0000_0000_0000 {
            Some((0 - digits_value(b)) as i64)
        } else {
            None
        }
    } else {
        match unsigned_text_value(s) {
            Some(v) => if v <= i64::MAX { Some(v as i64) } else { None },
            None => None,
        }
    }
}

/// The value of the digits `s[lo..]` when they are one or more ASCII digits denoting
/// at most `bound`.
fn digits_upto(s: &Vec<char>, lo: usize, bound: u64) -> (r: Option<u64>)
    requires
        lo <= s.len(),
    ensures
        ({
            let b = s@.subrange(lo as int, s.len() as int);
            match r {
                Some(v) => b.len() > 0 && all_digits(b) && digits_value(b) <= bound && v
                    == digits_value(b),
                None => !(b.len() > 0 && all_digits(b) && digits_value(b) <= bound),
            }
        }),
{
    let n = s.len();
    if lo == n {
        return None;
    }
    let mut acc: u64 = 0;
    let mut over = false;
    let mut i = lo;
    while i < n
        invariant
            n == s.len(),
            lo <= i <= n,
            all_digits(s@.subrange(lo as int, i as int)),
            !over ==> acc == digits_value(s@.subrange(lo as int, i as int)) && acc <= bound,
            over ==> digits_value(s@.subrange(lo as int, i as int)) > bound,
        decreases n - i,
    {
        let c = s[i];
        let ghost pre = s@.subrange(lo as int, i as int);
        let ghost post = s@.subrange(lo as int, i + 1);
        assert(post.drop_last() =~= pre);
        if !('0' <= c && c <= '9') {
            assert(!is_digit(s@.subrange(lo as int, n as int)[i - lo]));
            return None;
        }
        let d = (c as u32 - 48) as u64;
        if !over {
            let t = acc as u128 * 10 + d as u128;
            if t > bound as u128 {
                over = true;
            } else {
                acc = t as u64;
            }
        }
        i = i + 1;
    }
    assert(s@.subrange(lo as int, n as int) =~= s@.subrange(lo as int, i as int));
    if over {
        None
    } else {
        Some(acc)
    }
}

/// `s.parse::<u64>().ok()`.
pub fn parse_u64(s: &Vec<char>) -> (r: Option<u64>)
    ensures
        r == parse_u64_text(s@),
{
    let lo: usize = if s.len() > 0 && s[0] == '+' { 1 } else { 0 };
    assert(unsigned_body(s@) =~= s@.subrange(lo as int, s.len() as int));
    digits_upto(s, lo, u64::MAX)
}

/// `s.parse::<u32>().ok()`.
pub fn parse_u32(s: &Vec<char>) -> (r: Option<u32>)
    ensures
        r == parse_u32_text(s@),
{
    let lo: usize = if s.len() > 0 && s[0] == '+' { 1 } else { 0 };
    assert(unsigned_body(s@) =~= s@.subrange(lo as int, s.len() as int));
    match digits_upto(s, lo, u32::MAX as u64) {
        Some(v) => Some(v as u32),
        None => None,
    }
}

/// `s.parse::<i64>().ok()`.
pub fn parse_i64(s: &Vec<char>) -> (r: Option<i64>)
    ensures
        r == parse_i64_text(s@),
{
    if s.len() > 0 && s[0] == '-' {
        assert(s@.drop_first() =~= s@.subrange(1, s.len() as int));
        match digits_upto(s, 1, 0x8000_0000_0000_0000) {
            Some(v) => {
                if v == 0x8000_0000_0000_0000 {
                    Some(i64::MIN)
                } else {
                    Some(0 - (v as i64))
                }
            },
            None => None,
        }
    } else {
        let lo: usize = if s.len() > 0 && s[0] == '+' { 1 } else { 0 };
        assert(unsigned_body(s@) =~= s@.subrange(lo as int, s.len() as int));
        match digits_upto(s, lo, i64::MAX as u64) {
            Some(v) => Some(v as i64),
            None => None,
        }
    }
}

} // verus!

verus! {

/// The character sequences of a vector of strings.
pub open spec fn string_views(v: Seq<String>) -> Seq<Seq<char>> {
    v.map_values(|x: String| x@)
}

/// Whether two character vectors hold the same characters.
pub fn chars_eq(a: &Vec<char>, b: &Vec<char>) -> (r: bool)
    ensures
        r == (a@ == b@),
{
    if a.len() != b.len() {
        return false;
    }
    let mut i: usize = 0;
    while i < a.len()
        invariant
            a.len() == b.len(),
            i <= a.len(),
            forall|k: int| 0 <= k < i ==> a@[k] == b@[k],
        decreases a.len() - i,
    {
        if a[i] != b[i] {
            return false;
        }
        i = i + 1;
    }
    assert(a@ =~= b@);
    true
}

/// `a == b` on string slices.
pub fn str_eq(a: &str, b: &str) -> (r: bool)
    ensures
        r == (a@ == b@),
{
    let av = chars_of(a);
    let bv = chars_of(b);
    chars_eq(&av, &bv)
}

/// A `String` holding `a` followed by `b`.
pub fn concat2(a: &str, b: &str) -> (s: String)
    ensures
        s@ == a@ + b@,
{
    let mut s = String::from_str(a);
    s.append(b);
    s
}

/// The number of lines of `s`, as `str::lines().count()` gives it.
pub fn line_count(s: &str) -> (n: usize)
    ensures
        n == lines(s@).len(),
{
    let v = chars_of(s);
    let ls = lines_of(&v);
    ls.len()
}

/// `s` without every trailing `c`, as `str::trim_end_matches` with a `char` gives it.
pub open spec fn trim_end_char(s: Seq<char>, c: char) -> Seq<char>
    decreases s.len(),
{
    if s.len() > 0 && s.last() == c {
        trim_end_char(s.drop_last(), c)
    } else {
        s
    }
}

/// `s` without every trailing `c`.
pub fn trim_end_char_exec(s: &Vec<char>, c: char) -> (r: Vec<char>)
    ensures
        r@ == trim_end_char(s@, c),
{
    let mut b = s.len();
    assert(s@.subrange(0, b as int) =~= s@);
    while b > 0 && s[b - 1] == c
        invariant
            b <= s.len(),
            trim_end_char(s@, c) == trim_end_char(s@.subrange(0, b as int), c),
        decreases b,
    {
        assert(s@.subrange(0, b as int).drop_last() =~= s@.subrange(0, b - 1));
        b = b - 1;
    }
    slice_chars(s, 0, b)
}

/// Filtering one more element of a prefix adds that element when it passes.
pub proof fn lemma_filter_take_succ<A>(s: Seq<A>, p: spec_fn(A) -> bool, i: int)
    requires
        0 <= i < s.len(),
    ensures
        s.take(i + 1).filter(p) == if p(s[i]) {
            s.take(i).filter(p).push(s[i])
        } else {
            s.take(i).filter(p)
        },
{
    reveal(Seq::filter);
    assert(s.take(i + 1).drop_last() =~= s.take(i));
    assert(s.take(i + 1).last() == s[i]);
}

/// The views of strings after a push.
pub proof fn lemma_string_views_push(v: Seq<String>, x: String)
    ensures
        string_views(v.push(x)) == string_views(v).push(x@),
{
    assert(string_views(v.push(x)) =~= string_views(v).push(x@));
}

/// Mapping after a push.
pub proof fn lemma_map_values_push<A, B>(s: Seq<A>, x: A, f: spec_fn(A) -> B)
    ensures
        s.push(x).map_values(f) == s.map_values(f).push(f(x)),
{
    assert(s.push(x).map_values(f) =~= s.map_values(f).push(f(x)));
}

/// `c` first occurs in `s` at position `i`.
pub open spec fn is_first_char(s: Seq<char>, c: char, i: int) -> bool {
    0 <= i < s.len() && s[i] == c && !has_char(s.take(i), c)
}

/// What comes before and after the first `c` in `s`, as `str::split_once` with a `char`
/// gives it; `None` when `c` does not occur.
pub open spec fn split_first(s: Seq<char>, c: char) -> Option<(Seq<char>, Seq<char>)> {
    if has_char(s, c) {
        let i = choose|i: int| is_first_char(s, c, i);
        Some((s.take(i), s.skip(i + 1)))
    } else {
        None
    }
}

pub proof fn lemma_first_char_unique(s: Seq<char>, c: char, i: int)
    requires
        is_first_char(s, c, i),
    ensures
        has_char(s, c),
        (choose|j: int| is_first_char(s, c, j)) == i,
{
    let j = choose|j: int| is_first_char(s, c, j);
    assert(is_first_char(s, c, j));
    if j < i {
        assert(s.take(i)[j] == c);
    }
    if i < j {
        assert(s.take(j)[i] == c);
    }
}

/// `s.split_once(c)`: the text before and after the first `c`.
pub fn split_first_char(s: &str, c: char) -> (r: Option<(String, String)>)
    ensures
        match r {
            Some((a, b)) => split_first(s@, c) == Some((a@, b@)),
            None => split_first(s@, c) is None,
        },
{
    let v = chars_of(s);
    match find_char(&v, c) {
        Some(i) => {
            proof {
                lemma_first_char_unique(s@, c, i as int);
            }
            let a = string_of(&slice_chars(&v, 0, i));
            let n = v.len();
            let b = string_of(&slice_chars(&v, i + 1, n));
            assert(a@ =~= s@.take(i as int));
            assert(b@ =~= s@.skip(i + 1));
            Some((a, b))
        },
        None => None,
    }
}

/// A copy of a vector of strings.
pub fn clone_strings(v: &Vec<String>) -> (r: Vec<String>)
    ensures
        string_views(r@) == string_views(v@),
{
    let mut r: Vec<String> = Vec::new();
    for i in 0..v.len()
        invariant
            string_views(r@) == string_views(v@).take(i as int),
    {
        let s = v[i].clone();
        proof {
            lemma_string_views_push(r@, s);
        }
        r.push(s);
        assert(string_views(v@).take(i as int + 1) =~= string_views(v@).take(i as int).push(s@));
    }
    assert(string_views(v@).take(v.len() as int) =~= string_views(v@));
    r
}

/// The number of bytes that `c` takes in UTF-8.
pub open spec fn utf8_width(c: char) -> nat {
    if (c as u32) < 0x80 {
        1
    } else if (c as u32) < 0x800 {
        2
    } else if (c as u32) < 0x10000 {
        3
    } else {
        4
    }
}

/// The number of bytes that `s` takes in UTF-8, as `str::len` gives it.
pub open spec fn utf8_len(s: Seq<char>) -> nat
    decreases s.len(),
{
    if s.len() == 0 {
        0
    } else {
        utf8_len(s.drop_last()) + utf8_width(s.last())
    }
}

/// `s.len()`: the length of `s` in bytes.
pub fn byte_len(s: &str) -> (n: u128)
    ensures
        n == utf8_len(s@),
{
    let v = chars_of(s);
    let mut n: u128 = 0;
    let mut i: usize = 0;
    while i < v.len()
        invariant
            v@ == s@,
            i <= v.len(),
            n == utf8_len(v@.take(i as int)),
            n <= 4 * i,
        decreases v.len() - i,
    {
        assert(v@.take(i as int + 1).drop_last() =~= v@.take(i as int));
        let c = v[i];
        let w: u128 = if (c as u32) < 0x80 {
            1
        } else if (c as u32) < 0x800 {
            2
        } else if (c as u32) < 0x10000 {
            3
        } else {
            4
        };
        n = n + w;
        i = i + 1;
    }
    assert(v@.take(v.len() as int) =~= v@);
    n
}

/// Whether `s` is empty once trimmed: `s.trim().is_empty()`.
pub fn is_blank(s: &str) -> (b: bool)
    ensures
        b == (trim(s@).len() == 0),
{
    let v = chars_of(s);
    trim_chars(&v).len() == 0
}

/// `c` last occurs in `s` at position `i`.
pub open spec fn is_last_char(s: Seq<char>, c: char, i: int) -> bool {
    0 <= i < s.len() && s[i] == c && !has_char(s.skip(i + 1), c)
}

/// What comes before and after the last `c` in `s`, as `str::rsplit_once` with a
/// `char` gives it; `None` when `c` does not occur.
pub open spec fn split_last(s: Seq<char>, c: char) -> Option<(Seq<char>, Seq<char>)> {
    if has_char(s, c) {
        let i = choose|i: int| is_last_char(s, c, i);
        Some((s.take(i), s.skip(i + 1)))
    } else {
        None
    }
}

pub proof fn lemma_last_char_unique(s: Seq<char>, c: char, i: int)
    requires
        is_last_char(s, c, i),
    ensures
        has_char(s, c),
        (choose|j: int| is_last_char(s, c, j)) == i,
{
    let j = choose|j: int| is_last_char(s, c, j);
    assert(is_last_char(s, c, j));
    if j < i {
        assert(s.skip(j + 1)[i - j - 1] == c);
    }
    if i < j {
        assert(s.skip(i + 1)[j - i - 1] == c);
    }
}

/// A character that occurs has a first occurrence.
proof fn lemma_first_char_exists(s: Seq<char>, c: char)
    requires
        has_char(s, c),
    ensures
        exists|i: int| is_first_char(s, c, i),
    decreases s.len(),
{
    if s[0] == c {
        assert(s.take(0) =~= Seq::<char>::empty());
        assert(is_first_char(s, c, 0));
    } else {
        let rest = s.skip(1);
        let k = choose|k: int| 0 <= k < s.len() && s[k] == c;
        assert(rest[k - 1] == c);
        lemma_first_char_exists(rest, c);
        let i = choose|i: int| is_first_char(rest, c, i);
        let t = s.take(i + 1);
        assert(t =~= seq![s[0]] + rest.take(i));
        assert forall|j: int| 0 <= j < t.len() implies #[trigger] t[j] != c by {
            if j > 0 {
                assert(t[j] == rest.take(i)[j - 1]);
            }
        }
        assert(is_first_char(s, c, i + 1));
    }
}

/// A character that occurs has a last occurrence.
proof fn lemma_last_char_exists(s: Seq<char>, c: char)
    requires
        has_char(s, c),
    ensures
        exists|i: int| is_last_char(s, c, i),
    decreases s.len(),
{
    let n = s.len() - 1;
    if s[n] == c {
        assert(s.skip(n + 1) =~= Seq::<char>::empty());
        assert(is_last_char(s, c, n));
    } else {
        let rest = s.drop_last();
        let k = choose|k: int| 0 <= k < s.len() && s[k] == c;
        assert(rest[k] == c);
        lemma_last_char_exists(rest, c);
        let i = choose|i: int| is_last_char(rest, c, i);
        let t = s.skip(i + 1);
        assert(t =~= rest.skip(i + 1).push(s[n]));
        assert forall|j: int| 0 <= j < t.len() implies #[trigger] t[j] != c by {
            if j < rest.skip(i + 1).len() {
                assert(t[j] == rest.skip(i + 1)[j]);
            }
        }
        assert(is_last_char(s, c, i));
    }
}

/// The law of splitting at the first `c`: the parts put back around `c` give the
/// text, and the part before holds no `c`; there is no split only when `c` does not
/// occur.
pub proof fn lemma_split_first_parts(s: Seq<char>, c: char)
    ensures
        match split_first(s, c) {
            Some((a, b)) => s == a + seq![c] + b && !has_char(a, c),
            None => !has_char(s, c),
        },
{
    if has_char(s, c) {
        lemma_first_char_exists(s, c);
        let i = choose|i: int| is_first_char(s, c, i);
        assert(s =~= s.take(i) + seq![c] + s.skip(i + 1));
    }
}

/// The law of splitting at the last `c`: the parts put back around `c` give the
/// text, and the part after holds no `c`; there is no split only when `c` does not
/// occur.
pub proof fn lemma_split_last_parts(s: Seq<char>, c: char)
    ensures
        match split_last(s, c) {
            Some((a, b)) => s == a + seq![c] + b && !has_char(b, c),
            None => !has_char(s, c),
        },
{
    if has_char(s, c) {
        lemma_last_char_exists(s, c);
        let i = choose|i: int| is_last_char(s, c, i);
        assert(s =~= s.take(i) + seq![c] + s.skip(i + 1));
    }
}

/// `s.rsplit_once(c)` on characters: the text before and after the last `c`.
pub fn split_last_chars(s: &Vec<char>, c: char) -> (r: Option<(Vec<char>, Vec<char>)>)
    ensures
        match r {
            Some((a, b)) => split_last(s@, c) == Some((a@, b@)),
            None => split_last(s@, c) is None,
        },
{
    match rfind_char(s, c) {
        Some(i) => {
            proof {
                lemma_last_char_unique(s@, c, i as int);
            }
            let a = slice_chars(s, 0, i);
            let n = s.len();
            let b = slice_chars(s, i + 1, n);
            assert(a@ =~= s@.take(i as int));
            assert(b@ =~= s@.skip(i + 1));
            Some((a, b))
        },
        None => None,
    }
}

/// `split_first` on characters.
pub fn split_first_chars(s: &Vec<char>, c: char) -> (r: Option<(Vec<char>, Vec<char>)>)
    ensures
        match r {
            Some((a, b)) => split_first(s@, c) == Some((a@, b@)),
            None => split_first(s@, c) is None,
        },
{
    match find_char(s, c) {
        Some(i) => {
            proof {
                lemma_first_char_unique(s@, c, i as int);
            }
            let a = slice_chars(s, 0, i);
            let n = s.len();
            let b = slice_chars(s, i + 1, n);
            assert(a@ =~= s@.take(i as int));
            assert(b@ =~= s@.skip(i + 1));
            Some((a, b))
        },
        None => None,
    }
}

/// What follows `prefix` in `s`, when `s` starts with it.
pub fn after_prefix(s: &Vec<char>, prefix: &str) -> (r: Option<Vec<char>>)
    ensures
        match r {
            Some(v) => prefix@.is_prefix_of(s@) && v@ == s@.skip(prefix@.len() as int),
            None => !prefix@.is_prefix_of(s@),
        },
{
    let p = chars_of(prefix);
    if starts_with_seq(s, &p) {
        let n = s.len();
        let v = slice_chars(s, p.len(), n);
        assert(v@ =~= s@.skip(prefix@.len() as int));
        Some(v)
    } else {
        None
    }
}

} // verus!
