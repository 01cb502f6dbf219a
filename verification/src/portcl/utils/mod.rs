//! Small helpers of PortCL: durations and sizes as text, and package names.
pub mod error;
pub mod logging;

use vstd::prelude::*;

use crate::portcl::error::PortCLError;
use crate::text::{
    append_decimal, chars_of, decimal, has_char, split_chars, split_first, split_first_char, split_on,
    views,
};

verus! {

/// `seconds` as text: `30s`, `1m 30s` or `1h 1m 1s`.
pub open spec fn duration_text(seconds: nat) -> Seq<char> {
    if seconds < 60 {
        decimal(seconds) + "s"@
    } else if seconds < 3600 {
        decimal(seconds / 60) + "m "@ + decimal(seconds % 60) + "s"@
    } else {
        decimal(seconds / 3600) + "h "@ + decimal((seconds % 3600) / 60) + "m "@ + decimal(
            seconds % 60,
        ) + "s"@
    }
}

/// A duration in seconds as text: seconds alone below a minute, then minutes and
/// seconds below an hour, then hours, minutes and seconds.
pub fn format_duration(seconds: u64) -> (s: String)
    ensures
        s@ == duration_text(seconds as nat),
{
    let mut s = String::new();
    if seconds < 60 {
        append_decimal(&mut s, seconds);
        s.append("s");
    } else if seconds < 3600 {
        append_decimal(&mut s, seconds / 60);
        s.append("m ");
        append_decimal(&mut s, seconds % 60);
        s.append("s");
    } else {
        append_decimal(&mut s, seconds / 3600);
        s.append("h ");
        append_decimal(&mut s, (seconds % 3600) / 60);
        s.append("m ");
        append_decimal(&mut s, seconds % 60);
        s.append("s");
    }
    proof {
        reveal_strlit("s");
        reveal_strlit("m ");
        reveal_strlit("h ");
    }
    s
}

// ---------------------------------------------------------------------------
// Sizes in bytes, as `f64` arithmetic and `{:.1}` formatting give them
// ---------------------------------------------------------------------------

/// Two to the power `e`.
pub open spec fn two_pow(e: nat) -> nat
    decreases e,
{
    if e == 0 {
        1
    } else {
        2 * two_pow((e - 1) as nat)
    }
}

/// How many times `b` is halved before it is below 2^53: the number of low bits that
/// a binary64 value near `b` cannot hold.
pub open spec fn lost_bits(b: nat) -> nat
    decreases b,
{
    if b < 0x20_0000_0000_0000 {
        0
    } else {
        1 + lost_bits(b / 2)
    }
}

/// `n / d` rounded to the nearest integer, ties to the even one.
pub open spec fn round_half_even(n: nat, d: nat) -> nat
    recommends
        d > 0,
{
    let q = n / d;
    let r = n % d;
    if 2 * r > d || (2 * r == d && q % 2 == 1) {
        q + 1
    } else {
        q
    }
}

/// The value of `b as f64`: `b` rounded to 53 significant bits, ties to even.
pub open spec fn to_binary64(b: nat) -> nat {
    let s = lost_bits(b);
    round_half_even(b, two_pow(s)) * two_pow(s)
}

/// How many times a size of `f` bytes is divided by 1024 before it is below 1024, at
/// most four times (up to terabytes).
pub open spec fn unit_index(f: nat) -> nat {
    if f >= 0x100_0000_0000 {
        4
    } else if f >= 0x4000_0000 {
        3
    } else if f >= 0x10_0000 {
        2
    } else if f >= 0x400 {
        1
    } else {
        0
    }
}

/// 1024 to the power `k`, for the units in use.
pub open spec fn unit_divisor(k: nat) -> nat {
    if k == 4 {
        0x100_0000_0000
    } else if k == 3 {
        0x4000_0000
    } else if k == 2 {
        0x10_0000
    } else if k == 1 {
        0x400
    } else {
        1
    }
}

pub open spec fn unit_name(k: nat) -> Seq<char> {
    if k == 4 {
        "TB"@
    } else if k == 3 {
        "GB"@
    } else if k == 2 {
        "MB"@
    } else if k == 1 {
        "KB"@
    } else {
        "B"@
    }
}

/// `bytes` as text: below a kilobyte the exact count and ` B`; otherwise the size in
/// the largest unit up to terabytes, that is `bytes as f64` divided by a power of 1024
/// (exact in binary64), written with one decimal as `{:.1}` writes it: rounded to the
/// nearest tenth, ties to even.
pub open spec fn bytes_text(bytes: nat) -> Seq<char> {
    let f = to_binary64(bytes);
    let k = unit_index(f);
    if k == 0 {
        decimal(bytes) + " B"@
    } else {
        let t = round_half_even(10 * f, unit_divisor(k));
        decimal(t / 10) + "."@ + decimal(t % 10) + " "@ + unit_name(k)
    }
}

proof fn lemma_lost_bits_small(b: nat)
    requires
        b < 0x20_0000_0000_0000,
    ensures
        lost_bits(b) == 0,
{
}

/// `bytes as f64`, held exactly as an integer.
fn binary64_of(bytes: u64) -> (f: u128)
    ensures
        f == to_binary64(bytes as nat),
        f < 0x2_0000_0000_0000_0000,
        bytes < 0x20_0000_0000_0000 ==> f == bytes,
        f < 0x400 <==> bytes < 0x400,
{
    let mut x: u64 = bytes;
    let mut s: u32 = 0;
    let mut p: u128 = 1;
    while x >= 0x20_0000_0000_0000
        invariant
            p == two_pow(s as nat),
            p >= 1,
            s <= p,
            x == bytes as nat / p as nat,
            lost_bits(bytes as nat) == s + lost_bits(x as nat),
            x as nat * p as nat <= bytes as nat,
            p <= 0x1000,
        decreases x,
    {
        proof {
            vstd::arithmetic::div_mod::lemma_div_denominator(bytes as int, p as int, 2);
            assert(p * 2 < 0x1000) by (nonlinear_arith)
                requires
                    x as nat * p as nat <= bytes as nat,
                    x >= 0x20_0000_0000_0000,
                    bytes < 0x1_0000_0000_0000_0000,
            ;
            assert((x / 2) as nat * (p * 2) as nat <= x as nat * p as nat) by (nonlinear_arith)
                requires
                    p >= 1,
            ;
        }
        x = x / 2;
        s = s + 1;
        p = p * 2;
    }
    proof {
        vstd::arithmetic::div_mod::lemma_fundamental_div_mod(bytes as int, p as int);
    }
    let q: u128 = bytes as u128 / p;
    let r: u128 = bytes as u128 % p;
    assert(q == x);
    let rq: u128 = if 2 * r > p || (2 * r == p && q % 2 == 1) {
        q + 1
    } else {
        q
    };
    assert(rq == round_half_even(bytes as nat, p as nat));
    assert(rq * p < 0x2_0000_0000_0000_0000) by (nonlinear_arith)
        requires
            rq <= q + 1,
            q * p + r == bytes,
            r >= 0,
            p <= 0x1000,
            bytes < 0x1_0000_0000_0000_0000,
    ;
    let f = rq * p;
    proof {
        if bytes < 0x20_0000_0000_0000 {
            lemma_lost_bits_small(bytes as nat);
            assert(s == 0);
            assert(p == 1);
            assert(f == bytes);
        } else {
            assert(f >= 0x400) by (nonlinear_arith)
                requires
                    rq >= q,
                    q * p + r == bytes,
                    r < p,
                    p <= 0x1000,
                    f == rq * p,
                    bytes >= 0x20_0000_0000_0000,
            ;
        }
    }
    f
}

/// A size in bytes as text: `512 B`, `1.5 KB`, `1.0 MB` and so on up to terabytes.
pub fn format_bytes(bytes: u64) -> (s: String)
    ensures
        s@ == bytes_text(bytes as nat),
{
    let f = binary64_of(bytes);
    let ghost k = unit_index(f as nat);
    let mut s = String::new();
    proof {
        reveal_strlit(" B");
        reveal_strlit(".");
        reveal_strlit(" ");
    }
    if f < 0x400 {
        append_decimal(&mut s, bytes);
        s.append(" B");
        return s;
    }
    let (den, name): (u128, &str) = if f >= 0x100_0000_0000 {
        (0x100_0000_0000, "TB")
    } else if f >= 0x4000_0000 {
        (0x4000_0000, "GB")
    } else if f >= 0x10_0000 {
        (0x10_0000, "MB")
    } else {
        (0x400, "KB")
    };
    proof {
        reveal_strlit("TB");
        reveal_strlit("GB");
        reveal_strlit("MB");
        reveal_strlit("KB");
    }
    assert(den == unit_divisor(k) && name@ == unit_name(k));
    let num: u128 = 10 * f;
    let q: u128 = num / den;
    let r: u128 = num % den;
    let t128: u128 = if 2 * r > den || (2 * r == den && q % 2 == 1) {
        q + 1
    } else {
        q
    };
    assert(t128 == round_half_even(10 * f as nat, den as nat));
    assert(q <= num / 0x400) by {
        vstd::arithmetic::div_mod::lemma_div_is_ordered_by_denominator(num as int, 0x400, den as int);
    }
    let t: u64 = t128 as u64;
    append_decimal(&mut s, t / 10);
    s.append(".");
    append_decimal(&mut s, t % 10);
    s.append(" ");
    s.append(name);
    s
}

// ---------------------------------------------------------------------------
// Package names
// ---------------------------------------------------------------------------

/// The message of a package name that is not `category/name`.
pub open spec fn bad_package_message(package: Seq<char>) -> Seq<char> {
    "Invalid package name format: "@ + package + ". Expected category/name"@
}

/// Splits `category/name` at its first `/`; a name without `/` is a validation error.
pub fn parse_package_name(package: &str) -> (r: Result<(String, String), PortCLError>)
    ensures
        match r {
            Ok((c, n)) => split_first(package@, '/') == Some((c@, n@)),
            Err(e) => split_first(package@, '/') is None && (e matches PortCLError::Validation(m)
                && m@ == bad_package_message(package@)),
        },
{
    match split_first_char(package, '/') {
        Some(parts) => Ok(parts),
        None => {
            let mut m = String::from_str("Invalid package name format: ");
            m.append(package);
            m.append(". Expected category/name");
            Err(PortCLError::Validation(m))
        },
    }
}

pub open spec fn category_char(c: char) -> bool {
    ('a' <= c && c <= 'z') || ('0' <= c && c <= '9') || c == '-'
}

pub open spec fn name_char(c: char) -> bool {
    category_char(c) || c == '_'
}

/// A Gentoo package name: split on `/` it gives exactly two pieces, a category of
/// ASCII lowercase letters, digits and `-`, and a non-empty name that may also hold
/// `_`.
pub open spec fn valid_package_name(p: Seq<char>) -> bool {
    let parts = split_on(p, '/');
    &&& parts.len() == 2
    &&& parts[1].len() > 0
    &&& forall|j: int| 0 <= j < parts[0].len() ==> category_char(#[trigger] parts[0][j])
    &&& forall|j: int| 0 <= j < parts[1].len() ==> name_char(#[trigger] parts[1][j])
}

fn all_chars_ok(v: &Vec<char>, underscore: bool) -> (b: bool)
    ensures
        b == forall|j: int| 0 <= j < v@.len() ==> (if underscore {
            name_char(#[trigger] v@[j])
        } else {
            category_char(v@[j])
        }),
{
    let mut i: usize = 0;
    while i < v.len()
        invariant
            i <= v.len(),
            forall|j: int| 0 <= j < i ==> (if underscore {
                name_char(#[trigger] v@[j])
            } else {
                category_char(v@[j])
            }),
        decreases v.len() - i,
    {
        let c = v[i];
        let ok = ('a' <= c && c <= 'z') || ('0' <= c && c <= '9') || c == '-' || (underscore && c
            == '_');
        if !ok {
            return false;
        }
        i = i + 1;
    }
    true
}

/// Whether `package` is a well-formed Gentoo package name (see `valid_package_name`).
pub fn validate_package_name(package: &str) -> (b: bool)
    ensures
        b == valid_package_name(package@),
{
    let v = chars_of(package);
    let parts = split_chars(&v, '/');
    if parts.len() != 2 {
        return false;
    }
    assert(views(parts@)[0] == parts@[0]@ && views(parts@)[1] == parts@[1]@);
    if parts[1].len() == 0 {
        return false;
    }
    all_chars_ok(&parts[0], false) && all_chars_ok(&parts[1], true)
}

/// The pieces joined back with `c` between them.
pub open spec fn join_with(ps: Seq<Seq<char>>, c: char) -> Seq<char>
    decreases ps.len(),
{
    if ps.len() == 0 {
        Seq::empty()
    } else if ps.len() == 1 {
        ps[0]
    } else {
        join_with(ps.drop_last(), c) + seq![c] + ps.last()
    }
}

/// Splitting on `c` loses nothing: the pieces joined with `c` give the text back, and
/// no piece holds `c`.
proof fn lemma_split_on_join(s: Seq<char>, c: char)
    ensures
        join_with(split_on(s, c), c) == s,
        forall|k: int| 0 <= k < split_on(s, c).len() ==> !has_char(#[trigger] split_on(s, c)[k], c),
    decreases s.len(),
{
    crate::text::lemma_split_on_len(s, c);
    if s.len() == 0 {
        assert(split_on(s, c) =~= seq![Seq::<char>::empty()]);
        assert(s =~= Seq::<char>::empty());
    } else {
        let p = split_on(s.drop_last(), c);
        lemma_split_on_join(s.drop_last(), c);
        crate::text::lemma_split_on_len(s.drop_last(), c);
        let x = s.last();
        if x == c {
            let q = p.push(Seq::<char>::empty());
            assert(q.drop_last() =~= p);
            assert(join_with(q, c) =~= s);
            assert forall|k: int| 0 <= k < q.len() implies !has_char(#[trigger] q[k], c) by {
                if k < p.len() {
                    assert(q[k] == p[k]);
                }
            }
        } else {
            let q = p.update(p.len() - 1, p.last().push(x));
            assert(q.drop_last() =~= p.drop_last());
            if p.len() == 1 {
                assert(join_with(q, c) == q[0]);
                assert(join_with(p, c) == p[0]);
                assert(q[0] =~= p[0].push(x));
                assert(s.drop_last().push(x) =~= s);
                assert(join_with(q, c) =~= s);
            } else {
                assert(join_with(q, c) == join_with(p.drop_last(), c) + seq![c] + p.last().push(x));
                assert(join_with(p, c) == join_with(p.drop_last(), c) + seq![c] + p.last());
                assert(join_with(q, c) =~= join_with(p, c).push(x));
                assert(s.drop_last().push(x) =~= s);
                assert(join_with(q, c) =~= s);
            }
            assert forall|k: int| 0 <= k < q.len() implies !has_char(#[trigger] q[k], c) by {
                if k < p.len() - 1 {
                    assert(q[k] == p[k]);
                } else {
                    assert(!has_char(p[p.len() - 1], c));
                    assert forall|j: int| 0 <= j < q[k].len() implies q[k][j] != c by {
                        if j < p.last().len() {
                            assert(q[k][j] == p.last()[j]);
                        }
                    }
                }
            }
        }
    }
}

/// The law of package names: a valid name splits at its first `/` into its category
/// and name, and they give the name back joined by `/`.
pub proof fn lemma_valid_name_splits(p: Seq<char>)
    requires
        valid_package_name(p),
    ensures
        split_first(p, '/') == Some((split_on(p, '/')[0], split_on(p, '/')[1])),
        split_on(p, '/')[0] + "/"@ + split_on(p, '/')[1] == p,
{
    let ps = split_on(p, '/');
    lemma_split_on_join(p, '/');
    let a = ps[0];
    let b = ps[1];
    assert(ps.drop_last() =~= seq![a]);
    assert(join_with(ps, '/') == join_with(ps.drop_last(), '/') + seq!['/'] + b);
    assert(p =~= a + seq!['/'] + b);
    assert(!has_char(a, '/'));
    let i = a.len() as int;
    assert(p[i] == '/');
    assert(p.take(i) =~= a);
    assert(p.skip(i + 1) =~= b);
    assert(crate::text::is_first_char(p, '/', i));
    crate::text::lemma_first_char_unique(p, '/', i);
    reveal_strlit("/");
    assert(a + "/"@ + b =~= p);
}

/// The law of `parse_package_name`: the category and name it gives, joined by `/`,
/// are the text it was given.
pub proof fn lemma_parsed_name_rejoins(p: Seq<char>)
    ensures
        match split_first(p, '/') {
            Some((category, name)) => category + "/"@ + name == p,
            None => !has_char(p, '/'),
        },
{
    if has_char(p, '/') {
        let j = choose|j: int| 0 <= j < p.len() && p[j] == '/';
        assert(p[j] == '/');
        let i = choose|i: int| crate::text::is_first_char(p, '/', i);
        if !crate::text::is_first_char(p, '/', i) {
            lemma_first_slash_exists(p, j);
        }
        reveal_strlit("/");
        assert(p.take(i) + "/"@ + p.skip(i + 1) =~= p);
    }
}

/// A `/` somewhere means a first `/`.
proof fn lemma_first_slash_exists(p: Seq<char>, j: int)
    requires
        0 <= j < p.len(),
        p[j] == '/',
    ensures
        exists|i: int| crate::text::is_first_char(p, '/', i),
    decreases j,
{
    if has_char(p.take(j), '/') {
        let k = choose|k: int| 0 <= k < p.take(j).len() && p.take(j)[k] == '/';
        assert(p[k] == '/');
        lemma_first_slash_exists(p, k);
    } else {
        assert(crate::text::is_first_char(p, '/', j));
    }
}

} // verus!
