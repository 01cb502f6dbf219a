//! Calls into std and outside crates whose results come from the machine:
//! the filesystem, the clock and the random source.
use vstd::prelude::*;

verus! {

/// `std::path::Path::exists`: whether something exists at `path` on this machine.
/// The answer comes from the filesystem, so nothing is promised of it.
#[verifier::external_body]
pub(crate) fn path_exists(path: &str) -> (b: bool) {
    std::path::Path::new(path).exists()
}

/// What `std::path::Path::parent` gives for a path written as `p`: the path without its
/// final component, or `None` for a root or empty path. It depends on the text alone.
pub uninterp spec fn path_parent_text(p: Seq<char>) -> Option<Seq<char>>;

/// `std::path::Path::parent` on the path written as `path`, given back as text
/// (a parent of a UTF-8 path is UTF-8, so the text is exact).
#[verifier::external_body]
pub(crate) fn path_parent(path: &str) -> (r: Option<String>)
    ensures
        match r {
            Some(s) => path_parent_text(path@) == Some(s@),
            None => path_parent_text(path@) is None,
        },
{
    std::path::Path::new(path).parent().map(|p| p.to_string_lossy().into_owned())
}

pub open spec fn is_lower_hex(c: char) -> bool {
    ('0' <= c && c <= '9') || ('a' <= c && c <= 'f')
}

/// Sixteen bytes from the operating system's random source: `rand::rngs::OsRng`
/// filled through `RngCore::try_fill_bytes`, or `None` when that source fails. It
/// never panics. Which bytes come out is left open.
#[verifier::external_body]
pub(crate) fn os_random_bytes() -> (r: Option<[u8; 16]>) {
    let mut b = [0u8; 16];
    match rand::RngCore::try_fill_bytes(&mut rand::rngs::OsRng, &mut b) {
        Ok(()) => Some(b),
        Err(_) => None,
    }
}

/// The lowercase hexadecimal digit of `n`, below 16.
pub open spec fn hex_digit(n: int) -> char {
    if n < 10 {
        (48 + n) as char
    } else {
        (87 + n) as char
    }
}

/// Byte `i` of the version-4 UUID made of the bytes `b`: byte 6 has the version, 4, in
/// its high nibble (`(b & 0x0f) | 0x40`), byte 8 the RFC 4122 variant in its two high
/// bits (`(b & 0x3f) | 0x80`); the others are as given.
pub open spec fn uuid_byte(b: Seq<u8>, i: int) -> int {
    if i == 6 {
        b[6] % 16 + 0x40
    } else if i == 8 {
        b[8] % 64 + 0x80
    } else {
        b[i] as int
    }
}

/// The 32 hexadecimal digits of the UUID made of `b`, high nibble first.
pub open spec fn uuid_hex(b: Seq<u8>) -> Seq<char> {
    Seq::new(
        32,
        |k: int|
            if k % 2 == 0 {
                hex_digit(uuid_byte(b, k / 2) / 16)
            } else {
                hex_digit(uuid_byte(b, k / 2) % 16)
            },
    )
}

/// The hyphenated lowercase text of the version-4 UUID made of `b`: its digits in
/// groups of 8, 4, 4, 4 and 12.
pub open spec fn uuid_text_of(b: Seq<u8>) -> Seq<char> {
    let h = uuid_hex(b);
    h.subrange(0, 8) + seq!['-'] + h.subrange(8, 12) + seq!['-'] + h.subrange(12, 16) + seq!['-']
        + h.subrange(16, 20) + seq!['-'] + h.subrange(20, 32)
}

/// `uuid::Builder::from_random_bytes(bytes).into_uuid().to_string()`: the version-4
/// UUID made of `bytes` (see `uuid_text_of`), as `Display` writes it. Neither call can
/// panic.
#[verifier::external_body]
pub(crate) fn uuid_text(bytes: [u8; 16]) -> (s: String)
    ensures
        s@ == uuid_text_of(bytes@),
{
    uuid::Builder::from_random_bytes(bytes).into_uuid().to_string()
}

/// The text of a UUID is 36 characters of lowercase hex digits and hyphens.
pub proof fn lemma_uuid_text_shape(b: Seq<u8>)
    requires
        b.len() == 16,
    ensures
        uuid_text_of(b).len() == 36,
        forall|i: int| 0 <= i < 36 ==> (is_lower_hex(#[trigger] uuid_text_of(b)[i]) || uuid_text_of(b)[i] == '-'),
{
    let h = uuid_hex(b);
    assert forall|k: int| 0 <= k < 32 implies is_lower_hex(#[trigger] h[k]) by {
        let v = uuid_byte(b, k / 2);
        assert(0 <= v < 256);
        let n = if k % 2 == 0 { v / 16 } else { v % 16 };
        assert(0 <= n < 16);
        assert(h[k] == hex_digit(n));
    }
    let t = uuid_text_of(b);
    assert forall|i: int| 0 <= i < 36 implies (is_lower_hex(#[trigger] t[i]) || t[i] == '-') by {
        if i < 8 {
            assert(t[i] == h[i]);
        } else if i == 8 || i == 13 || i == 18 || i == 23 {
        } else if i < 13 {
            assert(t[i] == h[i - 1]);
        } else if i < 18 {
            assert(t[i] == h[i - 2]);
        } else if i < 23 {
            assert(t[i] == h[i - 3]);
        } else {
            assert(t[i] == h[i - 4]);
        }
    }
}

/// A new random UUID as text, or `None` when the random source fails.
pub(crate) fn new_uuid_text() -> (r: Option<String>)
    ensures
        r matches Some(s) ==> s@.len() == 36 && forall|i: int|
            0 <= i < 36 ==> (is_lower_hex(#[trigger] s@[i]) || s@[i] == '-'),
{
    match os_random_bytes() {
        Some(b) => {
            proof {
                lemma_uuid_text_shape(b@);
            }
            Some(uuid_text(b))
        },
        None => None,
    }
}

#[verifier::external_type_specification]
#[verifier::external_body]
pub struct ExSystemTime(std::time::SystemTime);

/// `std::time::SystemTime::now`: the current time of the system clock.
#[verifier::external_body]
pub(crate) fn system_time_now() -> (t: std::time::SystemTime) {
    std::time::SystemTime::now()
}

/// `SystemTime::duration_since(UNIX_EPOCH)`: whether `t` is at or after the Unix
/// epoch, and how far from the epoch it is, the error's `duration` giving the distance
/// for a time before it. It never panics. Nothing is promised of the values: `t` is the
/// clock's.
#[verifier::external_body]
pub(crate) fn since_epoch(t: std::time::SystemTime) -> (r: (bool, core::time::Duration)) {
    match t.duration_since(std::time::UNIX_EPOCH) {
        Ok(d) => (true, d),
        Err(e) => (false, e.duration()),
    }
}

/// `Duration::as_micros`: the whole microseconds of `d`. It never panics.
#[verifier::external_body]
pub(crate) fn duration_micros(d: core::time::Duration) -> (m: u128) {
    d.as_micros()
}

/// The current time in microseconds since the Unix epoch, negative before it, held to
/// the range of `i64`.
pub(crate) fn utc_now_micros() -> (t: i64) {
    let (after, d) = since_epoch(system_time_now());
    let m = duration_micros(d);
    if after {
        if m <= 0x7fff_ffff_ffff_ffff {
            m as i64
        } else {
            i64::MAX
        }
    } else if m < 0x8000_0000_0000_0000 {
        -(m as i64)
    } else {
        i64::MIN
    }
}

#[verifier::external_type_specification]
#[verifier::external_body]
pub struct ExInstant(tokio::time::Instant);

/// `tokio::time::Instant::now`: the current instant of the monotonic clock.
#[verifier::external_body]
pub(crate) fn instant_now() -> (t: tokio::time::Instant) {
    tokio::time::Instant::now()
}

/// A random `u64` from the operating system's random source (its first eight bytes,
/// little-endian), or `None` when that source fails. Read as `f64`, its top 53 bits
/// over 2^53 are a uniform draw from `[0, 1)`, as `rand::random::<f64>()` gives.
pub(crate) fn random_u64() -> (r: Option<u64>) {
    match os_random_bytes() {
        Some(b) => {
            let mut r: u64 = 0;
            let mut i: usize = 0;
            while i < 8
                invariant
                    i <= 8,
                decreases 8 - i,
            {
                r = (r << 8u64) | (b[7 - i] as u64);
                i = i + 1;
            }
            Some(r)
        },
        None => None,
    }
}

} // verus!
