//! The parts of system metrics that are counted or read from tool output. Sampling
//! the system and the floating-point figures built from the samples are the caller's
//! part.
use vstd::prelude::*;

use crate::text::{
    after_prefix, chars_of, parse_i64, parse_i64_text, parse_u32, parse_u32_text, parse_u64,
    parse_u64_text, trim, trim_chars, views, words, words_of,
};

verus! {

/// Network traffic: bytes and packets received and sent.
#[derive(Debug, Clone, Copy, PartialEq, Eq, Structural)]
pub struct NetworkIo {
    pub bytes_received: u64,
    pub bytes_transmitted: u64,
    pub packets_received: u64,
    pub packets_transmitted: u64,
}

/// The sum of one counter over the interfaces.
pub open spec fn counter_sum(s: Seq<NetworkIo>, which: int) -> int
    decreases s.len(),
{
    if s.len() == 0 {
        0
    } else {
        counter_sum(s.drop_last(), which) + if which == 0 {
            s.last().bytes_received as int
        } else if which == 1 {
            s.last().bytes_transmitted as int
        } else if which == 2 {
            s.last().packets_received as int
        } else {
            s.last().packets_transmitted as int
        }
    }
}

proof fn lemma_counter_sum_mono(s: Seq<NetworkIo>, which: int, i: int)
    requires
        0 <= i <= s.len(),
    ensures
        counter_sum(s.take(i), which) <= counter_sum(s, which),
    decreases s.len() - i,
{
    if i < s.len() {
        lemma_counter_sum_mono(s, which, i + 1);
        assert(s.take(i + 1).drop_last() =~= s.take(i));
    } else {
        assert(s.take(i) =~= s);
    }
}

impl NetworkIo {
    /// The traffic of all interfaces together.
    pub fn total(per_interface: &Vec<NetworkIo>) -> (t: NetworkIo)
        requires
            counter_sum(per_interface@, 0) <= u64::MAX,
            counter_sum(per_interface@, 1) <= u64::MAX,
            counter_sum(per_interface@, 2) <= u64::MAX,
            counter_sum(per_interface@, 3) <= u64::MAX,
        ensures
            t.bytes_received == counter_sum(per_interface@, 0),
            t.bytes_transmitted == counter_sum(per_interface@, 1),
            t.packets_received == counter_sum(per_interface@, 2),
            t.packets_transmitted == counter_sum(per_interface@, 3),
    {
        let ghost s = per_interface@;
        let mut t = NetworkIo {
            bytes_received: 0,
            bytes_transmitted: 0,
            packets_received: 0,
            packets_transmitted: 0,
        };
        for i in 0..per_interface.len()
            invariant
                s == per_interface@,
                counter_sum(s, 0) <= u64::MAX,
                counter_sum(s, 1) <= u64::MAX,
                counter_sum(s, 2) <= u64::MAX,
                counter_sum(s, 3) <= u64::MAX,
                t.bytes_received == counter_sum(s.take(i as int), 0),
                t.bytes_transmitted == counter_sum(s.take(i as int), 1),
                t.packets_received == counter_sum(s.take(i as int), 2),
                t.packets_transmitted == counter_sum(s.take(i as int), 3),
        {
            let x = per_interface[i];
            proof {
                assert(s.take(i as int + 1).drop_last() =~= s.take(i as int));
                lemma_counter_sum_mono(s, 0, i as int + 1);
                lemma_counter_sum_mono(s, 1, i as int + 1);
                lemma_counter_sum_mono(s, 2, i as int + 1);
                lemma_counter_sum_mono(s, 3, i as int + 1);
            }
            t.bytes_received = t.bytes_received + x.bytes_received;
            t.bytes_transmitted = t.bytes_transmitted + x.bytes_transmitted;
            t.packets_received = t.packets_received + x.packets_received;
            t.packets_transmitted = t.packets_transmitted + x.packets_transmitted;
        }
        assert(s.take(per_interface.len() as int) =~= s);
        t
    }
}

/// The parallel jobs that `MAKEOPTS` asks for: on the first word starting with `-j`,
/// the number after it, or 1 when there is none or it is not a number; 1 without
/// such a word.
pub open spec fn jobs_in(ws: Seq<Seq<char>>) -> u32
    decreases ws.len(),
{
    if ws.len() == 0 {
        1
    } else if "-j"@.is_prefix_of(ws[0]) {
        if ws[0].len() > 2 {
            match parse_u32_text(ws[0].skip(2)) {
                Some(j) => j,
                None => 1,
            }
        } else {
            1
        }
    } else {
        jobs_in(ws.drop_first())
    }
}

/// The parallel jobs in the value of `MAKEOPTS` (see `jobs_in`).
pub fn parse_parallel_jobs(makeopts: &str) -> (j: u32)
    ensures
        j == jobs_in(words(makeopts@)),
{
    let ws = words_of(&chars_of(makeopts));
    let ghost wv = views(ws@);
    let mut i: usize = 0;
    assert(wv.skip(0) =~= wv);
    while i < ws.len()
        invariant
            wv == views(ws@),
            wv == words(makeopts@),
            i <= ws.len(),
            jobs_in(wv) == jobs_in(wv.skip(i as int)),
        decreases ws.len() - i,
    {
        proof {
            reveal_strlit("-j");
            assert(wv.skip(i as int)[0] == ws@[i as int]@);
            assert(wv.skip(i as int).drop_first() =~= wv.skip(i as int + 1));
        }
        match after_prefix(&ws[i], "-j") {
            Some(rest) => {
                if rest.len() > 0 {
                    return match parse_u32(&rest) {
                        Some(j) => j,
                        None => 1,
                    };
                }
                return 1;
            },
            None => {},
        }
        i = i + 1;
    }
    assert(wv.skip(i as int) =~= Seq::<Seq<char>>::empty());
    1
}

/// The temperature in a thermal zone file, in thousandths of a degree: the trimmed
/// content as a number.
pub fn parse_millidegrees(content: &str) -> (t: Option<i64>)
    ensures
        t == parse_i64_text(trim(content@)),
{
    parse_i64(&trim_chars(&chars_of(content)))
}

/// The size in bytes that `du -sb` prints: its first word as a number, 0 when there is
/// no word or it is not a number.
pub fn parse_du_bytes(output: &str) -> (n: u64)
    ensures
        n == (if words(output@).len() == 0 {
            0
        } else {
            match parse_u64_text(words(output@)[0]) {
                Some(v) => v,
                None => 0,
            }
        }),
{
    let ws = words_of(&chars_of(output));
    if ws.len() == 0 {
        return 0;
    }
    assert(views(ws@)[0] == ws@[0]@);
    match parse_u64(&ws[0]) {
        Some(v) => v,
        None => 0,
    }
}

} // verus!
