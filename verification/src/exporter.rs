//! Logic of the cache-metrics exporter: reading its settings and folding each
//! poll of the contract's cache statistics into the exported gauges.
use vstd::prelude::*;
use vstd::string::StringSliceAdditionalSpecFns;

verus! {

/// Seconds between polls unless `POLL_INTERVAL_SECS` says otherwise.
pub const DEFAULT_POLL_INTERVAL_SECS: u64 = 15;

/// HTTP port unless `LISTEN_PORT` says otherwise.
pub const DEFAULT_LISTEN_PORT: u16 = 9090;

/// The value of a run of ASCII digits read as a decimal number.
pub open spec fn digits_value(d: Seq<u8>) -> int
    decreases d.len(),
{
    if d.len() == 0 {
        0
    } else {
        digits_value(d.drop_last()) * 10 + (d.last() - 48)
    }
}

/// Every byte is an ASCII digit.
pub open spec fn all_digits(d: Seq<u8>) -> bool {
    forall|i: int| 0 <= i < d.len() ==> 48 <= #[trigger] d[i] <= 57
}

/// The digits of a decimal text: after one optional leading `+`.
pub open spec fn unsigned_digits(b: Seq<u8>) -> Seq<u8> {
    if b.len() > 0 && b[0] == 43 { b.skip(1) } else { b }
}

/// How Rust reads a text as an unsigned integer no greater than `max`: an
/// optional `+`, then one or more ASCII digits whose value is at most `max`;
/// anything else (empty, a sign alone, `-`, spaces, other characters, too
/// large a value) is not a number.
pub open spec fn parse_unsigned_spec(b: Seq<u8>, max: int) -> Option<int> {
    let d = unsigned_digits(b);
    if d.len() > 0 && all_digits(d) && digits_value(d) <= max {
        Some(digits_value(d))
    } else {
        None
    }
}

proof fn lemma_digits_value_nonneg(d: Seq<u8>)
    requires
        all_digits(d),
    ensures
        digits_value(d) >= 0,
    decreases d.len(),
{
    if d.len() > 0 {
        lemma_digits_value_nonneg(d.drop_last());
    }
}

proof fn lemma_digits_value_grows(d: Seq<u8>, k: int)
    requires
        all_digits(d),
        0 <= k <= d.len(),
    ensures
        digits_value(d.take(k)) <= digits_value(d),
    decreases d.len() - k,
{
    if k < d.len() {
        lemma_digits_value_grows(d, k + 1);
        let t = d.take(k + 1);
        assert(t.drop_last() =~= d.take(k));
        assert(all_digits(d.take(k)));
        lemma_digits_value_nonneg(d.take(k));
    } else {
        assert(d.take(k) =~= d);
    }
}

/// Reads `s` as an unsigned decimal no greater than `max`, as Rust's
/// `str::parse` does for unsigned integers.
pub fn parse_unsigned(s: &str, max: u64) -> (r: Option<u64>)
    ensures
        r matches Some(v) ==> parse_unsigned_spec(s.spec_bytes(), max as int) == Some(v as int),
        r is None ==> parse_unsigned_spec(s.spec_bytes(), max as int) is None,
{
    let bytes = s.as_bytes();
    let len = bytes.len();
    let mut start: usize = 0;
    if len > 0 && bytes[0] == 43u8 {
        start = 1;
    }
    let ghost b = bytes@;
    let ghost d = unsigned_digits(b);
    proof {
        assert(d =~= b.skip(start as int));
    }
    if start == len {
        return None;
    }
    let mut acc: u64 = 0;
    let mut i: usize = start;
    while i < len
        invariant
            b == bytes@,
            b == s.spec_bytes(),
            len == b.len(),
            d == b.skip(start as int),
            d == unsigned_digits(b),
            start <= i <= len,
            start < len,
            all_digits(d.take(i - start)),
            acc as int == digits_value(d.take(i - start)),
            acc <= max,
        decreases len - i,
    {
        let c = bytes[i];
        if c < 48u8 || c > 57u8 {
            proof {
                assert(d[i - start] == c);
                assert(!all_digits(d));
            }
            return None;
        }
        let digit = (c - 48u8) as u64;
        let next = match acc.checked_mul(10) {
            Some(t) => t.checked_add(digit),
            None => None,
        };
        proof {
            let k = i - start;
            assert(d.take(k + 1).drop_last() =~= d.take(k));
            assert(d.take(k + 1).last() == c);
            assert(all_digits(d.take(k + 1)));
        }
        match next {
            Some(v) => {
                if v > max {
                    proof {
                        if all_digits(d) {
                            lemma_digits_value_grows(d, (i - start + 1) as int);
                        }
                    }
                    return None;
                }
                acc = v;
            },
            None => {
                proof {
                    if all_digits(d) {
                        lemma_digits_value_grows(d, (i - start + 1) as int);
                    }
                }
                return None;
            },
        }
        i = i + 1;
    }
    proof {
        assert(d.take(len - start) =~= d);
    }
    Some(acc)
}

/// An optional setting read as an unsigned decimal no greater than `max`.
pub open spec fn setting_value(setting: Option<&str>, max: int) -> Option<int> {
    match setting {
        Some(s) => parse_unsigned_spec(s.spec_bytes(), max),
        None => None,
    }
}

/// Seconds between polls: `POLL_INTERVAL_SECS` read as a `u64`, else 15.
pub fn poll_interval_secs(setting: Option<&str>) -> (r: u64)
    ensures
        r == (match setting_value(setting, u64::MAX as int) {
            Some(v) => v,
            None => DEFAULT_POLL_INTERVAL_SECS as int,
        }),
{
    match setting {
        Some(s) => match parse_unsigned(s, u64::MAX) {
            Some(v) => v,
            None => DEFAULT_POLL_INTERVAL_SECS,
        },
        None => DEFAULT_POLL_INTERVAL_SECS,
    }
}

/// HTTP port: `LISTEN_PORT` read as a `u16`, else 9090.
pub fn listen_port(setting: Option<&str>) -> (r: u16)
    ensures
        r == (match setting_value(setting, u16::MAX as int) {
            Some(v) => v,
            None => DEFAULT_LISTEN_PORT as int,
        }),
{
    match setting {
        Some(s) => match parse_unsigned(s, 65_535) {
            Some(v) => v as u16,
            None => DEFAULT_LISTEN_PORT,
        },
        None => DEFAULT_LISTEN_PORT,
    }
}

/// The Soroban RPC endpoint: `STELLAR_RPC_URL`, else the public mainnet one.
pub fn rpc_url(setting: Option<String>) -> (r: String)
    ensures
        setting matches Some(s) ==> r == s,
        setting is None ==> r@ == "https://soroban-rpc.mainnet.stellar.org"@,
{
    match setting {
        Some(s) => s,
        None => String::from_str("https://soroban-rpc.mainnet.stellar.org"),
    }
}

/// What one poll of the contract's `get_cache_stats` gave: a failure, or the
/// result's array entries each read as an `i64` (`None` for an entry that is
/// not one), or `None` when the result is not an array.
#[derive(Debug, PartialEq, Eq)]
pub enum PollOutcome {
    /// The RPC call failed.
    Failed,
    /// The RPC call answered.
    Answered(Option<Vec<Option<i64>>>),
}

/// The exported gauges.
#[derive(Clone, Copy, Debug, PartialEq, Eq, Structural)]
pub struct ExporterMetrics {
    /// `peerx_cache_hits_total`.
    pub cache_hits: i64,
    /// `peerx_cache_misses_total`.
    pub cache_misses: i64,
    /// `peerx_cache_hit_ratio_bps`.
    pub cache_hit_ratio_bps: i64,
    /// `peerx_poll_errors_total`.
    pub poll_errors_total: i64,
    /// `peerx_last_poll_timestamp`.
    pub last_poll_timestamp: i64,
}

/// An entry read as an `i64`, 0 when it is not one.
pub open spec fn entry_or_zero(e: Option<i64>) -> i64 {
    match e {
        Some(v) => v,
        None => 0,
    }
}

/// A gauge incremented by one, wrapping from `i64::MAX` to `i64::MIN`.
pub open spec fn next_count(x: i64) -> i64 {
    if x == i64::MAX { i64::MIN } else { (x + 1) as i64 }
}

/// Whether a poll outcome updates the statistics: an answer with at least
/// three entries.
pub open spec fn poll_updates(outcome: PollOutcome) -> bool {
    outcome matches PollOutcome::Answered(Some(entries)) && entries@.len() >= 3
}

/// The gauges after one poll made at `now_secs`: an answer with at least
/// three entries sets hits, misses and ratio from the first three (0 for an
/// entry that is not an `i64`) and the poll time; a failure counts one more
/// poll error (wrapping as the gauge does); any other answer changes nothing.
pub open spec fn poll_step(m: ExporterMetrics, outcome: PollOutcome, now_secs: u64) -> ExporterMetrics {
    match outcome {
        PollOutcome::Failed => ExporterMetrics { poll_errors_total: next_count(m.poll_errors_total), ..m },
        PollOutcome::Answered(Some(entries)) => if entries@.len() >= 3 {
            ExporterMetrics {
                cache_hits: entry_or_zero(entries@[0]),
                cache_misses: entry_or_zero(entries@[1]),
                cache_hit_ratio_bps: entry_or_zero(entries@[2]),
                poll_errors_total: m.poll_errors_total,
                last_poll_timestamp: now_secs as i64,
            }
        } else {
            m
        },
        PollOutcome::Answered(None) => m,
    }
}

/// The gauges after the polls `polls` (each an outcome and the time it was
/// made), in order, starting from `m`.
pub open spec fn fold_polls(m: ExporterMetrics, polls: Seq<(PollOutcome, u64)>) -> ExporterMetrics
    decreases polls.len(),
{
    if polls.len() == 0 {
        m
    } else {
        poll_step(fold_polls(m, polls.drop_last()), polls.last().0, polls.last().1)
    }
}

/// How many of the polls failed.
pub open spec fn poll_failures(polls: Seq<(PollOutcome, u64)>) -> nat
    decreases polls.len(),
{
    if polls.len() == 0 {
        0
    } else {
        poll_failures(polls.drop_last()) + if polls.last().0 is Failed { 1nat } else { 0nat }
    }
}

/// The statistics gauges: hits, misses, ratio and the time of the last
/// successful poll.
pub open spec fn poll_stats(m: ExporterMetrics) -> (i64, i64, i64, i64) {
    (m.cache_hits, m.cache_misses, m.cache_hit_ratio_bps, m.last_poll_timestamp)
}

/// Over successive polls the gauges follow the contract: the error gauge
/// grows by one per failed poll (while it stays below `i64::MAX`), and the
/// statistics show the latest poll that answered with at least three entries,
/// or stay as they were when no poll did.
pub proof fn law_poll_gauges_follow_polls(m: ExporterMetrics, polls: Seq<(PollOutcome, u64)>)
    requires
        m.poll_errors_total + poll_failures(polls) <= i64::MAX,
    ensures
        fold_polls(m, polls).poll_errors_total == m.poll_errors_total + poll_failures(polls),
        forall|k: int|
            0 <= k < polls.len() && poll_updates(#[trigger] polls[k].0) && (forall|j: int|
                k < j < polls.len() ==> !poll_updates(polls[j].0)) ==> poll_stats(fold_polls(m, polls))
                == poll_stats(poll_step(m, polls[k].0, polls[k].1)),
        (forall|j: int| 0 <= j < polls.len() ==> !poll_updates(#[trigger] polls[j].0)) ==> poll_stats(
            fold_polls(m, polls),
        ) == poll_stats(m),
    decreases polls.len(),
{
    if polls.len() > 0 {
        let prefix = polls.drop_last();
        let n = polls.len() - 1;
        assert(poll_failures(prefix) <= poll_failures(polls));
        law_poll_gauges_follow_polls(m, prefix);
        assert forall|k: int|
            0 <= k < polls.len() && poll_updates(#[trigger] polls[k].0) && (forall|j: int|
                k < j < polls.len() ==> !poll_updates(polls[j].0)) implies poll_stats(fold_polls(m, polls))
            == poll_stats(poll_step(m, polls[k].0, polls[k].1)) by {
            if k < n {
                assert(!poll_updates(polls[n].0));
                assert(prefix[k] == polls[k]);
                assert forall|j: int| k < j < prefix.len() implies !poll_updates(prefix[j].0) by {
                    assert(prefix[j] == polls[j]);
                }
            }
        }
        if forall|j: int| 0 <= j < polls.len() ==> !poll_updates(#[trigger] polls[j].0) {
            assert forall|j: int| 0 <= j < prefix.len() implies !poll_updates(#[trigger] prefix[j].0) by {
                assert(prefix[j] == polls[j]);
            }
            assert(!poll_updates(polls[n].0));
        }
    }
}

impl ExporterMetrics {
    /// All gauges at 0.
    pub fn new() -> (m: ExporterMetrics)
        ensures
            m == (ExporterMetrics {
                cache_hits: 0,
                cache_misses: 0,
                cache_hit_ratio_bps: 0,
                poll_errors_total: 0,
                last_poll_timestamp: 0,
            }),
    {
        ExporterMetrics { cache_hits: 0, cache_misses: 0, cache_hit_ratio_bps: 0, poll_errors_total: 0, last_poll_timestamp: 0 }
    }

    /// Folds one poll made at `now_secs` into the gauges: an answer with at
    /// least three entries sets hits, misses and ratio from the first three
    /// (0 for an entry that is not an `i64`) and the poll time; a failure
    /// counts one more poll error (wrapping as the gauge does); any other
    /// answer changes nothing. Returns whether the statistics were updated.
    pub fn apply_poll(&mut self, outcome: &PollOutcome, now_secs: u64) -> (updated: bool)
        ensures
            *final(self) == poll_step(*old(self), *outcome, now_secs),
            updated == poll_updates(*outcome),
    {
        match outcome {
            PollOutcome::Failed => {
                self.poll_errors_total = self.poll_errors_total.wrapping_add(1);
                false
            },
            PollOutcome::Answered(Some(entries)) => {
                if entries.len() >= 3 {
                    self.cache_hits = match entries[0] {
                        Some(v) => v,
                        None => 0,
                    };
                    self.cache_misses = match entries[1] {
                        Some(v) => v,
                        None => 0,
                    };
                    self.cache_hit_ratio_bps = match entries[2] {
                        Some(v) => v,
                        None => 0,
                    };
                    self.last_poll_timestamp = now_secs as i64;
                    true
                } else {
                    false
                }
            },
            PollOutcome::Answered(None) => false,
        }
    }
}

} // verus!
