//! URL-history records and their duplicate-detection aggregate: how many
//! times a URL was seen on a channel within an expiry window, with the first
//! and last sighting. `UrlHistory` is the verified in-memory form of the
//! append-only store; the on-disk store answers the same query.

use vstd::prelude::*;

verus! {

/// One URL sighting: timestamp, channel, sender nickname, URL text.
#[derive(Debug)]
pub struct UrlCtx {
    pub ts: i64,
    pub chan: String,
    pub nick: String,
    pub url: String,
}

pub ghost struct SpecUrlCtx {
    pub ts: i64,
    pub chan: Seq<char>,
    pub nick: Seq<char>,
    pub url: Seq<char>,
}

impl View for UrlCtx {
    type V = SpecUrlCtx;

    open spec fn view(&self) -> SpecUrlCtx {
        SpecUrlCtx { ts: self.ts, chan: self.chan@, nick: self.nick@, url: self.url@ }
    }
}

impl DeepView for UrlCtx {
    type V = SpecUrlCtx;

    open spec fn deep_view(&self) -> SpecUrlCtx {
        self@
    }
}

/// A stored URL row, as the persistence collaborator returns it.
#[derive(Debug)]
pub struct DbUrl {
    pub id: i64,
    pub seen: i64,
    pub channel: String,
    pub nick: String,
    pub url: String,
}

/// The aggregate a duplicate query returns: occurrence count, first-seen and
/// last-seen timestamps.
#[derive(Clone, Copy, PartialEq, Eq, Structural, Debug)]
pub struct UrlHist {
    pub cnt: u64,
    pub min: i64,
    pub max: i64,
}

/// Whether a record is a sighting of `url` on `chan` at or after `min_ts`.
pub open spec fn rec_matches(r: SpecUrlCtx, url: Seq<char>, chan: Seq<char>, min_ts: i64) -> bool {
    r.url == url && r.chan == chan && r.ts >= min_ts
}

/// Number of matching records.
pub open spec fn spec_hist_count(
    s: Seq<SpecUrlCtx>,
    url: Seq<char>,
    chan: Seq<char>,
    min_ts: i64,
) -> nat
    decreases s.len(),
{
    if s.len() == 0 {
        0
    } else {
        spec_hist_count(s.drop_last(), url, chan, min_ts) + if rec_matches(
            s.last(),
            url,
            chan,
            min_ts,
        ) {
            1nat
        } else {
            0nat
        }
    }
}

/// Earliest matching timestamp (`i64::MAX` when none matches).
pub open spec fn spec_hist_min(
    s: Seq<SpecUrlCtx>,
    url: Seq<char>,
    chan: Seq<char>,
    min_ts: i64,
) -> i64
    decreases s.len(),
{
    if s.len() == 0 {
        i64::MAX
    } else {
        let rest = spec_hist_min(s.drop_last(), url, chan, min_ts);
        if rec_matches(s.last(), url, chan, min_ts) && s.last().ts < rest {
            s.last().ts
        } else {
            rest
        }
    }
}

/// Latest matching timestamp (`i64::MIN` when none matches).
pub open spec fn spec_hist_max(
    s: Seq<SpecUrlCtx>,
    url: Seq<char>,
    chan: Seq<char>,
    min_ts: i64,
) -> i64
    decreases s.len(),
{
    if s.len() == 0 {
        i64::MIN
    } else {
        let rest = spec_hist_max(s.drop_last(), url, chan, min_ts);
        if rec_matches(s.last(), url, chan, min_ts) && s.last().ts > rest {
            s.last().ts
        } else {
            rest
        }
    }
}

proof fn lemma_hist_count_le_len(s: Seq<SpecUrlCtx>, url: Seq<char>, chan: Seq<char>, min_ts: i64)
    ensures
        spec_hist_count(s, url, chan, min_ts) <= s.len(),
    decreases s.len(),
{
    if s.len() > 0 {
        lemma_hist_count_le_len(s.drop_last(), url, chan, min_ts);
    }
}

/// An append-only in-memory URL history; its view is the sequence of records
/// in insertion order.
pub struct UrlHistory {
    records: Vec<UrlCtx>,
}

impl View for UrlHistory {
    type V = Seq<SpecUrlCtx>;

    closed spec fn view(&self) -> Seq<SpecUrlCtx> {
        self.records.deep_view()
    }
}

impl UrlHistory {
    /// The empty history.
    pub fn new() -> (r: Self)
        ensures
            r@ == Seq::<SpecUrlCtx>::empty(),
    {
        let r = UrlHistory { records: Vec::new() };
        proof {
            assert(r@ =~= Seq::<SpecUrlCtx>::empty());
        }
        r
    }

    /// Number of stored records.
    pub fn len(&self) -> (r: usize)
        ensures
            r == self@.len(),
    {
        self.records.len()
    }

    /// Append one sighting.
    pub fn add(&mut self, rec: UrlCtx)
        ensures
            final(self)@ == old(self)@.push(rec@),
    {
        let ghost g = rec@;
        self.records.push(rec);
        proof {
            assert(final(self)@ =~= old(self)@.push(g));
        }
    }

    /// The duplicate query: aggregate the sightings of `url` on `chan` with
    /// timestamp at or after `min_ts`. Returns the count with the first and
    /// last timestamps, or `None` exactly when there is no such sighting.
    pub fn check(&self, url: &str, chan: &str, min_ts: i64) -> (r: Option<UrlHist>)
        ensures
            match r {
                Some(h) => spec_hist_count(self@, url@, chan@, min_ts) == h.cnt && h.cnt > 0
                    && h.min == spec_hist_min(self@, url@, chan@, min_ts) && h.max
                    == spec_hist_max(self@, url@, chan@, min_ts),
                None => spec_hist_count(self@, url@, chan@, min_ts) == 0,
            },
    {
        let n = self.records.len();
        let mut cnt: u64 = 0;
        let mut lo: i64 = i64::MAX;
        let mut hi: i64 = i64::MIN;
        let mut i: usize = 0;
        proof {
            assert(self@.take(0) =~= Seq::<SpecUrlCtx>::empty());
        }
        while i < n
            invariant
                i <= n,
                n == self@.len(),
                self@.len() == self.records@.len(),
                cnt == spec_hist_count(self@.take(i as int), url@, chan@, min_ts),
                cnt <= i,
                lo == spec_hist_min(self@.take(i as int), url@, chan@, min_ts),
                hi == spec_hist_max(self@.take(i as int), url@, chan@, min_ts),
            decreases n - i,
        {
            let rec = &self.records[i];
            let is_match = crate::str_util::str_eq(rec.url.as_str(), url)
                && crate::str_util::str_eq(rec.chan.as_str(), chan) && rec.ts >= min_ts;
            proof {
                assert(self@.take(i as int + 1).drop_last() =~= self@.take(i as int));
                assert(self@.take(i as int + 1).last() == self@[i as int]);
                lemma_hist_count_le_len(self@.take(i as int), url@, chan@, min_ts);
            }
            if is_match {
                cnt = cnt + 1;
                if rec.ts < lo {
                    lo = rec.ts;
                }
                if rec.ts > hi {
                    hi = rec.ts;
                }
            }
            i = i + 1;
        }
        proof {
            assert(self@.take(n as int) =~= self@);
        }
        if cnt == 0 {
            None
        } else {
            Some(UrlHist { cnt, min: lo, max: hi })
        }
    }
}

/// How many attempts remain for storing one record: a bounded retry policy
/// with a fixed attempt budget.
pub struct InsertRetry {
    attempts_left: u64,
}

/// The fixed number of attempts the store policy allows for one record.
pub const URL_LOG_RETRY_COUNT: u64 = 5;

/// Seconds to wait between two attempts.
pub const URL_LOG_RETRY_SLEEP_SECS: u64 = 1;

impl InsertRetry {
    pub closed spec fn spec_left(&self) -> u64 {
        self.attempts_left
    }

    /// A fresh policy with the full attempt budget.
    pub fn new() -> (r: Self)
        ensures
            r.spec_left() == URL_LOG_RETRY_COUNT,
    {
        InsertRetry { attempts_left: URL_LOG_RETRY_COUNT }
    }

    /// Whether another attempt may be made; each call consumes one attempt,
    /// and after the budget is exhausted the record is dropped, never
    /// retried forever.
    pub fn next_attempt(&mut self) -> (r: bool)
        ensures
            r == (old(self).spec_left() > 0),
            r ==> final(self).spec_left() == old(self).spec_left() - 1,
            !r ==> final(self).spec_left() == 0,
    {
        if self.attempts_left > 0 {
            self.attempts_left = self.attempts_left - 1;
            true
        } else {
            false
        }
    }
}

/// The cutoff timestamp of the duplicate-detection window: `now` minus
/// `days` days, saturated at the ends of the timestamp range when the
/// window leaves it.
pub open spec fn spec_dup_cutoff(now: i64, days: i64) -> i64 {
    let w = days * 86400int;
    if w > i64::MAX {
        i64::MIN
    } else if w < i64::MIN {
        i64::MAX
    } else {
        let c = now - w;
        if c > i64::MAX {
            i64::MAX
        } else if c < i64::MIN {
            i64::MIN
        } else {
            c as i64
        }
    }
}

/// Compute the duplicate-window cutoff from the current time and the
/// configured expiry in days.
pub fn dup_cutoff(now: i64, days: i64) -> (r: i64)
    ensures
        r == spec_dup_cutoff(now, days),
{
    match days.checked_mul(86400) {
        None => {
            if days > 0 {
                i64::MIN
            } else {
                i64::MAX
            }
        }
        Some(w) => match now.checked_sub(w) {
            None => {
                if w < 0 {
                    i64::MAX
                } else {
                    i64::MIN
                }
            }
            Some(c) => c,
        },
    }
}

} // verus!
