use vstd::prelude::*;

verus! {

/// Reads a stored watched counter, treating an absent value as zero.
pub fn parse_watched(row: Option<u64>) -> (r: u64)
    ensures
        r == match row {
            Some(v) => v,
            None => 0,
        },
{
    match row {
        Some(v) => v,
        None => 0,
    }
}

/// The least of a non-empty list of counters.
pub open spec fn seq_min(s: Seq<u64>) -> u64
    decreases s.len(),
{
    if s.len() <= 1 {
        s[0]
    } else {
        let m = seq_min(s.drop_last());
        if s.last() < m {
            s.last()
        } else {
            m
        }
    }
}

/// The watched value of a show or season from the counters of its episodes:
/// the least of them, so that it is at least one only when every episode was
/// watched; zero when there is no episode.
pub open spec fn min_watched(s: Seq<u64>) -> u64 {
    if s.len() == 0 {
        0
    } else {
        seq_min(s)
    }
}

/// Computes the watched value of a show or season from the counters of its
/// episodes, an episode without a mark counting zero.
pub fn aggregate_watched(counts: &Vec<u64>) -> (r: u64)
    ensures
        r == min_watched(counts@),
{
    let n = counts.len();
    if n == 0 {
        return 0;
    }
    let mut m = counts[0];
    let mut i: usize = 1;
    proof {
        assert(counts@.subrange(0, 1).drop_last().len() == 0);
    }
    while i < n
        invariant
            n == counts@.len(),
            1 <= i <= n,
            m == seq_min(counts@.subrange(0, i as int)),
        decreases n - i,
    {
        proof {
            assert(counts@.subrange(0, i + 1).drop_last() =~= counts@.subrange(0, i as int));
        }
        if counts[i] < m {
            m = counts[i];
        }
        i = i + 1;
    }
    proof {
        assert(counts@.subrange(0, n as int) =~= counts@);
    }
    m
}

proof fn lemma_seq_min_bounds(s: Seq<u64>)
    requires
        s.len() > 0,
    ensures
        forall|i: int| 0 <= i < s.len() ==> seq_min(s) <= #[trigger] s[i],
        exists|i: int| 0 <= i < s.len() && seq_min(s) == #[trigger] s[i],
    decreases s.len(),
{
    if s.len() == 1 {
        assert(seq_min(s) == s[0]);
    } else {
        let d = s.drop_last();
        lemma_seq_min_bounds(d);
        let k = choose|k: int| 0 <= k < d.len() && seq_min(d) == #[trigger] d[k];
        assert forall|i: int| 0 <= i < s.len() implies seq_min(s) <= #[trigger] s[i] by {
            if i < s.len() - 1 {
                assert(s[i] == d[i]);
            }
        }
        if s.last() < seq_min(d) {
            assert(seq_min(s) == s[s.len() - 1]);
        } else {
            assert(seq_min(s) == s[k]);
        }
    }
}

/// A show or season reads as watched (a value of at least one) exactly when
/// it has episodes and every one of them was watched at least once; one
/// unwatched episode makes it zero.
pub proof fn lemma_watched_needs_every_episode(counts: Seq<u64>)
    ensures
        (exists|i: int| 0 <= i < counts.len() && #[trigger] counts[i] == 0) ==> min_watched(counts) == 0,
        (counts.len() > 0 && forall|i: int| 0 <= i < counts.len() ==> #[trigger] counts[i] >= 1)
            ==> min_watched(counts) >= 1,
        min_watched(counts) >= 1 ==> counts.len() > 0 && forall|i: int|
            0 <= i < counts.len() ==> #[trigger] counts[i] >= 1,
{
    if counts.len() > 0 {
        lemma_seq_min_bounds(counts);
    }
}

/// Whether a viewing time counts as having watched the whole video: more
/// than 85 hundredths of its duration, counted in whole hundredths.
pub open spec fn watched_through(time: u64, duration: u64) -> bool {
    time > (duration / 100) * 85
}

pub fn is_watched_through(time: u64, duration: u64) -> (r: bool)
    ensures
        r == watched_through(time, duration),
{
    let hundredth = duration / 100;
    proof {
        assert(hundredth * 85 <= u64::MAX) by (nonlinear_arith)
            requires
                hundredth == duration / 100,
        ;
    }
    time > hundredth * 85
}

/// The counter after marking a movie or episode watched (one more, held at
/// the largest value) or unwatched (zero).
pub open spec fn next_watched(current: u64, watched: bool) -> u64 {
    if !watched {
        0
    } else if current == u64::MAX {
        current
    } else {
        (current + 1) as u64
    }
}

pub fn next_watched_count(current: u64, watched: bool) -> (r: u64)
    ensures
        r == next_watched(current, watched),
{
    if !watched {
        0
    } else if current == u64::MAX {
        current
    } else {
        current + 1
    }
}

} // verus!
