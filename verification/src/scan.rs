//! Scan aggregation: the clip scanner's duration total with per-clip
//! failure isolation, and the session scanner's filtering and stable
//! ordering of candidate directories.

use vstd::prelude::*;

verus! {

/// One clip found by the engine's list call: its name, its creation
/// timestamp in milliseconds since the Unix epoch, and its measured
/// duration in milliseconds — `None` when the engine's per-clip
/// measurement failed, which never aborts the scan.
pub struct ClipEntry {
    pub name: String,
    pub created_ms: u64,
    pub duration_ms: Option<u64>,
}

/// One directory under the default recording path, before session
/// filtering: its name, its creation timestamp in milliseconds since
/// the Unix epoch, and the number of clips the engine's list call found
/// in it — `None` when that call failed.
pub struct SessionCandidate {
    pub name: String,
    pub created_ms: u64,
    pub clip_count: Option<usize>,
}

/// One retained session as the report renders it: the aggregate
/// duration is `None` when the engine's per-session measurement failed,
/// which keeps the row with an error marker rather than dropping it.
pub struct SessionEntry {
    pub name: String,
    pub created_ms: u64,
    pub duration_ms: Option<u64>,
}

/// The sum of the successfully measured durations; a failed measurement
/// contributes nothing.
pub open spec fn sum_measured(clips: Seq<ClipEntry>) -> int
    decreases clips.len(),
{
    if clips.len() == 0 {
        0
    } else {
        sum_measured(clips.drop_last()) + (match clips.last().duration_ms {
            Some(d) => d as int,
            None => 0,
        })
    }
}

pub proof fn lemma_sum_measured_nonneg(clips: Seq<ClipEntry>)
    ensures
        sum_measured(clips) >= 0,
    decreases clips.len(),
{
    if clips.len() > 0 {
        lemma_sum_measured_nonneg(clips.drop_last());
    }
}

pub proof fn lemma_sum_measured_take(clips: Seq<ClipEntry>, n: int)
    requires
        0 <= n <= clips.len(),
    ensures
        sum_measured(clips.take(n)) <= sum_measured(clips),
    decreases clips.len() - n,
{
    if n == clips.len() {
        assert(clips.take(n) =~= clips);
    } else {
        lemma_sum_measured_take(clips, n + 1);
        assert(clips.take(n + 1).drop_last() =~= clips.take(n));
    }
}

/// A failed duration measurement is excluded from the running total:
/// dropping the failed clip leaves the total unchanged.
pub proof fn lemma_failed_clip_excluded(clips: Seq<ClipEntry>, i: int)
    requires
        0 <= i < clips.len(),
        clips[i].duration_ms is None,
    ensures
        sum_measured(clips) == sum_measured(clips.remove(i)),
    decreases clips.len(),
{
    if i == clips.len() - 1 {
        assert(clips.remove(i) =~= clips.drop_last());
    } else {
        lemma_failed_clip_excluded(clips.drop_last(), i);
        assert(clips.remove(i).drop_last() =~= clips.drop_last().remove(i));
        assert(clips.remove(i).last() == clips.last());
    }
}

/// Total the measured durations of a scan, skipping the clips whose
/// measurement failed.
pub fn total_measured_duration(clips: &Vec<ClipEntry>) -> (total: u64)
    requires
        sum_measured(clips@) <= u64::MAX,
    ensures
        total as int == sum_measured(clips@),
{
    let mut total: u64 = 0;
    let mut i: usize = 0;
    while i < clips.len()
        invariant
            i <= clips@.len(),
            sum_measured(clips@) <= u64::MAX,
            total as int == sum_measured(clips@.take(i as int)),
        decreases clips@.len() - i,
    {
        proof {
            assert(clips@.take(i + 1).drop_last() =~= clips@.take(i as int));
            assert(clips@.take(i + 1).last() == clips@[i as int]);
            lemma_sum_measured_take(clips@, i + 1);
            lemma_sum_measured_nonneg(clips@.take(i as int));
        }
        match clips[i].duration_ms {
            Some(d) => {
                total = total + d;
            },
            None => {},
        }
        i = i + 1;
    }
    proof {
        assert(clips@.take(clips@.len() as int) =~= clips@);
    }
    total
}

/// Whether a candidate directory is a valid session: the engine's list
/// call succeeded and found at least one clip. A failed call and an
/// empty directory are both silently discarded.
pub open spec fn session_valid(c: SessionCandidate) -> bool {
    match c.clip_count {
        Some(n) => n > 0,
        None => false,
    }
}

/// The valid candidates, in their original order.
pub open spec fn valid_only(cands: Seq<SessionCandidate>) -> Seq<SessionCandidate>
    decreases cands.len(),
{
    if cands.len() == 0 {
        Seq::empty()
    } else {
        let prev = valid_only(cands.drop_last());
        if session_valid(cands.last()) {
            prev.push(cands.last())
        } else {
            prev
        }
    }
}

/// `x` inserted after every element whose creation timestamp is at most
/// `x`'s: the insertion step of a stable sort by ascending creation
/// timestamp.
pub open spec fn insert_by_created(s: Seq<SessionCandidate>, x: SessionCandidate) -> Seq<
    SessionCandidate,
>
    decreases s.len(),
{
    if s.len() == 0 {
        seq![x]
    } else if x.created_ms < s.last().created_ms {
        insert_by_created(s.drop_last(), x) + seq![s.last()]
    } else {
        s.push(x)
    }
}

/// The session listing: the valid candidates, stably sorted ascending
/// by creation timestamp.
pub open spec fn sessions_in_order(cands: Seq<SessionCandidate>) -> Seq<SessionCandidate>
    decreases cands.len(),
{
    if cands.len() == 0 {
        Seq::empty()
    } else {
        let prev = sessions_in_order(cands.drop_last());
        if session_valid(cands.last()) {
            insert_by_created(prev, cands.last())
        } else {
            prev
        }
    }
}

/// Ascending by creation timestamp.
pub open spec fn sorted_by_created(s: Seq<SessionCandidate>) -> bool {
    forall|i: int, j: int|
        0 <= i < j < s.len() ==> s[i].created_ms <= s[j].created_ms
}

/// Every element's creation timestamp is at most `m`.
pub open spec fn created_at_most(s: Seq<SessionCandidate>, m: u64) -> bool {
    forall|i: int| 0 <= i < s.len() ==> s[i].created_ms <= m
}

proof fn lemma_insert_by_created_at(s: Seq<SessionCandidate>, x: SessionCandidate, j: int)
    requires
        0 <= j <= s.len(),
        forall|k: int| j <= k < s.len() ==> s[k].created_ms > x.created_ms,
        j > 0 ==> s[j - 1].created_ms <= x.created_ms,
    ensures
        insert_by_created(s, x) == s.insert(j, x),
    decreases s.len(),
{
    if j == s.len() {
        assert(insert_by_created(s, x) =~= s.insert(j, x));
    } else {
        lemma_insert_by_created_at(s.drop_last(), x, j);
        assert(s.drop_last().insert(j, x) + seq![s.last()] =~= s.insert(j, x));
    }
}

proof fn lemma_insert_by_created_sorted(s: Seq<SessionCandidate>, x: SessionCandidate)
    requires
        sorted_by_created(s),
    ensures
        sorted_by_created(insert_by_created(s, x)),
        forall|m: u64|
            created_at_most(s, m) && x.created_ms <= m ==> #[trigger] created_at_most(
                insert_by_created(s, x),
                m,
            ),
    decreases s.len(),
{
    let r = insert_by_created(s, x);
    if s.len() == 0 {
        assert forall|i: int, j: int| 0 <= i < j < r.len() implies r[i].created_ms
            <= r[j].created_ms by {}
    } else if x.created_ms < s.last().created_ms {
        assert(sorted_by_created(s.drop_last()));
        lemma_insert_by_created_sorted(s.drop_last(), x);
        let r1 = insert_by_created(s.drop_last(), x);
        assert(created_at_most(s.drop_last(), s.last().created_ms));
        assert(created_at_most(r1, s.last().created_ms));
        assert forall|i: int, j: int| 0 <= i < j < r.len() implies r[i].created_ms
            <= r[j].created_ms by {
            if j < r.len() - 1 {
                assert(r[i] == r1[i] && r[j] == r1[j]);
            } else {
                assert(r[i] == r1[i] && r[j] == s.last());
            }
        }
        assert forall|m: u64| created_at_most(s, m) && x.created_ms <= m implies created_at_most(
            r,
            m,
        ) by {
            assert(created_at_most(s.drop_last(), m));
            assert(created_at_most(r1, m));
            assert forall|i: int| 0 <= i < r.len() implies r[i].created_ms <= m by {
                if i < r.len() - 1 {
                    assert(r[i] == r1[i]);
                } else {
                    assert(r[i] == s.last());
                }
            }
        }
    } else {
        assert forall|i: int, j: int| 0 <= i < j < r.len() implies r[i].created_ms
            <= r[j].created_ms by {
            if j == r.len() - 1 {
                if i < s.len() - 1 {
                    assert(s[i].created_ms <= s[s.len() - 1].created_ms);
                }
            }
        }
    }
}

/// The session listing is sorted ascending by creation timestamp.
pub proof fn lemma_sessions_in_order_sorted(cands: Seq<SessionCandidate>)
    ensures
        sorted_by_created(sessions_in_order(cands)),
    decreases cands.len(),
{
    if cands.len() > 0 {
        lemma_sessions_in_order_sorted(cands.drop_last());
        if session_valid(cands.last()) {
            lemma_insert_by_created_sorted(sessions_in_order(cands.drop_last()), cands.last());
        }
    }
}

proof fn lemma_insert_by_created_multiset(s: Seq<SessionCandidate>, x: SessionCandidate)
    ensures
        insert_by_created(s, x).to_multiset() == s.push(x).to_multiset(),
    decreases s.len(),
{
    broadcast use vstd::seq_lib::to_multiset_build;
    broadcast use vstd::multiset::group_multiset_axioms;

    if s.len() == 0 || x.created_ms >= s.last().created_ms {
        assert(insert_by_created(s, x) =~= s.push(x));
    } else {
        lemma_insert_by_created_multiset(s.drop_last(), x);
        let r1 = insert_by_created(s.drop_last(), x);
        assert(r1 + seq![s.last()] =~= r1.push(s.last()));
        assert(s.drop_last().push(x).to_multiset() == s.drop_last().to_multiset().insert(x));
        assert(insert_by_created(s, x).to_multiset() == s.drop_last().to_multiset().insert(
            x,
        ).insert(s.last()));
        assert(s.drop_last().to_multiset().insert(x).insert(s.last())
            =~= s.drop_last().to_multiset().insert(s.last()).insert(x));
        assert(s.drop_last().push(s.last()).to_multiset() == s.drop_last().to_multiset().insert(
            s.last(),
        ));
        assert(s.drop_last().push(s.last()) =~= s);
    }
}

/// The session listing holds exactly the valid candidates: filtering
/// and sorting change no multiplicities.
pub proof fn lemma_sessions_in_order_multiset(cands: Seq<SessionCandidate>)
    ensures
        sessions_in_order(cands).to_multiset() == valid_only(cands).to_multiset(),
    decreases cands.len(),
{
    broadcast use vstd::seq_lib::to_multiset_build;

    if cands.len() > 0 {
        lemma_sessions_in_order_multiset(cands.drop_last());
        if session_valid(cands.last()) {
            lemma_insert_by_created_multiset(sessions_in_order(cands.drop_last()), cands.last());
            assert(sessions_in_order(cands.drop_last()).push(cands.last()).to_multiset()
                == sessions_in_order(cands.drop_last()).to_multiset().insert(cands.last()));
            assert(valid_only(cands.drop_last()).push(cands.last()).to_multiset() == valid_only(
                cands.drop_last(),
            ).to_multiset().insert(cands.last()));
        }
    }
}

proof fn lemma_valid_only_contains(cands: Seq<SessionCandidate>, c: SessionCandidate)
    ensures
        valid_only(cands).contains(c) <==> (cands.contains(c) && session_valid(c)),
    decreases cands.len(),
{
    if cands.len() > 0 {
        let prev = valid_only(cands.drop_last());
        lemma_valid_only_contains(cands.drop_last(), c);
        assert(cands.contains(c) <==> (cands.drop_last().contains(c) || cands.last() == c)) by {
            if cands.contains(c) {
                let i = choose|i: int| 0 <= i < cands.len() && cands[i] == c;
                if i < cands.len() - 1 {
                    assert(cands.drop_last()[i] == c);
                }
            }
            if cands.drop_last().contains(c) {
                let i = choose|i: int| 0 <= i < cands.drop_last().len() && cands.drop_last()[i]
                    == c;
                assert(cands[i] == c);
            }
            if cands.last() == c {
                assert(cands[cands.len() - 1] == c);
            }
        }
        if session_valid(cands.last()) {
            assert(valid_only(cands) == prev.push(cands.last()));
            assert(prev.push(cands.last()).contains(c) <==> (prev.contains(c) || cands.last()
                == c)) by {
                if prev.contains(c) {
                    let i = choose|i: int| 0 <= i < prev.len() && prev[i] == c;
                    assert(prev.push(cands.last())[i] == c);
                }
                if cands.last() == c {
                    assert(prev.push(cands.last())[prev.len() as int] == c);
                }
                if prev.push(cands.last()).contains(c) {
                    let i = choose|i: int|
                        0 <= i < prev.push(cands.last()).len() && prev.push(cands.last())[i] == c;
                    if i < prev.len() {
                        assert(prev[i] == c);
                    }
                }
            }
        }
    }
}

/// A directory stands in the session listing exactly when the engine's
/// list call found at least one clip in it: a failed call and an empty
/// directory are excluded, and nothing else is.
pub proof fn lemma_session_listing_excludes(cands: Seq<SessionCandidate>, c: SessionCandidate)
    ensures
        sessions_in_order(cands).contains(c) <==> (cands.contains(c) && session_valid(c)),
{
    broadcast use vstd::seq_lib::to_multiset_contains;

    lemma_sessions_in_order_multiset(cands);
    lemma_valid_only_contains(cands, c);
    assert(sessions_in_order(cands).contains(c) <==> sessions_in_order(
        cands,
    ).to_multiset().count(c) > 0);
    assert(valid_only(cands).contains(c) <==> valid_only(cands).to_multiset().count(c) > 0);
}

/// Filter the candidate directories down to valid sessions and sort
/// them ascending by creation timestamp, stably: of two sessions
/// created at the same instant, the one enumerated first stays first.
pub fn select_sessions(cands: Vec<SessionCandidate>) -> (r: Vec<SessionCandidate>)
    ensures
        r@ == sessions_in_order(cands@),
{
    let ghost orig = cands@;
    let mut cands = cands;
    let mut out: Vec<SessionCandidate> = Vec::new();
    proof {
        assert(orig.take(0) =~= Seq::<SessionCandidate>::empty());
        assert(orig.skip(0) =~= orig);
    }
    while cands.len() > 0
        invariant
            cands@.len() <= orig.len(),
            cands@ == orig.skip(orig.len() - cands@.len()),
            out@ == sessions_in_order(orig.take(orig.len() - cands@.len())),
        decreases cands@.len(),
    {
        let ghost i = orig.len() - cands@.len();
        let c = cands.remove(0);
        proof {
            assert(c == orig[i]);
            assert(cands@ =~= orig.skip(i + 1));
            assert(orig.take(i + 1).drop_last() =~= orig.take(i));
            assert(orig.take(i + 1).last() == orig[i]);
        }
        let valid = match c.clip_count {
            Some(n) => n > 0,
            None => false,
        };
        if valid {
            let ghost before = out@;
            let mut j: usize = out.len();
            while j > 0 && out[j - 1].created_ms > c.created_ms
                invariant
                    j <= out@.len(),
                    out@ == before,
                    forall|k: int| j <= k < out@.len() ==> out@[k].created_ms > c.created_ms,
                decreases j,
            {
                j = j - 1;
            }
            proof {
                lemma_insert_by_created_at(before, c, j as int);
            }
            out.insert(j, c);
        }
        proof {
            assert(out@ == sessions_in_order(orig.take(i + 1)));
        }
    }
    proof {
        assert(orig.take(orig.len() as int) =~= orig);
    }
    out
}

} // verus!
