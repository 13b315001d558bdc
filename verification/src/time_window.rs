//! The modification-time window and the time filter.
//!
//! The pipeline keeps a candidate file only if the server reports a
//! modification time inside the user-supplied window; both bounds are
//! included. An entry whose modification-time query failed is dropped
//! (fail-closed), not treated as an error.

use vstd::prelude::*;

verus! {

/// A naive timestamp (no time zone), counted in seconds.
///
/// Modification times reported by the server and the bounds of the
/// user-supplied time window are both represented this way; the ordering
/// of timestamps is the ordering of the underlying counts.
#[derive(Clone, Copy, PartialEq, Eq, Structural, Debug)]
pub struct Timestamp {
    pub seconds: i64,
}

/// An inclusive window of naive timestamps.
#[derive(Clone, Copy, PartialEq, Eq, Structural, Debug)]
pub struct TimeWindow {
    pub start: Timestamp,
    pub end: Timestamp,
}

impl TimeWindow {
    /// Whether `t` lies inside the window; both bounds are included.
    pub open spec fn spec_contains(self, t: Timestamp) -> bool {
        self.start.seconds <= t.seconds && t.seconds <= self.end.seconds
    }

    /// Executable bound check; both bounds are included.
    pub fn contains(&self, t: Timestamp) -> (r: bool)
        ensures
            r == self.spec_contains(t),
    {
        self.start.seconds <= t.seconds && t.seconds <= self.end.seconds
    }
}

/// Whether an entry whose modification-time query returned `m` is kept:
/// kept exactly when the query succeeded and the reported time lies in the
/// window. A failed query (`None`) drops the entry.
pub open spec fn keeps(w: TimeWindow, m: Option<Timestamp>) -> bool {
    match m {
        Some(t) => w.spec_contains(t),
        None => false,
    }
}

/// The entries of `names` whose paired query result in `times` is kept,
/// in their original order. `times[i]` is the result of querying the
/// modification time of `names[i]`.
pub open spec fn time_filtered(
    names: Seq<Seq<char>>,
    times: Seq<Option<Timestamp>>,
    w: TimeWindow,
) -> Seq<Seq<char>>
    decreases names.len(),
{
    if names.len() == 0 {
        Seq::empty()
    } else {
        let rest = time_filtered(names.drop_first(), times.drop_first(), w);
        if keeps(w, times[0]) {
            seq![names[0]] + rest
        } else {
            rest
        }
    }
}

/// Appending one entry to the input appends it to the output exactly when
/// it is kept.
pub proof fn lemma_time_filtered_push(
    names: Seq<Seq<char>>,
    times: Seq<Option<Timestamp>>,
    w: TimeWindow,
    n: Seq<char>,
    t: Option<Timestamp>,
)
    requires
        names.len() == times.len(),
    ensures
        time_filtered(names.push(n), times.push(t), w) == time_filtered(names, times, w) + (
        if keeps(w, t) {
            seq![n]
        } else {
            Seq::<Seq<char>>::empty()
        }),
    decreases names.len(),
{
    let tail = if keeps(w, t) {
        seq![n]
    } else {
        Seq::<Seq<char>>::empty()
    };
    if names.len() == 0 {
        let p = names.push(n);
        let q = times.push(t);
        assert(p.drop_first() =~= names);
        assert(q.drop_first() =~= times);
        assert(q[0] == t);
        assert(time_filtered(names, times, w) == Seq::<Seq<char>>::empty());
        if keeps(w, t) {
            assert(time_filtered(p, q, w) == seq![n] + time_filtered(names, times, w));
            assert(seq![n] + Seq::<Seq<char>>::empty() =~= seq![n]);
            assert(Seq::<Seq<char>>::empty() + tail =~= tail);
        } else {
            assert(time_filtered(p, q, w) == time_filtered(names, times, w));
            assert(Seq::<Seq<char>>::empty() + tail =~= tail);
        }
    } else {
        assert(names.push(n).drop_first() =~= names.drop_first().push(n));
        assert(times.push(t).drop_first() =~= times.drop_first().push(t));
        lemma_time_filtered_push(names.drop_first(), times.drop_first(), w, n, t);
        if keeps(w, times[0]) {
            assert(seq![names[0]] + (time_filtered(names.drop_first(), times.drop_first(), w)
                + tail) =~= (seq![names[0]] + time_filtered(
                names.drop_first(),
                times.drop_first(),
                w,
            )) + tail);
        }
    }
}

/// Every entry of the filtered output occurs in the input.
pub proof fn lemma_time_filtered_subset(
    names: Seq<Seq<char>>,
    times: Seq<Option<Timestamp>>,
    w: TimeWindow,
    x: Seq<char>,
)
    requires
        time_filtered(names, times, w).contains(x),
    ensures
        names.contains(x),
    decreases names.len(),
{
    if names.len() > 0 {
        let rest = time_filtered(names.drop_first(), times.drop_first(), w);
        if keeps(w, times[0]) && x == names[0] {
            assert(names[0] == names.index(0));
        } else {
            let out = time_filtered(names, times, w);
            let j = choose|j: int| 0 <= j < out.len() && out[j] == x;
            if keeps(w, times[0]) {
                assert(rest[j - 1] == x);
            }
            lemma_time_filtered_subset(names.drop_first(), times.drop_first(), w, x);
            let k = choose|k: int| 0 <= k < names.drop_first().len() && names.drop_first()[k] == x;
            assert(names[k + 1] == x);
        }
    }
}

/// The time each name is mapped to by the server state `mt`: the sequence of
/// query results that filtering `names` against that state consumes.
pub open spec fn times_of(names: Seq<Seq<char>>, mt: Map<Seq<char>, Option<Timestamp>>) -> Seq<
    Option<Timestamp>,
> {
    Seq::new(names.len(), |i: int| mt[names[i]])
}

/// With query results drawn from one server state, an entry appears in the
/// filtered output exactly when it appears in the input and that state maps
/// it to a modification time inside the window; an entry whose query failed
/// never appears.
pub proof fn lemma_time_filter_membership(
    names: Seq<Seq<char>>,
    mt: Map<Seq<char>, Option<Timestamp>>,
    w: TimeWindow,
    x: Seq<char>,
)
    ensures
        time_filtered(names, times_of(names, mt), w).contains(x) <==> names.contains(x) && keeps(
            w,
            mt[x],
        ),
    decreases names.len(),
{
    let times = times_of(names, mt);
    let out = time_filtered(names, times, w);
    if names.len() == 0 {
        assert(!out.contains(x));
        assert(!names.contains(x));
    } else {
        assert(times.drop_first() =~= times_of(names.drop_first(), mt));
        lemma_time_filter_membership(names.drop_first(), mt, w, x);
        let rest = time_filtered(names.drop_first(), times.drop_first(), w);
        if keeps(w, times[0]) {
            assert(out == seq![names[0]] + rest);
            if names.contains(x) && keeps(w, mt[x]) {
                if x == names[0] {
                    assert(out[0] == x);
                } else {
                    let k = choose|k: int| 0 <= k < names.len() && names[k] == x;
                    assert(names.drop_first()[k - 1] == x);
                    let j = choose|j: int| 0 <= j < rest.len() && rest[j] == x;
                    assert(out[j + 1] == x);
                }
            }
            if out.contains(x) {
                let j = choose|j: int| 0 <= j < out.len() && out[j] == x;
                if j == 0 {
                    assert(x == names[0]);
                    assert(names.contains(x) && keeps(w, mt[x]));
                } else {
                    assert(rest[j - 1] == x);
                    let k = choose|k: int| 0 <= k < names.drop_first().len()
                        && names.drop_first()[k] == x;
                    assert(names[k + 1] == x);
                }
            }
        } else {
            assert(out == rest);
            if names.contains(x) && keeps(w, mt[x]) {
                let k = choose|k: int| 0 <= k < names.len() && names[k] == x;
                assert(k != 0);
                assert(names.drop_first()[k - 1] == x);
            }
            if out.contains(x) {
                let k = choose|k: int| 0 <= k < names.drop_first().len() && names.drop_first()[k]
                    == x;
                assert(names[k + 1] == x);
            }
        }
    }
}

/// When every query result is kept, the filter changes nothing.
pub proof fn lemma_time_filtered_all_kept(
    names: Seq<Seq<char>>,
    times: Seq<Option<Timestamp>>,
    w: TimeWindow,
)
    requires
        names.len() == times.len(),
        forall|i: int| 0 <= i < times.len() ==> keeps(w, #[trigger] times[i]),
    ensures
        time_filtered(names, times, w) == names,
    decreases names.len(),
{
    if names.len() == 0 {
        assert(time_filtered(names, times, w) =~= names);
    } else {
        lemma_time_filtered_all_kept(names.drop_first(), times.drop_first(), w);
        assert(time_filtered(names, times, w) =~= names);
    }
}

/// Every entry of the output, filtered against server state `mt`, carries a
/// kept modification time in that state.
pub proof fn lemma_time_filtered_output_kept(
    names: Seq<Seq<char>>,
    mt: Map<Seq<char>, Option<Timestamp>>,
    w: TimeWindow,
)
    ensures
        forall|j: int|
            0 <= j < time_filtered(names, times_of(names, mt), w).len() ==> keeps(
                w,
                mt[#[trigger] time_filtered(names, times_of(names, mt), w)[j]],
            ),
    decreases names.len(),
{
    let times = times_of(names, mt);
    let out = time_filtered(names, times, w);
    if names.len() > 0 {
        assert(times.drop_first() =~= times_of(names.drop_first(), mt));
        lemma_time_filtered_output_kept(names.drop_first(), mt, w);
        let rest = time_filtered(names.drop_first(), times.drop_first(), w);
        assert forall|j: int| 0 <= j < out.len() implies keeps(w, mt[#[trigger] out[j]]) by {
            if keeps(w, times[0]) {
                if j == 0 {
                    assert(out[0] == names[0]);
                } else {
                    assert(out[j] == rest[j - 1]);
                }
            } else {
                assert(out[j] == rest[j]);
            }
        }
    }
}

/// Running the time filter twice, against the same window and the same
/// server state, gives the same result as running it once.
pub proof fn lemma_time_filter_idempotent(
    names: Seq<Seq<char>>,
    mt: Map<Seq<char>, Option<Timestamp>>,
    w: TimeWindow,
)
    ensures
        ({
            let once = time_filtered(names, times_of(names, mt), w);
            time_filtered(once, times_of(once, mt), w) == once
        }),
{
    let once = time_filtered(names, times_of(names, mt), w);
    lemma_time_filtered_output_kept(names, mt, w);
    assert forall|i: int| 0 <= i < times_of(once, mt).len() implies keeps(
        w,
        #[trigger] times_of(once, mt)[i],
    ) by {
        assert(times_of(once, mt)[i] == mt[once[i]]);
    }
    lemma_time_filtered_all_kept(once, times_of(once, mt), w);
}

/// A modification time equal to either bound of a non-empty window is kept:
/// both bounds are included.
pub proof fn lemma_window_boundary(w: TimeWindow)
    requires
        w.start.seconds <= w.end.seconds,
    ensures
        w.spec_contains(w.start),
        w.spec_contains(w.end),
{
}

/// Keep the entries of `files` whose paired modification-time query result
/// in `mtimes` lies inside the window, in their original order; an entry
/// whose query failed (`None`) is dropped.
pub fn filter_by_time(files: &Vec<String>, mtimes: &Vec<Option<Timestamp>>, w: &TimeWindow) -> (r:
    Vec<String>)
    requires
        files@.len() == mtimes@.len(),
    ensures
        r.deep_view() == time_filtered(files.deep_view(), mtimes@, *w),
{
    let mut out: Vec<String> = Vec::new();
    let mut i: usize = 0;
    while i < files.len()
        invariant
            i <= files@.len(),
            files@.len() == mtimes@.len(),
            out.deep_view() == time_filtered(
                files.deep_view().take(i as int),
                mtimes@.take(i as int),
                *w,
            ),
        decreases files@.len() - i,
    {
        let keep = match &mtimes[i] {
            Some(t) => w.contains(*t),
            None => false,
        };
        let ghost prev = out.deep_view();
        if keep {
            out.push(files[i].clone());
        }
        proof {
            lemma_time_filtered_push(
                files.deep_view().take(i as int),
                mtimes@.take(i as int),
                *w,
                files.deep_view()[i as int],
                mtimes@[i as int],
            );
            assert(files.deep_view().take(i + 1) =~= files.deep_view().take(i as int).push(
                files.deep_view()[i as int],
            ));
            assert(mtimes@.take(i + 1) =~= mtimes@.take(i as int).push(mtimes@[i as int]));
            if keep {
                assert(out.deep_view() =~= prev.push(files.deep_view()[i as int]));
                assert(prev.push(files.deep_view()[i as int]) =~= prev + seq![
                    files.deep_view()[i as int],
                ]);
            } else {
                assert(out.deep_view() =~= prev + Seq::<Seq<char>>::empty());
            }
        }
        i += 1;
    }
    proof {
        assert(files.deep_view().take(files@.len() as int) =~= files.deep_view());
        assert(mtimes@.take(mtimes@.len() as int) =~= mtimes@);
    }
    out
}

} // verus!
