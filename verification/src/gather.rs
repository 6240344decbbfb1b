//! The message gatherer: walks a channel's history backward page by page,
//! keeps the non-pinned messages whose timestamps lie in the half-open window
//! `[t0, t1)`, and stops on the first page that is short or that crosses
//! below the window. The page fetches themselves are network calls made by
//! the surrounding application; this module holds the filtering and the stop,
//! anchor and progress decisions, as a step function over an explicit state.

use vstd::prelude::*;
use vstd::seq_lib::*;
use vstd::string::*;

use crate::ids::{MessageMeta, MessageRef};
use crate::strutil::decimal_chars;

verus! {

/// The platform returns at most this many messages per history page; a
/// shorter page means the history is exhausted.
pub const PAGE_LIMIT: usize = 100;

/// The messages a purge may touch: inside `[t0, t1)` and not pinned.
pub open spec fn window_pred(t0: int, t1: int) -> spec_fn(MessageMeta) -> bool {
    |m: MessageMeta| t0 <= m.timestamp < t1 && !m.pinned
}

/// The sub-sequence of `h` a purge over `[t0, t1)` may touch.
pub open spec fn qualifying(h: Seq<MessageMeta>, t0: int, t1: int) -> Seq<MessageMeta> {
    h.filter(window_pred(t0, t1))
}

/// Newest first, the order in which history pages arrive.
pub open spec fn sorted_desc(h: Seq<MessageMeta>) -> bool {
    forall|i: int, j: int|
        0 <= i <= j < h.len() ==> #[trigger] h[i].timestamp >= #[trigger] h[j].timestamp
}

/// Oldest first, the order of a finished batch.
pub open spec fn sorted_asc(h: Seq<MessageMeta>) -> bool {
    forall|i: int, j: int|
        0 <= i <= j < h.len() ==> #[trigger] h[i].timestamp <= #[trigger] h[j].timestamp
}

/// Whether a page reached below the window's lower bound.
pub open spec fn crosses_below(page: Seq<MessageMeta>, t0: int) -> bool {
    exists|i: int| 0 <= i < page.len() && #[trigger] page[i].timestamp < t0
}

/// Whether `b` is the id of an oldest message of `page`.
pub open spec fn is_oldest_id(b: MessageRef, page: Seq<MessageMeta>) -> bool {
    exists|i: int|
        0 <= i < page.len() && #[trigger] page[i].id == b && (forall|j: int|
            0 <= j < page.len() ==> #[trigger] page[j].timestamp >= page[i].timestamp)
}

/// What to tell the user after a page: a
/// one-time advisory once a second fetch is needed, then a count every 25
/// pages; nothing once the gather is done.
#[derive(Clone, Copy, Debug, PartialEq, Eq, Structural)]
pub enum GatherReport {
    Quiet,
    LongScan,
    Progress(usize),
}

pub open spec fn spec_report(done: bool, pages: u64, count: usize) -> GatherReport {
    if done {
        GatherReport::Quiet
    } else if pages == 1 {
        GatherReport::LongScan
    } else if pages % 25 == 0 {
        GatherReport::Progress(count)
    } else {
        GatherReport::Quiet
    }
}

/// One history fetch the application should perform next: the most recent
/// page, or the page strictly before a given message.
#[derive(Clone, Copy, Debug, PartialEq, Eq, Structural)]
pub struct FetchRequest {
    pub before: Option<MessageRef>,
}

/// The state of one in-progress gather.
pub struct GatherState {
    /// Lower bound of the window, inclusive (unix seconds).
    pub t0: i64,
    /// Upper bound of the window, exclusive (unix seconds).
    pub t1: i64,
    /// The qualifying messages of every page seen so far, in page order.
    pub collected: Vec<MessageMeta>,
    /// Pages processed so far.
    pub pages: u64,
    /// The oldest message of the last non-empty page: the anchor for the
    /// next backward fetch.
    pub next_before: Option<MessageRef>,
    /// Whether the stop condition has been reached.
    pub done: bool,
    /// Every message of every page seen so far, in arrival order.
    pub seen: Ghost<Seq<MessageMeta>>,
}

impl GatherState {
    /// The collected batch is exactly the qualifying part of what has been
    /// seen.
    pub open spec fn wf(&self) -> bool {
        self.collected@ == qualifying(self.seen@, self.t0 as int, self.t1 as int)
    }
}

/// Starts a gather over the window `[t0, t1)`.
pub fn gather_new(t0: i64, t1: i64) -> (st: GatherState)
    ensures
        st.wf(),
        st.t0 == t0,
        st.t1 == t1,
        st.seen@ == Seq::<MessageMeta>::empty(),
        st.pages == 0,
        st.next_before is None,
        !st.done,
{
    let st = GatherState {
        t0,
        t1,
        collected: Vec::new(),
        pages: 0,
        next_before: None,
        done: false,
        seen: Ghost(Seq::empty()),
    };
    proof {
        lemma_filter_none(st.seen@, window_pred(t0 as int, t1 as int));
    }
    st
}

/// The next history fetch to perform: issued exactly while the gather is not
/// done, anchored before the oldest message seen, so no page is fetched
/// beyond the first short or window-crossing one.
pub fn next_fetch(st: &GatherState) -> (r: Option<FetchRequest>)
    ensures
        r is Some <==> !st.done,
        r matches Some(f) ==> f.before == st.next_before,
{
    if st.done {
        None
    } else {
        Some(FetchRequest { before: st.next_before })
    }
}

/// Feeds one fetched page into the gather: keeps the page's qualifying
/// messages, records whether the stop condition was reached (a message below
/// `t0`, or a short page), re-anchors the next fetch at the page's oldest
/// message, and reports what to tell the user.
pub fn gather_step(st: &mut GatherState, page: Vec<MessageMeta>) -> (report: GatherReport)
    requires
        !old(st).done,
        old(st).wf(),
        old(st).pages < u64::MAX,
    ensures
        final(st).wf(),
        final(st).t0 == old(st).t0,
        final(st).t1 == old(st).t1,
        final(st).seen@ == old(st).seen@ + page@,
        final(st).pages == old(st).pages + 1,
        final(st).done == (crosses_below(page@, old(st).t0 as int) || page@.len() < PAGE_LIMIT),
        final(st).collected@ == old(st).collected@ + qualifying(
            page@,
            old(st).t0 as int,
            old(st).t1 as int,
        ),
        page@.len() > 0 ==> (final(st).next_before matches Some(b) && is_oldest_id(b, page@)),
        page@.len() == 0 ==> final(st).next_before == old(st).next_before,
        report == spec_report(final(st).done, final(st).pages, final(st).collected@.len() as usize),
{
    let ghost orig = *st;
    let ghost pred = window_pred(st.t0 as int, st.t1 as int);
    let mut crossed = false;
    let mut oldest: Option<usize> = None;
    let mut k: usize = 0;
    proof {
        assert(page@.take(0) =~= Seq::<MessageMeta>::empty());
        lemma_filter_none(page@.take(0), pred);
    }
    while k < page.len()
        invariant
            0 <= k <= page@.len(),
            *st == (GatherState { collected: st.collected, ..orig }),
            pred == window_pred(orig.t0 as int, orig.t1 as int),
            st.collected@ == orig.collected@ + page@.take(k as int).filter(pred),
            crossed == crosses_below(page@.take(k as int), orig.t0 as int),
            match oldest {
                Some(oi) => 0 <= oi < k && (forall|j: int|
                    0 <= j < k ==> #[trigger] page@[j].timestamp >= page@[oi as int].timestamp),
                None => k == 0,
            },
        decreases page@.len() - k,
    {
        let m = page[k];
        proof {
            assert(page@.take(k as int + 1) =~= page@.take(k as int).push(m));
            lemma_filter_push(page@.take(k as int), m, pred);
        }
        if m.timestamp < st.t0 {
            crossed = true;
        }
        proof {
            if crossed {
                assert(crosses_below(page@.take(k as int + 1), orig.t0 as int)) by {
                    if m.timestamp < orig.t0 {
                        assert(page@.take(k as int + 1)[k as int].timestamp < orig.t0);
                    } else {
                        let i = choose|i: int|
                            0 <= i < k && #[trigger] page@.take(k as int)[i].timestamp < orig.t0;
                        assert(page@.take(k as int + 1)[i].timestamp < orig.t0);
                    }
                }
            } else {
                assert(!crosses_below(page@.take(k as int + 1), orig.t0 as int)) by {
                    assert forall|i: int| 0 <= i < k + 1 implies !(#[trigger] page@.take(
                        k as int + 1,
                    )[i].timestamp < orig.t0) by {
                        if i < k {
                            assert(page@.take(k as int)[i].timestamp >= orig.t0);
                        }
                    }
                }
            }
        }
        if st.t0 <= m.timestamp && m.timestamp < st.t1 && !m.pinned {
            st.collected.push(m);
        }
        match oldest {
            None => {
                oldest = Some(k);
            },
            Some(oi) => {
                if m.timestamp < page[oi].timestamp {
                    oldest = Some(k);
                }
            },
        }
        k = k + 1;
    }
    proof {
        assert(page@.take(page@.len() as int) =~= page@);
    }
    let short = page.len() < PAGE_LIMIT;
    st.seen = Ghost(st.seen@ + page@);
    st.pages = st.pages + 1;
    st.done = crossed || short;
    match oldest {
        Some(oi) => {
            st.next_before = Some(page[oi].id);
        },
        None => {},
    }
    proof {
        Seq::<MessageMeta>::filter_distributes_over_add(orig.seen@, page@, pred);
    }
    let report = if st.done {
        GatherReport::Quiet
    } else if st.pages == 1 {
        GatherReport::LongScan
    } else if st.pages % 25 == 0 {
        GatherReport::Progress(st.collected.len())
    } else {
        GatherReport::Quiet
    };
    report
}

proof fn lemma_filter_push(s: Seq<MessageMeta>, m: MessageMeta, pred: spec_fn(MessageMeta) -> bool)
    ensures
        s.push(m).filter(pred) == (if pred(m) {
            s.filter(pred).push(m)
        } else {
            s.filter(pred)
        }),
{
    reveal(Seq::filter);
    assert(s.push(m).drop_last() =~= s);
    assert(s.push(m).last() == m);
}

proof fn lemma_filter_none(s: Seq<MessageMeta>, pred: spec_fn(MessageMeta) -> bool)
    requires
        forall|i: int| 0 <= i < s.len() ==> !pred(#[trigger] s[i]),
    ensures
        s.filter(pred) == Seq::<MessageMeta>::empty(),
    decreases s.len(),
{
    reveal(Seq::filter);
    if s.len() > 0 {
        lemma_filter_none(s.drop_last(), pred);
    } else {
        assert(s =~= Seq::<MessageMeta>::empty());
    }
}

/// Exactness of a finished gather (assuming the pages really were the
/// channel's history, newest first): the collected batch is precisely the
/// non-pinned messages of the whole history whose timestamps lie in
/// `[t0, t1)` — no more, no fewer. The pages never fetched could only hold
/// messages older than the window, because the gather only stops early after
/// seeing a message below `t0`.
pub proof fn lemma_gather_exact(st: GatherState, history: Seq<MessageMeta>)
    requires
        st.wf(),
        st.done,
        sorted_desc(history),
        st.seen@.is_prefix_of(history),
        st.seen@ == history || crosses_below(st.seen@, st.t0 as int),
    ensures
        st.collected@ == qualifying(history, st.t0 as int, st.t1 as int),
{
    if st.seen@ == history {
    } else {
        let seen = st.seen@;
        let rest = history.subrange(seen.len() as int, history.len() as int);
        assert(history =~= seen + rest);
        let i = choose|i: int| 0 <= i < seen.len() && #[trigger] seen[i].timestamp < st.t0;
        assert forall|j: int| 0 <= j < rest.len() implies !window_pred(
            st.t0 as int,
            st.t1 as int,
        )(#[trigger] rest[j]) by {
            assert(history[i] == seen[i]);
            assert(history[seen.len() + j] == rest[j]);
            assert(history[i].timestamp >= history[seen.len() + j].timestamp);
        }
        lemma_filter_none(rest, window_pred(st.t0 as int, st.t1 as int));
        Seq::<MessageMeta>::filter_distributes_over_add(
            seen,
            rest,
            window_pred(st.t0 as int, st.t1 as int),
        );
        assert(qualifying(history, st.t0 as int, st.t1 as int) =~= qualifying(
            seen,
            st.t0 as int,
            st.t1 as int,
        ));
    }
}

/// Sorts a batch oldest-first by timestamp (insertion sort), keeping exactly
/// the same messages.
pub fn sort_by_time(v: &mut Vec<MessageMeta>)
    ensures
        sorted_asc(final(v)@),
        final(v)@.to_multiset() == old(v)@.to_multiset(),
{
    broadcast use vstd::seq_lib::group_to_multiset_ensures;

    let mut out: Vec<MessageMeta> = Vec::new();
    let mut k: usize = 0;
    proof {
        assert(v@.take(0) =~= Seq::<MessageMeta>::empty());
        assert(out@.to_multiset() =~= v@.take(0).to_multiset());
    }
    while k < v.len()
        invariant
            0 <= k <= v@.len(),
            out@.len() == k,
            sorted_asc(out@),
            out@.to_multiset() == v@.take(k as int).to_multiset(),
        decreases v@.len() - k,
    {
        let m = v[k];
        let mut p: usize = out.len();
        while p > 0 && out[p - 1].timestamp > m.timestamp
            invariant
                0 <= p <= out@.len(),
                forall|a: int| p <= a < out@.len() ==> #[trigger] out@[a].timestamp > m.timestamp,
            decreases p,
        {
            p = p - 1;
        }
        let ghost before = out@;
        out.insert(p, m);
        proof {
            assert(sorted_asc(out@)) by {
                assert forall|a: int, b: int|
                    0 <= a <= b < out@.len() implies #[trigger] out@[a].timestamp
                    <= #[trigger] out@[b].timestamp by {
                    if a < p && b >= p + 1 {
                        assert(out@[a] == before[a]);
                        assert(out@[b] == before[b - 1]);
                    } else if a < p && b == p {
                        assert(out@[a] == before[a]);
                        assert(before[a].timestamp <= before[p - 1].timestamp);
                    } else if a == p && b >= p + 1 {
                        assert(out@[b] == before[b - 1]);
                    } else if a == p && b == p {
                    } else if b < p {
                        assert(out@[a] == before[a]);
                        assert(out@[b] == before[b]);
                    } else {
                        assert(out@[a] == before[a - 1]);
                        assert(out@[b] == before[b - 1]);
                    }
                }
            }
            lemma_insert_multiset(before, p as int, m);
            assert(v@.take(k as int + 1).to_multiset() =~= v@.take(k as int).to_multiset().insert(
                m,
            )) by {
                assert(v@.take(k as int + 1) =~= v@.take(k as int).push(m));
                v@.take(k as int).to_multiset_ensures();
            }
        }
        k = k + 1;
    }
    proof {
        assert(v@.take(v@.len() as int) =~= v@);
    }
    *v = out;
}

proof fn lemma_insert_multiset(s: Seq<MessageMeta>, p: int, m: MessageMeta)
    requires
        0 <= p <= s.len(),
    ensures
        s.insert(p, m).to_multiset() == s.to_multiset().insert(m),
    decreases s.len() - p,
{
    broadcast use vstd::seq_lib::group_to_multiset_ensures;

    if p == s.len() {
        assert(s.insert(p, m) =~= s.push(m));
    } else {
        let t = s.insert(p, m);
        assert(t.remove(p) =~= s);
        assert(t[p] == m);
        assert(t.remove(p).to_multiset() =~= t.to_multiset().remove(m));
        assert(t.to_multiset().contains(m)) by {
            assert(t.contains(m));
        }
        assert(t.to_multiset() =~= t.to_multiset().remove(m).insert(m));
    }
}

/// Consumes a finished gather and returns its batch, oldest first.
pub fn gather_finish(st: GatherState) -> (r: Vec<MessageMeta>)
    requires
        st.done,
    ensures
        sorted_asc(r@),
        r@.to_multiset() == st.collected@.to_multiset(),
{
    let mut v = st.collected;
    sort_by_time(&mut v);
    v
}

/// The ids of a batch, in batch order.
pub fn ids_of(v: &Vec<MessageMeta>) -> (r: Vec<MessageRef>)
    ensures
        r@ == v@.map_values(|m: MessageMeta| m.id),
{
    let mut r: Vec<MessageRef> = Vec::new();
    let mut k: usize = 0;
    proof {
        assert(v@.take(0).map_values(|m: MessageMeta| m.id) =~= Seq::<MessageRef>::empty());
    }
    while k < v.len()
        invariant
            0 <= k <= v@.len(),
            r@ == v@.take(k as int).map_values(|m: MessageMeta| m.id),
        decreases v@.len() - k,
    {
        r.push(v[k].id);
        proof {
            assert(v@.take(k as int + 1).map_values(|m: MessageMeta| m.id) =~= v@.take(
                k as int,
            ).map_values(|m: MessageMeta| m.id).push(v@[k as int].id));
        }
        k = k + 1;
    }
    proof {
        assert(v@.take(v@.len() as int) =~= v@);
    }
    r
}

/// The one-time advisory posted when a scan needs more than one page.
pub open spec fn long_scan_chars() -> Seq<char> {
    "I'm gathering a lot of messages. This could take a while depending on the range you asked for."@
}

pub fn long_scan_message() -> (r: String)
    ensures
        r@ == long_scan_chars(),
{
    String::from_str(
        "I'm gathering a lot of messages. This could take a while depending on the range you asked for.",
    )
}

/// The periodic progress line, holding the count gathered so far.
pub open spec fn progress_chars(count: nat) -> Seq<char> {
    "Large delete gather progress: "@ + decimal_chars(count)
}

pub fn progress_message(count: usize) -> (r: String)
    ensures
        r@ == progress_chars(count as nat),
{
    let mut r = String::from_str("Large delete gather progress: ");
    r.append(crate::strutil::u64_string(count as u64).as_str());
    r
}

} // verus!
