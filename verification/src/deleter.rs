//! The rate-limited deleter: splits a confirmed batch into bulk-delete
//! chunks of at most 100 ids, advances chunk by chunk, backs off once per
//! chunk on a rate-limited response, and aborts on any other failure or on a
//! repeated rate limit for the same chunk. The bulk-delete network call is
//! made by the surrounding application; this module decides which ids to
//! send, whether to wait, for how long, and what to tell the user.

use vstd::prelude::*;
use vstd::string::*;

use crate::ids::{ChannelRef, MessageRef};
use crate::strutil::decimal_chars;
use crate::timefmt::{
    duration_chars, duration_string, rfc2822_of, rfc2822_utc, valid_timestamp,
};

verus! {

/// How one bulk-delete attempt ended, as the application read it off the
/// platform response: success, or a failure with the rate-limit headers that
/// could be parsed from it (`remaining` quota and `reset` unix timestamp).
#[derive(Clone, Copy, Debug, PartialEq, Eq, Structural)]
pub enum DeleteResponse {
    Success,
    Failure { remaining: Option<u64>, reset: Option<u64> },
}

/// What to do after one bulk-delete attempt.
pub enum DeleteStep {
    /// The chunk was deleted; move on. `progress` is the cumulative report
    /// owed every tenth completed chunk.
    Advanced { progress: Option<String> },
    /// The last chunk was deleted; the run is complete.
    Finished { progress: Option<String>, reply: String },
    /// Rate limited for the first time on this chunk: tell the user, sleep
    /// `wait_secs`, then retry the same chunk.
    Backoff { wait_secs: u64, reply: String },
    /// Fatal: any other failure, or a second rate limit on the same chunk.
    /// Remaining chunks are not attempted; nothing is rolled back.
    Aborted { reply: String },
}

/// The state of one batch-delete run.
pub struct DeleteState {
    pub channel: ChannelRef,
    /// All ids to delete, in batch order.
    pub messages: Vec<MessageRef>,
    /// Index of the next chunk to attempt, 0-based.
    pub chunk: usize,
    /// The chunk index that already triggered one backoff, if any: a second
    /// rate limit on it is treated as fatal rather than waited out.
    pub waited: Option<usize>,
    /// Whether the run aborted.
    pub failed: bool,
}

/// Number of chunks a batch of `len` ids splits into.
pub open spec fn num_chunks(len: nat) -> nat {
    (len + 99) / 100
}

pub open spec fn is_rate_limited(resp: DeleteResponse) -> bool {
    match resp {
        DeleteResponse::Failure { remaining, .. } => remaining == Some(0u64),
        DeleteResponse::Success => false,
    }
}

pub open spec fn reset_of(resp: DeleteResponse) -> Option<u64> {
    match resp {
        DeleteResponse::Failure { reset, .. } => reset,
        DeleteResponse::Success => None,
    }
}

/// The seconds to sleep before retrying: time until the quota resets (zero
/// when the reset timestamp is absent or past) plus a 5 second margin.
pub open spec fn backoff_wait(reset: Option<u64>, now: u64) -> int {
    (match reset {
        Some(r) => if r > now {
            r - now
        } else {
            0
        },
        None => 0,
    }) + 5
}

/// The timestamp shown in the backoff reply: the quota reset, or now when
/// the response carried none.
pub open spec fn reset_display(reset: Option<u64>, now: u64) -> int {
    match reset {
        Some(r) => r as int,
        None => now as int,
    }
}

impl DeleteState {
    pub open spec fn wf(&self) -> bool {
        &&& self.messages@.len() <= u32::MAX
        &&& self.chunk <= num_chunks(self.messages@.len())
    }

    /// All chunks deleted, nothing failed.
    pub open spec fn complete(&self) -> bool {
        !self.failed && self.chunk == num_chunks(self.messages@.len())
    }

    /// A chunk remains to attempt.
    pub open spec fn active(&self) -> bool {
        !self.failed && self.chunk < num_chunks(self.messages@.len())
    }
}

/// How the state moves on one response: success advances the chunk; a first
/// rate limit on a chunk records it; anything else fails the run.
pub open spec fn spec_delete_transition(st: DeleteState, resp: DeleteResponse) -> DeleteState {
    match resp {
        DeleteResponse::Success => DeleteState { chunk: (st.chunk + 1) as usize, ..st },
        DeleteResponse::Failure { remaining, reset } => {
            if remaining == Some(0u64) && st.waited != Some(st.chunk) {
                DeleteState { waited: Some(st.chunk), ..st }
            } else {
                DeleteState { failed: true, ..st }
            }
        },
    }
}

/// Starts a delete run over a confirmed batch.
pub fn delete_new(channel: ChannelRef, messages: Vec<MessageRef>) -> (st: DeleteState)
    requires
        messages@.len() <= u32::MAX,
    ensures
        st.wf(),
        st.channel == channel,
        st.messages@ == messages@,
        st.chunk == 0,
        st.waited is None,
        !st.failed,
{
    DeleteState { channel, messages, chunk: 0, waited: None, failed: false }
}

/// The ids the next bulk-delete call should carry: the next 100 (or fewer,
/// at the end) ids of the batch, in batch order; nothing once the run is
/// complete or failed.
pub fn next_chunk(st: &DeleteState) -> (r: Option<Vec<MessageRef>>)
    requires
        st.wf(),
    ensures
        r is Some <==> st.active(),
        r matches Some(c) ==> c@ == st.messages@.subrange(
            100 * st.chunk as int,
            if 100 * st.chunk + 100 <= st.messages@.len() {
                100 * st.chunk + 100
            } else {
                st.messages@.len() as int
            },
        ),
{
    let len64: u64 = st.messages.len() as u64;
    let nc: u64 = (len64 + 99) / 100;
    if st.failed || st.chunk as u64 >= nc {
        return None;
    }
    let start64: u64 = (st.chunk as u64) * 100;
    proof {
        assert(100 * st.chunk as int <= st.messages@.len() - 1) by {
            assert(st.chunk as int + 1 <= num_chunks(st.messages@.len()));
            assert((st.chunk as int + 1) * 100 <= ((st.messages@.len() + 99) / 100) * 100);
            assert(((st.messages@.len() + 99) / 100) * 100 <= st.messages@.len() + 99);
        }
    }
    let start: usize = start64 as usize;
    let end: usize = if start64 + 100 <= len64 {
        (start64 + 100) as usize
    } else {
        st.messages.len()
    };
    let mut c: Vec<MessageRef> = Vec::new();
    let mut i: usize = start;
    while i < end
        invariant
            start <= i <= end <= st.messages@.len(),
            c@ == st.messages@.subrange(start as int, i as int),
        decreases end - i,
    {
        c.push(st.messages[i]);
        proof {
            assert(st.messages@.subrange(start as int, i as int + 1) =~= st.messages@.subrange(
                start as int,
                i as int,
            ).push(st.messages@[i as int]));
        }
        i = i + 1;
    }
    proof {
        assert(c@ =~= st.messages@.subrange(start as int, end as int));
    }
    Some(c)
}

/// Ids deleted once chunk `j` (0-based) has completed: 100 per full chunk,
/// capped by the batch length.
pub open spec fn deleted_after(j: int, len: int) -> int {
    if 100 * (j + 1) <= len {
        100 * (j + 1)
    } else {
        len
    }
}

/// What the progress field of a step must hold: every tenth completed chunk
/// carries the cumulative count of ids deleted so far; other chunks carry
/// nothing.
pub open spec fn progress_matches(p: Option<String>, j: int, len: int) -> bool {
    if (j + 1) % 10 == 0 {
        p matches Some(s) && s@ == deleted_progress_chars(deleted_after(j, len) as nat)
    } else {
        p is None
    }
}

pub open spec fn deleted_progress_chars(n: nat) -> Seq<char> {
    decimal_chars(n) + " messages deleted..."@
}

pub open spec fn done_chars() -> Seq<char> {
    "DONE!~ *Phew*"@
}

pub open spec fn fail_chars() -> Seq<char> {
    "Something went wrong"@
}

/// The reply posted before a backoff: when the quota resets, and how long
/// the deleter will wait.
pub open spec fn backoff_chars(reset_ts: int, wait: int) -> Seq<char> {
    "Oops, hit a rate limit! Resets at "@ + rfc2822_of(reset_ts) + ". Waiting for "@
        + duration_chars(wait)
}

fn progress_deleted_message(n: u64) -> (r: String)
    ensures
        r@ == deleted_progress_chars(n as nat),
{
    let mut r = crate::strutil::u64_string(n);
    r.append(" messages deleted...");
    proof {
        reveal_strlit(" messages deleted...");
        assert(r@ =~= deleted_progress_chars(n as nat));
    }
    r
}

fn backoff_message(reset_ts: u64, wait: u64) -> (r: String)
    requires
        valid_timestamp(reset_ts as int),
        wait <= i64::MAX,
    ensures
        r@ == backoff_chars(reset_ts as int, wait as int),
{
    let mut r = String::from_str("Oops, hit a rate limit! Resets at ");
    r.append(rfc2822_utc(reset_ts as i64).as_str());
    r.append(". Waiting for ");
    r.append(duration_string(wait as i64).as_str());
    proof {
        reveal_strlit("Oops, hit a rate limit! Resets at ");
        reveal_strlit(". Waiting for ");
        assert(r@ =~= backoff_chars(reset_ts as int, wait as int));
    }
    r
}

/// Feeds the outcome of one bulk-delete attempt into the run, at wall-clock
/// time `now` (unix seconds), and says what to do next.
pub fn on_delete_response(st: &mut DeleteState, resp: DeleteResponse, now: u64) -> (step:
    DeleteStep)
    requires
        old(st).wf(),
        old(st).active(),
        valid_timestamp(now as int),
        resp matches DeleteResponse::Failure { reset: Some(r), .. } ==> valid_timestamp(r as int),
    ensures
        *final(st) == spec_delete_transition(*old(st), resp),
        final(st).wf(),
        (resp is Success && !final(st).complete()) ==> (step
            matches DeleteStep::Advanced { progress } && progress_matches(
            progress,
            old(st).chunk as int,
            old(st).messages@.len() as int,
        )),
        (resp is Success && final(st).complete()) ==> (step
            matches DeleteStep::Finished { progress, reply } && progress_matches(
            progress,
            old(st).chunk as int,
            old(st).messages@.len() as int,
        ) && reply@ == done_chars()),
        (is_rate_limited(resp) && old(st).waited != Some(old(st).chunk)) ==> (step
            matches DeleteStep::Backoff { wait_secs, reply } && wait_secs == backoff_wait(
            reset_of(resp),
            now,
        ) && reply@ == backoff_chars(
            reset_display(reset_of(resp), now),
            backoff_wait(reset_of(resp), now),
        )),
        (resp is Failure && !(is_rate_limited(resp) && old(st).waited != Some(old(st).chunk)))
            ==> (step matches DeleteStep::Aborted { reply } && reply@ == fail_chars()),
{
    match resp {
        DeleteResponse::Success => {
            let j: usize = st.chunk;
            st.chunk = st.chunk + 1;
            let len64: u64 = st.messages.len() as u64;
            let done64: u64 = if (j as u64 + 1) * 100 <= len64 {
                (j as u64 + 1) * 100
            } else {
                len64
            };
            let progress: Option<String> = if (j as u64 + 1) % 10 == 0 {
                Some(progress_deleted_message(done64))
            } else {
                None
            };
            let nc: u64 = (len64 + 99) / 100;
            if (st.chunk as u64) == nc {
                let reply = String::from_str("DONE!~ *Phew*");
                proof {
                    reveal_strlit("DONE!~ *Phew*");
                }
                DeleteStep::Finished { progress, reply }
            } else {
                DeleteStep::Advanced { progress }
            }
        },
        DeleteResponse::Failure { remaining, reset } => {
            let repeated: bool = match st.waited {
                Some(w) => w == st.chunk,
                None => false,
            };
            let limited: bool = match remaining {
                Some(q) => q == 0,
                None => false,
            };
            if limited && !repeated {
                let base: u64 = match reset {
                    Some(r) => r,
                    None => now,
                };
                let wait: u64 = (if base > now {
                    base - now
                } else {
                    0
                }) + 5;
                st.waited = Some(st.chunk);
                let reply = backoff_message(base, wait);
                DeleteStep::Backoff { wait_secs: wait, reply }
            } else {
                st.failed = true;
                let reply = String::from_str("Something went wrong");
                proof {
                    reveal_strlit("Something went wrong");
                }
                DeleteStep::Aborted { reply }
            }
        },
    }
}

/// A rate limit is waited out at most once per chunk: the first rate-limited
/// response on a chunk leaves the chunk in place and records its index, and
/// a second rate-limited response on that same chunk fails the run instead
/// of waiting again — so the deleter can never sit in a backoff loop on one
/// chunk.
pub proof fn lemma_rate_limit_retry_once(st: DeleteState, r1: DeleteResponse, r2: DeleteResponse)
    requires
        !st.failed,
        is_rate_limited(r1),
        st.waited != Some(st.chunk),
        is_rate_limited(r2),
    ensures
        ({
            let st1 = spec_delete_transition(st, r1);
            st1.chunk == st.chunk && st1.waited == Some(st.chunk) && !st1.failed
                && spec_delete_transition(st1, r2).failed
        }),
{
}

pub open spec fn is_digit_byte(b: u8) -> bool {
    48 <= b <= 57
}

/// The digits of a decimal literal: the bytes after an optional leading '+'.
pub open spec fn digits_seq(bs: Seq<u8>) -> Seq<u8> {
    if bs.len() > 0 && bs[0] == 43 {
        bs.drop_first()
    } else {
        bs
    }
}

pub open spec fn all_digits(bs: Seq<u8>) -> bool {
    forall|i: int| 0 <= i < bs.len() ==> is_digit_byte(#[trigger] bs[i])
}

/// The value of a string of decimal digit bytes.
pub open spec fn digits_val(bs: Seq<u8>) -> int
    decreases bs.len(),
{
    if bs.len() == 0 {
        0
    } else {
        digits_val(bs.drop_last()) * 10 + (if is_digit_byte(bs.last()) {
            bs.last() - 48
        } else {
            0
        })
    }
}

/// What `str::parse::<u64>` accepts of a header: an optional '+', then at
/// least one digit, the whole value fitting in 64 bits.
pub open spec fn spec_parse_u64(bs: Seq<u8>) -> Option<u64> {
    let ds = digits_seq(bs);
    if ds.len() > 0 && all_digits(ds) && digits_val(ds) <= u64::MAX {
        Some(digits_val(ds) as u64)
    } else {
        None
    }
}

proof fn lemma_digits_val_take(ds: Seq<u8>, k: int)
    requires
        0 <= k <= ds.len(),
        all_digits(ds),
    ensures
        0 <= digits_val(ds.take(k)) <= digits_val(ds),
    decreases ds.len(),
{
    if ds.len() == 0 {
        assert(ds.take(k) =~= ds);
    } else if k == ds.len() {
        assert(ds.take(k) =~= ds);
        lemma_digits_val_take(ds.drop_last(), ds.len() - 1);
        assert(ds.drop_last().take(ds.len() - 1) =~= ds.drop_last());
    } else {
        assert(ds.take(k) =~= ds.drop_last().take(k));
        lemma_digits_val_take(ds.drop_last(), k);
    }
}

/// Parses a decimal u64 as `str::parse::<u64>` would: `Some` exactly on an
/// optional '+' followed by one or more digits whose value fits.
pub fn parse_u64_bytes(bs: &[u8]) -> (r: Option<u64>)
    ensures
        r == spec_parse_u64(bs@),
{
    let n = bs.len();
    let start: usize = if n > 0 && *vstd::slice::slice_index_get(bs, 0) == 43 {
        1
    } else {
        0
    };
    let ghost ds = digits_seq(bs@);
    proof {
        assert(ds =~= bs@.subrange(start as int, n as int));
    }
    if start == n {
        return None;
    }
    let mut acc: u64 = 0;
    let mut i: usize = start;
    proof {
        assert(ds.take(0) =~= Seq::<u8>::empty());
    }
    while i < n
        invariant
            start <= i <= n,
            n == bs@.len(),
            ds == digits_seq(bs@),
            ds =~= bs@.subrange(start as int, n as int),
            forall|m: int| start <= m < i ==> is_digit_byte(#[trigger] bs@[m]),
            acc == digits_val(ds.take(i - start)),
        decreases n - i,
    {
        let b = *vstd::slice::slice_index_get(bs, i);
        if !(48 <= b && b <= 57) {
            proof {
                assert(!is_digit_byte(ds[i - start]));
                assert(!all_digits(ds));
            }
            return None;
        }
        let d: u64 = (b - 48) as u64;
        proof {
            assert(ds.take(i - start + 1) =~= ds.take(i - start).push(bs@[i as int]));
            assert(digits_val(ds.take(i - start + 1)) == digits_val(ds.take(i - start)) * 10 + d)
                by {
                assert(ds.take(i - start + 1).drop_last() =~= ds.take(i - start));
            }
        }
        if acc > (u64::MAX - d) / 10 {
            proof {
                if all_digits(ds) {
                    lemma_digits_val_take(ds, i - start + 1);
                    assert(digits_val(ds) > u64::MAX);
                }
            }
            return None;
        }
        acc = acc * 10 + d;
        i = i + 1;
    }
    proof {
        assert(ds.take(n - start) =~= ds);
        assert(all_digits(ds)) by {
            assert(forall|m: int|
                0 <= m < ds.len() ==> ds[m] == #[trigger] bs@[m + start]
                    && is_digit_byte(bs@[m + start]));
        }
    }
    Some(acc)
}

/// Reads an integer value off a raw rate-limit header: the first header
/// part, parsed as a decimal u64; `None` when the header is absent,
/// empty, or not a number.
pub fn header_int(data: Option<&[Vec<u8>]>) -> (r: Option<u64>)
    ensures
        data is None ==> r is None,
        data matches Some(d) ==> r == (if d@.len() == 0 {
            None
        } else {
            spec_parse_u64(d@[0]@)
        }),
{
    match data {
        None => None,
        Some(parts) => {
            if parts.len() == 0 {
                None
            } else {
                parse_u64_bytes(vstd::slice::slice_index_get(parts, 0).as_slice())
            }
        },
    }
}

} // verus!
