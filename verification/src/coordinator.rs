//! The purge coordinator: the two-phase, human-confirmed workflow around the
//! gate, the gatherer and the deleter. Every command must come from the
//! designated admin channel; offenders are redirected. A purge needs a fresh
//! challenge code, a gather, and an exact count confirmation before anything
//! is deleted; a mismatched count discards the pending batch, forcing a full
//! re-gather.

use vstd::prelude::*;
use vstd::string::*;

use crate::challenge::{is_code_char, spec_code_match, Code, PendingPurge};
use crate::gather::{
    gather_finish, gather_new, ids_of, qualifying, sorted_asc, GatherState,
};
use crate::ids::{ChannelRef, UserRef};
use crate::deleter::{delete_new, DeleteState};
use crate::strutil::{decimal_chars, u64_string};
use crate::timefmt::{duration_chars, duration_string, rfc2822_of, rfc2822_utc, valid_timestamp};

verus! {

pub open spec fn user_mention_chars(u: UserRef) -> Seq<char> {
    "<@"@ + decimal_chars(u.0 as nat) + ">"@
}

pub open spec fn channel_mention_chars(c: ChannelRef) -> Seq<char> {
    "<#"@ + decimal_chars(c.0 as nat) + ">"@
}

/// The redirect posted in the admin channel when a purge command was issued
/// elsewhere.
pub open spec fn redirect_chars(author: UserRef) -> Seq<char> {
    "Psst, "@ + user_mention_chars(author) + ", do that in here ya goof"@
}

/// The announcement carrying a freshly issued challenge code.
pub open spec fn code_announce_chars(author: UserRef, code: Seq<char>) -> Seq<char> {
    "Okay "@ + user_mention_chars(author)
        + ", be extremely careful. Here's the admin destructive action code: "@ + code
        + " (@everyone)"@
}

pub open spec fn invalid_code_chars() -> Seq<char> {
    "Invalid challenge code. Start over."@
}

pub open spec fn not_set_up_chars() -> Seq<char> {
    "You didn't set it up. Start over!"@
}

pub open spec fn wrong_count_chars() -> Seq<char> {
    "Wrong number of messages. Start over!"@
}

/// The reply when a finished gather found nothing to delete: the purge is
/// aborted and nothing is stored.
pub open spec fn empty_gather_chars() -> Seq<char> {
    "Nothing to delete in that range. Start over!"@
}

/// The confirmation prompt: the exact count, the channel, and both window
/// bounds with their distance from now.
pub open spec fn confirm_chars(
    count: nat,
    channel: ChannelRef,
    t0: int,
    t1: int,
    now: int,
) -> Seq<char> {
    "Okay, you're about to delete "@ + decimal_chars(count) + " messages from "@
        + channel_mention_chars(channel) + " after "@ + rfc2822_of(t0) + " ("@ + duration_chars(
        now - t0,
    ) + " ago) and before "@ + rfc2822_of(t1) + " ("@ + duration_chars(now - t1)
        + " ago). Please confirm."@
}

fn user_mention(u: UserRef) -> (r: String)
    ensures
        r@ == user_mention_chars(u),
{
    let mut r = String::from_str("<@");
    r.append(u64_string(u.0).as_str());
    r.append(">");
    proof {
        reveal_strlit("<@");
        reveal_strlit(">");
        assert(r@ =~= user_mention_chars(u));
    }
    r
}

fn channel_mention(c: ChannelRef) -> (r: String)
    ensures
        r@ == channel_mention_chars(c),
{
    let mut r = String::from_str("<#");
    r.append(u64_string(c.0).as_str());
    r.append(">");
    proof {
        reveal_strlit("<#");
        reveal_strlit(">");
        assert(r@ =~= channel_mention_chars(c));
    }
    r
}

fn redirect_message(author: UserRef) -> (r: String)
    ensures
        r@ == redirect_chars(author),
{
    let mut r = String::from_str("Psst, ");
    r.append(user_mention(author).as_str());
    r.append(", do that in here ya goof");
    proof {
        reveal_strlit("Psst, ");
        reveal_strlit(", do that in here ya goof");
        assert(r@ =~= redirect_chars(author));
    }
    r
}

fn announce_message(author: UserRef, code: &String) -> (r: String)
    ensures
        r@ == code_announce_chars(author, code@),
{
    let mut r = String::from_str("Okay ");
    r.append(user_mention(author).as_str());
    r.append(", be extremely careful. Here's the admin destructive action code: ");
    r.append(code.as_str());
    r.append(" (@everyone)");
    proof {
        reveal_strlit("Okay ");
        reveal_strlit(", be extremely careful. Here's the admin destructive action code: ");
        reveal_strlit(" (@everyone)");
        assert(r@ =~= code_announce_chars(author, code@));
    }
    r
}

#[verifier::rlimit(50)]
fn confirm_message(count: u64, channel: ChannelRef, t0: i64, t1: i64, now: i64) -> (r: String)
    requires
        valid_timestamp(t0 as int),
        valid_timestamp(t1 as int),
        valid_timestamp(now as int),
    ensures
        r@ == confirm_chars(count as nat, channel, t0 as int, t1 as int, now as int),
{
    let ghost p1 = "Okay, you're about to delete "@ + decimal_chars(count as nat)
        + " messages from "@ + channel_mention_chars(channel);
    let ghost p2 = p1 + " after "@ + rfc2822_of(t0 as int) + " ("@ + duration_chars(
        now as int - t0 as int,
    );
    let mut r = String::from_str("Okay, you're about to delete ");
    r.append(u64_string(count).as_str());
    r.append(" messages from ");
    r.append(channel_mention(channel).as_str());
    proof {
        reveal_strlit("Okay, you're about to delete ");
        reveal_strlit(" messages from ");
        assert(r@ =~= p1);
    }
    r.append(" after ");
    r.append(rfc2822_utc(t0).as_str());
    r.append(" (");
    r.append(duration_string(now - t0).as_str());
    proof {
        reveal_strlit(" after ");
        reveal_strlit(" (");
        assert(r@ =~= p2);
    }
    r.append(" ago) and before ");
    r.append(rfc2822_utc(t1).as_str());
    r.append(" (");
    r.append(duration_string(now - t1).as_str());
    r.append(" ago). Please confirm.");
    proof {
        reveal_strlit(" ago) and before ");
        reveal_strlit(" (");
        reveal_strlit(" ago). Please confirm.");
        assert(r@ =~= confirm_chars(count as nat, channel, t0 as int, t1 as int, now as int));
    }
    r
}

/// Outcome of asking for a challenge code.
pub enum IssueOutcome {
    /// Issued outside the admin channel: delete the offending message and
    /// post the redirect there.
    WrongChannel { redirect: String },
    /// A fresh code is live; post the announcement.
    Issued { code: String, announce: String },
}

/// Outcome of the purge command (phase one).
pub enum PurgeOutcome {
    WrongChannel { redirect: String },
    /// The supplied code did not match (or none was live). The code is
    /// consumed either way.
    BadCode { reply: String },
    /// Code accepted: run this gather against the channel on a worker.
    Gather { channel: ChannelRef, gather: GatherState },
}

/// Outcome of the execute command (phase two).
pub enum ExecOutcome {
    WrongChannel { redirect: String },
    /// No batch was pending.
    NotSetUp { reply: String },
    /// The confirmation count did not match the batch; the batch is
    /// discarded all the same.
    WrongCount { reply: String },
    /// Count confirmed: run this delete on a worker.
    Execute { delete: DeleteState },
}

/// Outcome of the cancel command.
pub enum CancelOutcome {
    WrongChannel { redirect: String },
    Cancelled,
}

/// Issues a challenge code, overwriting any unconsumed one. Valid only from
/// the admin channel; elsewhere nothing changes and the author is
/// redirected.
pub fn issue_code(gate: &mut Code, origin: ChannelRef, admin: ChannelRef, author: UserRef) -> (r:
    IssueOutcome)
    ensures
        origin != admin ==> (r matches IssueOutcome::WrongChannel { redirect } && redirect@
            == redirect_chars(author) && final(gate).code_view() == old(gate).code_view() && final(gate).purge_view() == old(gate).purge_view()),
        origin == admin ==> (r matches IssueOutcome::Issued { code, announce } && final(gate).code_view() == Some(code@) && final(gate).purge_view() == old(gate).purge_view()
            && code@.len() == 25 && code@[0] == 't' && (forall|i: int|
            1 <= i < code@.len() ==> is_code_char(#[trigger] code@[i]))
            && announce@ == code_announce_chars(author, code@)),
{
    if origin != admin {
        return IssueOutcome::WrongChannel { redirect: redirect_message(author) };
    }
    let code = gate.issue();
    let announce = announce_message(author, &code);
    IssueOutcome::Issued { code, announce }
}

/// Phase one: consumes the supplied code (it is gone afterwards whether or
/// not it matched), and on a match hands back a fresh gather over
/// `[t0, t1)` for the target channel, to be run on a background worker.
pub fn purge_channel(
    gate: &mut Code,
    origin: ChannelRef,
    admin: ChannelRef,
    author: UserRef,
    channel: ChannelRef,
    t0: i64,
    t1: i64,
    code: &str,
) -> (r: PurgeOutcome)
    ensures
        origin != admin ==> (r matches PurgeOutcome::WrongChannel { redirect } && redirect@
            == redirect_chars(author) && final(gate).code_view() == old(gate).code_view() && final(gate).purge_view() == old(gate).purge_view()),
        origin == admin ==> final(gate).code_view() is None && final(gate).purge_view() == old(gate).purge_view(),
        (origin == admin && !spec_code_match(old(gate).code_view(), code@)) ==> (r
            matches PurgeOutcome::BadCode { reply } && reply@ == invalid_code_chars()),
        (origin == admin && spec_code_match(old(gate).code_view(), code@)) ==> (r
            matches PurgeOutcome::Gather { channel: c, gather } && c == channel && gather.wf()
            && gather.t0 == t0 && gather.t1 == t1 && !gather.done && gather.pages == 0
            && gather.seen@ == Seq::<crate::ids::MessageMeta>::empty()),
{
    if origin != admin {
        return PurgeOutcome::WrongChannel { redirect: redirect_message(author) };
    }
    let matched = gate.consume(code);
    if !matched {
        let reply = String::from_str("Invalid challenge code. Start over.");
        proof {
            reveal_strlit("Invalid challenge code. Start over.");
        }
        return PurgeOutcome::BadCode { reply };
    }
    PurgeOutcome::Gather { channel, gather: gather_new(t0, t1) }
}

/// Completion of a gather worker. A gather that found nothing aborts: the
/// user is told to start over and no pending purge is stored. Otherwise the
/// batch is sorted oldest-first, stored as the single pending purge, and the
/// confirmation prompt carrying the exact count is returned; that count is
/// the length of the stored batch, immutable until the batch is taken.
pub fn finish_gather(gate: &mut Code, channel: ChannelRef, st: GatherState, now: i64) -> (reply:
    String)
    requires
        st.done,
        st.wf(),
        valid_timestamp(st.t0 as int),
        valid_timestamp(st.t1 as int),
        valid_timestamp(now as int),
    ensures
        final(gate).code_view() == old(gate).code_view(),
        qualifying(st.seen@, st.t0 as int, st.t1 as int).len() == 0 ==> final(gate).purge_view()
            == old(gate).purge_view() && reply@ == empty_gather_chars(),
        qualifying(st.seen@, st.t0 as int, st.t1 as int).len() != 0 ==> (final(gate).purge_view() matches Some((c, ids)) && c == channel && exists|
            b: Seq<crate::ids::MessageMeta>,
        |
            {
                &&& sorted_asc(b)
                &&& #[trigger] b.to_multiset() == qualifying(
                    st.seen@,
                    st.t0 as int,
                    st.t1 as int,
                ).to_multiset()
                &&& ids == b.map_values(|m: crate::ids::MessageMeta| m.id)
            } && reply@ == confirm_chars(
            ids.len(),
            channel,
            st.t0 as int,
            st.t1 as int,
            now as int,
        )),
{
    let t0 = st.t0;
    let t1 = st.t1;
    let ghost seen = st.seen@;
    let batch = gather_finish(st);
    proof {
        broadcast use vstd::seq_lib::group_to_multiset_ensures;

        assert(batch@.to_multiset() == qualifying(seen, t0 as int, t1 as int).to_multiset());
        batch@.to_multiset_ensures();
        qualifying(seen, t0 as int, t1 as int).to_multiset_ensures();
        assert(batch@.len() == qualifying(seen, t0 as int, t1 as int).len());
    }
    if batch.len() == 0 {
        let reply = String::from_str("Nothing to delete in that range. Start over!");
        proof {
            reveal_strlit("Nothing to delete in that range. Start over!");
        }
        return reply;
    }
    let ids = ids_of(&batch);
    let count = ids.len();
    let ghost batch_view = batch@;
    let reply = confirm_message(count as u64, channel, t0, t1, now);
    gate.set_purge(Some(PendingPurge { channel, messages: ids }));
    proof {
        assert(sorted_asc(batch_view) && batch_view.to_multiset() == qualifying(
            seen,
            t0 as int,
            t1 as int,
        ).to_multiset() && final(gate).purge_view()->Some_0.1 == batch_view.map_values(
            |m: crate::ids::MessageMeta| m.id,
        ));
    }
    reply
}

/// Phase two: the pending batch is taken unconditionally — a wrong count
/// discards it, so a later execute with the right count fails too, and only
/// a full re-gather can arm another purge. A delete run starts if and only
/// if `num` equals the exact size of the pending batch.
pub fn execute_purge(
    gate: &mut Code,
    origin: ChannelRef,
    admin: ChannelRef,
    author: UserRef,
    num: u32,
) -> (r: ExecOutcome)
    ensures
        origin != admin ==> (r matches ExecOutcome::WrongChannel { redirect } && redirect@
            == redirect_chars(author) && final(gate).code_view() == old(gate).code_view() && final(gate).purge_view() == old(gate).purge_view()),
        origin == admin ==> final(gate).code_view() == old(gate).code_view() && final(gate).purge_view() is None,
        (origin == admin && old(gate).purge_view() is None) ==> (r
            matches ExecOutcome::NotSetUp { reply } && reply@ == not_set_up_chars()),
        old(gate).purge_view() matches Some(pv) ==> origin == admin ==> num != pv.1.len() ==> (r
            matches ExecOutcome::WrongCount { reply } && reply@ == wrong_count_chars()),
        old(gate).purge_view() matches Some(pv) ==> origin == admin ==> num == pv.1.len() ==> (r
            matches ExecOutcome::Execute { delete } && delete.wf() && delete.channel == pv.0
            && delete.messages@ == pv.1 && delete.chunk == 0 && delete.waited is None
            && !delete.failed),
        (r is Execute) <==> (origin == admin && (old(gate).purge_view() matches Some(pv)
            && num == pv.1.len())),
{
    if origin != admin {
        return ExecOutcome::WrongChannel { redirect: redirect_message(author) };
    }
    let pending = gate.take_purge();
    match pending {
        None => {
            let reply = String::from_str("You didn't set it up. Start over!");
            proof {
                reveal_strlit("You didn't set it up. Start over!");
            }
            ExecOutcome::NotSetUp { reply }
        },
        Some(p) => {
            if (num as u64) != (p.messages.len() as u64) {
                let reply = String::from_str("Wrong number of messages. Start over!");
                proof {
                    reveal_strlit("Wrong number of messages. Start over!");
                }
                ExecOutcome::WrongCount { reply }
            } else {
                ExecOutcome::Execute { delete: delete_new(p.channel, p.messages) }
            }
        },
    }
}

/// Cancels any purge session in preparation: clears the live code and the
/// pending batch. A gather or delete worker that is already running is not
/// stopped: it will still post its result.
pub fn cancel_purge(gate: &mut Code, origin: ChannelRef, admin: ChannelRef, author: UserRef) -> (r:
    CancelOutcome)
    ensures
        origin != admin ==> (r matches CancelOutcome::WrongChannel { redirect } && redirect@
            == redirect_chars(author) && final(gate).code_view() == old(gate).code_view() && final(gate).purge_view() == old(gate).purge_view()),
        origin == admin ==> r is Cancelled && final(gate).code_view() is None && final(gate).purge_view() is None,
{
    if origin != admin {
        return CancelOutcome::WrongChannel { redirect: redirect_message(author) };
    }
    gate.cancel();
    CancelOutcome::Cancelled
}

} // verus!
