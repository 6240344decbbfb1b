//! The challenge gate: a single-use random confirmation code guarding
//! destructive actions, and the single slot holding a gathered-but-unexecuted
//! purge batch. At most one code and at most one batch are live at a time.

use vstd::prelude::*;
use vstd::string::*;

use crate::ids::{ChannelRef, MessageRef};
use crate::strutil::{trim_spec, trim_str};

verus! {

/// A gathered purge batch awaiting confirmation: the target channel and the
/// ordered ids of the messages to delete.
pub struct PendingPurge {
    pub channel: ChannelRef,
    pub messages: Vec<MessageRef>,
}

impl PendingPurge {
    pub open spec fn view_pair(&self) -> (ChannelRef, Seq<MessageRef>) {
        (self.channel, self.messages@)
    }
}

pub open spec fn opt_str_view(o: Option<String>) -> Option<Seq<char>> {
    match o {
        Some(s) => Some(s@),
        None => None,
    }
}

pub open spec fn opt_purge_view(o: Option<PendingPurge>) -> Option<
    (ChannelRef, Seq<MessageRef>),
> {
    match o {
        Some(p) => Some(p.view_pair()),
        None => None,
    }
}

/// Whether a candidate string matches a live code: both sides are compared
/// after trimming, and no candidate matches when no code is live.
pub open spec fn spec_code_match(code: Option<Seq<char>>, cand: Seq<char>) -> bool {
    match code {
        Some(c) => trim_spec(cand) == trim_spec(c),
        None => false,
    }
}

pub open spec fn is_ascii_alnum_byte(b: u8) -> bool {
    (65 <= b <= 90) || (97 <= b <= 122) || (48 <= b <= 57)
}

pub open spec fn lower_byte(b: u8) -> u8 {
    if 65 <= b <= 90 {
        (b + 32) as u8
    } else {
        b
    }
}

/// Whether `c` may appear after the leading marker of an issued code:
/// a lower-case letter or a digit.
pub open spec fn is_code_char(c: char) -> bool {
    ('a' <= c <= 'z') || ('0' <= c <= '9')
}

/// Relies on rand: each draw from the `Alphanumeric` distribution yields one
/// byte out of `A-Z`, `a-z`, `0-9`.
#[verifier::external_body]
fn sample_alnum_bytes(n: usize) -> (r: Vec<u8>)
    ensures
        r@.len() == n,
        forall|i: int| 0 <= i < r@.len() ==> is_ascii_alnum_byte(#[trigger] r@[i]),
{
    <rand::rngs::ThreadRng as rand::Rng>::sample_iter(
        rand::thread_rng(),
        rand::distributions::Alphanumeric,
    ).take(n).collect()
}

/// Relies on `String::from_utf8`: ascii bytes decode to the string of the
/// chars with the same code points.
#[verifier::external_body]
fn ascii_string(bytes: Vec<u8>) -> (r: String)
    requires
        forall|i: int| 0 <= i < bytes@.len() ==> bytes@[i] < 128,
    ensures
        r@ == bytes@.map_values(|b: u8| b as char),
{
    String::from_utf8(bytes).unwrap()
}

/// The single-slot state guarding destructive actions: the live challenge
/// code, if any, and the pending purge batch, if any.
pub struct Code {
    pub code: Option<String>,
    pub purge: Option<PendingPurge>,
}

impl Code {
    pub open spec fn code_view(&self) -> Option<Seq<char>> {
        opt_str_view(self.code)
    }

    pub open spec fn purge_view(&self) -> Option<(ChannelRef, Seq<MessageRef>)> {
        opt_purge_view(self.purge)
    }

    /// A fresh gate: no live code, no pending purge.
    pub fn new() -> (r: Code)
        ensures
            r.code_view() is None,
            r.purge_view() is None,
    {
        Code { code: None, purge: None }
    }

    /// Issues a fresh confirmation code and stores it as the single live
    /// code, discarding any previous one. The code is 25 characters: a
    /// leading 't' (so it can never be mistaken for a bare count) followed
    /// by 24 random lower-case alphanumerics.
    pub fn issue(&mut self) -> (code: String)
        ensures
            final(self).code_view() == Some(code@),
            final(self).purge_view() == old(self).purge_view(),
            code@.len() == 25,
            code@[0] == 't',
            forall|i: int| 1 <= i < code@.len() ==> is_code_char(#[trigger] code@[i]),
    {
        let raw = sample_alnum_bytes(24);
        let mut bytes: Vec<u8> = Vec::new();
        bytes.push(116);  // 't'
        let mut k: usize = 0;
        while k < raw.len()
            invariant
                raw@.len() == 24,
                forall|i: int| 0 <= i < raw@.len() ==> is_ascii_alnum_byte(#[trigger] raw@[i]),
                0 <= k <= 24,
                bytes@.len() == k + 1,
                bytes@[0] == 116u8,
                forall|i: int|
                    1 <= i < bytes@.len() ==> #[trigger] bytes@[i] == lower_byte(raw@[i - 1]),
            decreases raw@.len() - k,
        {
            let b = raw[k];
            let low: u8 = if 65 <= b && b <= 90 {
                b + 32
            } else {
                b
            };
            bytes.push(low);
            k = k + 1;
        }
        let code = ascii_string(bytes);
        proof {
            assert(code@[0] == 't');
            assert forall|i: int| 1 <= i < code@.len() implies is_code_char(
                #[trigger] code@[i],
            ) by {
                assert(code@[i] == lower_byte(raw@[i - 1]) as char);
            }
        }
        let stored = code.clone();
        self.code = Some(stored);
        code
    }

    /// Removes and returns the live code, if any; afterwards no code is live.
    pub fn take(&mut self) -> (r: Option<String>)
        ensures
            final(self).code_view() is None,
            final(self).purge_view() == old(self).purge_view(),
            opt_str_view(r) == old(self).code_view(),
    {
        self.code.take()
    }

    /// Tries a candidate against the live code. The code is removed whether
    /// or not it matched: a code can be tried exactly once, then a fresh one
    /// must be issued. Both sides are trimmed before comparison.
    pub fn consume(&mut self, candidate: &str) -> (matched: bool)
        ensures
            final(self).code_view() is None,
            final(self).purge_view() == old(self).purge_view(),
            matched == spec_code_match(old(self).code_view(), candidate@),
    {
        let live = self.code.take();
        match live {
            None => false,
            Some(c) => {
                let t_cand = trim_str(candidate).to_owned();
                let t_code = trim_str(c.as_str()).to_owned();
                t_cand == t_code
            },
        }
    }

    /// Stores (or clears) the pending purge batch.
    pub fn set_purge(&mut self, purge: Option<PendingPurge>)
        ensures
            final(self).code_view() == old(self).code_view(),
            final(self).purge_view() == opt_purge_view(purge),
    {
        self.purge = purge;
    }

    /// Removes and returns the pending purge batch, if any; afterwards no
    /// batch is pending.
    pub fn take_purge(&mut self) -> (r: Option<PendingPurge>)
        ensures
            final(self).code_view() == old(self).code_view(),
            final(self).purge_view() is None,
            opt_purge_view(r) == old(self).purge_view(),
    {
        self.purge.take()
    }

    /// Clears both the live code and the pending purge, aborting any purge
    /// session in preparation.
    pub fn cancel(&mut self)
        ensures
            final(self).code_view() is None,
            final(self).purge_view() is None,
    {
        self.code = None;
        self.purge = None;
    }
}

impl Default for Code {
    fn default() -> (r: Code)
        ensures
            r.code_view() is None,
            r.purge_view() is None,
    {
        Code::new()
    }
}

/// A challenge code can be consumed at most once: `consume` always leaves the
/// gate without a live code, and against a gate without a live code no
/// candidate whatsoever matches. So a second `consume`, after a first that
/// succeeded or failed, always reports no match.
pub proof fn lemma_consume_at_most_once(gate: Code, candidate: Seq<char>)
    requires
        gate.code_view() is None,
    ensures
        !spec_code_match(gate.code_view(), candidate),
{
}

} // verus!
