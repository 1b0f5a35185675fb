//! Session coordination: command-key predicates, the derived stop key, and
//! the state transitions of the single active-session slot.
//!
//! The coordinator itself performs no transport work; `spec_pre_stop`,
//! `spec_send_plan` and `spec_active_after` say, for a requested command,
//! which stop command (if any) must be dispatched first, which payloads are
//! dispatched in which order, and what the active-session slot holds
//! afterwards.

use vstd::prelude::*;
use crate::text::str_eq;

verus! {

/// A command key is session-starting iff it ends in ".start".
pub open spec fn spec_is_start_key(k: Seq<char>) -> bool {
    k.len() >= 6 && k.subrange(k.len() - 6, k.len() as int) == ".start"@
}

/// A command key is session-stopping iff it ends in ".stop".
pub open spec fn spec_is_stop_key(k: Seq<char>) -> bool {
    k.len() >= 5 && k.subrange(k.len() - 5, k.len() as int) == ".stop"@
}

/// The stop key derived from `k`: the ".start" suffix replaced by ".stop";
/// for a key not ending in ".start", ".stop" is appended.
pub open spec fn spec_stop_key(k: Seq<char>) -> Seq<char> {
    if spec_is_start_key(k) {
        k.subrange(0, k.len() - 6) + ".stop"@
    } else {
        k + ".stop"@
    }
}

/// Decides whether a command key is session-starting.
pub fn is_start_key(k: &str) -> (r: bool)
    ensures
        r == spec_is_start_key(k@),
{
    proof {
        reveal_strlit(".start");
    }
    let n = k.unicode_len();
    if n < 6 {
        return false;
    }
    let r = k.get_char(n - 6) == '.' && k.get_char(n - 5) == 's' && k.get_char(n - 4) == 't'
        && k.get_char(n - 3) == 'a' && k.get_char(n - 2) == 'r' && k.get_char(n - 1) == 't';
    proof {
        let m = k@.len();
        let s = k@.subrange(m - 6, m as int);
        assert(s[0] == k@[m - 6] && s[1] == k@[m - 5] && s[2] == k@[m - 4] && s[3] == k@[m - 3]
            && s[4] == k@[m - 2] && s[5] == k@[m - 1]);
        assert(".start"@[0] == '.' && ".start"@[1] == 's' && ".start"@[2] == 't'
            && ".start"@[3] == 'a' && ".start"@[4] == 'r' && ".start"@[5] == 't');
        if r {
            assert(s =~= ".start"@);
        }
    }
    r
}

/// Decides whether a command key is session-stopping.
pub fn is_stop_key(k: &str) -> (r: bool)
    ensures
        r == spec_is_stop_key(k@),
{
    proof {
        reveal_strlit(".stop");
    }
    let n = k.unicode_len();
    if n < 5 {
        return false;
    }
    let r = k.get_char(n - 5) == '.' && k.get_char(n - 4) == 's' && k.get_char(n - 3) == 't'
        && k.get_char(n - 2) == 'o' && k.get_char(n - 1) == 'p';
    proof {
        let m = k@.len();
        let s = k@.subrange(m - 5, m as int);
        assert(s[0] == k@[m - 5] && s[1] == k@[m - 4] && s[2] == k@[m - 3] && s[3] == k@[m - 2]
            && s[4] == k@[m - 1]);
        assert(".stop"@[0] == '.' && ".stop"@[1] == 's' && ".stop"@[2] == 't'
            && ".stop"@[3] == 'o' && ".stop"@[4] == 'p');
        if r {
            assert(s =~= ".stop"@);
        }
    }
    r
}

/// Computes the stop key that halts the session started by `k`.
pub fn derive_stop_key(k: &str) -> (r: String)
    ensures
        r@ == spec_stop_key(k@),
{
    if is_start_key(k) {
        let n = k.unicode_len();
        let prefix = k.substring_char(0, n - 6);
        String::from_str(prefix).concat(".stop")
    } else {
        String::from_str(k).concat(".stop")
    }
}

/// Law: for every key ending in ".start", the derived stop key is that key
/// with the ".start" suffix replaced by ".stop", exactly once: the prefix
/// before the suffix is kept unchanged and the result ends in ".stop".
pub proof fn lemma_stop_key_of_start_key(k: Seq<char>)
    requires
        spec_is_start_key(k),
    ensures
        spec_stop_key(k).len() == k.len() - 1,
        spec_stop_key(k).subrange(0, k.len() - 6) == k.subrange(0, k.len() - 6),
        spec_stop_key(k).subrange(k.len() - 6, k.len() - 1) == ".stop"@,
        spec_is_stop_key(spec_stop_key(k)),
{
    reveal_strlit(".start");
    reveal_strlit(".stop");
    let r = spec_stop_key(k);
    assert(r.subrange(0, k.len() - 6) =~= k.subrange(0, k.len() - 6));
    assert(r.subrange(k.len() - 6, k.len() - 1) =~= ".stop"@);
    assert(r.subrange(r.len() - 5, r.len() as int) =~= ".stop"@);
}

/// The single globally shared session slot: the key of the currently active
/// long-running command, if any.
pub struct SessionState {
    pub active: Option<String>,
}

/// The active key as a mathematical value.
pub open spec fn spec_active(s: &SessionState) -> Option<Seq<char>> {
    match s.active {
        Some(a) => Some(a@),
        None => None,
    }
}

/// The stop command that must be dispatched before `cmd`, if any: one is owed
/// exactly when a session is active, the request is a start, and the active
/// key differs from the requested one.
pub open spec fn spec_pre_stop(
    active: Option<Seq<char>>,
    cmd: Seq<char>,
    is_start: bool,
) -> Option<Seq<char>> {
    match active {
        Some(a) => if is_start && a != cmd {
            Some(spec_stop_key(a))
        } else {
            None
        },
        None => None,
    }
}

/// The active slot after the pre-stop phase: cleared iff a stop was owed.
pub open spec fn spec_active_after_stop(
    active: Option<Seq<char>>,
    cmd: Seq<char>,
    is_start: bool,
) -> Option<Seq<char>> {
    if spec_pre_stop(active, cmd, is_start) is Some {
        None
    } else {
        active
    }
}

/// The bookkeeping applied once the main dispatch has returned, given the
/// slot value `mid` left by the pre-stop phase and whether the dispatch
/// succeeded: a successful start records the key; a successful stop that
/// matches the active session's derived stop key clears the slot; everything
/// else leaves the slot unchanged.
pub open spec fn spec_record_outcome(
    mid: Option<Seq<char>>,
    cmd: Seq<char>,
    is_start: bool,
    ok: bool,
) -> Option<Seq<char>> {
    if ok && is_start {
        Some(cmd)
    } else if ok && spec_is_stop_key(cmd) && (match mid {
        Some(a) => spec_stop_key(a) == cmd,
        None => false,
    }) {
        None
    } else {
        mid
    }
}

/// The active slot after a whole dispatch of `cmd`, with outcome `ok`.
pub open spec fn spec_active_after(
    active: Option<Seq<char>>,
    cmd: Seq<char>,
    is_start: bool,
    ok: bool,
) -> Option<Seq<char>> {
    spec_record_outcome(spec_active_after_stop(active, cmd, is_start), cmd, is_start, ok)
}

/// The ordered transport payloads a dispatch of `cmd` produces: the owed stop
/// key, if any, strictly before the command's own payload.
pub open spec fn spec_send_plan(
    active: Option<Seq<char>>,
    cmd: Seq<char>,
    is_start: bool,
    payload: Seq<char>,
) -> Seq<Seq<char>> {
    match spec_pre_stop(active, cmd, is_start) {
        Some(s) => seq![s, payload],
        None => seq![payload],
    }
}

impl SessionState {
    /// A fresh coordinator: no session active.
    pub fn new() -> (r: SessionState)
        ensures
            spec_active(&r) is None,
    {
        SessionState { active: None }
    }

    /// The stop command owed before dispatching `cmd`, per `spec_pre_stop`.
    pub fn plan_stop(&self, cmd: &str, is_start: bool) -> (r: Option<String>)
        ensures
            match r {
                Some(s) => spec_pre_stop(spec_active(self), cmd@, is_start) == Some(s@),
                None => spec_pre_stop(spec_active(self), cmd@, is_start) is None,
            },
    {
        if is_start {
            match &self.active {
                Some(a) => {
                    if !str_eq(a.as_str(), cmd) {
                        Some(derive_stop_key(a.as_str()))
                    } else {
                        None
                    }
                },
                None => None,
            }
        } else {
            None
        }
    }

    /// Clears the active slot (after an owed stop command was dispatched).
    pub fn clear_active(&mut self)
        ensures
            spec_active(final(self)) is None,
    {
        self.active = None;
    }

    /// Applies `spec_record_outcome` after the main dispatch returned.
    pub fn record_outcome(&mut self, cmd: &str, is_start: bool, ok: bool)
        ensures
            spec_active(final(self)) == spec_record_outcome(
                spec_active(old(self)),
                cmd@,
                is_start,
                ok,
            ),
    {
        if ok && is_start {
            self.active = Some(String::from_str(cmd));
        } else if ok && is_stop_key(cmd) {
            let clear = match &self.active {
                Some(a) => {
                    let stop = derive_stop_key(a.as_str());
                    str_eq(stop.as_str(), cmd)
                },
                None => false,
            };
            if clear {
                self.active = None;
            }
        }
    }
}

/// Law: starting session B while a different session A is active plans A's
/// derived stop key strictly before B's payload, and a successful dispatch
/// leaves B as the active session.
pub proof fn lemma_switch_sessions(a: Seq<char>, b: Seq<char>, payload: Seq<char>)
    requires
        a != b,
    ensures
        spec_send_plan(Some(a), b, true, payload) == seq![spec_stop_key(a), payload],
        spec_active_after(Some(a), b, true, true) == Some(b),
{
}

/// Law: starting the session that is already active plans no stop at all,
/// and the active session is unchanged by the (re-sent) start.
pub proof fn lemma_restart_same_session(a: Seq<char>, payload: Seq<char>)
    ensures
        spec_pre_stop(Some(a), a, true) is None,
        spec_send_plan(Some(a), a, true, payload) == seq![payload],
        spec_active_after(Some(a), a, true, true) == Some(a),
{
}

} // verus!
