//! Dispatching a UI action to the device: translation, catalog validation,
//! the session coordinator's stop-before-start sequence, and the ordered
//! fallback chain of transports.
//!
//! The transports themselves are opaque services behind the [`Transport`]
//! trait; this module only decides what is sent, in which order, and how the
//! session slot changes for each outcome.

use vstd::prelude::*;
use crate::actions::{spec_translate, translate_action_to_bt};
use crate::commands::{spec_lookup, CommandRegistry};
use crate::session::{
    is_start_key, spec_active, spec_active_after, spec_is_start_key, spec_pre_stop, SessionState,
};

verus! {

/// One way to reach the device. Implementations live outside this crate
/// (a platform-native bridge, a generic fallback); each must confine its own
/// faults and report them as an `Err`.
pub trait Transport {
    /// Attempts to deliver `payload` to the device at `mac`; returns the
    /// transport's acknowledgement or an error description.
    fn send(&self, mac: &str, payload: &str) -> Result<String, String>;
}

/// Waits the short fixed settle interval between an automatic stop and the
/// start that follows it. Implementations live outside this crate.
pub trait SettleTimer {
    fn settle(&self);
}

/// The terminal error reported when every transport failed or was
/// unsupported.
pub open spec fn spec_terminal_error(payload: Seq<char>, mac: Seq<char>) -> Seq<char> {
    "all_transports_failed_or_unsupported:"@ + payload + "@"@ + mac
}

/// The routing error for a UI action outside the translation table.
pub open spec fn spec_unknown_action_error(action: Seq<char>) -> Seq<char> {
    "unknown_action:"@ + action
}

/// The routing error for a translated key missing from the catalog.
pub open spec fn spec_unsupported_command_error(cmd: Seq<char>) -> Seq<char> {
    "unsupported_bt_command:"@ + cmd
}

/// The payload actually sent for `cmd`: a JSON envelope when parameters are
/// supplied (already serialized as JSON text), the bare key otherwise.
pub open spec fn spec_payload(cmd: Seq<char>, params: Option<Seq<char>>) -> Seq<char> {
    match params {
        Some(p) => "{\"command\":\""@ + cmd + "\",\"params\":"@ + p + "}"@,
        None => cmd,
    }
}

/// The view of an optional parameter text.
pub open spec fn spec_opt_text(p: Option<String>) -> Option<Seq<char>> {
    match p {
        Some(s) => Some(s@),
        None => None,
    }
}

/// Builds the transport payload for `cmd`, per `spec_payload`.
pub fn build_payload(cmd: &str, params: &Option<String>) -> (r: String)
    ensures
        r@ == spec_payload(
            cmd@,
            match params {
                Some(p) => Some(p@),
                None => None,
            },
        ),
{
    match params {
        Some(p) => {
            let r = String::from_str("{\"command\":\"").concat(cmd).concat(
                "\",\"params\":",
            ).concat(p.as_str()).concat("}");
            proof {
                assert(r@ =~= spec_payload(cmd@, Some(p@)));
            }
            r
        },
        None => String::from_str(cmd),
    }
}

/// The ordered list of transports tried for each send.
pub struct TransportChain<T: Transport> {
    pub transports: Vec<T>,
}

impl<T: Transport> TransportChain<T> {
    /// Tries each transport in order and returns the first definitive
    /// success. Individual failures are swallowed; when every transport is
    /// exhausted the result is the terminal error naming payload and target.
    pub fn send_with_fallback(&self, mac: &str, payload: &str) -> (r: Result<String, String>)
        ensures
            r matches Err(e) ==> e@ == spec_terminal_error(payload@, mac@),
            self.transports.len() == 0 ==> r is Err,
    {
        let n = self.transports.len();
        let mut i: usize = 0;
        while i < n
            invariant
                i <= n,
                n == self.transports.len(),
            decreases n - i,
        {
            let attempt = self.transports[i].send(mac, payload);
            match attempt {
                Ok(ack) => {
                    return Ok(ack);
                },
                Err(_) => {},
            }
            i = i + 1;
        }
        let e = String::from_str("all_transports_failed_or_unsupported:").concat(payload).concat(
            "@",
        ).concat(mac);
        proof {
            assert(e@ =~= spec_terminal_error(payload@, mac@));
        }
        Err(e)
    }
}

/// Translates `action`, validates the key against the catalog, stops a
/// conflicting active session first (waiting the settle interval), sends the
/// command through the transport chain, and records the outcome in the
/// session slot. The transport result is returned verbatim.
pub fn send_action<T: Transport, W: SettleTimer>(
    chain: &TransportChain<T>,
    timer: &W,
    registry: &CommandRegistry,
    state: &mut SessionState,
    action: &str,
    mac: &str,
    params: Option<String>,
) -> (r: Result<String, String>)
    ensures
        match spec_translate(action@) {
            None => r matches Err(e) && e@ == spec_unknown_action_error(action@) && spec_active(
                final(state),
            ) == spec_active(old(state)),
            Some(cmd) => if spec_lookup(registry@, cmd) is None {
                r matches Err(e) && e@ == spec_unsupported_command_error(cmd) && spec_active(
                    final(state),
                ) == spec_active(old(state))
            } else {
                &&& spec_active(final(state)) == spec_active_after(
                    spec_active(old(state)),
                    cmd,
                    spec_is_start_key(cmd),
                    r is Ok,
                )
                &&& (r matches Err(e) ==> e@ == spec_terminal_error(
                    spec_payload(cmd, spec_opt_text(params)),
                    mac@,
                ))
            },
        },
{
    let cmd = match translate_action_to_bt(action) {
        Some(c) => c,
        None => {
            return Err(String::from_str("unknown_action:").concat(action));
        },
    };
    if !registry.contains_key(cmd.as_str()) {
        return Err(String::from_str("unsupported_bt_command:").concat(cmd.as_str()));
    }
    let is_start = is_start_key(cmd.as_str());
    let stop_plan = state.plan_stop(cmd.as_str(), is_start);
    match stop_plan {
        Some(stop) => {
            // the stop's outcome is ignored: a stop failure must not block
            // the new start
            let _ignored = chain.send_with_fallback(mac, stop.as_str());
            state.clear_active();
            timer.settle();
        },
        None => {},
    }
    let payload = build_payload(cmd.as_str(), &params);
    let result = chain.send_with_fallback(mac, payload.as_str());
    let ok = result.is_ok();
    state.record_outcome(cmd.as_str(), is_start, ok);
    result
}

} // verus!
