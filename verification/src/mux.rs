//! Command multiplexer: one duplex channel shared by many concurrent logical
//! commands, each correlated by a strictly increasing identifier and resolved
//! exactly once.
//!
//! This type is the synchronized core the surrounding tasks drive: identifier
//! assignment and envelope construction on the submission side, and message
//! correlation on the receiving side, are single atomic transitions on this
//! state. The callers hold it behind their own lock; every transition here is
//! verified against the relations below.

use vstd::prelude::*;
use crate::json::{JsonValue, get_key, json_of, parse_json, take_key};
use crate::error::Error;
use crate::text::{dec_of, dec_of_int};

verus! {

/// The single terminal outcome of a submitted command.
#[derive(Debug, PartialEq)]
pub enum CommandOutcome {
    /// The result payload of a successful command.
    Success(JsonValue),
    /// The protocol-reported failure: code and message.
    Failure(i64, String),
}

/// What the reader must do with one inbound message.
#[derive(Debug, PartialEq)]
pub enum DispatchAction {
    /// Deliver the outcome to the identified pending command.
    Resolve(u64, CommandOutcome),
    /// Remove the identified pending command without a payload: the message
    /// carried its identifier but neither a result nor an error field.
    Abandon(u64),
    /// Discard the message: no identifier, or none that is pending.
    Ignore,
}

/// Multiplexer state: the next identifier to assign and the identifiers of
/// commands submitted but not yet resolved. The set of already resolved
/// identifiers is carried as ghost history.
pub struct Multiplexer {
    /// The identifier the next submission receives; starts at one.
    pub next_id: u64,
    /// Identifiers with an outstanding completion slot.
    pub pending: Vec<u64>,
    /// Identifiers whose outcome has already been delivered.
    pub resolved: Ghost<Set<u64>>,
}

/// The correlation identifier an inbound message carries, if any.
pub open spec fn msg_id(m: JsonValue) -> Option<u64> {
    match get_key(m, "id"@) {
        Some(JsonValue::Int(i)) => if i >= 0 {
            Some(i as u64)
        } else {
            None
        },
        _ => None,
    }
}

/// The protocol error code of an error payload; minus one when absent.
pub open spec fn err_code_of(e: JsonValue) -> i64 {
    match get_key(e, "code"@) {
        Some(JsonValue::Int(c)) => c,
        _ => -1i64,
    }
}

/// The protocol error message of an error payload; a placeholder when absent.
pub open spec fn err_message_of(e: JsonValue) -> Seq<char> {
    match get_key(e, "message"@) {
        Some(JsonValue::Str(s)) => s@,
        _ => "unknown"@,
    }
}

/// Whether an outcome is the failure carrying exactly this code and message.
pub open spec fn is_failure_outcome(o: CommandOutcome, code: i64, message: Seq<char>) -> bool {
    o matches CommandOutcome::Failure(c, m) && c == code && m@ == message
}

/// Whether `env` is the outbound envelope for this identifier, method and
/// parameter value: an object of exactly the three protocol fields, in order.
pub open spec fn is_command_envelope(
    env: JsonValue,
    id: u64,
    method: Seq<char>,
    params: JsonValue,
) -> bool {
    env matches JsonValue::Obj(fields) && {
        &&& fields@.len() == 3
        &&& fields@[0].0@ == "id"@
        &&& fields@[0].1 == JsonValue::Int(id as i64)
        &&& fields@[1].0@ == "method"@
        &&& fields@[1].1 matches JsonValue::Str(s) && s@ == method
        &&& fields@[2].0@ == "params"@
        &&& fields@[2].1 == params
    }
}

impl Multiplexer {
    /// Well-formedness: identifiers start at one; every pending or resolved
    /// identifier was issued; no identifier is pending twice, nor both
    /// pending and resolved.
    pub open spec fn wf(self) -> bool {
        &&& 1 <= self.next_id
        &&& forall|i: int|
            0 <= i < self.pending@.len() ==> 1 <= #[trigger] self.pending@[i] < self.next_id
        &&& forall|i: int, j: int|
            0 <= i < j < self.pending@.len() ==> self.pending@[i] != self.pending@[j]
        &&& forall|x: u64| self.resolved@.contains(x) ==> 1 <= x < self.next_id
        &&& forall|i: int|
            0 <= i < self.pending@.len() ==> !self.resolved@.contains(
                #[trigger] self.pending@[i],
            )
    }

    /// The identifiers issued so far, in issue order: one up to the last.
    pub open spec fn issued(self) -> Seq<u64> {
        Seq::new((self.next_id - 1) as nat, |i: int| (i + 1) as u64)
    }

    /// A fresh multiplexer: nothing issued, nothing pending.
    pub fn new() -> (r: Multiplexer)
        ensures
            r.wf(),
            r.next_id == 1,
            r.pending@.len() == 0,
            r.resolved@ == Set::<u64>::empty(),
            r.issued().len() == 0,
    {
        Multiplexer { next_id: 1, pending: Vec::new(), resolved: Ghost(Set::empty()) }
    }

    /// Whether the identifier has an outstanding completion slot.
    pub fn is_pending(&self, id: u64) -> (r: bool)
        ensures
            r == self.pending@.contains(id),
    {
        let n = self.pending.len();
        let mut i: usize = 0;
        while i < n
            invariant
                n == self.pending@.len(),
                i <= n,
                forall|k: int| 0 <= k < i ==> self.pending@[k] != id,
            decreases n - i,
        {
            if self.pending[i] == id {
                return true;
            }
            i += 1;
        }
        false
    }
}

/// How one submission transforms the multiplexer: the returned identifier is
/// the next one, the counter advances, the identifier joins the pending set,
/// and the envelope carries exactly this identifier, method and parameters.
pub open spec fn submit_rel(
    pre: Multiplexer,
    post: Multiplexer,
    method: Seq<char>,
    params: JsonValue,
    id: u64,
    env: JsonValue,
) -> bool {
    &&& id == pre.next_id
    &&& post.next_id == pre.next_id + 1
    &&& post.resolved@ == pre.resolved@
    &&& post.pending@ == pre.pending@.push(id)
    &&& post.issued() == pre.issued().push(id)
    &&& is_command_envelope(env, id, method, params)
}

/// How one inbound message transforms the multiplexer. A message without a
/// non-negative integer identifier, or whose identifier is not pending, is
/// ignored and changes nothing. Otherwise the identifier moves from pending
/// to resolved, exactly once, and the action carries the protocol-reported
/// failure if an error field is present, otherwise the result payload,
/// otherwise no payload.
pub open spec fn dispatch_rel(
    pre: Multiplexer,
    post: Multiplexer,
    msg: JsonValue,
    r: DispatchAction,
) -> bool {
    match msg_id(msg) {
        None => r is Ignore && post == pre,
        Some(id) => if !pre.pending@.contains(id) {
            r is Ignore && post == pre
        } else {
            &&& post.next_id == pre.next_id
            &&& post.resolved@ == pre.resolved@.insert(id)
            &&& forall|x: u64|
                #[trigger] post.pending@.contains(x) <==> pre.pending@.contains(x) && x != id
            &&& post.pending@.len() == pre.pending@.len() - 1
            &&& match get_key(msg, "error"@) {
                Some(e) => r matches DispatchAction::Resolve(rid, out) && rid == id
                    && is_failure_outcome(out, err_code_of(e), err_message_of(e)),
                None => match get_key(msg, "result"@) {
                    Some(payload) => r == DispatchAction::Resolve(
                        id,
                        CommandOutcome::Success(payload),
                    ),
                    None => r == DispatchAction::Abandon(id),
                },
            }
        },
    }
}

impl Multiplexer {
    /// Assign the next identifier, register it as pending, and build the
    /// outbound envelope. The identifier bound keeps the envelope's integer
    /// field exact and the counter free of overflow.
    pub fn submit(&mut self, method: &str, params: JsonValue) -> (r: (u64, JsonValue))
        requires
            old(self).wf(),
            old(self).next_id < 0x7fff_ffff_ffff_ffff,
        ensures
            final(self).wf(),
            submit_rel(*old(self), *final(self), method@, params, r.0, r.1),
    {
        let id = self.next_id;
        self.next_id = self.next_id + 1;
        self.pending.push(id);
        let mut fields: Vec<(String, JsonValue)> = Vec::new();
        fields.push((String::from_str("id"), JsonValue::Int(id as i64)));
        fields.push((String::from_str("method"), JsonValue::Str(String::from_str(method))));
        fields.push((String::from_str("params"), params));
        let env = JsonValue::Obj(fields);
        proof {
            assert(self.issued() =~= old(self).issued().push(id));
        }
        (id, env)
    }

    /// Correlate one inbound message: if it bears a pending identifier, move
    /// that identifier to resolved and say what to deliver; otherwise ignore
    /// it. The message is left behind with the delivered payload moved out.
    pub fn dispatch(&mut self, msg: &mut JsonValue) -> (r: DispatchAction)
        requires
            old(self).wf(),
        ensures
            final(self).wf(),
            dispatch_rel(*old(self), *final(self), *old(msg), r),
    {
        let id_opt: Option<u64> = match msg.get("id") {
            Some(x) => match x.int_value() {
                Some(i) => if i >= 0 {
                    Some(i as u64)
                } else {
                    None
                },
                None => None,
            },
            None => None,
        };
        let id = match id_opt {
            Some(id) => id,
            None => {
                proof {
                    assert(msg_id(*old(msg)) is None);
                }
                return DispatchAction::Ignore;
            },
        };
        proof {
            assert(msg_id(*old(msg)) == Some(id));
        }
        let n = self.pending.len();
        let mut i: usize = 0;
        let mut found: Option<usize> = None;
        while i < n
            invariant
                n == self.pending@.len(),
                i <= n,
                match found {
                    Some(j) => j < i && self.pending@[j as int] == id,
                    None => forall|k: int| 0 <= k < i ==> self.pending@[k] != id,
                },
            decreases n - i,
        {
            if self.pending[i] == id {
                found = Some(i);
                i = n;
            } else {
                i += 1;
            }
        }
        let idx = match found {
            Some(j) => j,
            None => {
                proof {
                    assert(!old(self).pending@.contains(id));
                }
                return DispatchAction::Ignore;
            },
        };
        proof {
            assert(old(self).pending@.contains(id));
        }
        self.pending.remove(idx);
        self.resolved = Ghost(self.resolved@.insert(id));
        proof {
            lemma_remove_keeps_distinct(old(self).pending@, idx as int);
            assert(forall|x: u64|
                #[trigger] self.pending@.contains(x) <==> old(self).pending@.contains(x) && x
                    != id);
        }
        let err_taken = take_key(msg, "error");
        match err_taken {
            Some(e) => {
                let code: i64 = match e.get("code") {
                    Some(c) => match c.int_value() {
                        Some(i) => i,
                        None => -1,
                    },
                    None => -1,
                };
                let message: String = match e.get("message") {
                    Some(m) => match m.str_value() {
                        Some(s) => s,
                        None => String::from_str("unknown"),
                    },
                    None => String::from_str("unknown"),
                };
                proof {
                    assert(code == err_code_of(e));
                    assert(message@ == err_message_of(e));
                }
                DispatchAction::Resolve(id, CommandOutcome::Failure(code, message))
            },
            None => {
                match take_key(msg, "result") {
                    Some(payload) => DispatchAction::Resolve(
                        id,
                        CommandOutcome::Success(payload),
                    ),
                    None => DispatchAction::Abandon(id),
                }
            },
        }
    }

    /// On connection loss, clear the pending table and hand back every
    /// outstanding identifier, so no submitter is left waiting forever.
    pub fn close_sweep(&mut self) -> (r: Vec<u64>)
        requires
            old(self).wf(),
        ensures
            final(self).wf(),
            r@ == old(self).pending@,
            final(self).pending@.len() == 0,
            final(self).next_id == old(self).next_id,
            forall|x: u64|
                #[trigger] final(self).resolved@.contains(x) <==> old(self).resolved@.contains(x)
                    || old(self).pending@.contains(x),
    {
        let mut out: Vec<u64> = Vec::new();
        core::mem::swap(&mut self.pending, &mut out);
        self.resolved = Ghost(self.resolved@.union(out@.to_set()));
        proof {
            assert(forall|x: u64|
                old(self).pending@.contains(x) ==> #[trigger] out@.to_set().contains(x));
            assert(forall|x: u64|
                #[trigger] out@.to_set().contains(x) ==> old(self).pending@.contains(x));
        }
        out
    }
}

impl Multiplexer {
    /// Correlate one inbound wire text: parse it, then dispatch the parsed
    /// message. Text that is not well-formed JSON is ignored.
    pub fn dispatch_text(&mut self, text: &str) -> (r: DispatchAction)
        requires
            old(self).wf(),
        ensures
            final(self).wf(),
            match json_of(text@) {
                Some(m) => dispatch_rel(*old(self), *final(self), m, r),
                None => r is Ignore && *final(self) == *old(self),
            },
    {
        match parse_json(text) {
            Ok(mut m) => self.dispatch(&mut m),
            Err(_) => DispatchAction::Ignore,
        }
    }
}

impl Multiplexer {
    /// One whole submission step as the writer sends it: assign the next
    /// identifier, register it as pending, and hand back the identifier with
    /// the envelope's wire text.
    pub fn submit_text(&mut self, method: &str, params: JsonValue) -> (r: (u64, String))
        requires
            old(self).wf(),
            old(self).next_id < 0x7fff_ffff_ffff_ffff,
        ensures
            final(self).wf(),
            exists|env: JsonValue|
                submit_rel(*old(self), *final(self), method@, params, r.0, env) && r.1@
                    == crate::json::json_text_of(env),
    {
        let (id, env) = self.submit(method, params);
        let text = crate::json::render_json(&env);
        (id, text)
    }
}

/// The failure reported to a submitter whose command the protocol answered
/// with an error field.
pub fn correlation_failure_error(id: u64, code: i64, message: &str) -> (r: Error)
    ensures
        r matches Error::Cdp(s) && s@ == "CDP error for command "@ + dec_of(id as nat) + ": "@
            + dec_of_int(code as int) + " - "@ + message@,
{
    let mut s = String::new();
    s.append("CDP error for command ");
    s.append(crate::text::u64_to_dec(id).as_str());
    s.append(": ");
    s.append(crate::text::i64_to_dec(code).as_str());
    s.append(" - ");
    s.append(message);
    proof {
        assert(s@ =~= "CDP error for command "@ + dec_of(id as nat) + ": "@ + dec_of_int(
            code as int,
        ) + " - "@ + message@);
    }
    Error::Cdp(s)
}

/// The failure a submitter sees when the submission queue has closed: the
/// writer task is gone and the command was never registered.
pub fn submission_queue_closed_error() -> (r: Error)
    ensures
        r matches Error::Cdp(s) && s@ == "Failed to send command to channel"@,
{
    Error::Cdp(String::from_str("Failed to send command to channel"))
}

/// The failure a submitter sees when its completion slot closed without a
/// delivery: distinguishable from a closed submission queue.
pub fn response_slot_closed_error() -> (r: Error)
    ensures
        r matches Error::Cdp(s) && s@ == "Response channel closed"@,
{
    Error::Cdp(String::from_str("Response channel closed"))
}

/// The two submission-side failures are distinct errors.
pub proof fn lemma_submit_failures_distinguishable(a: Error, b: Error)
    requires
        a matches Error::Cdp(s) && s@ == "Failed to send command to channel"@,
        b matches Error::Cdp(t) && t@ == "Response channel closed"@,
    ensures
        a != b,
{
    reveal_strlit("Failed to send command to channel");
    reveal_strlit("Response channel closed");
    match (a, b) {
        (Error::Cdp(s), Error::Cdp(t)) => {
            assert(s@.len() != t@.len());
        },
        _ => {},
    }
}

/// Removing one element of a duplicate-free sequence removes exactly that
/// element's value from its membership.
proof fn lemma_remove_keeps_distinct(s: Seq<u64>, i: int)
    requires
        0 <= i < s.len(),
        forall|a: int, b: int| 0 <= a < b < s.len() ==> s[a] != s[b],
    ensures
        forall|x: u64| #[trigger] s.remove(i).contains(x) <==> (s.contains(x) && x != s[i]),
        forall|a: int, b: int|
            0 <= a < b < s.remove(i).len() ==> s.remove(i)[a] != s.remove(i)[b],
        s.remove(i).len() == s.len() - 1,
{
    s.remove_ensures(i);
    assert forall|x: u64| #[trigger] s.remove(i).contains(x) implies (s.contains(x) && x
        != s[i]) by {
        let j = choose|j: int| 0 <= j < s.remove(i).len() && s.remove(i)[j] == x;
        if j < i {
            assert(s[j] == x);
        } else {
            assert(s[j + 1] == x);
        }
    };
    assert forall|x: u64| s.contains(x) && x != s[i] implies #[trigger] s.remove(i).contains(
        x,
    ) by {
        let j = choose|j: int| 0 <= j < s.len() && s[j] == x;
        if j < i {
            assert(s.remove(i)[j] == x);
        } else {
            assert(s.remove(i)[j - 1] == x);
        }
    };
}

/// No two submissions receive the same identifier: the identifier of a later
/// submission is strictly greater.
pub proof fn lemma_distinct_identifiers(
    s0: Multiplexer,
    s1: Multiplexer,
    s2: Multiplexer,
    m1: Seq<char>,
    p1: JsonValue,
    id1: u64,
    env1: JsonValue,
    m2: Seq<char>,
    p2: JsonValue,
    id2: u64,
    env2: JsonValue,
)
    requires
        submit_rel(s0, s1, m1, p1, id1, env1),
        submit_rel(s1, s2, m2, p2, id2, env2),
    ensures
        id1 < id2,
{
}

/// Identifier generation is strictly increasing from one and never repeats:
/// the issue history of a well-formed multiplexer that has issued n
/// identifiers is exactly the sequence 1, 2, ..., n.
pub proof fn lemma_identifiers_strictly_increasing(m: Multiplexer)
    requires
        m.wf(),
    ensures
        forall|i: int| 0 <= i < m.issued().len() ==> #[trigger] m.issued()[i] == i + 1,
        forall|i: int, j: int|
            0 <= i < j < m.issued().len() ==> m.issued()[i] < m.issued()[j],
{
}

/// A freshly submitted identifier is deliverable: the first message bearing
/// it is never ignored — it resolves or abandons exactly that entry.
pub proof fn lemma_submitted_is_deliverable(
    s0: Multiplexer,
    s1: Multiplexer,
    s2: Multiplexer,
    method: Seq<char>,
    params: JsonValue,
    id: u64,
    env: JsonValue,
    msg: JsonValue,
    r: DispatchAction,
)
    requires
        submit_rel(s0, s1, method, params, id, env),
        dispatch_rel(s1, s2, msg, r),
        msg_id(msg) == Some(id),
    ensures
        (r matches DispatchAction::Resolve(rid, out) && rid == id) || r
            == DispatchAction::Abandon(id),
{
    assert(s1.pending@[s1.pending@.len() - 1] == id);
    assert(s1.pending@.contains(id));
}

/// No pending identifier is dropped behind its submitter's back: a dispatch
/// that does not deliver to it leaves it pending, so it can still be
/// resolved later.
pub proof fn lemma_pending_stable(
    pre: Multiplexer,
    post: Multiplexer,
    msg: JsonValue,
    r: DispatchAction,
    x: u64,
)
    requires
        pre.wf(),
        dispatch_rel(pre, post, msg, r),
        pre.pending@.contains(x),
        !(r matches DispatchAction::Resolve(rid, out) && rid == x),
        r != DispatchAction::Abandon(x),
    ensures
        post.pending@.contains(x),
{
}

/// Per-identifier delivery is exactly once: after a dispatch delivers an
/// identifier (with or without a payload), any further message bearing that
/// identifier is ignored and changes nothing.
pub proof fn lemma_exactly_once(
    pre: Multiplexer,
    mid: Multiplexer,
    post: Multiplexer,
    msg1: JsonValue,
    msg2: JsonValue,
    r1: DispatchAction,
    r2: DispatchAction,
    id: u64,
)
    requires
        pre.wf(),
        dispatch_rel(pre, mid, msg1, r1),
        dispatch_rel(mid, post, msg2, r2),
        (r1 matches DispatchAction::Resolve(rid, out) && rid == id) || r1
            == DispatchAction::Abandon(id),
        msg_id(msg2) == Some(id),
    ensures
        r2 is Ignore,
        post == mid,
{
    assert(pre.pending@.contains(id));
    assert(!mid.pending@.contains(id));
}

} // verus!
