//! LaunchDetector: pure classification of one log notification against the
//! configured program identities, in a fixed priority order.
//!
//! A notification is attributed to a program by exact byte comparison of the
//! program's address against the notification's mentioned accounts; when no
//! mention data is available the detector falls back to keyword-only
//! matching. A positive classification further needs the initialization
//! marker (the keyword `initialize`, compared case-insensitively) somewhere
//! in the log text.
use vstd::prelude::*;

use crate::addr::Address;

verus! {

/// The closed set of launch variants, in detection priority order.
#[derive(Clone, Copy, PartialEq, Eq, Structural, Debug)]
pub enum LaunchKind {
    RaydiumAMM,
    RaydiumCLMM,
    PumpFun,
}

/// One detected launch. `token_mint` is absent when the mint cannot be
/// resolved from the notification alone; such an event must never lead to a
/// dispatch attempt.
pub struct LaunchEvent {
    pub kind: LaunchKind,
    pub signature: String,
    pub token_mint: Option<Address>,
    pub base_is_sol: bool,
    pub detected_at_slot: u64,
}

/// One item of the log subscription: the transaction signature, the ordered
/// log lines, and, when the stream supplies them, the accounts the
/// transaction mentions.
pub struct Notification {
    pub signature: String,
    pub logs: Vec<String>,
    pub mentions: Option<Vec<Address>>,
}

/// ASCII-only lower-casing of one byte; other bytes are left alone.
pub open spec fn ascii_lower(b: u8) -> u8 {
    if 65 <= b && b <= 90 {
        (b + 32) as u8
    } else {
        b
    }
}

/// The initialization marker, as lower-case bytes: `initialize`.
pub open spec fn marker() -> Seq<u8> {
    seq![105u8, 110u8, 105u8, 116u8, 105u8, 97u8, 108u8, 105u8, 122u8, 101u8]
}

/// The marker occurs at offset `j` of `line`, up to ASCII case.
pub open spec fn marker_at(line: Seq<u8>, j: int) -> bool {
    &&& 0 <= j
    &&& j + marker().len() <= line.len()
    &&& forall|k: int| 0 <= k < marker().len() ==> ascii_lower(line[j + k]) == marker()[k]
}

/// The marker occurs somewhere in `line`, up to ASCII case.
pub open spec fn line_has_marker(line: Seq<u8>) -> bool {
    exists|j: int| marker_at(line, j)
}

/// The UTF-8 bytes of one log line.
pub open spec fn line_bytes(s: String) -> Seq<u8> {
    vstd::utf8::encode_utf8(s@)
}

/// Some log line contains the initialization marker.
pub open spec fn logs_have_marker(logs: Seq<String>) -> bool {
    exists|i: int| 0 <= i < logs.len() && line_has_marker(line_bytes(logs[i]))
}

fn lower_byte(b: u8) -> (r: u8)
    ensures
        r == ascii_lower(b),
{
    if 65 <= b && b <= 90 {
        b + 32
    } else {
        b
    }
}

fn marker_bytes() -> (r: Vec<u8>)
    ensures
        r@ == marker(),
{
    let mut r: Vec<u8> = Vec::new();
    r.push(105u8);
    r.push(110u8);
    r.push(105u8);
    r.push(116u8);
    r.push(105u8);
    r.push(97u8);
    r.push(108u8);
    r.push(105u8);
    r.push(122u8);
    r.push(101u8);
    proof {
        assert(r@ =~= marker());
    }
    r
}

fn marker_matches_at(line: &[u8], m: &Vec<u8>, j: usize) -> (r: bool)
    requires
        m@ == marker(),
        j + m@.len() <= line@.len(),
    ensures
        r == marker_at(line@, j as int),
{
    let n = line.len();
    let mut k: usize = 0;
    while k < m.len()
        invariant
            m@ == marker(),
            j + m@.len() <= line@.len(),
            n == line@.len(),
            0 <= k <= m@.len(),
            forall|t: int| 0 <= t < k ==> ascii_lower(line@[j + t]) == marker()[t],
        decreases m@.len() - k,
    {
        if lower_byte(line[j + k]) != m[k] {
            proof {
                assert(!marker_at(line@, j as int));
            }
            return false;
        }
        k = k + 1;
    }
    true
}

fn line_contains_marker(line: &[u8], m: &Vec<u8>) -> (r: bool)
    requires
        m@ == marker(),
    ensures
        r == line_has_marker(line@),
{
    if line.len() < m.len() {
        proof {
            assert(forall|j: int| !marker_at(line@, j));
        }
        return false;
    }
    let n = line.len();
    let last = n - m.len();
    let mut j: usize = 0;
    while j <= last
        invariant
            m@ == marker(),
            m@.len() <= line@.len(),
            n == line@.len(),
            last == line@.len() - m@.len(),
            0 <= j <= last + 1,
            forall|t: int| 0 <= t < j ==> !marker_at(line@, t),
        decreases last + 1 - j,
    {
        if marker_matches_at(line, m, j) {
            return true;
        }
        j = j + 1;
    }
    proof {
        assert(forall|t: int| !marker_at(line@, t)) by {
            assert(forall|t: int| t > last ==> !marker_at(line@, t));
        }
    }
    false
}

fn logs_contain_marker(logs: &Vec<String>) -> (r: bool)
    ensures
        r == logs_have_marker(logs@),
{
    let m = marker_bytes();
    let mut i: usize = 0;
    while i < logs.len()
        invariant
            m@ == marker(),
            0 <= i <= logs@.len(),
            forall|t: int| 0 <= t < i ==> !line_has_marker(line_bytes(logs@[t])),
        decreases logs@.len() - i,
    {
        let line: &String = &logs[i];
        if line_contains_marker(line.as_str().as_bytes(), &m) {
            return true;
        }
        i = i + 1;
    }
    false
}

/// The mention list carries an address with exactly these bytes.
pub open spec fn mentions_include(ms: Seq<Address>, a: Address) -> bool {
    exists|i: int| 0 <= i < ms.len() && ms[i]@ == a@
}

fn mentions_contain(ms: &Vec<Address>, a: &Address) -> (r: bool)
    ensures
        r == mentions_include(ms@, *a),
{
    let mut i: usize = 0;
    while i < ms.len()
        invariant
            0 <= i <= ms@.len(),
            forall|t: int| 0 <= t < i ==> ms@[t]@ != a@,
        decreases ms@.len() - i,
    {
        if ms[i].matches(a) {
            return true;
        }
        i = i + 1;
    }
    false
}

/// The notification is attributable to the identity: the identity is
/// configured, and either the mention data names it exactly, or no mention
/// data came with the notification (keyword-only fallback).
pub open spec fn attributable(id: Option<Address>, n: Notification) -> bool {
    match id {
        Option::Some(a) => match n.mentions {
            Option::Some(ms) => mentions_include(ms@, a),
            Option::None => true,
        },
        Option::None => false,
    }
}

/// Attribution plus the initialization marker: a positive classification
/// against this one identity.
pub open spec fn identity_matches(id: Option<Address>, n: Notification) -> bool {
    attributable(id, n) && logs_have_marker(n.logs@)
}

/// The event synthesized for a positive classification: the notification's
/// signature and slot, the matched kind, and no resolved mint (resolution
/// would need data beyond the log lines).
pub open spec fn event_for(kind: LaunchKind, n: Notification, slot: u64) -> LaunchEvent {
    LaunchEvent {
        kind: kind,
        signature: n.signature,
        token_mint: Option::None,
        base_is_sol: true,
        detected_at_slot: slot,
    }
}

/// What an optional configured identity text decodes to: the parsed bytes,
/// or nothing when the text is absent or not a valid address.
pub open spec fn spec_parsed_identity(text: Option<&str>) -> Option<Seq<u8>> {
    match text {
        Option::Some(s) => crate::addr::parsed_address(s@),
        Option::None => Option::None,
    }
}

/// The classifier over the configured identities. Holds each identity as its
/// decoded 32 bytes; an identity whose configured text did not parse is
/// treated as unconfigured.
pub struct Detector {
    pub raydium_amm: Option<Address>,
    pub raydium_clmm: Option<Address>,
    pub pump_fun: Option<Address>,
}

/// What `Detector::process` returns, as a function of the detector, the
/// notification and the slot: the first matching identity wins, in the fixed
/// priority order AMM, then CLMM, then bonding curve.
pub open spec fn spec_process(d: Detector, n: Notification, slot: u64) -> Option<LaunchEvent> {
    if identity_matches(d.raydium_amm, n) {
        Option::Some(event_for(LaunchKind::RaydiumAMM, n, slot))
    } else if identity_matches(d.raydium_clmm, n) {
        Option::Some(event_for(LaunchKind::RaydiumCLMM, n, slot))
    } else if identity_matches(d.pump_fun, n) {
        Option::Some(event_for(LaunchKind::PumpFun, n, slot))
    } else {
        Option::None
    }
}

impl Detector {
    /// Decode the configured identity texts; an absent or unparsable text
    /// leaves that identity unconfigured.
    pub fn new(raydium_amm: Option<&str>, raydium_clmm: Option<&str>, pump_fun: Option<&str>) -> (d: Detector)
        ensures
            crate::addr::addr_opt_bytes(d.raydium_amm) == spec_parsed_identity(raydium_amm),
            crate::addr::addr_opt_bytes(d.raydium_clmm) == spec_parsed_identity(raydium_clmm),
            crate::addr::addr_opt_bytes(d.pump_fun) == spec_parsed_identity(pump_fun),
            crate::addr::addr_opt_wf(d.raydium_amm),
            crate::addr::addr_opt_wf(d.raydium_clmm),
            crate::addr::addr_opt_wf(d.pump_fun),
    {
        Detector {
            raydium_amm: Self::parse_identity(raydium_amm),
            raydium_clmm: Self::parse_identity(raydium_clmm),
            pump_fun: Self::parse_identity(pump_fun),
        }
    }

    fn parse_identity(text: Option<&str>) -> (r: Option<Address>)
        ensures
            crate::addr::addr_opt_bytes(r) == spec_parsed_identity(text),
            crate::addr::addr_opt_wf(r),
    {
        match text {
            Option::Some(s) => Address::parse(s),
            Option::None => Option::None,
        }
    }

    /// Classify one notification at the given slot. Pure: the result is
    /// exactly `spec_process` of the inputs; no retries, no side effects.
    pub fn process(&self, notif: &Notification, slot: u64) -> (r: Option<LaunchEvent>)
        ensures
            r == spec_process(*self, *notif, slot),
    {
        let has_marker = logs_contain_marker(&notif.logs);
        if let Option::Some(a) = &self.raydium_amm {
            if Self::is_attributed(a, notif) && has_marker {
                return Option::Some(Self::make_event(LaunchKind::RaydiumAMM, notif, slot));
            }
        }
        if let Option::Some(a) = &self.raydium_clmm {
            if Self::is_attributed(a, notif) && has_marker {
                return Option::Some(Self::make_event(LaunchKind::RaydiumCLMM, notif, slot));
            }
        }
        if let Option::Some(a) = &self.pump_fun {
            if Self::is_attributed(a, notif) && has_marker {
                return Option::Some(Self::make_event(LaunchKind::PumpFun, notif, slot));
            }
        }
        Option::None
    }

    fn is_attributed(a: &Address, n: &Notification) -> (r: bool)
        ensures
            r == attributable(Option::Some(*a), *n),
    {
        match &n.mentions {
            Option::Some(ms) => mentions_contain(ms, a),
            Option::None => true,
        }
    }

    fn make_event(kind: LaunchKind, n: &Notification, slot: u64) -> (e: LaunchEvent)
        ensures
            e == event_for(kind, *n, slot),
    {
        LaunchEvent {
            kind: kind,
            signature: n.signature.clone(),
            token_mint: Option::None,
            base_is_sol: true,
            detected_at_slot: slot,
        }
    }
}

/// Law: a notification whose mentioned accounts include the configured
/// AMM-family address and whose log text contains the initialization marker
/// is classified as an AMM launch carrying the notification's signature and
/// slot.
pub proof fn lemma_amm_detection(d: Detector, n: Notification, slot: u64)
    requires
        d.raydium_amm matches Some(a) && n.mentions matches Some(ms) && mentions_include(ms@, a),
        logs_have_marker(n.logs@),
    ensures
        spec_process(d, n, slot) matches Some(e) && e == (LaunchEvent {
            kind: LaunchKind::RaydiumAMM,
            signature: n.signature,
            token_mint: Option::None,
            base_is_sol: true,
            detected_at_slot: slot,
        }),
{
}

/// Law: a notification attributable to no configured identity, or one whose
/// log text lacks the initialization marker, is classified as no launch.
pub proof fn lemma_no_match(d: Detector, n: Notification, slot: u64)
    requires
        (!attributable(d.raydium_amm, n) && !attributable(d.raydium_clmm, n) && !attributable(
            d.pump_fun,
            n,
        )) || !logs_have_marker(n.logs@),
    ensures
        spec_process(d, n, slot) is None,
{
}

/// Law: classification is mutually exclusive, first match wins over the
/// fixed priority order AMM, CLMM, bonding curve: a CLMM event rules out an
/// AMM match, and a bonding-curve event rules out both.
pub proof fn lemma_first_match_wins(d: Detector, n: Notification, slot: u64)
    ensures
        spec_process(d, n, slot) matches Some(e) && e.kind == LaunchKind::RaydiumAMM ==> identity_matches(
            d.raydium_amm,
            n,
        ),
        spec_process(d, n, slot) matches Some(e) && e.kind == LaunchKind::RaydiumCLMM ==> identity_matches(
            d.raydium_clmm,
            n,
        ) && !identity_matches(d.raydium_amm, n),
        spec_process(d, n, slot) matches Some(e) && e.kind == LaunchKind::PumpFun ==> identity_matches(
            d.pump_fun,
            n,
        ) && !identity_matches(d.raydium_amm, n) && !identity_matches(d.raydium_clmm, n),
{
}

} // verus!
