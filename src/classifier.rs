use vstd::prelude::*;

use crate::action::Action;
use crate::headers::{
    eth_hdr_len, ether_type_ipv4, ether_type_of, ip_proto_icmp, ip_proto_of, ipv4_hdr_len,
    parse_headers, Ipv4Header, Parsed,
};

verus! {

/// The identity of a classifier instance: where in the chain it is meant to run.
#[derive(Clone, Copy, Debug, PartialEq, Eq, Structural)]
pub enum Stage {
    First,
    Last,
}

impl Stage {
    /// The tag that this instance writes on its diagnostic records.
    pub fn label(&self) -> (r: &'static str)
        ensures
            *self == Stage::First ==> r@ == "first"@,
            *self == Stage::Last ==> r@ == "last"@,
    {
        match self {
            Stage::First => "first",
            Stage::Last => "last",
        }
    }

    /// The name under which this instance's entry point is found in the
    /// loaded bytecode.
    pub fn program_name(&self) -> (r: &'static str)
        ensures
            *self == Stage::First ==> r@ == "tcxtestfirst"@,
            *self == Stage::Last ==> r@ == "tcxtestlast"@,
    {
        match self {
            Stage::First => "tcxtestfirst",
            Stage::Last => "tcxtestlast",
        }
    }
}

/// What one invocation of a classifier instance produces: the action for
/// the hook, and the diagnostic record it emits, if any (tagged with the
/// instance's identity).
#[derive(Clone, Copy, Debug, PartialEq, Eq)]
pub struct Verdict {
    pub action: Action,
    pub record: Option<Stage>,
}

/// Whether a buffer is an Ethernet frame that holds a whole IPv4 header
/// whose protocol is ICMP.
pub open spec fn is_icmp_ipv4(p: Seq<u8>) -> bool {
    &&& p.len() >= eth_hdr_len() + ipv4_hdr_len()
    &&& ether_type_of(p) == ether_type_ipv4()
    &&& ip_proto_of(p) == ip_proto_icmp()
}

/// What an instance with identity `stage` produces on the buffer `p`:
/// continue and emit one record on an ICMP over IPv4 frame, pass silently on
/// anything else.
pub open spec fn verdict_spec(stage: Stage, p: Seq<u8>) -> Verdict {
    if is_icmp_ipv4(p) {
        Verdict { action: Action::Next, record: Some(stage) }
    } else {
        Verdict { action: Action::Pass, record: None }
    }
}

/// The decision on a parsed IPv4 header: continue the chain on ICMP, pass
/// on every other protocol.
pub fn decide(h: &Ipv4Header) -> (r: Action)
    ensures
        r == (if h.proto == ip_proto_icmp() { Action::Next } else { Action::Pass }),
{
    if h.is_icmp() {
        Action::Next
    } else {
        Action::Pass
    }
}

/// One invocation under identity `stage`, with a short buffer reported as
/// `Err` with the pass code rather than folded into a pass.
pub fn try_classify(stage: Stage, buf: &[u8]) -> (r: Result<Verdict, i64>)
    ensures
        r is Err <==> buf@.len() < eth_hdr_len() || (ether_type_of(buf@) == ether_type_ipv4()
            && buf@.len() < eth_hdr_len() + ipv4_hdr_len()),
        r matches Err(e) ==> e == 0,
        r matches Ok(v) ==> v == verdict_spec(stage, buf@),
{
    match parse_headers(buf)? {
        Parsed::Ipv4(h) => {
            match decide(&h) {
                Action::Next => Ok(Verdict { action: Action::Next, record: Some(stage) }),
                Action::Pass => Ok(Verdict { action: Action::Pass, record: None }),
            }
        },
        Parsed::NotApplicable => Ok(Verdict { action: Action::Pass, record: None }),
    }
}

/// One invocation under identity `stage`: any failure to parse is a pass.
pub fn classify(stage: Stage, buf: &[u8]) -> (r: Verdict)
    ensures
        r == verdict_spec(stage, buf@),
{
    match try_classify(stage, buf) {
        Ok(v) => v,
        Err(_) => Verdict { action: Action::Pass, record: None },
    }
}

/// The instance "first", with errors kept apart.
pub fn try_tcxtestfirst(buf: &[u8]) -> (r: Result<Verdict, i64>)
    ensures
        r is Err <==> buf@.len() < eth_hdr_len() || (ether_type_of(buf@) == ether_type_ipv4()
            && buf@.len() < eth_hdr_len() + ipv4_hdr_len()),
        r matches Err(e) ==> e == 0,
        r matches Ok(v) ==> v == verdict_spec(Stage::First, buf@),
{
    try_classify(Stage::First, buf)
}

/// The instance "last", with errors kept apart.
pub fn try_tcxtestlast(buf: &[u8]) -> (r: Result<Verdict, i64>)
    ensures
        r is Err <==> buf@.len() < eth_hdr_len() || (ether_type_of(buf@) == ether_type_ipv4()
            && buf@.len() < eth_hdr_len() + ipv4_hdr_len()),
        r matches Err(e) ==> e == 0,
        r matches Ok(v) ==> v == verdict_spec(Stage::Last, buf@),
{
    try_classify(Stage::Last, buf)
}

/// Entry point of the instance "first", run once per ingress packet.
pub fn tcxtestfirst(buf: &[u8]) -> (r: Verdict)
    ensures
        r == verdict_spec(Stage::First, buf@),
{
    classify(Stage::First, buf)
}

/// Entry point of the instance "last", run once per ingress packet.
pub fn tcxtestlast(buf: &[u8]) -> (r: Verdict)
    ensures
        r == verdict_spec(Stage::Last, buf@),
{
    classify(Stage::Last, buf)
}

/// A buffer too short for the Ethernet header is passed, with no record.
pub proof fn lemma_short_buffer_passes(stage: Stage, p: Seq<u8>)
    requires
        p.len() < eth_hdr_len(),
    ensures
        verdict_spec(stage, p) == (Verdict { action: Action::Pass, record: None }),
{
}

/// A frame whose EtherType is not IPv4 is passed, with no record, whatever
/// else it holds.
pub proof fn lemma_non_ipv4_passes(stage: Stage, p: Seq<u8>)
    requires
        p.len() >= eth_hdr_len(),
        ether_type_of(p) != ether_type_ipv4(),
    ensures
        verdict_spec(stage, p) == (Verdict { action: Action::Pass, record: None }),
{
}

/// A whole Ethernet and IPv4 frame with protocol ICMP makes the instance
/// continue the chain and emit exactly one record, tagged with its identity.
pub proof fn lemma_icmp_continues(stage: Stage, p: Seq<u8>)
    requires
        p.len() >= eth_hdr_len() + ipv4_hdr_len(),
        ether_type_of(p) == ether_type_ipv4(),
        ip_proto_of(p) == ip_proto_icmp(),
    ensures
        verdict_spec(stage, p) == (Verdict { action: Action::Next, record: Some(stage) }),
{
}

/// A whole Ethernet and IPv4 frame with any protocol but ICMP is passed,
/// with no record.
pub proof fn lemma_other_protocol_passes(stage: Stage, p: Seq<u8>)
    requires
        p.len() >= eth_hdr_len() + ipv4_hdr_len(),
        ether_type_of(p) == ether_type_ipv4(),
        ip_proto_of(p) != ip_proto_icmp(),
    ensures
        verdict_spec(stage, p) == (Verdict { action: Action::Pass, record: None }),
{
}

/// An instance keeps no state: two invocations on equal buffers give the
/// same action and the same record.
pub proof fn lemma_invocation_repeatable(stage: Stage, p: Seq<u8>, q: Seq<u8>)
    requires
        p == q,
    ensures
        verdict_spec(stage, p) == verdict_spec(stage, q),
{
}

} // verus!
