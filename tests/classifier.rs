use tcxtest::accessor::ptr_at;
use tcxtest::action::Action;
use tcxtest::chain::{attach_plan, chain_from_plan, run_chain, AttachOrder, Attachment};
use tcxtest::classifier::{
    classify, decide, tcxtestfirst, tcxtestlast, try_tcxtestfirst, try_tcxtestlast, Stage,
    Verdict,
};
use tcxtest::headers::{parse_headers, EthHeader, Ipv4Header, Parsed};

fn frame(ether_type: u16, proto: u8, len: usize) -> Vec<u8> {
    let mut b = vec![0u8; len];
    for (i, x) in b.iter_mut().enumerate() {
        *x = (i as u8).wrapping_mul(7).wrapping_add(3);
    }
    if len >= 14 {
        b[12] = (ether_type >> 8) as u8;
        b[13] = (ether_type & 0xff) as u8;
    }
    if len >= 24 {
        b[23] = proto;
    }
    b
}

const PASS: Verdict = Verdict { action: Action::Pass, record: None };

#[test]
fn accessor_gives_the_requested_range() {
    let b: Vec<u8> = (0u8..40).collect();
    assert_eq!(ptr_at(&b, 14, 20), Ok(&b[14..34]));
    assert_eq!(ptr_at(&b, 0, 40), Ok(&b[..]));
    assert_eq!(ptr_at(&b, 40, 0), Ok(&b[40..40]));
}

#[test]
fn accessor_refuses_a_range_past_the_end() {
    let b: Vec<u8> = (0u8..40).collect();
    assert_eq!(ptr_at(&b, 21, 20), Err(0));
    assert_eq!(ptr_at(&b, 41, 0), Err(0));
    assert_eq!(ptr_at(&b, usize::MAX, 2), Err(0));
    assert_eq!(ptr_at(&b, 2, usize::MAX), Err(0));
    assert_eq!(ptr_at(&[], 0, 14), Err(0));
}

#[test]
fn action_codes_are_the_tcx_codes() {
    assert_eq!(Action::Pass.code(), 0);
    assert_eq!(Action::Next.code(), -1);
}

#[test]
fn ethernet_header_reads_the_tag_in_network_order() {
    let b = frame(0x0800, 1, 14);
    let h = EthHeader::from_bytes(&b);
    assert_eq!(h.ether_type, 0x0800);
    assert!(h.is_ipv4());
    let h6 = EthHeader::from_bytes(&frame(0x86DD, 1, 14));
    assert_eq!(h6.ether_type, 0x86DD);
    assert!(!h6.is_ipv4());
    assert!(!EthHeader { ether_type: 0x0008 }.is_ipv4());
}

#[test]
fn ipv4_header_reads_the_protocol() {
    let b = frame(0x0800, 17, 34);
    let h = Ipv4Header::from_bytes(&b[14..34]);
    assert_eq!(h.proto, 17);
    assert!(!h.is_icmp());
    assert!(Ipv4Header { proto: 1 }.is_icmp());
}

#[test]
fn parse_follows_the_tag() {
    assert_eq!(parse_headers(&frame(0x0800, 6, 34)), Ok(Parsed::Ipv4(Ipv4Header { proto: 6 })));
    assert_eq!(parse_headers(&frame(0x0806, 6, 60)), Ok(Parsed::NotApplicable));
    assert_eq!(parse_headers(&frame(0x0806, 6, 14)), Ok(Parsed::NotApplicable));
    assert_eq!(parse_headers(&frame(0x0800, 6, 33)), Err(0));
    assert_eq!(parse_headers(&frame(0x0800, 6, 13)), Err(0));
}

#[test]
fn decision_continues_only_on_icmp() {
    assert_eq!(decide(&Ipv4Header { proto: 1 }), Action::Next);
    assert_eq!(decide(&Ipv4Header { proto: 0 }), Action::Pass);
    assert_eq!(decide(&Ipv4Header { proto: 6 }), Action::Pass);
    assert_eq!(decide(&Ipv4Header { proto: 17 }), Action::Pass);
    assert_eq!(decide(&Ipv4Header { proto: 255 }), Action::Pass);
}

#[test]
fn short_buffers_pass() {
    for len in 0..14 {
        let b = frame(0x0800, 1, len);
        assert_eq!(tcxtestfirst(&b), PASS);
        assert_eq!(tcxtestlast(&b), PASS);
        assert_eq!(try_tcxtestfirst(&b), Err(0));
    }
}

#[test]
fn non_ipv4_frames_pass() {
    for tag in [0x86DDu16, 0x0806, 0x0008, 0x0060, 0xffff] {
        let b = frame(tag, 1, 64);
        assert_eq!(tcxtestfirst(&b), PASS);
        assert_eq!(tcxtestlast(&b), PASS);
        assert_eq!(try_tcxtestlast(&b), Ok(PASS));
    }
}

#[test]
fn truncated_ipv4_header_passes() {
    let b = frame(0x0800, 1, 33);
    assert_eq!(tcxtestfirst(&b), PASS);
    assert_eq!(try_tcxtestfirst(&b), Err(0));
    assert_eq!(try_tcxtestlast(&b), Err(0));
}

#[test]
fn icmp_continues_with_one_record() {
    for len in [34usize, 98, 1500] {
        let b = frame(0x0800, 1, len);
        assert_eq!(tcxtestfirst(&b), Verdict { action: Action::Next, record: Some(Stage::First) });
        assert_eq!(tcxtestlast(&b), Verdict { action: Action::Next, record: Some(Stage::Last) });
        assert_eq!(tcxtestfirst(&b).action.code(), -1);
    }
}

#[test]
fn other_protocols_pass_silently() {
    for proto in [6u8, 17, 0, 2, 58] {
        let b = frame(0x0800, proto, 60);
        assert_eq!(tcxtestfirst(&b), PASS);
        assert_eq!(tcxtestlast(&b), PASS);
        assert_eq!(classify(Stage::Last, &b).action.code(), 0);
    }
}

#[test]
fn invocation_is_repeatable() {
    for b in [frame(0x0800, 1, 40), frame(0x0800, 6, 40), frame(0x86DD, 1, 40), frame(0, 0, 5)] {
        let copy = b.clone();
        assert_eq!(tcxtestfirst(&b), tcxtestfirst(&copy));
        assert_eq!(tcxtestfirst(&b), tcxtestfirst(&b));
        assert_eq!(tcxtestlast(&b), tcxtestlast(&b));
    }
}

#[test]
fn stage_names() {
    assert_eq!(Stage::First.label(), "first");
    assert_eq!(Stage::Last.label(), "last");
    assert_eq!(Stage::First.program_name(), "tcxtestfirst");
    assert_eq!(Stage::Last.program_name(), "tcxtestlast");
}

#[test]
fn plan_attaches_first_first_and_last_last() {
    assert_eq!(
        attach_plan(),
        vec![
            Attachment { stage: Stage::First, order: AttachOrder::First },
            Attachment { stage: Stage::Last, order: AttachOrder::Last },
        ]
    );
}

#[test]
fn chain_order_does_not_depend_on_call_order() {
    let plan = attach_plan();
    assert_eq!(chain_from_plan(&plan), vec![Stage::First, Stage::Last]);
    let reversed = vec![plan[1], plan[0]];
    assert_eq!(chain_from_plan(&reversed), vec![Stage::First, Stage::Last]);
    let firsts = vec![
        Attachment { stage: Stage::Last, order: AttachOrder::First },
        Attachment { stage: Stage::First, order: AttachOrder::First },
    ];
    assert_eq!(chain_from_plan(&firsts), vec![Stage::First, Stage::Last]);
    assert_eq!(chain_from_plan(&[]), Vec::<Stage>::new());
}

#[test]
fn icmp_walks_the_whole_chain_in_order() {
    let chain = chain_from_plan(&attach_plan());
    assert_eq!(run_chain(&chain, &frame(0x0800, 1, 64)), vec![Stage::First, Stage::Last]);
}

#[test]
fn other_packets_stop_at_first() {
    let chain = chain_from_plan(&attach_plan());
    assert_eq!(run_chain(&chain, &frame(0x0800, 6, 64)), Vec::<Stage>::new());
    assert_eq!(run_chain(&chain, &frame(0x0800, 17, 64)), Vec::<Stage>::new());
    assert_eq!(run_chain(&chain, &frame(0x86DD, 1, 64)), Vec::<Stage>::new());
    assert_eq!(run_chain(&chain, &frame(0x0800, 1, 10)), Vec::<Stage>::new());
    assert_eq!(run_chain(&[], &frame(0x0800, 1, 64)), Vec::<Stage>::new());
}
