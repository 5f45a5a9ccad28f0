use vstd::prelude::*;

use crate::action::Action;
use crate::classifier::{classify, is_icmp_ipv4, verdict_spec, Stage};

verus! {

/// Where an attachment goes among the programs already on the hook.
#[derive(Clone, Copy, Debug, PartialEq, Eq, Structural)]
pub enum AttachOrder {
    /// Ahead of every program attached so far.
    First,
    /// Behind every program attached so far.
    Last,
}

/// One attach call: which instance, and in which order.
#[derive(Clone, Copy, Debug, PartialEq, Eq, Structural)]
pub struct Attachment {
    pub stage: Stage,
    pub order: AttachOrder,
}

/// The chain after attaching `a` to `chain`.
pub open spec fn attach_spec(chain: Seq<Stage>, a: Attachment) -> Seq<Stage> {
    match a.order {
        AttachOrder::First => seq![a.stage] + chain,
        AttachOrder::Last => chain.push(a.stage),
    }
}

/// The chain that results from issuing the attach calls of `plan` in turn
/// on an empty hook.
pub open spec fn chain_of(plan: Seq<Attachment>) -> Seq<Stage>
    decreases plan.len(),
{
    if plan.len() == 0 {
        seq![]
    } else {
        attach_spec(chain_of(plan.drop_last()), plan.last())
    }
}

/// The attach calls the control plane issues: "first" with order First,
/// "last" with order Last.
pub open spec fn planned() -> Seq<Attachment> {
    seq![
        Attachment { stage: Stage::First, order: AttachOrder::First },
        Attachment { stage: Stage::Last, order: AttachOrder::Last },
    ]
}

/// The records emitted when a packet `p` walks `chain` from position `i`:
/// each instance runs in turn, and a pass ends the walk.
pub open spec fn records_from(chain: Seq<Stage>, i: int, p: Seq<u8>) -> Seq<Stage>
    decreases chain.len() - i,
{
    if i < 0 || i >= chain.len() {
        seq![]
    } else {
        let v = verdict_spec(chain[i], p);
        let here = match v.record {
            Some(s) => seq![s],
            None => seq![],
        };
        if v.action == Action::Next {
            here + records_from(chain, i + 1, p)
        } else {
            here
        }
    }
}

/// The attach calls for the two classifier instances, each with its order.
pub fn attach_plan() -> (r: Vec<Attachment>)
    ensures
        r@ == planned(),
{
    let mut r: Vec<Attachment> = Vec::new();
    r.push(Attachment { stage: Stage::First, order: AttachOrder::First });
    r.push(Attachment { stage: Stage::Last, order: AttachOrder::Last });
    assert(r@ =~= planned());
    r
}

/// The chain that the attach calls of `plan` build, front to back.
pub fn chain_from_plan(plan: &[Attachment]) -> (r: Vec<Stage>)
    ensures
        r@ == chain_of(plan@),
{
    let mut chain: Vec<Stage> = Vec::new();
    let mut i: usize = 0;
    while i < plan.len()
        invariant
            0 <= i <= plan@.len(),
            chain@ == chain_of(plan@.subrange(0, i as int)),
        decreases plan@.len() - i,
    {
        let a = plan[i];
        proof {
            assert(plan@.subrange(0, i + 1).drop_last() =~= plan@.subrange(0, i as int));
        }
        match a.order {
            AttachOrder::First => {
                chain.insert(0, a.stage);
                assert(chain@ =~= attach_spec(chain_of(plan@.subrange(0, i as int)), a));
            },
            AttachOrder::Last => {
                chain.push(a.stage);
            },
        }
        i = i + 1;
    }
    assert(plan@.subrange(0, i as int) =~= plan@);
    chain
}

/// Walks `buf` through `chain` as the hook does, and returns the records
/// emitted, in order.
pub fn run_chain(chain: &[Stage], buf: &[u8]) -> (r: Vec<Stage>)
    ensures
        r@ == records_from(chain@, 0, buf@),
{
    let mut out: Vec<Stage> = Vec::new();
    let mut i: usize = 0;
    let mut going = true;
    while going && i < chain.len()
        invariant
            0 <= i <= chain@.len(),
            going ==> out@ + records_from(chain@, i as int, buf@) == records_from(chain@, 0, buf@),
            !going ==> out@ == records_from(chain@, 0, buf@),
        decreases chain@.len() - i,
    {
        let v = classify(chain[i], buf);
        let ghost before = out@;
        match v.record {
            Some(s) => out.push(s),
            None => {},
        }
        if v.action == Action::Pass {
            going = false;
            assert(out@ =~= before + records_from(chain@, i as int, buf@));
        } else {
            assert(out@ + records_from(chain@, i + 1, buf@) =~= before + records_from(
                chain@,
                i as int,
                buf@,
            ));
        }
        i = i + 1;
    }
    if going {
        assert(out@ + records_from(chain@, i as int, buf@) =~= out@);
    }
    out
}

/// With "first" attached at order First and "last" at order Last, in either
/// call order, the chain runs "first" then "last": an ICMP frame gets a
/// record from both, first then last; any other buffer gets none, since
/// "first" ends the walk.
pub proof fn lemma_chain_order(plan: Seq<Attachment>, p: Seq<u8>)
    requires
        plan == planned() || plan == seq![planned()[1], planned()[0]],
    ensures
        chain_of(plan) == seq![Stage::First, Stage::Last],
        records_from(chain_of(plan), 0, p) == (if is_icmp_ipv4(p) {
            seq![Stage::First, Stage::Last]
        } else {
            seq![]
        }),
{
    reveal_with_fuel(chain_of, 3);
    assert(plan.drop_last().drop_last() =~= seq![]);
    assert(chain_of(plan) =~= seq![Stage::First, Stage::Last]);
    let c = seq![Stage::First, Stage::Last];
    reveal_with_fuel(records_from, 3);
    if is_icmp_ipv4(p) {
        assert(records_from(c, 0, p) =~= seq![Stage::First, Stage::Last]);
    } else {
        assert(records_from(c, 0, p) =~= seq![]);
    }
}

} // verus!
