use vstd::prelude::*;

verus! {

/// Relies on aya_ebpf's `tcx_action_base::TCX_PASS`: the tcx code that ends
/// the chain and lets the packet through, 0.
#[verifier::external_body]
pub(crate) fn tcx_pass() -> (r: i32)
    ensures
        r == 0,
{
    aya_ebpf::bindings::tcx_action_base::TCX_PASS
}

/// Relies on aya_ebpf's `tcx_action_base::TCX_NEXT`: the tcx code that hands
/// the packet on to the next program of the chain, -1.
#[verifier::external_body]
pub(crate) fn tcx_next() -> (r: i32)
    ensures
        r == -1,
{
    aya_ebpf::bindings::tcx_action_base::TCX_NEXT
}

/// The outcome of one classifier invocation, as the hook sees it.
#[derive(Clone, Copy, Debug, PartialEq, Eq, Structural)]
pub enum Action {
    /// End the chain and let the packet through.
    Pass,
    /// Continue with the next classifier of the chain.
    Next,
}

/// The numeric code of an action in the hook's own encoding.
pub open spec fn action_code(a: Action) -> int {
    match a {
        Action::Pass => 0,
        Action::Next => -1,
    }
}

impl Action {
    /// The code that the hook receives for this action.
    pub fn code(&self) -> (r: i32)
        ensures
            r == action_code(*self),
    {
        match self {
            Action::Pass => tcx_pass(),
            Action::Next => tcx_next(),
        }
    }
}

} // verus!
