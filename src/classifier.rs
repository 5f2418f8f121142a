use vstd::prelude::*;

use crate::verdict::{is_verdict, TC_ACT_OK};

verus! {

/// What the classifier can see of one packet: its length and the index of
/// the interface it arrived on.
#[derive(Clone, Copy, Debug, PartialEq, Eq, Structural)]
pub struct PacketContext {
    pub len: u32,
    pub ifindex: u32,
}

/// The filtering policy: every packet continues through the pipeline.
pub open spec fn policy(ctx: PacketContext) -> i32 {
    TC_ACT_OK
}

/// The fallible part of the classifier. An `Err` carries the verdict to use
/// in place of the failed decision.
pub fn try_tcfw(ctx: &PacketContext) -> (r: Result<i32, i32>)
    ensures
        r == Ok::<i32, i32>(policy(*ctx)),
{
    Ok(TC_ACT_OK)
}

/// The classifier's entry point, run once per packet on the ingress hook.
/// Any failure inside collapses to the verdict the failure carries, so the
/// program never aborts, and the verdict is always a code of the hook.
pub fn tcfw(ctx: &PacketContext) -> (v: i32)
    ensures
        v == policy(*ctx),
        is_verdict(v),
{
    match try_tcfw(ctx) {
        Ok(ret) => ret,
        Err(ret) => ret,
    }
}

} // verus!
