use vstd::prelude::*;

verus! {

/// Use the default action configured for the classifier.
pub const TC_ACT_UNSPEC: i32 = -1;

/// Let the packet continue through the pipeline.
pub const TC_ACT_OK: i32 = 0;

/// Restart classification from the first filter.
pub const TC_ACT_RECLASSIFY: i32 = 1;

/// Drop the packet.
pub const TC_ACT_SHOT: i32 = 2;

/// Continue with the next action of the chain.
pub const TC_ACT_PIPE: i32 = 3;

/// The packet was consumed by the program.
pub const TC_ACT_STOLEN: i32 = 4;

/// The packet was queued for later processing.
pub const TC_ACT_QUEUED: i32 = 5;

/// Run the action chain again.
pub const TC_ACT_REPEAT: i32 = 6;

/// Hand the packet to another device.
pub const TC_ACT_REDIRECT: i32 = 7;

/// Hand the packet up the stack regardless of other decisions.
pub const TC_ACT_TRAP: i32 = 8;

/// The code space of the TC classifier hook: every value it defines an
/// action for.
pub open spec fn is_verdict(v: i32) -> bool {
    TC_ACT_UNSPEC <= v <= TC_ACT_TRAP
}

/// Whether `v` is one of the codes that the TC hook understands.
pub fn valid_verdict(v: i32) -> (r: bool)
    ensures
        r == is_verdict(v),
{
    TC_ACT_UNSPEC <= v && v <= TC_ACT_TRAP
}

} // verus!
