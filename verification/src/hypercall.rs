//! The register convention of hypercalls.
use vstd::prelude::*;

use crate::context::{ZoneContext, REG_A0, REG_A1, REG_A2};

verus! {

/// The hypercall a guest makes: its code (`a0`) and two arguments (`a1`,
/// `a2`).
pub fn hvc_arguments(ctx: &ZoneContext) -> (r: (u64, u64, u64))
    ensures
        r == (ctx.x@[REG_A0 as int], ctx.x@[REG_A1 as int], ctx.x@[REG_A2 as int]),
{
    let code = ctx.get_a0();
    let arg0 = ctx.get_a1();
    let arg1 = ctx.get_a2();
    (code, arg0, arg1)
}

/// The value a hypercall's outcome hands back in `a0`: its result, or its
/// (negative) error code as a two's complement word.
pub open spec fn hvc_return_value(outcome: Result<u64, i64>) -> u64 {
    match outcome {
        Ok(ret) => ret,
        Err(code) => code as u64,
    }
}

/// Completes a hypercall with `outcome`: `a0` receives its value and the
/// guest resumes after the `hvcl` instruction.
pub fn handle_hvc(ctx: &mut ZoneContext, outcome: Result<u64, i64>)
    requires
        old(ctx).sepc + 4 <= u64::MAX,
    ensures
        final(ctx).x@ == old(ctx).x@.update(REG_A0 as int, hvc_return_value(outcome)),
        final(ctx).sepc == old(ctx).sepc + 4,
        *final(ctx) == (ZoneContext { x: final(ctx).x, sepc: final(ctx).sepc, ..*old(ctx) }),
{
    let res: u64 = match outcome {
        Ok(ret) => ret,
        Err(code) => #[verifier::truncate] (code as u64),
    };
    ctx.set_a0(res);
    ctx.sepc = ctx.sepc + 4;
}

} // verus!
