//! Token budgeting: from an estimate of the context already consumed,
//! compute a safe ceiling for the next response's output tokens.

use vstd::prelude::*;

verus! {

/// Total context window assumed for the model, in tokens.
pub const MAX_CONTEXT: usize = 200000;

/// Floor for the output-token ceiling: never ask for less than this.
pub const MIN_OUTPUT_TOKENS: u32 = 4000;

/// The output ceiling as a mathematical function: two fifths of the
/// context space left, clamped between the floor of 4000 and the
/// configured maximum.
pub open spec fn output_ceiling(context_tokens: int, configured_max: int) -> int {
    let available = if context_tokens >= 200000 {
        0int
    } else {
        200000 - context_tokens
    };
    let candidate = (available * 2) / 5;
    let floored = if candidate < 4000 {
        4000int
    } else {
        candidate
    };
    if floored > configured_max {
        configured_max
    } else {
        floored
    }
}

/// Compute the output-token ceiling for the next model call from the
/// estimated size of the conversation so far.
///
/// The result is exactly `output_ceiling`: 40% of the remaining window,
/// at least 4000, and never above the configured maximum.
pub fn calculate_max_tokens(context_tokens: usize, max_configured: u32) -> (r: u32)
    ensures
        r == output_ceiling(context_tokens as int, max_configured as int),
{
    let available: usize = if context_tokens >= MAX_CONTEXT {
        0
    } else {
        MAX_CONTEXT - context_tokens
    };
    let candidate: usize = available * 2 / 5;
    let mut out: u32 = candidate as u32;
    if out < MIN_OUTPUT_TOKENS {
        out = MIN_OUTPUT_TOKENS;
    }
    if out > max_configured {
        out = max_configured;
    }
    out
}

} // verus!
