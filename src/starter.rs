//! The starter strategy: the constant-product curve `x * y = k` with a flat 5% fee
//! taken from the input.
use vstd::prelude::*;

use vstd::arithmetic::div_mod::{
    lemma_div_is_ordered, lemma_div_is_ordered_by_denominator, lemma_hoist_over_denominator,
};

use crate::pool::SwapStrategy;
use crate::sdk::STORAGE_SIZE;
use crate::wire::{parse_swap_request, SwapRequest};

verus! {

/// Parts per thousand of the input that reach the curve.
pub const NET_PER_MILLE: u64 = 950;

/// `k / d` rounded up.
pub open spec fn ceil_div(k: int, d: int) -> int {
    (k + d - 1) / d
}

/// The part of `input` that reaches the curve, rounded down.
pub open spec fn net_input(input: u64) -> int {
    input * NET_PER_MILLE / 1000
}

/// What the curve pays out of `r_out` for `input` paid into `r_in`: the reserve
/// less the smallest reserve that keeps the product, with zero as a floor.
pub open spec fn curve_out(r_out: u64, r_in: u64, input: u64) -> u64 {
    let c = ceil_div(r_out * r_in, r_in + net_input(input));
    if c <= r_out {
        (r_out - c) as u64
    } else {
        0
    }
}

/// The starter's quote: nothing from an empty reserve or an unknown side; buying X
/// pays out of X for Y paid in; selling X the reverse.
pub open spec fn starter_out(side: u8, input: u64, rx: u64, ry: u64) -> u64 {
    if rx == 0 || ry == 0 {
        0
    } else if side == 0 {
        curve_out(rx, ry, input)
    } else if side == 1 {
        curve_out(ry, rx, input)
    } else {
        0
    }
}

/// The starter's quote for an encoded request: zero for one shorter than 25 bytes.
pub open spec fn starter_quote(request: Seq<u8>) -> u64 {
    match parse_swap_request(request) {
        Some(q) => starter_out(q.side, q.input_amount, q.reserve_x, q.reserve_y),
        None => 0,
    }
}

fn curve_out_exec(r_out: u64, r_in: u64, input: u64) -> (r: u64)
    requires
        r_out > 0,
        r_in > 0,
    ensures
        r == curve_out(r_out, r_in, input),
{
    proof {
        assert((r_out as int) * (r_in as int) <= 0xffff_ffff_ffff_ffffint * 0xffff_ffff_ffff_ffffint)
            by (nonlinear_arith)
            requires
                r_out <= 0xffff_ffff_ffff_ffffu64,
                r_in <= 0xffff_ffff_ffff_ffffu64,
        ;
        assert((input as int) * 950 <= 0xffff_ffff_ffff_ffffint * 950) by (nonlinear_arith)
            requires
                input <= 0xffff_ffff_ffff_ffffu64,
        ;
    }
    let k: u128 = (r_out as u128) * (r_in as u128);
    let net: u128 = (input as u128) * (NET_PER_MILLE as u128) / 1000;
    let d: u128 = r_in as u128 + net;
    let c: u128 = (k + d - 1) / d;
    if c <= r_out as u128 {
        (r_out as u128 - c) as u64
    } else {
        0
    }
}

/// The starter's quote for trading `input` on `side` against reserves `(rx, ry)`.
pub fn starter_swap(side: u8, input: u64, rx: u64, ry: u64) -> (r: u64)
    ensures
        r == starter_out(side, input, rx, ry),
{
    if rx == 0 || ry == 0 {
        0
    } else if side == 0 {
        curve_out_exec(rx, ry, input)
    } else if side == 1 {
        curve_out_exec(ry, rx, input)
    } else {
        0
    }
}

proof fn lemma_curve_monotone(r_out: u64, r_in: u64, a: u64, b: u64)
    requires
        r_out > 0,
        r_in > 0,
        a <= b,
    ensures
        curve_out(r_out, r_in, a) <= curve_out(r_out, r_in, b),
{
    let k = r_out * r_in;
    assert(k >= 1) by (nonlinear_arith)
        requires
            r_out > 0,
            r_in > 0,
            k == r_out * r_in,
    ;
    assert(a * NET_PER_MILLE <= b * NET_PER_MILLE) by (nonlinear_arith)
        requires
            a <= b,
    ;
    lemma_div_is_ordered(a * NET_PER_MILLE, b * NET_PER_MILLE, 1000);
    let da = r_in + net_input(a);
    let db = r_in + net_input(b);
    assert(0 <= net_input(a)) by (nonlinear_arith);
    assert(1 <= da <= db);
    lemma_hoist_over_denominator(k - 1, 1, da as nat);
    lemma_hoist_over_denominator(k - 1, 1, db as nat);
    lemma_div_is_ordered_by_denominator(k - 1, da, db);
    assert(ceil_div(k, da) >= ceil_div(k, db));
}

/// The starter pays no less for more input, on either side and any reserves.
pub proof fn lemma_starter_monotone(side: u8, a: u64, b: u64, rx: u64, ry: u64)
    requires
        a <= b,
    ensures
        starter_out(side, a, rx, ry) <= starter_out(side, b, rx, ry),
{
    if rx != 0 && ry != 0 {
        if side == 0 {
            lemma_curve_monotone(rx, ry, a, b);
        } else if side == 1 {
            lemma_curve_monotone(ry, rx, a, b);
        }
    }
}

/// The starter strategy. It keeps no state and leaves storage alone.
#[derive(Clone, Copy, Debug, PartialEq, Eq, Structural)]
pub struct Starter;

impl Starter {
    /// Quotes an encoded swap request.
    pub fn quote(&self, request: &[u8]) -> (r: u64)
        ensures
            r == starter_quote(request@),
    {
        match SwapRequest::decode(request) {
            Some(q) => starter_swap(q.side, q.input_amount, q.reserve_x, q.reserve_y),
            None => 0,
        }
    }
}

impl SwapStrategy for Starter {
    fn compute_swap(&mut self, request: &[u8], _storage: &[u8; STORAGE_SIZE]) -> u64 {
        self.quote(request)
    }

    fn after_swap(&mut self, _request: &[u8], _storage: &mut [u8; STORAGE_SIZE])
        ensures
            *final(_storage) == *old(_storage),
    {
    }
}

} // verus!
