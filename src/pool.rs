//! A pool: reserves in nano-units, a fixed scratch storage, and the strategy
//! that prices its trades.
use vstd::prelude::*;

use crate::sdk::STORAGE_SIZE;
use crate::wire::{AfterSwapRequest, SwapRequest};

verus! {

/// Side of a trade that buys X with Y.
pub const SIDE_BUY_X: u8 = 0;

/// Side of a trade that sells X for Y.
pub const SIDE_SELL_X: u8 = 1;

/// Pricing code bound to a pool, run natively or in a sandbox.
pub trait SwapStrategy {
    /// Quotes the output, in nano-units, for an encoded swap request. The pool's
    /// storage is only read.
    fn compute_swap(&mut self, request: &[u8], storage: &[u8; STORAGE_SIZE]) -> u64;

    /// Is told of a trade that took place (an encoded after-swap request) and may
    /// update the pool's storage. Failures are the strategy's own to swallow.
    fn after_swap(&mut self, request: &[u8], storage: &mut [u8; STORAGE_SIZE]);
}

/// `a - b`, or zero where `b` exceeds `a`.
pub open spec fn sub_floor(a: u64, b: u64) -> u64 {
    if b <= a {
        (a - b) as u64
    } else {
        0
    }
}

/// `a + b`, or `u64::MAX` where the sum does not fit.
pub open spec fn add_cap(a: u64, b: u64) -> u64 {
    if a + b <= u64::MAX {
        (a + b) as u64
    } else {
        u64::MAX
    }
}

/// The reserves `(x, y)` after a trade of `input` for `output` on `side`: buying X
/// takes `output` from X and adds `input` to Y; selling X does the reverse. A
/// reserve never falls below zero nor rises above `u64::MAX`.
pub open spec fn reserves_after(side: u8, input: u64, output: u64, rx: u64, ry: u64) -> (u64, u64) {
    if side == SIDE_BUY_X {
        (sub_floor(rx, output), add_cap(ry, input))
    } else {
        (add_cap(rx, input), sub_floor(ry, output))
    }
}

/// Every byte of `s` is zero.
pub open spec fn all_zero(s: Seq<u8>) -> bool {
    forall|i: int| 0 <= i < s.len() ==> s[i] == 0
}

fn sub_floor_exec(a: u64, b: u64) -> (r: u64)
    ensures
        r == sub_floor(a, b),
{
    if b <= a {
        a - b
    } else {
        0
    }
}

fn add_cap_exec(a: u64, b: u64) -> (r: u64)
    ensures
        r == add_cap(a, b),
{
    if a <= u64::MAX - b {
        a + b
    } else {
        u64::MAX
    }
}

/// A pool priced by the strategy `S`. Reserves are in nano-units (10^9 per unit)
/// and never negative; the storage is the strategy's scratch space, read when it
/// quotes and written only when it is told of a trade.
pub struct Pool<S> {
    pub strategy: S,
    pub reserve_x: u64,
    pub reserve_y: u64,
    pub name: String,
    pub storage: [u8; STORAGE_SIZE],
}

impl<S: SwapStrategy> Pool<S> {
    /// A pool with the given reserves and zeroed storage.
    pub fn new(strategy: S, reserve_x: u64, reserve_y: u64, name: String) -> (r: Pool<S>)
        ensures
            r.reserve_x == reserve_x,
            r.reserve_y == reserve_y,
            r.name == name,
            r.strategy == strategy,
            r.storage@.len() == STORAGE_SIZE,
            all_zero(r.storage@),
    {
        Pool { strategy, reserve_x, reserve_y, name, storage: [0u8; STORAGE_SIZE] }
    }

    /// The swap request for trading `input` on `side` against the current reserves.
    pub fn swap_request(&self, side: u8, input: u64) -> (r: SwapRequest)
        ensures
            r == (SwapRequest {
                side,
                input_amount: input,
                reserve_x: self.reserve_x,
                reserve_y: self.reserve_y,
            }),
    {
        SwapRequest { side, input_amount: input, reserve_x: self.reserve_x, reserve_y: self.reserve_y }
    }

    /// Asks the strategy for its quote on `input` on `side`. A zero amount, which is
    /// also what any input below one nano-unit comes to, quotes zero without asking.
    /// Reserves, name and storage are left as they were.
    fn quote(&mut self, side: u8, input: u64) -> (r: u64)
        ensures
            final(self).reserve_x == old(self).reserve_x,
            final(self).reserve_y == old(self).reserve_y,
            final(self).name == old(self).name,
            final(self).storage == old(self).storage,
            input == 0 ==> r == 0 && *final(self) == *old(self),
    {
        if input == 0 {
            return 0;
        }
        let request = self.swap_request(side, input).encode();
        self.strategy.compute_swap(request.as_slice(), &self.storage)
    }

    /// Quotes the X that `input_y` of Y buys, without trading. Zero input (what an
    /// amount below one nano-unit comes to) quotes zero without asking the strategy.
    pub fn quote_buy_x(&mut self, input_y: u64) -> (r: u64)
        ensures
            final(self).reserve_x == old(self).reserve_x,
            final(self).reserve_y == old(self).reserve_y,
            final(self).name == old(self).name,
            final(self).storage == old(self).storage,
            input_y == 0 ==> r == 0 && *final(self) == *old(self),
    {
        self.quote(SIDE_BUY_X, input_y)
    }

    /// Quotes the Y that selling `input_x` of X yields, without trading. Zero input
    /// (what an amount below one nano-unit comes to) quotes zero without asking the
    /// strategy.
    pub fn quote_sell_x(&mut self, input_x: u64) -> (r: u64)
        ensures
            final(self).reserve_x == old(self).reserve_x,
            final(self).reserve_y == old(self).reserve_y,
            final(self).name == old(self).name,
            final(self).storage == old(self).storage,
            input_x == 0 ==> r == 0 && *final(self) == *old(self),
    {
        self.quote(SIDE_SELL_X, input_x)
    }

    /// Books a trade of `input` for `output` on `side` into the reserves, and returns
    /// the after-swap request for it, which carries the reserves after the trade.
    pub fn record_trade(&mut self, side: u8, input: u64, output: u64) -> (r: AfterSwapRequest)
        ensures
            (final(self).reserve_x, final(self).reserve_y) == reserves_after(
                side,
                input,
                output,
                old(self).reserve_x,
                old(self).reserve_y,
            ),
            r == (AfterSwapRequest {
                side,
                input_amount: input,
                output_amount: output,
                reserve_x: final(self).reserve_x,
                reserve_y: final(self).reserve_y,
            }),
            final(self).strategy == old(self).strategy,
            final(self).name == old(self).name,
            final(self).storage == old(self).storage,
    {
        if side == SIDE_BUY_X {
            self.reserve_x = sub_floor_exec(self.reserve_x, output);
            self.reserve_y = add_cap_exec(self.reserve_y, input);
        } else {
            self.reserve_x = add_cap_exec(self.reserve_x, input);
            self.reserve_y = sub_floor_exec(self.reserve_y, output);
        }
        AfterSwapRequest {
            side,
            input_amount: input,
            output_amount: output,
            reserve_x: self.reserve_x,
            reserve_y: self.reserve_y,
        }
    }

    /// Quotes, and where the quote is positive books the trade and tells the
    /// strategy of it with the reserves after the trade.
    fn execute(&mut self, side: u8, input: u64) -> (r: u64)
        ensures
            r == 0 ==> final(self).reserve_x == old(self).reserve_x && final(self).reserve_y
                == old(self).reserve_y && final(self).storage == old(self).storage,
            r > 0 ==> (final(self).reserve_x, final(self).reserve_y) == reserves_after(
                side,
                input,
                r,
                old(self).reserve_x,
                old(self).reserve_y,
            ),
            final(self).name == old(self).name,
            input == 0 ==> r == 0 && *final(self) == *old(self),
    {
        let output = self.quote(side, input);
        if output > 0 {
            let notice = self.record_trade(side, input, output).encode();
            self.strategy.after_swap(notice.as_slice(), &mut self.storage);
        }
        output
    }

    /// Buys X with `input_y` of Y at the strategy's quote, which is returned. A
    /// positive quote takes it from reserve X and adds `input_y` to reserve Y; a zero
    /// quote changes neither reserves nor storage; zero input changes nothing.
    pub fn execute_buy_x(&mut self, input_y: u64) -> (r: u64)
        ensures
            r == 0 ==> final(self).reserve_x == old(self).reserve_x && final(self).reserve_y
                == old(self).reserve_y && final(self).storage == old(self).storage,
            r > 0 ==> final(self).reserve_x == sub_floor(old(self).reserve_x, r)
                && final(self).reserve_y == add_cap(old(self).reserve_y, input_y),
            final(self).name == old(self).name,
            input_y == 0 ==> r == 0 && *final(self) == *old(self),
    {
        self.execute(SIDE_BUY_X, input_y)
    }

    /// Sells `input_x` of X for Y at the strategy's quote, which is returned. A
    /// positive quote adds `input_x` to reserve X and takes the quote from reserve Y;
    /// a zero quote changes neither reserves nor storage; zero input changes nothing.
    pub fn execute_sell_x(&mut self, input_x: u64) -> (r: u64)
        ensures
            r == 0 ==> final(self).reserve_x == old(self).reserve_x && final(self).reserve_y
                == old(self).reserve_y && final(self).storage == old(self).storage,
            r > 0 ==> final(self).reserve_x == add_cap(old(self).reserve_x, input_x)
                && final(self).reserve_y == sub_floor(old(self).reserve_y, r),
            final(self).name == old(self).name,
            input_x == 0 ==> r == 0 && *final(self) == *old(self),
    {
        self.execute(SIDE_SELL_X, input_x)
    }

    /// Sets the reserves and zeroes every byte of the storage.
    pub fn reset(&mut self, reserve_x: u64, reserve_y: u64)
        ensures
            final(self).reserve_x == reserve_x,
            final(self).reserve_y == reserve_y,
            final(self).storage@.len() == STORAGE_SIZE,
            all_zero(final(self).storage@),
            final(self).strategy == old(self).strategy,
            final(self).name == old(self).name,
    {
        self.reserve_x = reserve_x;
        self.reserve_y = reserve_y;
        self.storage = [0u8; STORAGE_SIZE];
    }
}

} // verus!
