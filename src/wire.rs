//! The fixed little-endian byte layouts handed to a pricing strategy.
use vstd::prelude::*;

verus! {

/// Length in bytes of an encoded swap request.
pub const SWAP_REQUEST_LEN: usize = 25;

/// Length in bytes of an encoded after-swap request.
pub const AFTER_SWAP_REQUEST_LEN: usize = 41;

/// The eight little-endian bytes of `v`.
pub open spec fn le_bytes(v: u64) -> Seq<u8> {
    seq![
        (v & 0xff) as u8,
        ((v >> 8u64) & 0xff) as u8,
        ((v >> 16u64) & 0xff) as u8,
        ((v >> 24u64) & 0xff) as u8,
        ((v >> 32u64) & 0xff) as u8,
        ((v >> 40u64) & 0xff) as u8,
        ((v >> 48u64) & 0xff) as u8,
        ((v >> 56u64) & 0xff) as u8,
    ]
}

/// The integer whose little-endian bytes are `b0 .. b7`.
pub open spec fn le_u64(b0: u8, b1: u8, b2: u8, b3: u8, b4: u8, b5: u8, b6: u8, b7: u8) -> u64 {
    (b0 as u64) | ((b1 as u64) << 8u64) | ((b2 as u64) << 16u64) | ((b3 as u64) << 24u64)
        | ((b4 as u64) << 32u64) | ((b5 as u64) << 40u64) | ((b6 as u64) << 48u64) | ((b7
        as u64) << 56u64)
}

/// The integer read little-endian from the eight bytes of `s` at `at`.
pub open spec fn le_value_at(s: Seq<u8>, at: int) -> u64 {
    le_u64(s[at], s[at + 1], s[at + 2], s[at + 3], s[at + 4], s[at + 5], s[at + 6], s[at + 7])
}

/// Reading back the bytes of `v` gives `v`.
pub proof fn lemma_le_round_trip(v: u64)
    ensures
        le_value_at(le_bytes(v), 0) == v,
{
    assert(le_u64(
        (v & 0xff) as u8,
        ((v >> 8u64) & 0xff) as u8,
        ((v >> 16u64) & 0xff) as u8,
        ((v >> 24u64) & 0xff) as u8,
        ((v >> 32u64) & 0xff) as u8,
        ((v >> 40u64) & 0xff) as u8,
        ((v >> 48u64) & 0xff) as u8,
        ((v >> 56u64) & 0xff) as u8,
    ) == v) by (bit_vector);
}

/// Appends the eight little-endian bytes of `v` to `out`.
pub fn push_u64_le(out: &mut Vec<u8>, v: u64)
    ensures
        final(out)@ == old(out)@ + le_bytes(v),
{
    out.push((v & 0xff) as u8);
    out.push(((v >> 8u64) & 0xff) as u8);
    out.push(((v >> 16u64) & 0xff) as u8);
    out.push(((v >> 24u64) & 0xff) as u8);
    out.push(((v >> 32u64) & 0xff) as u8);
    out.push(((v >> 40u64) & 0xff) as u8);
    out.push(((v >> 48u64) & 0xff) as u8);
    out.push(((v >> 56u64) & 0xff) as u8);
    assert(final(out)@ =~= old(out)@ + le_bytes(v));
}

/// Reads a little-endian integer from the eight bytes of `data` at `at`.
pub fn read_u64_le(data: &[u8], at: usize) -> (r: u64)
    requires
        at + 8 <= data@.len(),
    ensures
        r == le_value_at(data@, at as int),
{
    (data[at] as u64) | ((data[at + 1] as u64) << 8u64) | ((data[at + 2] as u64) << 16u64) | ((
    data[at + 3] as u64) << 24u64) | ((data[at + 4] as u64) << 32u64) | ((data[at + 5] as u64)
        << 40u64) | ((data[at + 6] as u64) << 48u64) | ((data[at + 7] as u64) << 56u64)
}

/// A quote request: trade `input_amount` on `side` against the given reserves.
/// Side 0 buys X with Y; side 1 sells X for Y. Amounts are nano-units.
#[derive(Clone, Copy, Debug, PartialEq, Eq, Structural)]
pub struct SwapRequest {
    pub side: u8,
    pub input_amount: u64,
    pub reserve_x: u64,
    pub reserve_y: u64,
}

/// The notice handed to a strategy after a trade, with the reserves after it.
#[derive(Clone, Copy, Debug, PartialEq, Eq, Structural)]
pub struct AfterSwapRequest {
    pub side: u8,
    pub input_amount: u64,
    pub output_amount: u64,
    pub reserve_x: u64,
    pub reserve_y: u64,
}

/// `[side | input | reserve_x | reserve_y]`, 25 bytes.
pub open spec fn swap_request_bytes(q: SwapRequest) -> Seq<u8> {
    seq![q.side] + le_bytes(q.input_amount) + le_bytes(q.reserve_x) + le_bytes(q.reserve_y)
}

/// `[side | input | output | reserve_x | reserve_y | reserved]`, 41 bytes; the
/// eight reserved bytes are zero.
pub open spec fn after_swap_request_bytes(q: AfterSwapRequest) -> Seq<u8> {
    seq![q.side] + le_bytes(q.input_amount) + le_bytes(q.output_amount) + le_bytes(q.reserve_x)
        + le_bytes(q.reserve_y) + le_bytes(0)
}

/// What a buffer holds as a swap request: nothing when it is shorter than 25 bytes,
/// else the request in its first 25 bytes.
pub open spec fn parse_swap_request(s: Seq<u8>) -> Option<SwapRequest> {
    if s.len() < SWAP_REQUEST_LEN {
        None
    } else {
        Some(
            SwapRequest {
                side: s[0],
                input_amount: le_value_at(s, 1),
                reserve_x: le_value_at(s, 9),
                reserve_y: le_value_at(s, 17),
            },
        )
    }
}

/// What a buffer holds as an after-swap request: nothing when it is shorter than
/// 41 bytes, else the request in its first 41 bytes.
pub open spec fn parse_after_swap_request(s: Seq<u8>) -> Option<AfterSwapRequest> {
    if s.len() < AFTER_SWAP_REQUEST_LEN {
        None
    } else {
        Some(
            AfterSwapRequest {
                side: s[0],
                input_amount: le_value_at(s, 1),
                output_amount: le_value_at(s, 9),
                reserve_x: le_value_at(s, 17),
                reserve_y: le_value_at(s, 25),
            },
        )
    }
}

proof fn lemma_le_value_in(pre: Seq<u8>, v: u64, post: Seq<u8>)
    ensures
        le_value_at(pre + le_bytes(v) + post, pre.len() as int) == v,
{
    let s = pre + le_bytes(v) + post;
    let n = pre.len() as int;
    assert forall|i: int| 0 <= i < 8 implies s[n + i] == le_bytes(v)[i] by {}
    lemma_le_round_trip(v);
}

/// Decoding an encoded swap request gives the request back.
pub proof fn lemma_swap_request_round_trip(q: SwapRequest)
    ensures
        parse_swap_request(swap_request_bytes(q)) == Some(q),
{
    let s = swap_request_bytes(q);
    lemma_le_value_in(seq![q.side], q.input_amount, le_bytes(q.reserve_x) + le_bytes(q.reserve_y));
    assert(s =~= seq![q.side] + le_bytes(q.input_amount) + (le_bytes(q.reserve_x) + le_bytes(
        q.reserve_y,
    )));
    lemma_le_value_in(seq![q.side] + le_bytes(q.input_amount), q.reserve_x, le_bytes(q.reserve_y));
    lemma_le_value_in(
        seq![q.side] + le_bytes(q.input_amount) + le_bytes(q.reserve_x),
        q.reserve_y,
        Seq::empty(),
    );
    assert(s =~= s + Seq::<u8>::empty());
}

/// Decoding an encoded after-swap request gives the request back.
pub proof fn lemma_after_swap_request_round_trip(q: AfterSwapRequest)
    ensures
        parse_after_swap_request(after_swap_request_bytes(q)) == Some(q),
{
    let s = after_swap_request_bytes(q);
    let head = seq![q.side];
    let upto_input = head + le_bytes(q.input_amount);
    let upto_output = upto_input + le_bytes(q.output_amount);
    let upto_rx = upto_output + le_bytes(q.reserve_x);
    let tail = le_bytes(q.reserve_y) + le_bytes(0);
    lemma_le_value_in(
        head,
        q.input_amount,
        le_bytes(q.output_amount) + le_bytes(q.reserve_x) + tail,
    );
    assert(s =~= head + le_bytes(q.input_amount) + (le_bytes(q.output_amount) + le_bytes(
        q.reserve_x,
    ) + tail));
    lemma_le_value_in(upto_input, q.output_amount, le_bytes(q.reserve_x) + tail);
    assert(s =~= upto_input + le_bytes(q.output_amount) + (le_bytes(q.reserve_x) + tail));
    lemma_le_value_in(upto_output, q.reserve_x, le_bytes(q.reserve_y) + le_bytes(0));
    assert(s =~= upto_output + le_bytes(q.reserve_x) + (le_bytes(q.reserve_y) + le_bytes(0)));
    lemma_le_value_in(upto_rx, q.reserve_y, le_bytes(0));
}

impl SwapRequest {
    /// The 25-byte encoding of this request.
    pub fn encode(&self) -> (r: Vec<u8>)
        ensures
            r@ == swap_request_bytes(*self),
            r@.len() == SWAP_REQUEST_LEN,
    {
        let mut out: Vec<u8> = Vec::new();
        out.push(self.side);
        push_u64_le(&mut out, self.input_amount);
        push_u64_le(&mut out, self.reserve_x);
        push_u64_le(&mut out, self.reserve_y);
        out
    }

    /// Reads a request from the first 25 bytes of `data`; `None` when it is shorter.
    pub fn decode(data: &[u8]) -> (r: Option<SwapRequest>)
        ensures
            r == parse_swap_request(data@),
    {
        if data.len() < SWAP_REQUEST_LEN {
            None
        } else {
            Some(
                SwapRequest {
                    side: data[0],
                    input_amount: read_u64_le(data, 1),
                    reserve_x: read_u64_le(data, 9),
                    reserve_y: read_u64_le(data, 17),
                },
            )
        }
    }
}

impl AfterSwapRequest {
    /// The 41-byte encoding of this request.
    pub fn encode(&self) -> (r: Vec<u8>)
        ensures
            r@ == after_swap_request_bytes(*self),
            r@.len() == AFTER_SWAP_REQUEST_LEN,
    {
        let mut out: Vec<u8> = Vec::new();
        out.push(self.side);
        push_u64_le(&mut out, self.input_amount);
        push_u64_le(&mut out, self.output_amount);
        push_u64_le(&mut out, self.reserve_x);
        push_u64_le(&mut out, self.reserve_y);
        push_u64_le(&mut out, 0);
        out
    }

    /// Reads a request from the first 41 bytes of `data`; `None` when it is shorter.
    pub fn decode(data: &[u8]) -> (r: Option<AfterSwapRequest>)
        ensures
            r == parse_after_swap_request(data@),
    {
        if data.len() < AFTER_SWAP_REQUEST_LEN {
            None
        } else {
            Some(
                AfterSwapRequest {
                    side: data[0],
                    input_amount: read_u64_le(data, 1),
                    output_amount: read_u64_le(data, 9),
                    reserve_x: read_u64_le(data, 17),
                    reserve_y: read_u64_le(data, 25),
                },
            )
        }
    }
}

} // verus!
