use prop_amm::pool::{Pool, SwapStrategy};
use prop_amm::sdk::STORAGE_SIZE;
use prop_amm::starter::Starter;
use prop_amm::wire::{AfterSwapRequest, SwapRequest};

const NANO: u64 = 1_000_000_000;

/// Quotes a fixed amount, counts its calls, and keeps the last after-swap notice
/// and a trade counter in storage.
struct Recorder {
    quote: u64,
    quotes_asked: u32,
    notices: Vec<AfterSwapRequest>,
}

impl SwapStrategy for Recorder {
    fn compute_swap(&mut self, request: &[u8], storage: &[u8; STORAGE_SIZE]) -> u64 {
        assert_eq!(request.len(), 25);
        self.quotes_asked += 1;
        self.quote + storage[0] as u64
    }

    fn after_swap(&mut self, request: &[u8], storage: &mut [u8; STORAGE_SIZE]) {
        assert_eq!(request.len(), 41);
        self.notices.push(AfterSwapRequest::decode(request).unwrap());
        storage[0] += 1;
        storage[STORAGE_SIZE - 1] = 0xaa;
    }
}

fn recorder(quote: u64) -> Pool<Recorder> {
    Pool::new(Recorder { quote, quotes_asked: 0, notices: Vec::new() }, 100 * NANO, 10_000 * NANO, "sub".to_string())
}

#[test]
fn new_pool_has_zeroed_storage() {
    let pool = recorder(5);
    assert_eq!(pool.storage, [0u8; STORAGE_SIZE]);
    assert_eq!(pool.reserve_x, 100 * NANO);
    assert_eq!(pool.name, "sub");
}

#[test]
fn starter_buy_output_matches_curve() {
    let mut pool = Pool::new(Starter, 100 * NANO, 10_000 * NANO, "starter".to_string());
    let out = pool.quote_buy_x(10 * NANO);
    // 100 - ceil(1e24 / (1e13 + 9.5e9)) nano
    assert_eq!(out, 94_909_835);
    assert_eq!(pool.reserve_x, 100 * NANO);
    assert_eq!(pool.reserve_y, 10_000 * NANO);
}

#[test]
fn starter_quotes_grow_with_input() {
    let mut pool = Pool::new(Starter, 100 * NANO, 10_000 * NANO, "starter".to_string());
    let mut prev = 0u64;
    for size in [NANO / 10, NANO, 10 * NANO, 50 * NANO, 100 * NANO, 500 * NANO] {
        let out = pool.quote_buy_x(size);
        assert!(out > prev);
        prev = out;
    }
}

#[test]
fn zero_input_asks_nothing_and_changes_nothing() {
    let mut pool = recorder(5);
    assert_eq!(pool.execute_buy_x(0), 0);
    assert_eq!(pool.execute_sell_x(0), 0);
    assert_eq!(pool.quote_buy_x(0), 0);
    assert_eq!(pool.strategy.quotes_asked, 0);
    assert!(pool.strategy.notices.is_empty());
    assert_eq!(pool.reserve_x, 100 * NANO);
    assert_eq!(pool.reserve_y, 10_000 * NANO);
}

#[test]
fn zero_quote_books_no_trade() {
    let mut pool = recorder(0);
    assert_eq!(pool.execute_sell_x(NANO), 0);
    assert_eq!(pool.strategy.quotes_asked, 1);
    assert!(pool.strategy.notices.is_empty());
    assert_eq!(pool.reserve_x, 100 * NANO);
    assert_eq!(pool.storage, [0u8; STORAGE_SIZE]);
}

#[test]
fn buy_books_trade_and_notice_sees_new_reserves() {
    let mut pool = recorder(7);
    assert_eq!(pool.execute_buy_x(10), 7);
    assert_eq!(pool.reserve_x, 100 * NANO - 7);
    assert_eq!(pool.reserve_y, 10_000 * NANO + 10);
    assert_eq!(
        pool.strategy.notices,
        vec![AfterSwapRequest { side: 0, input_amount: 10, output_amount: 7, reserve_x: 100 * NANO - 7, reserve_y: 10_000 * NANO + 10 }]
    );
}

#[test]
fn sell_books_trade_and_notice_sees_new_reserves() {
    let mut pool = recorder(9);
    assert_eq!(pool.execute_sell_x(4), 9);
    assert_eq!(pool.reserve_x, 100 * NANO + 4);
    assert_eq!(pool.reserve_y, 10_000 * NANO - 9);
    assert_eq!(pool.strategy.notices[0].side, 1);
    assert_eq!(pool.strategy.notices[0].reserve_x, 100 * NANO + 4);
    assert_eq!(pool.strategy.notices[0].reserve_y, 10_000 * NANO - 9);
}

#[test]
fn storage_persists_across_swaps_until_reset() {
    let mut pool = recorder(1);
    assert_eq!(pool.execute_buy_x(10), 1);
    // the strategy sees its own storage on the next quote
    assert_eq!(pool.execute_buy_x(10), 2);
    assert_eq!(pool.storage[0], 2);
    assert_eq!(pool.storage[STORAGE_SIZE - 1], 0xaa);
    pool.reset(5, 6);
    assert_eq!(pool.storage, [0u8; STORAGE_SIZE]);
    assert_eq!((pool.reserve_x, pool.reserve_y), (5, 6));
    assert_eq!(pool.execute_buy_x(10), 1);
}

#[test]
fn oversized_quote_floors_reserve_at_zero() {
    let mut pool = Pool::new(Recorder { quote: 50, quotes_asked: 0, notices: Vec::new() }, 20, u64::MAX - 1, "p".to_string());
    assert_eq!(pool.execute_buy_x(3), 50);
    assert_eq!(pool.reserve_x, 0);
    assert_eq!(pool.reserve_y, u64::MAX);
}

#[test]
fn record_trade_returns_notice_with_post_trade_reserves() {
    let mut pool = recorder(0);
    let notice = pool.record_trade(0, 100, 30);
    assert_eq!(notice, AfterSwapRequest { side: 0, input_amount: 100, output_amount: 30, reserve_x: 100 * NANO - 30, reserve_y: 10_000 * NANO + 100 });
    let q = pool.swap_request(1, 8);
    assert_eq!(q, SwapRequest { side: 1, input_amount: 8, reserve_x: 100 * NANO - 30, reserve_y: 10_000 * NANO + 100 });
}
