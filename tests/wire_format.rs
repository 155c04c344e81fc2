use prop_amm::wire::{read_u64_le, AfterSwapRequest, SwapRequest, AFTER_SWAP_REQUEST_LEN, SWAP_REQUEST_LEN};

#[test]
fn swap_request_is_25_le_bytes() {
    let q = SwapRequest { side: 1, input_amount: 0x0102030405060708, reserve_x: 7, reserve_y: u64::MAX };
    let bytes = q.encode();
    assert_eq!(bytes.len(), SWAP_REQUEST_LEN);
    assert_eq!(bytes[0], 1);
    assert_eq!(&bytes[1..9], &[8, 7, 6, 5, 4, 3, 2, 1]);
    assert_eq!(&bytes[9..17], &7u64.to_le_bytes());
    assert_eq!(&bytes[17..25], &[0xff; 8]);
}

#[test]
fn swap_request_round_trips() {
    let q = SwapRequest { side: 0, input_amount: 10_000_000_000, reserve_x: 100_000_000_000, reserve_y: 10_000_000_000_000 };
    assert_eq!(SwapRequest::decode(&q.encode()), Some(q));
}

#[test]
fn short_swap_request_is_refused() {
    assert_eq!(SwapRequest::decode(&[0u8; 24]), None);
    assert_eq!(SwapRequest::decode(&[]), None);
}

#[test]
fn after_swap_request_is_41_bytes_with_output_after_input() {
    let q = AfterSwapRequest { side: 0, input_amount: 1000, output_amount: 500, reserve_x: 2000, reserve_y: 3000 };
    let bytes = q.encode();
    assert_eq!(bytes.len(), AFTER_SWAP_REQUEST_LEN);
    assert_eq!(bytes[0], 0);
    assert_eq!(&bytes[1..9], &1000u64.to_le_bytes());
    assert_eq!(&bytes[9..17], &500u64.to_le_bytes());
    assert_eq!(&bytes[17..25], &2000u64.to_le_bytes());
    assert_eq!(&bytes[25..33], &3000u64.to_le_bytes());
    assert_eq!(&bytes[33..41], &[0u8; 8]);
    assert_eq!(AfterSwapRequest::decode(&bytes), Some(q));
    assert_eq!(AfterSwapRequest::decode(&bytes[..40]), None);
}

#[test]
fn reads_little_endian_at_offset() {
    let data = [9u8, 1, 0, 0, 0, 0, 0, 0, 0x80];
    assert_eq!(read_u64_le(&data, 1), 0x8000_0000_0000_0001);
    assert_eq!(read_u64_le(&data, 0), 0x0000_0000_0000_0109);
}
