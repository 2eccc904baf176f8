use nft_market::error::NftError;
use nft_market::instruction::{ItemParams, NftInstruction};

fn add_item_bytes() -> Vec<u8> {
    vec![
        0, // tag
        10, 20, 30, // body
        40, // stripe_r
        0xaa, // reserved
        50, 60, // stripe_g, stripe_b
        0x04, 0x03, 0x02, 0x01, // hat
        70, // emotion
        0x0d, 0x0c, 0x0b, 0x0a, // eyes
    ]
}

fn expected_params() -> ItemParams {
    ItemParams {
        body_r: 10,
        body_g: 20,
        body_b: 30,
        stripe_r: 40,
        stripe_g: 50,
        stripe_b: 60,
        hat: 0x01020304,
        emotion: 70,
        eyes: 0x0a0b0c0d,
    }
}

#[test]
fn unpack_rejects_empty_input() {
    assert_eq!(NftInstruction::unpack(&[]), Err(NftError::InvalidInstruction));
}

#[test]
fn unpack_reads_buy_item() {
    assert_eq!(NftInstruction::unpack(&[2]), Ok(NftInstruction::BuyItem));
}

#[test]
fn unpack_ignores_bytes_after_buy_item() {
    assert_eq!(NftInstruction::unpack(&[2, 9, 9, 9]), Ok(NftInstruction::BuyItem));
}

#[test]
fn unpack_reads_create_trade() {
    assert_eq!(
        NftInstruction::unpack(&[1, 0xe8, 0x03, 0, 0, 0, 0, 0, 0]),
        Ok(NftInstruction::CreateTrade { start_price: 1000 })
    );
}

#[test]
fn unpack_reads_the_largest_price() {
    assert_eq!(
        NftInstruction::unpack(&[1, 0xff, 0xff, 0xff, 0xff, 0xff, 0xff, 0xff, 0xff]),
        Ok(NftInstruction::CreateTrade { start_price: u64::MAX })
    );
}

#[test]
fn unpack_ignores_bytes_after_the_price() {
    assert_eq!(
        NftInstruction::unpack(&[1, 1, 0, 0, 0, 0, 0, 0, 0, 0xff, 0xff]),
        Ok(NftInstruction::CreateTrade { start_price: 1 })
    );
}

#[test]
fn unpack_rejects_a_price_cut_short() {
    assert_eq!(NftInstruction::unpack(&[1]), Err(NftError::InvalidInstruction));
    assert_eq!(
        NftInstruction::unpack(&[1, 1, 2, 3, 4, 5, 6, 7]),
        Err(NftError::InvalidInstruction)
    );
}

#[test]
fn unpack_reads_add_item() {
    assert_eq!(
        NftInstruction::unpack(&add_item_bytes()),
        Ok(NftInstruction::AddItem { params: expected_params() })
    );
}

#[test]
fn unpack_reads_nothing_into_the_reserved_byte() {
    for reserved in [0u8, 1, 0x7f, 0xff] {
        let mut bytes = add_item_bytes();
        bytes[5] = reserved;
        assert_eq!(
            NftInstruction::unpack(&bytes),
            Ok(NftInstruction::AddItem { params: expected_params() })
        );
    }
}

#[test]
fn unpack_reads_the_largest_traits() {
    let mut bytes = vec![0u8];
    bytes.extend_from_slice(&[0xff; 16]);
    assert_eq!(
        NftInstruction::unpack(&bytes),
        Ok(NftInstruction::AddItem {
            params: ItemParams {
                body_r: 255,
                body_g: 255,
                body_b: 255,
                stripe_r: 255,
                stripe_g: 255,
                stripe_b: 255,
                hat: u32::MAX,
                emotion: 255,
                eyes: u32::MAX,
            }
        })
    );
}

#[test]
fn unpack_ignores_bytes_after_the_traits() {
    let mut bytes = add_item_bytes();
    bytes.push(0x55);
    assert_eq!(
        NftInstruction::unpack(&bytes),
        Ok(NftInstruction::AddItem { params: expected_params() })
    );
}

#[test]
fn unpack_rejects_traits_cut_short() {
    let bytes = add_item_bytes();
    for len in 1..bytes.len() {
        assert_eq!(
            NftInstruction::unpack(&bytes[..len]),
            Err(NftError::InvalidInstruction)
        );
    }
}

#[test]
fn unpack_rejects_unknown_tags() {
    for tag in 3..=255u8 {
        let mut bytes = vec![tag];
        bytes.extend_from_slice(&[0; 16]);
        assert_eq!(NftInstruction::unpack(&bytes), Err(NftError::InvalidInstruction));
    }
}

#[test]
fn unpack_amount_reads_a_range() {
    let input = [0x11, 0x22, 0x33, 0x44, 0x55, 0x66, 0x77, 0x88, 0x99];
    assert_eq!(NftInstruction::unpack_amount(&input, 0, 1), Ok(0x11));
    assert_eq!(NftInstruction::unpack_amount(&input, 1, 5), Ok(0x55443322));
    assert_eq!(NftInstruction::unpack_amount(&input, 1, 9), Ok(0x9988776655443322));
    assert_eq!(NftInstruction::unpack_amount(&input, 4, 4), Ok(0));
}

#[test]
fn unpack_amount_rejects_a_range_outside_the_input() {
    let input = [1u8, 2, 3];
    assert_eq!(
        NftInstruction::unpack_amount(&input, 0, 4),
        Err(NftError::InvalidInstruction)
    );
    assert_eq!(
        NftInstruction::unpack_amount(&input, 4, 5),
        Err(NftError::InvalidInstruction)
    );
    assert_eq!(
        NftInstruction::unpack_amount(&[], 0, 1),
        Err(NftError::InvalidInstruction)
    );
}

#[test]
fn unpack_amount_rejects_a_range_that_runs_backwards() {
    assert_eq!(
        NftInstruction::unpack_amount(&[1, 2, 3], 2, 1),
        Err(NftError::InvalidInstruction)
    );
}

#[test]
fn unpack_amount_rejects_more_than_eight_bytes() {
    assert_eq!(
        NftInstruction::unpack_amount(&[0; 9], 0, 9),
        Err(NftError::InvalidInstruction)
    );
}
