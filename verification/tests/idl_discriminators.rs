use pump_cli::bonding_curve::BondingCurve;
use pump_cli::instructions;
use pump_cli::pump_swap::SwapPool;

#[test]
fn buy() {
    assert_eq!(
        instructions::discriminator("buy"),
        instructions::PUMP_BUY_DISCRIMINATOR
    );
}

#[test]
fn sell() {
    assert_eq!(
        instructions::discriminator("sell"),
        instructions::PUMP_SELL_DISCRIMINATOR
    );
}

#[test]
fn create() {
    assert_eq!(
        instructions::discriminator("create"),
        instructions::PUMP_CREATE_DISCRIMINATOR
    );
}

#[test]
fn create_v2() {
    assert_eq!(
        instructions::discriminator("create_v2"),
        instructions::PUMP_CREATE_V2_DISCRIMINATOR
    );
}

#[test]
fn bonding_curve_valid() {
    let mut data = vec![0u8; 8 + 75];
    data[..8].copy_from_slice(&[23, 183, 248, 55, 96, 216, 172, 96]);
    assert!(BondingCurve::validate_discriminator(&data).is_ok());
    data[0] = 0xFF;
    assert!(BondingCurve::validate_discriminator(&data).is_err());
}

#[test]
fn swap_pool_valid() {
    let mut data = vec![0u8; 8 + 237];
    data[..8].copy_from_slice(&[241, 154, 109, 4, 17, 177, 109, 188]);
    assert!(SwapPool::validate_discriminator(&data).is_ok());
    data[0] = 0xFF;
    assert!(SwapPool::validate_discriminator(&data).is_err());
}

#[test]
fn discriminator_constants_match_digests() {
    let cases: [(&str, [u8; 8]); 6] = [
        ("buy", instructions::PUMP_BUY_DISCRIMINATOR),
        ("sell", instructions::PUMP_SELL_DISCRIMINATOR),
        ("create", instructions::PUMP_CREATE_DISCRIMINATOR),
        ("create_v2", instructions::PUMP_CREATE_V2_DISCRIMINATOR),
        ("buy", instructions::PUMP_SWAP_BUY_DISCRIMINATOR),
        ("sell", instructions::PUMP_SWAP_SELL_DISCRIMINATOR),
    ];
    for (method, expected) in cases {
        assert_eq!(instructions::discriminator(method), expected, "{method}");
        let digest = <sha2::Sha256 as sha2::Digest>::digest(format!("global:{method}").as_bytes());
        assert_eq!(&digest[..8], &expected[..], "{method}");
    }
    assert_eq!(&instructions::METHOD_CREATE_V2[..], b"create_v2");
    assert_eq!(&instructions::ANCHOR_NAMESPACE[..], b"global:");
}
