use asset_manager::error::{AssetError, CustomError};
use asset_manager::identity::Identity;
use asset_manager::layout::{
    decode, discriminator, space_for, ASSET_SPACE, DISCRIMINATOR_LEN, MAX_TEXT_LEN,
};
use asset_manager::program::{create_asset, get_asset, AccountSlot, CreateAsset, GetAsset};
use asset_manager::record::AssetMetadata;

fn key(b: u8) -> Identity {
    Identity::new([b; 32])
}

struct Args {
    name: String,
    code: String,
    asset_type: String,
    decimals: u8,
    initial_supply: u64,
    limit: Option<u64>,
    flags: (bool, bool, bool, bool),
}

fn usdc() -> Args {
    Args {
        name: "USD Coin".to_string(),
        code: "USDC".to_string(),
        asset_type: "stablecoin".to_string(),
        decimals: 6,
        initial_supply: 1_000_000,
        limit: None,
        flags: (true, false, true, false),
    }
}

fn create(slot: AccountSlot, user: Identity, a: &Args) -> (Result<(), AssetError>, AccountSlot) {
    let mut ctx = CreateAsset { asset_metadata: slot, user };
    let r = create_asset(
        &mut ctx,
        a.name.clone(),
        a.code.clone(),
        a.asset_type.clone(),
        a.decimals,
        a.initial_supply,
        a.limit,
        a.flags.0,
        a.flags.1,
        a.flags.2,
        a.flags.3,
    );
    (r, ctx.asset_metadata)
}

fn read(slot: &AccountSlot, user: Identity) -> Result<AssetMetadata, AssetError> {
    let ctx = GetAsset { asset_metadata: AccountSlot::with_data(slot.data.clone()), user };
    get_asset(&ctx)
}

fn created(a: &Args, owner: Identity) -> AccountSlot {
    let (r, slot) = create(AccountSlot::empty(), owner, a);
    assert_eq!(r, Ok(()));
    slot
}

#[test]
fn round_trip_returns_the_created_fields() {
    let a = usdc();
    let slot = created(&a, key(7));
    let m = read(&slot, key(7)).unwrap();
    assert_eq!(m.name, "USD Coin");
    assert_eq!(m.code, "USDC");
    assert_eq!(m.asset_type, "stablecoin");
    assert_eq!(m.decimals, 6);
    assert_eq!(m.initial_supply, 1_000_000);
    assert_eq!(m.limit, None);
    assert!(m.authorize_required);
    assert!(!m.freeze_enabled);
    assert!(m.clawback_enabled);
    assert!(!m.regulated);
    assert_eq!(m.owner, key(7));
}

#[test]
fn round_trip_with_extreme_numbers_and_unicode() {
    let a = Args {
        name: "Zürich Franc €".to_string(),
        code: "".to_string(),
        asset_type: "x".to_string(),
        decimals: 255,
        initial_supply: u64::MAX,
        limit: Some(u64::MAX),
        flags: (false, true, false, true),
    };
    let slot = created(&a, key(1));
    let m = read(&slot, key(1)).unwrap();
    assert_eq!(m.name, "Zürich Franc €");
    assert_eq!(m.code, "");
    assert_eq!(m.decimals, 255);
    assert_eq!(m.initial_supply, u64::MAX);
    assert_eq!(m.limit, Some(u64::MAX));
    assert_eq!(
        (m.authorize_required, m.freeze_enabled, m.clawback_enabled, m.regulated),
        (false, true, false, true)
    );
}

#[test]
fn other_identity_is_refused() {
    let slot = created(&usdc(), key(7));
    assert_eq!(
        read(&slot, key(8)),
        Err(AssetError::Custom(CustomError::UnauthorizedAccess))
    );
    let mut almost = [7u8; 32];
    almost[31] = 6;
    assert_eq!(
        read(&slot, Identity::new(almost)),
        Err(AssetError::Custom(CustomError::UnauthorizedAccess))
    );
}

#[test]
fn repeated_reads_report_the_same_owner() {
    let slot = created(&usdc(), key(3));
    let first = read(&slot, key(3)).unwrap();
    let second = read(&slot, key(3)).unwrap();
    assert_eq!(first.owner, key(3));
    assert_eq!(first, second);
}

#[test]
fn text_at_maximum_length_is_accepted() {
    let long = "a".repeat(MAX_TEXT_LEN);
    let a = Args { name: long.clone(), code: long.clone(), asset_type: long.clone(), ..usdc() };
    let slot = created(&a, key(2));
    assert_eq!(slot.data.len(), ASSET_SPACE);
    let m = read(&slot, key(2)).unwrap();
    assert_eq!(m.name, long);
    assert_eq!(m.code, long);
    assert_eq!(m.asset_type, long);
}

#[test]
fn text_one_byte_over_is_refused() {
    let over = "a".repeat(MAX_TEXT_LEN + 1);
    for which in 0..3 {
        let mut a = usdc();
        match which {
            0 => a.name = over.clone(),
            1 => a.code = over.clone(),
            _ => a.asset_type = over.clone(),
        }
        let (r, slot) = create(AccountSlot::empty(), key(2), &a);
        assert_eq!(r, Err(AssetError::AccountDidNotSerialize));
        assert!(!slot.is_allocated());
    }
}

#[test]
fn multibyte_text_counts_bytes() {
    // sixteen two-byte characters fill the space exactly; seventeen do not
    let a = Args { name: "é".repeat(16), ..usdc() };
    assert_eq!(create(AccountSlot::empty(), key(2), &a).0, Ok(()));
    let b = Args { name: "é".repeat(17), ..usdc() };
    assert_eq!(create(AccountSlot::empty(), key(2), &b).0, Err(AssetError::AccountDidNotSerialize));
}

#[test]
fn absent_limit_and_zero_limit_stay_distinct() {
    let none = created(&Args { limit: None, ..usdc() }, key(4));
    let zero = created(&Args { limit: Some(0), ..usdc() }, key(4));
    assert_eq!(read(&none, key(4)).unwrap().limit, None);
    assert_eq!(read(&zero, key(4)).unwrap().limit, Some(0));
    assert_ne!(none.data, zero.data);
}

#[test]
fn second_create_on_same_slot_fails() {
    let slot = created(&usdc(), key(5));
    let before = slot.data.clone();
    let other = Args { name: "Other".to_string(), ..usdc() };
    let (r, slot) = create(slot, key(6), &other);
    assert_eq!(r, Err(AssetError::AccountAlreadyInUse));
    assert_eq!(slot.data, before);
    assert_eq!(read(&slot, key(5)).unwrap().name, "USD Coin");
}

#[test]
fn space_budget() {
    assert_eq!(space_for(32, 32, 32), 170);
    assert_eq!(space_for(32, 32, 32), ASSET_SPACE);
    assert_eq!(space_for(0, 0, 0), 74);
    assert_eq!(space_for(10, 5, 1), 90);
}

#[test]
fn discriminator_is_digest_prefix() {
    let d = discriminator();
    let digest = anchor_lang::solana_program::hash::hash(b"account:AssetMetadata").to_bytes();
    assert_eq!(d.len(), DISCRIMINATOR_LEN);
    assert_eq!(d[..], digest[..8]);
    assert_ne!(d[..], b"account:"[..]);
}

#[test]
fn account_layout_is_exact() {
    let a = Args {
        name: "N".to_string(),
        code: "C".to_string(),
        asset_type: "T".to_string(),
        decimals: 2,
        initial_supply: 0x0102,
        limit: Some(3),
        flags: (true, false, false, true),
    };
    let slot = created(&a, key(9));
    let d = &slot.data;
    assert_eq!(d.len(), 170);
    assert_eq!(d[..8], discriminator()[..]);
    let mut expected: Vec<u8> = vec![1, 0, 0, 0, b'N', 1, 0, 0, 0, b'C', 1, 0, 0, 0, b'T', 2];
    expected.extend_from_slice(&[2, 1, 0, 0, 0, 0, 0, 0]);
    expected.extend_from_slice(&[1, 3, 0, 0, 0, 0, 0, 0, 0]);
    expected.extend_from_slice(&[1, 0, 0, 1]);
    expected.extend_from_slice(&[9; 32]);
    assert_eq!(d[8..8 + expected.len()], expected[..]);
    assert!(d[8 + expected.len()..].iter().all(|b| *b == 0));
}

#[test]
fn absent_limit_is_nine_zero_bytes() {
    let a = Args { name: "".to_string(), code: "".to_string(), asset_type: "".to_string(), ..usdc() };
    let slot = created(&a, key(9));
    // three empty texts, decimals and supply come first
    let at = 8 + 12 + 1 + 8;
    assert_eq!(slot.data[at..at + 9], [0u8; 9]);
}

#[test]
fn short_account_has_no_discriminator() {
    let slot = AccountSlot::with_data(vec![1, 2, 3]);
    assert_eq!(read(&slot, key(1)), Err(AssetError::AccountDiscriminatorNotFound));
    assert_eq!(read(&AccountSlot::empty(), key(1)), Err(AssetError::AccountDiscriminatorNotFound));
}

#[test]
fn foreign_account_is_a_mismatch() {
    let mut slot = created(&usdc(), key(1));
    slot.data[0] ^= 0xff;
    assert_eq!(read(&slot, key(1)), Err(AssetError::AccountDiscriminatorMismatch));
}

#[test]
fn malformed_record_does_not_deserialize() {
    let slot = created(&usdc(), key(1));
    // a flag byte of 2
    let mut bad_flag = slot.data.clone();
    let flags_at = 8 + (4 + 8) + (4 + 4) + (4 + 10) + 1 + 8 + 9;
    assert_eq!(bad_flag[flags_at], 1);
    bad_flag[flags_at] = 2;
    assert_eq!(read(&AccountSlot::with_data(bad_flag), key(1)), Err(AssetError::AccountDidNotDeserialize));
    // a name that is not UTF-8
    let mut bad_text = slot.data.clone();
    bad_text[12] = 0xff;
    assert_eq!(read(&AccountSlot::with_data(bad_text), key(1)), Err(AssetError::AccountDidNotDeserialize));
    // a text length past the end
    let mut bad_len = slot.data.clone();
    bad_len[8] = 200;
    assert_eq!(read(&AccountSlot::with_data(bad_len), key(1)), Err(AssetError::AccountDidNotDeserialize));
    // a record cut short
    let cut = slot.data[..90].to_vec();
    assert_eq!(read(&AccountSlot::with_data(cut), key(1)), Err(AssetError::AccountDidNotDeserialize));
}

#[test]
fn encode_and_decode_agree() {
    let m = AssetMetadata {
        name: "Gold".to_string(),
        code: "XAU".to_string(),
        asset_type: "commodity".to_string(),
        decimals: 3,
        initial_supply: 42,
        limit: Some(0),
        authorize_required: false,
        freeze_enabled: false,
        clawback_enabled: true,
        regulated: true,
        owner: key(11),
    };
    assert!(m.fits());
    let bytes = m.encode();
    assert_eq!(bytes.len(), 4 + 4 + 4 + 3 + 4 + 9 + 54);
    assert_eq!(decode(&bytes), Some(m.clone()));
    let mut trailing = bytes.clone();
    trailing.extend_from_slice(&[0, 0, 0]);
    assert_eq!(decode(&trailing), Some(m));
}

#[test]
fn identity_comparison() {
    assert!(key(1).same_as(&key(1)));
    assert!(!key(1).same_as(&key(2)));
    assert_eq!(key(4).to_bytes(), [4u8; 32]);
}

#[test]
fn unauthorized_message() {
    assert_eq!(
        CustomError::UnauthorizedAccess.message(),
        "You are not authorized to access this asset"
    );
}
