use mmm::state::{
    derive_authority, AccountId, Allowlist, AssetMetadata, CurveKind, PaymentMint, Pool,
    TokenEscrow,
};
use mmm::{handler, FulfillSell, FulfillSellArgs, MMMErrorCode};

const PAYER: AccountId = AccountId(10);
const OWNER: AccountId = AccountId(11);
const POOL_UUID: AccountId = AccountId(12);
const MINT: AccountId = AccountId(13);

/// A pool with 10 units of inventory, a flat spot price of 500, a 2% fee
/// rate, and reinvested proceeds; the payer holds 10_000 currency units.
fn base_ctx() -> FulfillSell {
    let pool = Pool {
        owner: OWNER,
        uuid: POOL_UUID,
        cosigner: None,
        payment_mint: PaymentMint::Native,
        reinvest: true,
        allowlists: vec![Allowlist::Any],
        curve_kind: CurveKind::Linear,
        spot_price: 500,
        curve_delta: 0,
        lp_fee_bp: 200,
        sellside_orders_count: 10,
        lp_fee_earned: 0,
    };
    FulfillSell {
        payer: PAYER,
        payer_lamports: 10_000,
        owner: OWNER,
        owner_lamports: 1_000,
        cosigner: AccountId(0),
        cosigner_is_signer: false,
        buyside_sol_escrow_lamports: 2_000,
        asset_mint: MINT,
        asset_metadata: Some(AssetMetadata {
            mint: MINT,
            collection: None,
        }),
        sellside_escrow_token_account: TokenEscrow {
            amount: 10,
            open: true,
            authority: derive_authority(OWNER, POOL_UUID),
        },
        payer_asset_amount: 0,
        pool,
    }
}

fn args(asset_amount: u64, max_payment_amount: u64) -> FulfillSellArgs {
    FulfillSellArgs {
        asset_amount,
        max_payment_amount,
    }
}

#[test]
fn full_settlement_of_one_unit() {
    let mut ctx = base_ctx();
    assert!(ctx.check_wf());
    let r = handler(&mut ctx, args(1, 500));
    assert_eq!(r, Ok(()));
    // caller pays 500 + 10 fee
    assert_eq!(ctx.payer_lamports, 10_000 - 510);
    // proceeds reinvested into the reserve, fee straight to the owner
    assert_eq!(ctx.buyside_sol_escrow_lamports, 2_500);
    assert_eq!(ctx.owner_lamports, 1_010);
    // one unit moved to the caller
    assert_eq!(ctx.payer_asset_amount, 1);
    assert_eq!(ctx.sellside_escrow_token_account.amount, 9);
    assert!(ctx.sellside_escrow_token_account.open);
    // accounting committed
    assert_eq!(ctx.pool.sellside_orders_count, 9);
    assert_eq!(ctx.pool.lp_fee_earned, 10);
    assert!(ctx.check_wf());
}

#[test]
fn payer_pays_exactly_what_pool_side_receives() {
    let mut ctx = base_ctx();
    let before = ctx.clone();
    assert_eq!(handler(&mut ctx, args(3, 1_500)), Ok(()));
    let paid = before.payer_lamports - ctx.payer_lamports;
    let reserve_delta = ctx.buyside_sol_escrow_lamports - before.buyside_sol_escrow_lamports;
    let owner_delta = ctx.owner_lamports - before.owner_lamports;
    // 3 units at 500 plus a 2% fee of 30
    assert_eq!(paid, 1_530);
    assert_eq!(paid, reserve_delta + owner_delta);
    assert_eq!(owner_delta, 30);
}

#[test]
fn proceeds_go_to_owner_when_not_reinvesting() {
    let mut ctx = base_ctx();
    ctx.pool.reinvest = false;
    assert_eq!(handler(&mut ctx, args(1, 500)), Ok(()));
    // proceeds and fee both land with the owner; the reserve is untouched
    assert_eq!(ctx.owner_lamports, 1_000 + 510);
    assert_eq!(ctx.buyside_sol_escrow_lamports, 2_000);
    assert_eq!(ctx.payer_lamports, 10_000 - 510);
}

#[test]
fn price_exceeded_leaves_everything_unchanged() {
    let mut ctx = base_ctx();
    let before = ctx.clone();
    let r = handler(&mut ctx, args(1, 499));
    assert_eq!(r, Err(MMMErrorCode::PriceExceededError));
    assert_eq!(ctx, before);
}

#[test]
fn zero_ceiling_with_nonzero_price_fails() {
    let mut ctx = base_ctx();
    let before = ctx.clone();
    assert_eq!(
        handler(&mut ctx, args(1, 0)),
        Err(MMMErrorCode::PriceExceededError)
    );
    assert_eq!(ctx, before);
}

#[test]
fn exact_inventory_closes_escrow() {
    let mut ctx = base_ctx();
    let r = handler(&mut ctx, args(10, 5_100));
    assert_eq!(r, Ok(()));
    assert_eq!(ctx.sellside_escrow_token_account.amount, 0);
    assert!(!ctx.sellside_escrow_token_account.open);
    assert_eq!(ctx.pool.sellside_orders_count, 0);
    assert_eq!(ctx.payer_asset_amount, 10);
    assert!(ctx.check_wf());
}

#[test]
fn partial_fill_leaves_escrow_open() {
    let mut ctx = base_ctx();
    assert_eq!(handler(&mut ctx, args(9, 4_600)), Ok(()));
    assert_eq!(ctx.sellside_escrow_token_account.amount, 1);
    assert!(ctx.sellside_escrow_token_account.open);
}

#[test]
fn insufficient_inventory_is_rejected() {
    let mut ctx = base_ctx();
    let before = ctx.clone();
    let r = handler(&mut ctx, args(11, 6_000));
    assert_eq!(r, Err(MMMErrorCode::InsufficientInventoryError));
    assert_eq!(ctx, before);
}

#[test]
fn ineligible_asset_is_rejected_before_any_transfer() {
    let mut ctx = base_ctx();
    // the metadata record describes a different asset type
    ctx.asset_metadata = Some(AssetMetadata {
        mint: AccountId(99),
        collection: None,
    });
    let before = ctx.clone();
    let r = handler(&mut ctx, args(1, 500));
    assert_eq!(r, Err(MMMErrorCode::IneligibleAssetError));
    assert_eq!(ctx, before);
}

#[test]
fn owner_mismatch_is_rejected() {
    let mut ctx = base_ctx();
    ctx.owner = AccountId(77);
    let before = ctx.clone();
    assert_eq!(
        handler(&mut ctx, args(1, 500)),
        Err(MMMErrorCode::OwnerMismatchError)
    );
    assert_eq!(ctx, before);
}

#[test]
fn fungible_payment_pool_is_rejected() {
    let mut ctx = base_ctx();
    ctx.pool.payment_mint = PaymentMint::Fungible(AccountId(55));
    let before = ctx.clone();
    assert_eq!(
        handler(&mut ctx, args(1, 500)),
        Err(MMMErrorCode::PaymentMintMismatchError)
    );
    assert_eq!(ctx, before);
}

#[test]
fn missing_cosigner_signature_is_rejected() {
    let mut ctx = base_ctx();
    ctx.pool.cosigner = Some(AccountId(44));
    ctx.cosigner = AccountId(44);
    ctx.cosigner_is_signer = false;
    let before = ctx.clone();
    assert_eq!(
        handler(&mut ctx, args(1, 500)),
        Err(MMMErrorCode::AuthorizationError)
    );
    assert_eq!(ctx, before);
}

#[test]
fn cosigned_trade_settles() {
    let mut ctx = base_ctx();
    ctx.pool.cosigner = Some(AccountId(44));
    ctx.cosigner = AccountId(44);
    ctx.cosigner_is_signer = true;
    assert_eq!(handler(&mut ctx, args(1, 500)), Ok(()));
}

#[test]
fn payer_short_of_price_is_rejected() {
    let mut ctx = base_ctx();
    ctx.payer_lamports = 499;
    let before = ctx.clone();
    assert_eq!(
        handler(&mut ctx, args(1, 500)),
        Err(MMMErrorCode::InsufficientFundsError)
    );
    assert_eq!(ctx, before);
}

#[test]
fn payer_short_of_fee_is_rejected() {
    let mut ctx = base_ctx();
    // covers the 500 price but not the 10 fee
    ctx.payer_lamports = 505;
    let before = ctx.clone();
    assert_eq!(
        handler(&mut ctx, args(1, 500)),
        Err(MMMErrorCode::InsufficientFundsError)
    );
    assert_eq!(ctx, before);
}

#[test]
fn curve_overflow_is_rejected() {
    let mut ctx = base_ctx();
    ctx.pool.spot_price = u64::MAX;
    let before = ctx.clone();
    assert_eq!(
        handler(&mut ctx, args(2, u64::MAX)),
        Err(MMMErrorCode::ArithmeticError)
    );
    assert_eq!(ctx, before);
}

#[test]
fn fee_accumulator_overflow_is_rejected() {
    let mut ctx = base_ctx();
    ctx.pool.lp_fee_earned = u64::MAX;
    let before = ctx.clone();
    assert_eq!(
        handler(&mut ctx, args(1, 500)),
        Err(MMMErrorCode::ArithmeticError)
    );
    assert_eq!(ctx, before);
}

#[test]
fn zero_amount_trade_settles_without_effect_on_balances() {
    let mut ctx = base_ctx();
    assert_eq!(handler(&mut ctx, args(0, 0)), Ok(()));
    assert_eq!(ctx.payer_lamports, 10_000);
    assert_eq!(ctx.owner_lamports, 1_000);
    assert_eq!(ctx.buyside_sol_escrow_lamports, 2_000);
    assert_eq!(ctx.pool.sellside_orders_count, 10);
    assert!(ctx.sellside_escrow_token_account.open);
}

#[test]
fn fee_accumulator_is_monotonic_across_settlements() {
    let mut ctx = base_ctx();
    let mut last = ctx.pool.lp_fee_earned;
    // a successful trade, a refused one, then another success
    assert_eq!(handler(&mut ctx, args(2, 1_000)), Ok(()));
    assert!(ctx.pool.lp_fee_earned >= last);
    last = ctx.pool.lp_fee_earned;
    assert_eq!(
        handler(&mut ctx, args(1, 0)),
        Err(MMMErrorCode::PriceExceededError)
    );
    assert!(ctx.pool.lp_fee_earned >= last);
    last = ctx.pool.lp_fee_earned;
    assert_eq!(handler(&mut ctx, args(1, 500)), Ok(()));
    assert!(ctx.pool.lp_fee_earned >= last);
    assert_eq!(ctx.pool.lp_fee_earned, 30);
}

#[test]
fn exponential_curve_settlement_compounds_and_rounds_fee_down() {
    let mut ctx = base_ctx();
    ctx.pool.curve_kind = CurveKind::Exponential;
    ctx.pool.spot_price = 100;
    ctx.pool.curve_delta = 1000;
    // prices 100, 110, 121; fee: 2% of 331 = 6.62, rounded down
    assert_eq!(handler(&mut ctx, args(3, 331)), Ok(()));
    assert_eq!(ctx.payer_lamports, 10_000 - 337);
    assert_eq!(ctx.pool.lp_fee_earned, 6);
    assert_eq!(ctx.buyside_sol_escrow_lamports, 2_331);
    assert_eq!(ctx.owner_lamports, 1_006);
}

#[test]
fn ascending_curve_settlement_charges_the_summed_prices() {
    let mut ctx = base_ctx();
    ctx.pool.curve_delta = 100;
    // prices 500, 600, 700
    assert_eq!(handler(&mut ctx, args(3, 1_800)), Ok(()));
    // fee: 2% of 1800 = 36
    assert_eq!(ctx.payer_lamports, 10_000 - 1_836);
    assert_eq!(ctx.pool.lp_fee_earned, 36);
}
