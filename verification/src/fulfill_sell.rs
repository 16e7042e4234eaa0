use vstd::prelude::*;

use crate::errors::MMMErrorCode;
use crate::state::{AccountId, AssetMetadata, Pool, TokenEscrow, derive_authority};
use crate::util::{
    asset_eligible, check_allowlists_for_mint, check_cosigner, cosigner_ok, get_sol_lp_fee,
    get_sol_total_price, lemma_total_price_from_lower_bound, lp_fee_spec, total_price_spec,
};

verus! {

/// A caller's trade request: how many units to buy and the most the caller
/// is willing to pay in total (the slippage ceiling).
#[derive(Clone, Copy, Debug, PartialEq, Eq)]
pub struct FulfillSellArgs {
    pub asset_amount: u64,
    pub max_payment_amount: u64,
}

/// The consistent snapshot of every account a settlement touches, bound for
/// the duration of one execution: the paying caller, the pool's owner, the
/// optional cosigner, the pool record, the two escrow accounts, and the
/// offered asset with its metadata.  Balances are in the ledger's native
/// currency units, asset holdings in asset units.
#[derive(Clone, Debug, PartialEq, Eq)]
pub struct FulfillSell {
    /// The buyer; pays the price and the fee, receives the asset units.
    pub payer: AccountId,
    pub payer_lamports: u64,
    /// The pool's owner account as supplied with the request.
    pub owner: AccountId,
    pub owner_lamports: u64,
    /// The cosigner identity supplied with the request, and whether the
    /// transaction carries its signature.
    pub cosigner: AccountId,
    pub cosigner_is_signer: bool,
    /// The pool being traded against.
    pub pool: Pool,
    /// Balance of the pool's currency reserve escrow.
    pub buyside_sol_escrow_lamports: u64,
    /// The asset type offered in the trade.
    pub asset_mint: AccountId,
    /// The asset's descriptive metadata record, if one was resolved.
    pub asset_metadata: Option<AssetMetadata>,
    /// The pool's inventory escrow holding the sell-side asset units.
    pub sellside_escrow_token_account: TokenEscrow,
    /// Balance of the caller's asset-holding account (created on demand).
    pub payer_asset_amount: u64,
}

impl FulfillSell {
    /// Well-formedness of a settlement snapshot: the pool configuration is
    /// valid, the pool's inventory counter equals the balance actually held
    /// in its inventory escrow, the escrow answers to the pool's derived
    /// authority, and a reclaimed escrow holds nothing.
    pub open spec fn wf(self) -> bool {
        &&& self.pool.wf()
        &&& self.pool.sellside_orders_count == self.sellside_escrow_token_account.amount
        &&& self.sellside_escrow_token_account.authority == self.pool.authority()
        &&& (!self.sellside_escrow_token_account.open
            ==> self.sellside_escrow_token_account.amount == 0)
    }

    /// Runtime check of `wf`, for callers outside the verified library that
    /// must establish it before asking for a settlement.
    pub fn check_wf(&self) -> (r: bool)
        ensures
            r == self.wf(),
    {
        let authority = derive_authority(self.pool.owner, self.pool.uuid);
        self.pool.check_wf() && self.pool.sellside_orders_count
            == self.sellside_escrow_token_account.amount && self.sellside_escrow_token_account.authority
            == authority && (self.sellside_escrow_token_account.open
            || self.sellside_escrow_token_account.amount == 0)
    }
}

/// Whether crediting the trade proceeds would overflow the receiving
/// balance: the reserve escrow when the pool reinvests, the owner otherwise.
pub open spec fn proceeds_credit_overflows(ctx: FulfillSell, total: int) -> bool {
    if ctx.pool.reinvest {
        ctx.buyside_sol_escrow_lamports + total > u64::MAX
    } else {
        ctx.owner_lamports + total > u64::MAX
    }
}

/// The owner's balance once the proceeds leg has settled.
pub open spec fn owner_after_proceeds(ctx: FulfillSell, total: int) -> int {
    if ctx.pool.reinvest {
        ctx.owner_lamports as int
    } else {
        ctx.owner_lamports + total
    }
}

/// The snapshot after a fully successful settlement of `args` against
/// `ctx`, where `total` is the computed total price and `fee` the
/// liquidity-provider fee: the payer pays `total + fee`, the proceeds go to
/// the reserve or the owner per the reinvest flag, the fee always to the
/// owner, the asset units move to the payer, the inventory escrow is
/// reclaimed exactly when fully depleted, and the pool's counters commit.
pub open spec fn settled_state(
    ctx: FulfillSell,
    args: FulfillSellArgs,
    total: int,
    fee: int,
) -> FulfillSell {
    FulfillSell {
        payer_lamports: (ctx.payer_lamports - total - fee) as u64,
        owner_lamports: (owner_after_proceeds(ctx, total) + fee) as u64,
        buyside_sol_escrow_lamports: if ctx.pool.reinvest {
            (ctx.buyside_sol_escrow_lamports + total) as u64
        } else {
            ctx.buyside_sol_escrow_lamports
        },
        sellside_escrow_token_account: TokenEscrow {
            amount: (ctx.sellside_escrow_token_account.amount - args.asset_amount) as u64,
            open: ctx.sellside_escrow_token_account.open
                && ctx.sellside_escrow_token_account.amount != args.asset_amount,
            authority: ctx.sellside_escrow_token_account.authority,
        },
        payer_asset_amount: (ctx.payer_asset_amount + args.asset_amount) as u64,
        pool: Pool {
            sellside_orders_count: (ctx.pool.sellside_orders_count - args.asset_amount) as u64,
            lp_fee_earned: (ctx.pool.lp_fee_earned + fee) as u64,
            ..ctx.pool
        },
        ..ctx
    }
}

/// The complete outcome of evaluating one settlement against one snapshot:
/// either the settled snapshot, or the single tagged reason the trade is
/// refused.  The gates run in the fixed settlement order — owner, payment
/// mint, authorization, eligibility, price, slippage ceiling, then each
/// value-transfer leg and the counter commit — and the first failing gate
/// decides the error.
pub open spec fn settlement_outcome(ctx: FulfillSell, args: FulfillSellArgs) -> Result<
    FulfillSell,
    MMMErrorCode,
> {
    if ctx.owner != ctx.pool.owner {
        Err(MMMErrorCode::OwnerMismatchError)
    } else if !(ctx.pool.payment_mint is Native) {
        Err(MMMErrorCode::PaymentMintMismatchError)
    } else if !cosigner_ok(ctx.pool, ctx.cosigner, ctx.cosigner_is_signer) {
        Err(MMMErrorCode::AuthorizationError)
    } else if !asset_eligible(ctx.pool.allowlists@, ctx.asset_mint, ctx.asset_metadata) {
        Err(MMMErrorCode::IneligibleAssetError)
    } else {
        match total_price_spec(ctx.pool, args.asset_amount as nat, false) {
            None => Err(MMMErrorCode::ArithmeticError),
            Some(total) => {
                if total > args.max_payment_amount {
                    Err(MMMErrorCode::PriceExceededError)
                } else {
                    let fee = lp_fee_spec(ctx.pool.lp_fee_bp as int, total);
                    if ctx.payer_lamports < total {
                        Err(MMMErrorCode::InsufficientFundsError)
                    } else if proceeds_credit_overflows(ctx, total) {
                        Err(MMMErrorCode::ArithmeticError)
                    } else if ctx.sellside_escrow_token_account.amount < args.asset_amount {
                        Err(MMMErrorCode::InsufficientInventoryError)
                    } else if ctx.payer_asset_amount + args.asset_amount > u64::MAX {
                        Err(MMMErrorCode::ArithmeticError)
                    } else if ctx.payer_lamports - total < fee {
                        Err(MMMErrorCode::InsufficientFundsError)
                    } else if owner_after_proceeds(ctx, total) + fee > u64::MAX {
                        Err(MMMErrorCode::ArithmeticError)
                    } else if ctx.pool.lp_fee_earned + fee > u64::MAX {
                        Err(MMMErrorCode::ArithmeticError)
                    } else {
                        Ok(settled_state(ctx, args, total, fee))
                    }
                }
            },
        }
    }
}

/// Settles one sell-side trade: the caller buys `args.asset_amount` units
/// from the pool's inventory at the curve price, under the pool's
/// authorization and eligibility rules.  The whole operation is atomic: on
/// any error the snapshot is left exactly as it was, and on success every
/// leg has settled.
pub fn handler(ctx: &mut FulfillSell, args: FulfillSellArgs) -> (r: Result<(), MMMErrorCode>)
    requires
        old(ctx).wf(),
    ensures
        (match r {
            Ok(()) => settlement_outcome(*old(ctx), args) == Ok::<FulfillSell, MMMErrorCode>(
                *final(ctx),
            ),
            Err(e) => settlement_outcome(*old(ctx), args) == Err::<FulfillSell, MMMErrorCode>(e)
                && *final(ctx) == *old(ctx),
        }),
        final(ctx).wf(),
        // the payer pays exactly the total price plus the fee
        r is Ok ==> (total_price_spec(old(ctx).pool, args.asset_amount as nat, false) matches Some(
            total,
        ) && old(ctx).payer_lamports - final(ctx).payer_lamports == total + lp_fee_spec(
            old(ctx).pool.lp_fee_bp as int,
            total,
        )),
        // what the payer pays is exactly what the reserve and the owner receive
        r is Ok ==> old(ctx).payer_lamports - final(ctx).payer_lamports == (
        final(ctx).buyside_sol_escrow_lamports - old(ctx).buyside_sol_escrow_lamports) + (
        final(ctx).owner_lamports - old(ctx).owner_lamports),
        // the split: proceeds to the reserve or the owner per the reinvest
        // flag, the fee always to the owner
        r is Ok ==> (total_price_spec(old(ctx).pool, args.asset_amount as nat, false) matches Some(
            total,
        ) && {
            let fee = lp_fee_spec(old(ctx).pool.lp_fee_bp as int, total);
            if old(ctx).pool.reinvest {
                &&& final(ctx).buyside_sol_escrow_lamports == old(ctx).buyside_sol_escrow_lamports
                    + total
                &&& final(ctx).owner_lamports == old(ctx).owner_lamports + fee
            } else {
                &&& final(ctx).buyside_sol_escrow_lamports == old(
                    ctx,
                ).buyside_sol_escrow_lamports
                &&& final(ctx).owner_lamports == old(ctx).owner_lamports + total + fee
            }
        }),
        // inventory accounting: the counter drops by exactly the traded amount
        r is Ok ==> final(ctx).pool.sellside_orders_count == old(ctx).pool.sellside_orders_count
            - args.asset_amount,
        r is Ok ==> final(ctx).sellside_escrow_token_account.amount == old(
            ctx,
        ).sellside_escrow_token_account.amount - args.asset_amount,
        // a request beyond the available inventory never settles
        r is Ok ==> args.asset_amount <= old(ctx).sellside_escrow_token_account.amount,
        // the asset units land with the payer
        r is Ok ==> final(ctx).payer_asset_amount == old(ctx).payer_asset_amount
            + args.asset_amount,
        // the inventory escrow is reclaimed exactly when fully depleted
        r is Ok ==> (final(ctx).sellside_escrow_token_account.open <==> (old(
            ctx,
        ).sellside_escrow_token_account.open && old(ctx).sellside_escrow_token_account.amount
            != args.asset_amount)),
        // the fee accumulator never decreases
        final(ctx).pool.lp_fee_earned >= old(ctx).pool.lp_fee_earned,
{
    // Gates before any transfer: each failure aborts with no effect.
    if ctx.owner != ctx.pool.owner {
        return Err(MMMErrorCode::OwnerMismatchError);
    }
    match ctx.pool.payment_mint {
        crate::state::PaymentMint::Native => {},
        _ => {
            return Err(MMMErrorCode::PaymentMintMismatchError);
        },
    }
    match check_cosigner(&ctx.pool, ctx.cosigner, ctx.cosigner_is_signer) {
        Ok(()) => {},
        Err(e) => {
            return Err(e);
        },
    }
    match check_allowlists_for_mint(&ctx.pool.allowlists, ctx.asset_mint, &ctx.asset_metadata) {
        Ok(()) => {},
        Err(e) => {
            return Err(e);
        },
    }
    let total_price: u64 = match get_sol_total_price(&ctx.pool, args.asset_amount, false) {
        Ok(t) => t,
        Err(e) => {
            return Err(e);
        },
    };
    if total_price > args.max_payment_amount {
        return Err(MMMErrorCode::PriceExceededError);
    }
    let lp_fee: u64 = match get_sol_lp_fee(&ctx.pool, ctx.buyside_sol_escrow_lamports, total_price)
        {
        Ok(f) => f,
        Err(e) => {
            return Err(e);
        },
    };
    // Validate every transfer leg and the counter commit before any balance
    // moves: the host's transaction boundary makes the real sequence atomic,
    // so an aborted settlement leaves no observable effect.
    if ctx.payer_lamports < total_price {
        return Err(MMMErrorCode::InsufficientFundsError);
    }
    if ctx.pool.reinvest {
        if ctx.buyside_sol_escrow_lamports > u64::MAX - total_price {
            return Err(MMMErrorCode::ArithmeticError);
        }
    } else {
        if ctx.owner_lamports > u64::MAX - total_price {
            return Err(MMMErrorCode::ArithmeticError);
        }
    }
    if ctx.sellside_escrow_token_account.amount < args.asset_amount {
        return Err(MMMErrorCode::InsufficientInventoryError);
    }
    if ctx.payer_asset_amount > u64::MAX - args.asset_amount {
        return Err(MMMErrorCode::ArithmeticError);
    }
    if ctx.payer_lamports - total_price < lp_fee {
        return Err(MMMErrorCode::InsufficientFundsError);
    }
    let owner_after: u64 = if ctx.pool.reinvest {
        ctx.owner_lamports
    } else {
        ctx.owner_lamports + total_price
    };
    if owner_after > u64::MAX - lp_fee {
        return Err(MMMErrorCode::ArithmeticError);
    }
    if ctx.pool.lp_fee_earned > u64::MAX - lp_fee {
        return Err(MMMErrorCode::ArithmeticError);
    }
    // Commit.  The pool's derived authority moves the inventory; no held
    // private key is involved.
    let authority = derive_authority(ctx.pool.owner, ctx.pool.uuid);
    // Currency leg: proceeds to the reserve escrow or directly to the owner.
    ctx.payer_lamports = ctx.payer_lamports - total_price;
    if ctx.pool.reinvest {
        ctx.buyside_sol_escrow_lamports = ctx.buyside_sol_escrow_lamports + total_price;
    } else {
        ctx.owner_lamports = ctx.owner_lamports + total_price;
    }
    // Asset leg: units leave the inventory escrow for the caller's account.
    ctx.sellside_escrow_token_account.transfer_out(&authority, args.asset_amount);
    ctx.payer_asset_amount = ctx.payer_asset_amount + args.asset_amount;
    // Reclaim the escrow if the debit emptied it.
    ctx.sellside_escrow_token_account.maybe_reclaim(&authority);
    // Fee leg: always to the owner, skipped entirely when zero.
    if lp_fee > 0 {
        ctx.payer_lamports = ctx.payer_lamports - lp_fee;
        ctx.owner_lamports = ctx.owner_lamports + lp_fee;
    }
    // Commit accounting.
    ctx.pool.sellside_orders_count = ctx.pool.sellside_orders_count - args.asset_amount;
    ctx.pool.lp_fee_earned = ctx.pool.lp_fee_earned + lp_fee;
    Ok(())
}

/// One settlement attempt taking the snapshot `pre` to `post`: a successful
/// settlement applies its full effect, a refused one leaves the snapshot
/// unchanged.
pub open spec fn settles_to(pre: FulfillSell, args: FulfillSellArgs, post: FulfillSell) -> bool {
    match settlement_outcome(pre, args) {
        Ok(s) => post == s,
        Err(_) => post == pre,
    }
}

/// Law: a single settlement attempt, successful or refused, never decreases
/// the pool's fee accumulator.
pub proof fn lemma_settlement_fee_step(pre: FulfillSell, args: FulfillSellArgs, post: FulfillSell)
    requires
        settles_to(pre, args, post),
    ensures
        post.pool.lp_fee_earned >= pre.pool.lp_fee_earned,
{
    match settlement_outcome(pre, args) {
        Ok(_) => {
            let total = total_price_spec(pre.pool, args.asset_amount as nat, false)->Some_0;
            lemma_total_price_from_lower_bound(
                pre.pool.curve_kind,
                pre.pool.curve_delta as int,
                false,
                pre.pool.spot_price as int,
                0,
                args.asset_amount as nat,
                total,
            );
            vstd::arithmetic::mul::lemma_mul_nonnegative(total, pre.pool.lp_fee_bp as int);
            vstd::arithmetic::div_mod::lemma_div_pos_is_pos(
                total * pre.pool.lp_fee_bp as int,
                10000,
            );
        },
        Err(_) => {},
    }
}

/// Law: the pool's fee accumulator is monotonically non-decreasing across
/// any sequence of settlement attempts.  `states` is the chain of
/// snapshots, `requests` the attempts taking each snapshot to the next.
pub proof fn lemma_lp_fee_earned_monotonic(states: Seq<FulfillSell>, requests: Seq<FulfillSellArgs>)
    requires
        states.len() == requests.len() + 1,
        forall|i: int|
            0 <= i < requests.len() ==> settles_to(states[i], #[trigger] requests[i], states[i + 1]),
    ensures
        forall|i: int, j: int|
            #![trigger states[i].pool.lp_fee_earned, states[j].pool.lp_fee_earned]
            0 <= i <= j < states.len() ==> states[i].pool.lp_fee_earned
                <= states[j].pool.lp_fee_earned,
    decreases requests.len(),
{
    let n = requests.len() as int;
    if n > 0 {
        let prev_states = states.subrange(0, n);
        let prev_requests = requests.subrange(0, n - 1);
        assert forall|i: int| 0 <= i < prev_requests.len() implies settles_to(
            prev_states[i],
            #[trigger] prev_requests[i],
            prev_states[i + 1],
        ) by {
            assert(prev_requests[i] == requests[i]);
            assert(prev_states[i] == states[i]);
            assert(prev_states[i + 1] == states[i + 1]);
        }
        lemma_lp_fee_earned_monotonic(prev_states, prev_requests);
        lemma_settlement_fee_step(states[n - 1], requests[n - 1], states[n]);
        assert forall|i: int, j: int|
            #![trigger states[i].pool.lp_fee_earned, states[j].pool.lp_fee_earned]
            0 <= i <= j < states.len() implies states[i].pool.lp_fee_earned
            <= states[j].pool.lp_fee_earned by {
            if j < n {
                assert(prev_states[i] == states[i]);
                assert(prev_states[j] == states[j]);
                assert(prev_states[i].pool.lp_fee_earned <= prev_states[j].pool.lp_fee_earned);
            } else if i < j {
                assert(prev_states[i] == states[i]);
                assert(prev_states[n - 1] == states[n - 1]);
                assert(prev_states[i].pool.lp_fee_earned <= prev_states[n - 1].pool.lp_fee_earned);
            }
        }
    }
}

} // verus!
