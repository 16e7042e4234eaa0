use vstd::prelude::*;

use crate::errors::MMMErrorCode;
use crate::state::{AccountId, Allowlist, AssetMetadata, CurveKind, Pool};

verus! {

// ---------------------------------------------------------------------------
// Authorization
// ---------------------------------------------------------------------------

/// The authorization rule: a trade is authorized when the pool requires no
/// cosigner, or when the supplied identity matches the configured one and
/// the transaction carries its signature.
pub open spec fn cosigner_ok(pool: Pool, cosigner: AccountId, cosigner_is_signer: bool) -> bool {
    match pool.cosigner {
        None => true,
        Some(required) => required == cosigner && cosigner_is_signer,
    }
}

/// Validates the pool's optional cosigner requirement.  No side effects.
pub fn check_cosigner(pool: &Pool, cosigner: AccountId, cosigner_is_signer: bool) -> (r: Result<
    (),
    MMMErrorCode,
>)
    ensures
        r is Ok <==> cosigner_ok(*pool, cosigner, cosigner_is_signer),
        r is Err ==> r == Err::<(), MMMErrorCode>(MMMErrorCode::AuthorizationError),
{
    match pool.cosigner {
        None => Ok(()),
        Some(required) => {
            if required == cosigner && cosigner_is_signer {
                Ok(())
            } else {
                Err(MMMErrorCode::AuthorizationError)
            }
        },
    }
}

// ---------------------------------------------------------------------------
// Eligibility
// ---------------------------------------------------------------------------

/// A metadata record is authentic for an asset type only if it names that
/// type; anything else is forged and must be rejected.
pub open spec fn metadata_authentic(meta: AssetMetadata, mint: AccountId) -> bool {
    meta.mint == mint
}

/// Whether one allowlist rule admits the offered asset.
pub open spec fn rule_matches(rule: Allowlist, mint: AccountId, meta: AssetMetadata) -> bool {
    match rule {
        Allowlist::Empty => false,
        Allowlist::Any => true,
        Allowlist::Mint(m) => m == mint,
        Allowlist::Collection(c) => match meta.collection {
            Some(membership) => membership.key == c && membership.verified,
            None => false,
        },
    }
}

/// The eligibility rule: the asset's metadata record must be present and
/// authentic, and at least one allowlist rule must admit the asset.
pub open spec fn asset_eligible(
    rules: Seq<Allowlist>,
    mint: AccountId,
    meta: Option<AssetMetadata>,
) -> bool {
    match meta {
        None => false,
        Some(m) => metadata_authentic(m, mint) && exists|i: int|
            0 <= i < rules.len() && rule_matches(rules[i], mint, m),
    }
}

/// Decides whether the offered asset may trade against the pool.  The
/// metadata record is validated as authentic for the asset type before any
/// rule is consulted.  No side effects.
pub fn check_allowlists_for_mint(
    allowlists: &Vec<Allowlist>,
    mint: AccountId,
    metadata: &Option<AssetMetadata>,
) -> (r: Result<(), MMMErrorCode>)
    ensures
        r is Ok <==> asset_eligible(allowlists@, mint, *metadata),
        r is Err ==> r == Err::<(), MMMErrorCode>(MMMErrorCode::IneligibleAssetError),
{
    let meta = match metadata {
        None => {
            return Err(MMMErrorCode::IneligibleAssetError);
        },
        Some(m) => m,
    };
    if meta.mint != mint {
        return Err(MMMErrorCode::IneligibleAssetError);
    }
    let mut i: usize = 0;
    while i < allowlists.len()
        invariant
            i <= allowlists.len(),
            metadata_authentic(*meta, mint),
            *metadata == Some(*meta),
            forall|j: int| 0 <= j < i ==> !rule_matches(allowlists@[j], mint, *meta),
        decreases allowlists.len() - i,
    {
        let matched = match allowlists[i] {
            Allowlist::Empty => false,
            Allowlist::Any => true,
            Allowlist::Mint(m) => m == mint,
            Allowlist::Collection(c) => match meta.collection {
                Some(membership) => membership.key == c && membership.verified,
                None => false,
            },
        };
        if matched {
            return Ok(());
        }
        i = i + 1;
    }
    Err(MMMErrorCode::IneligibleAssetError)
}

// ---------------------------------------------------------------------------
// Pricing curve
// ---------------------------------------------------------------------------

/// Price of the unit after one priced at `p`, on the given curve.  On the
/// sell side (the pool selling, `is_buy_side == false`) prices step upward;
/// on the buy side they step downward.
pub open spec fn next_unit_price(kind: CurveKind, delta: int, is_buy_side: bool, p: int) -> int {
    match kind {
        CurveKind::Linear => if is_buy_side {
            p - delta
        } else {
            p + delta
        },
        CurveKind::Exponential => if is_buy_side {
            (p * 10000) / (10000 + delta)
        } else {
            (p * (10000 + delta)) / 10000
        },
    }
}

/// Total price of `n` more units, the next one priced at `p`, with `total`
/// already accumulated.  `None` marks a hard arithmetic failure: a unit
/// price outside the representable range, or an accumulated total beyond
/// it — never saturation.
pub open spec fn total_price_from(
    kind: CurveKind,
    delta: int,
    is_buy_side: bool,
    p: int,
    total: int,
    n: nat,
) -> Option<int>
    decreases n,
{
    if n == 0 {
        Some(total)
    } else if p < 0 || p > u64::MAX || total + p > u64::MAX {
        None
    } else {
        total_price_from(
            kind,
            delta,
            is_buy_side,
            next_unit_price(kind, delta, is_buy_side, p),
            total + p,
            (n - 1) as nat,
        )
    }
}

/// Total price the pool charges (sell side) or pays (buy side) for `n`
/// units, starting from its configured spot price.
pub open spec fn total_price_spec(pool: Pool, n: nat, is_buy_side: bool) -> Option<int> {
    total_price_from(
        pool.curve_kind,
        pool.curve_delta as int,
        is_buy_side,
        pool.spot_price as int,
        0,
        n,
    )
}

/// A total that the curve defines is a sum of unit prices that each lie in
/// range, so it never falls below what was already accumulated.
pub proof fn lemma_total_price_from_lower_bound(
    kind: CurveKind,
    delta: int,
    is_buy_side: bool,
    p: int,
    total: int,
    n: nat,
    result: int,
)
    requires
        total <= u64::MAX,
        total_price_from(kind, delta, is_buy_side, p, total, n) == Some(result),
    ensures
        total <= result <= u64::MAX,
    decreases n,
{
    if n == 0 {
    } else {
        lemma_total_price_from_lower_bound(
            kind,
            delta,
            is_buy_side,
            next_unit_price(kind, delta, is_buy_side, p),
            total + p,
            (n - 1) as nat,
            result,
        );
    }
}

/// Accumulating more units from the same starting price never yields a
/// smaller defined total: every unit's price lies in range, so each step
/// adds a non-negative amount.
proof fn lemma_total_price_from_monotonic(
    kind: CurveKind,
    delta: int,
    is_buy_side: bool,
    p: int,
    total: int,
    m: nat,
    n: nat,
    tm: int,
    tn: int,
)
    requires
        m <= n,
        total <= u64::MAX,
        total_price_from(kind, delta, is_buy_side, p, total, m) == Some(tm),
        total_price_from(kind, delta, is_buy_side, p, total, n) == Some(tn),
    ensures
        tm <= tn,
    decreases m,
{
    if m == 0 {
        lemma_total_price_from_lower_bound(kind, delta, is_buy_side, p, total, n, tn);
    } else {
        lemma_total_price_from_monotonic(
            kind,
            delta,
            is_buy_side,
            next_unit_price(kind, delta, is_buy_side, p),
            total + p,
            (m - 1) as nat,
            (n - 1) as nat,
            tm,
            tn,
        );
    }
}

/// Law: the pricing curve is monotonic in quantity.  Whenever the curve
/// defines a total for both a smaller and a larger quantity, more units
/// never cost less, on either side of the trade.
pub proof fn lemma_total_price_monotonic_in_quantity(
    pool: Pool,
    m: nat,
    n: nat,
    is_buy_side: bool,
    tm: int,
    tn: int,
)
    requires
        m <= n,
        total_price_spec(pool, m, is_buy_side) == Some(tm),
        total_price_spec(pool, n, is_buy_side) == Some(tn),
    ensures
        tm <= tn,
{
    lemma_total_price_from_monotonic(
        pool.curve_kind,
        pool.curve_delta as int,
        is_buy_side,
        pool.spot_price as int,
        0,
        m,
        n,
        tm,
        tn,
    );
}

/// Computes the total price for `asset_amount` units against the pool's
/// pricing curve.  Deterministic and side-effect-free: the result is a
/// function of the pool's curve configuration, the quantity, and the
/// direction alone.  Any overflow or underflow in a unit price or in the
/// accumulated total is a hard failure.
pub fn get_sol_total_price(pool: &Pool, asset_amount: u64, is_buy_side: bool) -> (r: Result<
    u64,
    MMMErrorCode,
>)
    requires
        pool.wf(),
    ensures
        (match r {
            Ok(t) => total_price_spec(*pool, asset_amount as nat, is_buy_side) == Some(t as int),
            Err(e) => total_price_spec(*pool, asset_amount as nat, is_buy_side) is None && e
                == MMMErrorCode::ArithmeticError,
        }),
{
    let mut total: u64 = 0;
    let mut p: u64 = pool.spot_price;
    let mut i: u64 = 0;
    while i < asset_amount
        invariant
            i <= asset_amount,
            pool.wf(),
            total_price_from(
                pool.curve_kind,
                pool.curve_delta as int,
                is_buy_side,
                p as int,
                total as int,
                (asset_amount - i) as nat,
            ) == total_price_spec(*pool, asset_amount as nat, is_buy_side),
        decreases asset_amount - i,
    {
        let ghost m: nat = (asset_amount - i) as nat;
        let ghost k = pool.curve_kind;
        let ghost d: int = pool.curve_delta as int;
        let ghost np: int = next_unit_price(k, d, is_buy_side, p as int);
        proof {
            // one unfolding of the accumulation at the loop head
            assert(total_price_from(k, d, is_buy_side, p as int, total as int, m) == (if total
                as int + p as int > u64::MAX {
                None::<int>
            } else {
                total_price_from(k, d, is_buy_side, np, total as int + p as int, (m - 1) as nat)
            }));
        }
        if total > u64::MAX - p {
            return Err(MMMErrorCode::ArithmeticError);
        }
        total = total + p;
        i = i + 1;
        if i < asset_amount {
            match pool.curve_kind {
                CurveKind::Linear => {
                    if is_buy_side {
                        if p < pool.curve_delta {
                            proof {
                                assert(total_price_from(
                                    k,
                                    d,
                                    is_buy_side,
                                    np,
                                    total as int,
                                    (m - 1) as nat,
                                ) is None);
                            }
                            return Err(MMMErrorCode::ArithmeticError);
                        }
                        p = p - pool.curve_delta;
                    } else {
                        if p > u64::MAX - pool.curve_delta {
                            proof {
                                assert(total_price_from(
                                    k,
                                    d,
                                    is_buy_side,
                                    np,
                                    total as int,
                                    (m - 1) as nat,
                                ) is None);
                            }
                            return Err(MMMErrorCode::ArithmeticError);
                        }
                        p = p + pool.curve_delta;
                    }
                },
                CurveKind::Exponential => {
                    let mult: u128 = 10000 + (pool.curve_delta as u128);
                    if is_buy_side {
                        proof {
                            vstd::arithmetic::mul::lemma_mul_upper_bound(
                                p as int,
                                u64::MAX as int,
                                10000,
                                10000,
                            );
                            vstd::arithmetic::mul::lemma_mul_inequality(
                                10000,
                                10000 + pool.curve_delta as int,
                                p as int,
                            );
                            vstd::arithmetic::div_mod::lemma_div_is_ordered(
                                p as int * 10000,
                                p as int * (10000 + pool.curve_delta as int),
                                10000 + pool.curve_delta as int,
                            );
                            vstd::arithmetic::div_mod::lemma_div_by_multiple(
                                p as int,
                                10000 + pool.curve_delta as int,
                            );
                        }
                        let next: u128 = ((p as u128) * 10000) / mult;
                        p = next as u64;
                    } else {
                        proof {
                            vstd::arithmetic::mul::lemma_mul_upper_bound(
                                p as int,
                                u64::MAX as int,
                                10000 + pool.curve_delta as int,
                                20000,
                            );
                        }
                        let next: u128 = ((p as u128) * mult) / 10000;
                        if next > u64::MAX as u128 {
                            proof {
                                assert(total_price_from(
                                    k,
                                    d,
                                    is_buy_side,
                                    np,
                                    total as int,
                                    (m - 1) as nat,
                                ) is None);
                            }
                            return Err(MMMErrorCode::ArithmeticError);
                        }
                        p = next as u64;
                    }
                },
            }
            proof {
                assert(p as int == np);
            }
        }
    }
    Ok(total)
}

// ---------------------------------------------------------------------------
// Liquidity-provider fee
// ---------------------------------------------------------------------------

/// The liquidity-provider cut: the configured basis-point rate applied to
/// the trade's total price, rounded down.
pub open spec fn lp_fee_spec(lp_fee_bp: int, total_price: int) -> int {
    (total_price * lp_fee_bp) / 10000
}

/// Computes the liquidity-provider fee for a trade.  Deterministic and
/// side-effect-free: a function of the pool's configured fee rate and the
/// total price alone.  The reserve balance is part of the interface of the
/// settlement sequence but does not enter the fee formula.  With a valid
/// pool (fee rate at most 100%) the computation cannot fail and the fee
/// never exceeds the total price.
pub fn get_sol_lp_fee(
    pool: &Pool,
    _buyside_sol_escrow_balance: u64,
    total_price: u64,
) -> (r: Result<u64, MMMErrorCode>)
    requires
        pool.wf(),
    ensures
        (match r {
            Ok(f) => f as int == lp_fee_spec(pool.lp_fee_bp as int, total_price as int) && f
                <= total_price,
            Err(_) => false,
        }),
{
    proof {
        vstd::arithmetic::mul::lemma_mul_upper_bound(
            total_price as int,
            u64::MAX as int,
            pool.lp_fee_bp as int,
            10000,
        );
    }
    let fee128: u128 = ((total_price as u128) * (pool.lp_fee_bp as u128)) / 10000;
    proof {
        vstd::arithmetic::mul::lemma_mul_inequality(
            pool.lp_fee_bp as int,
            10000,
            total_price as int,
        );
        vstd::arithmetic::div_mod::lemma_div_is_ordered(
            total_price as int * pool.lp_fee_bp as int,
            total_price as int * 10000,
            10000,
        );
        vstd::arithmetic::div_mod::lemma_div_by_multiple(total_price as int, 10000);
        vstd::arithmetic::div_mod::lemma_div_pos_is_pos(
            total_price as int * pool.lp_fee_bp as int,
            10000,
        );
        vstd::arithmetic::mul::lemma_mul_nonnegative(total_price as int, pool.lp_fee_bp as int);
    }
    Ok(fee128 as u64)
}

} // verus!
