use vstd::prelude::*;

verus! {

/// Identity of an account on the surrounding ledger (a pool, an owner, a
/// payer, an asset type).  The engine only ever compares identities, so a
/// plain integer carries everything the logic reads.
#[derive(Clone, Copy, Debug, PartialEq, Eq, Structural)]
pub struct AccountId(pub u64);

/// The currency a pool settles in.  `Native` is the sentinel for the
/// ledger's native currency, distinct from every fungible-currency type.
#[derive(Clone, Copy, Debug, PartialEq, Eq, Structural)]
pub enum PaymentMint {
    Native,
    Fungible(AccountId),
}

/// Shape of the pricing curve a pool is configured with.
#[derive(Clone, Copy, Debug, PartialEq, Eq, Structural)]
pub enum CurveKind {
    /// Each successive unit's price differs from the previous one by
    /// `curve_delta` currency units.
    Linear,
    /// Each successive unit's price differs from the previous one by
    /// `curve_delta` basis points of it.
    Exponential,
}

/// One eligibility rule of a pool's allowlist.
#[derive(Clone, Copy, Debug, PartialEq, Eq, Structural)]
pub enum Allowlist {
    /// An unset slot; matches no asset.
    Empty,
    /// Matches exactly the asset type with this identifier.
    Mint(AccountId),
    /// Matches any asset whose metadata carries a verified membership in
    /// this collection.
    Collection(AccountId),
    /// Matches every asset.
    Any,
}

/// A collection membership recorded on an asset's metadata.  Only a
/// membership whose `verified` flag is set counts for eligibility.
#[derive(Clone, Copy, Debug, PartialEq, Eq)]
pub struct CollectionMembership {
    pub key: AccountId,
    pub verified: bool,
}

/// The descriptive metadata record offered with an asset.  A record is
/// authentic for an asset type only if its `mint` field names that type;
/// a mismatched record is forged and must be rejected.
#[derive(Clone, Copy, Debug, PartialEq, Eq)]
pub struct AssetMetadata {
    /// The asset type this record claims to describe.
    pub mint: AccountId,
    /// The collection the asset belongs to, if any.
    pub collection: Option<CollectionMembership>,
}

/// Capability standing for the pool's derived signing authority: it can be
/// derived only from the pool's own addressing seeds (owner, pool uuid), and
/// the custody operations on the pool's escrow accept exactly this value.
/// No private key exists for it.
#[derive(Clone, Copy, Debug, PartialEq, Eq, Structural)]
pub struct AuthorityProof {
    pub owner: AccountId,
    pub pool_uuid: AccountId,
}

/// The authority that controls a pool addressed by `(owner, uuid)`.
pub open spec fn authority_of(owner: AccountId, pool_uuid: AccountId) -> AuthorityProof {
    AuthorityProof { owner, pool_uuid }
}

/// Derives the pool's signing authority from its addressing seeds.  The
/// derivation is a pure function: the same seeds always yield the same
/// capability.
pub fn derive_authority(owner: AccountId, pool_uuid: AccountId) -> (r: AuthorityProof)
    ensures
        r == authority_of(owner, pool_uuid),
{
    AuthorityProof { owner, pool_uuid }
}

/// Custodial holding account for units of one asset type.  Its balance moves
/// only under the controlling authority, and the account is reclaimed
/// (closed) once its balance reaches zero.
#[derive(Clone, Copy, Debug, PartialEq, Eq)]
pub struct TokenEscrow {
    pub amount: u64,
    pub open: bool,
    pub authority: AuthorityProof,
}

impl TokenEscrow {
    /// Debits `amount` units from the escrow.  Only the controlling
    /// authority can move value out; a zero-unit debit is a no-op and is
    /// allowed even on a reclaimed account.
    pub fn transfer_out(&mut self, auth: &AuthorityProof, amount: u64)
        requires
            *auth == old(self).authority,
            amount <= old(self).amount,
            old(self).open || amount == 0,
        ensures
            final(self).amount == old(self).amount - amount,
            final(self).open == old(self).open,
            final(self).authority == old(self).authority,
    {
        self.amount = self.amount - amount;
    }

    /// Reclaims the account if its balance has reached zero, returning its
    /// storage to the pool's owner; otherwise leaves it untouched.  Invoked
    /// after every debit.
    pub fn maybe_reclaim(&mut self, auth: &AuthorityProof)
        requires
            *auth == old(self).authority,
        ensures
            final(self).amount == old(self).amount,
            final(self).authority == old(self).authority,
            final(self).open == (old(self).open && old(self).amount != 0),
    {
        if self.amount == 0 {
            self.open = false;
        }
    }
}

/// Persistent record of a pool's configuration and accounting counters.
#[derive(Clone, Debug, PartialEq, Eq)]
pub struct Pool {
    /// The pool's creator; proceeds and fees are paid to this identity.
    pub owner: AccountId,
    /// Pool-unique identifier; together with `owner` it addresses the pool.
    pub uuid: AccountId,
    /// Optional secondary authorization identity required on trades.
    pub cosigner: Option<AccountId>,
    /// Currency the pool settles in.
    pub payment_mint: PaymentMint,
    /// Whether sale proceeds accrue to the pool's currency reserve rather
    /// than being paid out to the owner immediately.
    pub reinvest: bool,
    /// Eligibility rules restricting which assets may trade against the pool.
    pub allowlists: Vec<Allowlist>,
    /// Pricing-curve shape.
    pub curve_kind: CurveKind,
    /// Price of the first unit on the curve.
    pub spot_price: u64,
    /// Step of the curve: currency units (linear) or basis points
    /// (exponential).
    pub curve_delta: u64,
    /// Liquidity-provider fee rate in basis points of the total price.
    pub lp_fee_bp: u16,
    /// Count of asset units currently held in the pool's inventory escrow.
    pub sellside_orders_count: u64,
    /// Accumulated liquidity-provider fees; never decreases.
    pub lp_fee_earned: u64,
}

impl Pool {
    /// Configuration validity, established at pool creation and preserved by
    /// every instruction: the fee rate is at most 100%, and an exponential
    /// step is at most 100% so that per-unit price growth stays bounded.
    pub open spec fn wf(self) -> bool {
        &&& self.lp_fee_bp <= 10000
        &&& (self.curve_kind is Exponential ==> self.curve_delta <= 10000)
    }

    /// The signing authority of this pool's escrow accounts.
    pub open spec fn authority(self) -> AuthorityProof {
        authority_of(self.owner, self.uuid)
    }

    /// Runtime check of `wf`, for callers outside the verified library that
    /// must establish it before asking for a settlement.
    pub fn check_wf(&self) -> (r: bool)
        ensures
            r == self.wf(),
    {
        let delta_ok = match self.curve_kind {
            CurveKind::Exponential => self.curve_delta <= 10000,
            CurveKind::Linear => true,
        };
        self.lp_fee_bp <= 10000 && delta_ok
    }
}

} // verus!
