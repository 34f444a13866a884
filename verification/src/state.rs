//! The progression state: the mutable record the engine keeps for one
//! asset.

use vstd::prelude::*;
use vstd::string::StringExecFns;
use crate::rarity::Rarity;
use crate::text::{lemma_dec_nat_injective, spec_dec_nat, u64_to_dec};

verus! {

/// The progression record of one asset.
///
/// The host's system of record owns one such record per asset,
/// addressed by `asset`; the engine receives it, validates, and
/// returns it updated. The asset identifier is an opaque value to the
/// engine: it is only ever compared for equality.
#[derive(Clone, Copy, Debug, PartialEq, Eq, Structural)]
pub struct NftState {
    /// Current level; never decreases within one record's lifetime.
    pub level: u64,
    /// Current rarity tier.
    pub rarity: Rarity,
    /// Timestamp of creation; immutable after creation.
    pub mint_date: i64,
    /// Timestamp of the last update or evolution.
    pub last_updated: i64,
    /// Number of successful evolutions; sums on fusion.
    pub evolution_count: u64,
    /// Accumulating counter that discounts future evolution time.
    pub fusion_potential: u64,
    /// The owning asset's identifier; immutable and unique per record.
    pub asset: u64,
    /// Reserved; no transition currently reads or writes it.
    pub achievement_points: u64,
}

impl NftState {
    /// A record is well formed when its update clock never ran behind
    /// its creation time.
    pub open spec fn wf(self) -> bool {
        self.last_updated >= self.mint_date
    }
}

/// The storage key the host's system of record files a progression
/// record under: a fixed namespace prefix concatenated with the asset
/// identifier.
pub open spec fn spec_state_key(asset: u64) -> Seq<char> {
    "nft_state_"@ + spec_dec_nat(asset as nat)
}

/// Derives the storage key of an asset's record. The derivation is
/// deterministic, so lookups are idempotent across calls.
pub fn state_key(asset: u64) -> (k: String)
    ensures
        k@ == spec_state_key(asset),
{
    let mut k = "nft_state_".to_owned();
    let d = u64_to_dec(asset);
    k.append(d.as_str());
    k
}

/// Distinct assets never collide on a storage key.
pub proof fn lemma_state_key_injective(a: u64, b: u64)
    requires
        spec_state_key(a) == spec_state_key(b),
    ensures
        a == b,
{
    let p = "nft_state_"@;
    assert(spec_dec_nat(a as nat) =~= spec_state_key(a).skip(p.len() as int));
    assert(spec_dec_nat(b as nat) =~= spec_state_key(b).skip(p.len() as int));
    lemma_dec_nat_injective(a as nat, b as nat);
}

impl Default for NftState {
    fn default() -> (s: NftState)
        ensures
            s == (NftState {
                level: 0,
                rarity: Rarity::Common,
                mint_date: 0,
                last_updated: 0,
                evolution_count: 0,
                fusion_potential: 0,
                asset: 0,
                achievement_points: 0,
            }),
    {
        NftState {
            level: 0,
            rarity: Rarity::Common,
            mint_date: 0,
            last_updated: 0,
            evolution_count: 0,
            fusion_potential: 0,
            asset: 0,
            achievement_points: 0,
        }
    }
}

} // verus!
