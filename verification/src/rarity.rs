//! The rarity ladder: a total order over rarity tiers and the tables
//! keyed by tier (cooldown multiplier, reward multiplier,
//! evolution-success chance, next tier). Pure lookup, no state.

use vstd::prelude::*;
use crate::text::str_eq;

verus! {

/// A rarity tier. The ladder orders the tiers
/// Common < Uncommon < Rare < Epic < Legendary < Mythic < Divine.
#[derive(Clone, Copy, Debug, PartialEq, Eq, Structural)]
pub enum Rarity {
    Common,
    Uncommon,
    Rare,
    Epic,
    Legendary,
    Mythic,
    Divine,
}

impl Rarity {
    /// Position of a tier on the ladder: Common is 0, Divine is 6.
    pub open spec fn spec_ladder_rank(self) -> nat {
        match self {
            Rarity::Common => 0,
            Rarity::Uncommon => 1,
            Rarity::Rare => 2,
            Rarity::Epic => 3,
            Rarity::Legendary => 4,
            Rarity::Mythic => 5,
            Rarity::Divine => 6,
        }
    }

    /// Cooldown multiplier of a tier: scales the caller-supplied base
    /// cooldown in `update_nft_metadata`.
    pub open spec fn spec_cooldown_multiplier(self) -> int {
        match self {
            Rarity::Common => 1,
            Rarity::Uncommon => 2,
            Rarity::Rare => 3,
            Rarity::Epic => 4,
            Rarity::Legendary => 5,
            Rarity::Mythic => 6,
            Rarity::Divine => 6,
        }
    }

    /// Reward multiplier of a tier: scales the level gain into the
    /// informational `bonus_experience` attribute.
    pub open spec fn spec_reward_multiplier(self) -> int {
        match self {
            Rarity::Common => 1,
            Rarity::Uncommon => 2,
            Rarity::Rare => 3,
            Rarity::Epic => 4,
            Rarity::Legendary => 5,
            Rarity::Mythic => 6,
            Rarity::Divine => 6,
        }
    }

    /// Evolution-success chance of a tier, as an integer percentage.
    pub open spec fn spec_evolution_chance(self) -> int {
        match self {
            Rarity::Common => 100,
            Rarity::Uncommon => 85,
            Rarity::Rare => 70,
            Rarity::Epic => 50,
            Rarity::Legendary => 25,
            Rarity::Mythic => 10,
            Rarity::Divine => 10,
        }
    }

    /// The tier a successful evolution advances to. Divine is the
    /// ceiling and evolves into itself.
    pub open spec fn spec_next_tier(self) -> Rarity {
        match self {
            Rarity::Common => Rarity::Uncommon,
            Rarity::Uncommon => Rarity::Rare,
            Rarity::Rare => Rarity::Epic,
            Rarity::Epic => Rarity::Legendary,
            Rarity::Legendary => Rarity::Mythic,
            Rarity::Mythic => Rarity::Divine,
            Rarity::Divine => Rarity::Divine,
        }
    }

    pub fn cooldown_multiplier(&self) -> (m: i64)
        ensures
            m == self.spec_cooldown_multiplier(),
    {
        match self {
            Rarity::Common => 1,
            Rarity::Uncommon => 2,
            Rarity::Rare => 3,
            Rarity::Epic => 4,
            Rarity::Legendary => 5,
            Rarity::Mythic => 6,
            Rarity::Divine => 6,
        }
    }

    pub fn reward_multiplier(&self) -> (m: u64)
        ensures
            m == self.spec_reward_multiplier(),
    {
        match self {
            Rarity::Common => 1,
            Rarity::Uncommon => 2,
            Rarity::Rare => 3,
            Rarity::Epic => 4,
            Rarity::Legendary => 5,
            Rarity::Mythic => 6,
            Rarity::Divine => 6,
        }
    }

    pub fn evolution_chance(&self) -> (c: i64)
        ensures
            c == self.spec_evolution_chance(),
    {
        match self {
            Rarity::Common => 100,
            Rarity::Uncommon => 85,
            Rarity::Rare => 70,
            Rarity::Epic => 50,
            Rarity::Legendary => 25,
            Rarity::Mythic => 10,
            Rarity::Divine => 10,
        }
    }

    pub fn next_tier(&self) -> (r: Rarity)
        ensures
            r == self.spec_next_tier(),
    {
        match self {
            Rarity::Common => Rarity::Uncommon,
            Rarity::Uncommon => Rarity::Rare,
            Rarity::Rare => Rarity::Epic,
            Rarity::Epic => Rarity::Legendary,
            Rarity::Legendary => Rarity::Mythic,
            Rarity::Mythic => Rarity::Divine,
            Rarity::Divine => Rarity::Divine,
        }
    }

    /// The display label of a tier.
    pub open spec fn spec_label(self) -> Seq<char> {
        match self {
            Rarity::Common => "Common"@,
            Rarity::Uncommon => "Uncommon"@,
            Rarity::Rare => "Rare"@,
            Rarity::Epic => "Epic"@,
            Rarity::Legendary => "Legendary"@,
            Rarity::Mythic => "Mythic"@,
            Rarity::Divine => "Divine"@,
        }
    }

    pub fn label(&self) -> (s: String)
        ensures
            s@ == self.spec_label(),
    {
        let l: &str = match self {
            Rarity::Common => "Common",
            Rarity::Uncommon => "Uncommon",
            Rarity::Rare => "Rare",
            Rarity::Epic => "Epic",
            Rarity::Legendary => "Legendary",
            Rarity::Mythic => "Mythic",
            Rarity::Divine => "Divine",
        };
        l.to_owned()
    }

    /// The tier named by a label, if any.
    pub open spec fn spec_from_label(s: Seq<char>) -> Option<Rarity> {
        if s == "Common"@ {
            Some(Rarity::Common)
        } else if s == "Uncommon"@ {
            Some(Rarity::Uncommon)
        } else if s == "Rare"@ {
            Some(Rarity::Rare)
        } else if s == "Epic"@ {
            Some(Rarity::Epic)
        } else if s == "Legendary"@ {
            Some(Rarity::Legendary)
        } else if s == "Mythic"@ {
            Some(Rarity::Mythic)
        } else if s == "Divine"@ {
            Some(Rarity::Divine)
        } else {
            None
        }
    }

    pub fn from_label(s: &str) -> (r: Option<Rarity>)
        ensures
            r == Rarity::spec_from_label(s@),
    {
        if str_eq(s, "Common") {
            Some(Rarity::Common)
        } else if str_eq(s, "Uncommon") {
            Some(Rarity::Uncommon)
        } else if str_eq(s, "Rare") {
            Some(Rarity::Rare)
        } else if str_eq(s, "Epic") {
            Some(Rarity::Epic)
        } else if str_eq(s, "Legendary") {
            Some(Rarity::Legendary)
        } else if str_eq(s, "Mythic") {
            Some(Rarity::Mythic)
        } else if str_eq(s, "Divine") {
            Some(Rarity::Divine)
        } else {
            None
        }
    }
}

/// A successful evolution advances the rarity exactly one ladder step,
/// except at the Divine ceiling, which maps to itself.
pub proof fn lemma_next_tier_one_step(r: Rarity)
    ensures
        r == Rarity::Divine ==> r.spec_next_tier() == r,
        r != Rarity::Divine ==> r.spec_next_tier().spec_ladder_rank() == r.spec_ladder_rank() + 1,
        r.spec_next_tier().spec_ladder_rank() >= r.spec_ladder_rank(),
{
}

} // verus!
