//! The transition engine: the four state-transition operations (mint,
//! update, evolve, fuse). Each validates its preconditions against the
//! progression state and the rarity ladder, then produces the new state
//! together with the attribute set that the host hands to its external
//! attribute ledger. The engine is pure: time enters only as the
//! caller's clock reading, and the time-derived evolution roll is a
//! deterministic, reproducible check, not a secure random source.

use vstd::prelude::*;
use crate::achievement::{achievement_tier, spec_achievement_tier};
use crate::attributes::{entries, push_attr, Attribute};
use crate::rarity::Rarity;
use crate::state::NftState;
use crate::text::{i64_to_dec, spec_dec_int, spec_dec_nat, str_eq, u64_to_dec};

verus! {

/// A validation failure of one transition. Errors are detected before
/// any mutation; no partial update is ever committed.
#[derive(Clone, Copy, Debug, PartialEq, Eq, Structural)]
pub enum NftError {
    /// Update came before the rarity-scaled cooldown ran out.
    UpdateTooSoon,
    /// Update asked for a level at or below the current one.
    InvalidLevelProgression,
    /// Evolution's elapsed-time requirement is not met.
    EvolutionNotReady,
    /// Evolution's probability check came out against the caller.
    EvolutionFailed,
    /// Fusion named the same asset twice.
    CannotFuseSameNFT,
    /// Reserved; no transition currently raises it.
    FusionRequirementsNotMet,
    /// Reserved; no transition currently raises it.
    InvalidRarity,
    /// Reserved; no transition currently raises it.
    InsufficientAchievementPoints,
    /// Reserved; no transition currently raises it.
    TimeLockedFeature,
    /// Reserved; no transition currently raises it.
    FusionPotentialExhausted,
}

impl NftError {
    /// The human-readable description of an error.
    pub open spec fn spec_message(self) -> Seq<char> {
        match self {
            NftError::UpdateTooSoon => "Cannot update metadata too soon - cooldown period active"@,
            NftError::InvalidLevelProgression => "Level progression must be forward-only - cannot decrease level"@,
            NftError::EvolutionNotReady => "NFT is not ready for evolution - time requirement not met"@,
            NftError::EvolutionFailed => "Evolution failed - probability check unsuccessful"@,
            NftError::CannotFuseSameNFT => "Cannot fuse the same NFT with itself"@,
            NftError::FusionRequirementsNotMet => "Fusion requirements not met - check NFT compatibility"@,
            NftError::InvalidRarity => "Invalid rarity level specified"@,
            NftError::InsufficientAchievementPoints => "Achievement points insufficient for this action"@,
            NftError::TimeLockedFeature => "Time-locked feature - wait for unlock period"@,
            NftError::FusionPotentialExhausted => "Fusion potential exhausted"@,
        }
    }

    pub fn message(&self) -> (s: String)
        ensures
            s@ == self.spec_message(),
    {
        let m: &str = match self {
            NftError::UpdateTooSoon => "Cannot update metadata too soon - cooldown period active",
            NftError::InvalidLevelProgression => "Level progression must be forward-only - cannot decrease level",
            NftError::EvolutionNotReady => "NFT is not ready for evolution - time requirement not met",
            NftError::EvolutionFailed => "Evolution failed - probability check unsuccessful",
            NftError::CannotFuseSameNFT => "Cannot fuse the same NFT with itself",
            NftError::FusionRequirementsNotMet => "Fusion requirements not met - check NFT compatibility",
            NftError::InvalidRarity => "Invalid rarity level specified",
            NftError::InsufficientAchievementPoints => "Achievement points insufficient for this action",
            NftError::TimeLockedFeature => "Time-locked feature - wait for unlock period",
            NftError::FusionPotentialExhausted => "Fusion potential exhausted",
        };
        m.to_owned()
    }
}

/// Division that truncates toward zero, as the machine's signed
/// division does (the `/` of spec code rounds toward negative
/// infinity instead).
pub open spec fn trunc_div(a: int, b: int) -> int
    recommends
        b > 0,
{
    if a >= 0 {
        a / b
    } else {
        -((-a) / b)
    }
}

/// Remainder of division truncating toward zero: same sign as the
/// dividend.
pub open spec fn trunc_mod(a: int, b: int) -> int
    recommends
        b > 0,
{
    a - b * trunc_div(a, b)
}

/// The hour of day a timestamp falls in. For timestamps before the
/// epoch the machine's truncating division makes this zero or
/// negative; the golden-hour rule below reads it as computed.
pub open spec fn spec_mint_hour(t: int) -> int {
    trunc_mod(trunc_div(t, 3600), 24)
}

/// The rarity a mint actually records in its attribute set: minting
/// during hour 0 or hour 12 of the day (the golden hours) forces
/// Legendary regardless of the caller-supplied tier.
pub open spec fn spec_effective_rarity(rarity: Rarity, t: int) -> Rarity {
    if spec_mint_hour(t) == 0 || spec_mint_hour(t) == 12 {
        Rarity::Legendary
    } else {
        rarity
    }
}

/// The state a mint creates: the caller-supplied level, rarity and
/// fusion potential, both clocks at the mint time, and zeroed
/// counters. The golden-hour bonus shows only in the emitted
/// attribute set; the stored rarity stays the caller-supplied tier.
pub open spec fn spec_mint_state(
    level: u64,
    rarity: Rarity,
    fusion_potential: u64,
    asset: u64,
    t: i64,
) -> NftState {
    NftState {
        level,
        rarity,
        mint_date: t,
        last_updated: t,
        evolution_count: 0,
        fusion_potential,
        asset,
        achievement_points: 0,
    }
}

/// The attribute set a mint emits.
pub open spec fn spec_mint_attributes(
    level: u64,
    rarity: Rarity,
    fusion_potential: u64,
    t: i64,
) -> Seq<(Seq<char>, Seq<char>)> {
    seq![
        ("level"@, spec_dec_nat(level as nat)),
        ("rarity"@, spec_effective_rarity(rarity, t as int).spec_label()),
        ("mint_date"@, spec_dec_int(t as int)),
        ("fusion_potential"@, spec_dec_nat(fusion_potential as nat)),
        ("achievement_level"@, spec_achievement_tier(level).spec_label()),
        ("fusion_bonus"@, spec_dec_nat((fusion_potential * 10) as nat)),
        ("mint_hour"@, spec_dec_int(spec_mint_hour(t as int))),
    ]
}

/// Mints a new asset: creates its progression state and derives the
/// attribute set for the ledger. Mint has no failure modes; any
/// non-negative level and fusion potential are accepted.
pub fn mint_nft(level: u64, rarity: Rarity, fusion_potential: u64, asset: u64, t: i64) -> (r: (
    NftState,
    Vec<Attribute>,
))
    requires
        fusion_potential * 10 <= u64::MAX,
    ensures
        r.0 == spec_mint_state(level, rarity, fusion_potential, asset, t),
        entries(r.1@) == spec_mint_attributes(level, rarity, fusion_potential, t),
        r.0.wf(),
{
    let hour: i64 = (t / 3600) % 24;
    let effective_rarity: Rarity = if hour == 0 || hour == 12 {
        Rarity::Legendary
    } else {
        rarity
    };
    let tier = achievement_tier(level);
    let fusion_bonus: u64 = fusion_potential * 10;

    let mut attrs: Vec<Attribute> = Vec::new();
    push_attr(&mut attrs, "level", u64_to_dec(level));
    push_attr(&mut attrs, "rarity", effective_rarity.label());
    push_attr(&mut attrs, "mint_date", i64_to_dec(t));
    push_attr(&mut attrs, "fusion_potential", u64_to_dec(fusion_potential));
    push_attr(&mut attrs, "achievement_level", tier.label());
    push_attr(&mut attrs, "fusion_bonus", u64_to_dec(fusion_bonus));
    push_attr(&mut attrs, "mint_hour", i64_to_dec(hour));
    proof {
        assert(entries(attrs@) =~= spec_mint_attributes(level, rarity, fusion_potential, t));
    }

    let state = NftState {
        level,
        rarity,
        mint_date: t,
        last_updated: t,
        evolution_count: 0,
        fusion_potential,
        asset,
        achievement_points: 0,
    };
    (state, attrs)
}

/// The cooldown an update must wait out: the caller-supplied base,
/// scaled by the current rarity's cooldown multiplier.
pub open spec fn spec_required_cooldown(rarity: Rarity, min_time_elapsed: i64) -> int {
    min_time_elapsed * rarity.spec_cooldown_multiplier()
}

/// Whether an update at time `t` comes before the cooldown ran out.
pub open spec fn spec_update_too_soon(s: NftState, min_time_elapsed: i64, t: i64) -> bool {
    t < s.last_updated + spec_required_cooldown(s.rarity, min_time_elapsed)
}

/// The state a successful update leaves behind: the new level, the
/// update time, and — when a new rarity is supplied — that rarity,
/// set unconditionally, without ladder validation.
pub open spec fn spec_updated_state(
    s: NftState,
    new_level: u64,
    new_rarity: Option<Rarity>,
    t: i64,
) -> NftState {
    NftState {
        level: new_level,
        rarity: match new_rarity {
            Some(nr) => nr,
            None => s.rarity,
        },
        mint_date: s.mint_date,
        last_updated: t,
        evolution_count: s.evolution_count,
        fusion_potential: s.fusion_potential,
        asset: s.asset,
        achievement_points: s.achievement_points,
    }
}

/// The attribute set a successful update emits; the rarity entry
/// appears only when a new rarity was supplied.
pub open spec fn spec_update_attributes(
    s: NftState,
    new_level: u64,
    new_rarity: Option<Rarity>,
    t: i64,
) -> Seq<(Seq<char>, Seq<char>)> {
    let base = seq![
        ("level"@, spec_dec_nat(new_level as nat)),
        ("last_updated"@, spec_dec_int(t as int)),
        (
            "bonus_experience"@,
            spec_dec_nat(((new_level - s.level) * s.rarity.spec_reward_multiplier()) as nat),
        ),
        ("cooldown_multiplier"@, spec_dec_nat(s.rarity.spec_cooldown_multiplier() as nat)),
    ];
    match new_rarity {
        Some(nr) => base.push(("rarity"@, nr.spec_label())),
        None => base,
    }
}

/// Updates an asset's level, and optionally its rarity, after the
/// rarity-scaled cooldown has run out. Checked in order, first
/// failure wins: the cooldown check, then forward-only level
/// progression. A failed check leaves the state untouched.
pub fn update_nft_metadata(
    state: &mut NftState,
    new_level: u64,
    min_time_elapsed: i64,
    new_rarity: Option<Rarity>,
    t: i64,
) -> (r: Result<Vec<Attribute>, NftError>)
    requires
        i64::MIN <= spec_required_cooldown(old(state).rarity, min_time_elapsed) <= i64::MAX,
        i64::MIN <= old(state).last_updated + spec_required_cooldown(
            old(state).rarity,
            min_time_elapsed,
        ) <= i64::MAX,
        !spec_update_too_soon(*old(state), min_time_elapsed, t) && new_level > old(state).level
            ==> (new_level - old(state).level) * old(state).rarity.spec_reward_multiplier()
            <= u64::MAX,
    ensures
        spec_update_too_soon(*old(state), min_time_elapsed, t) ==> r == Err::<
            Vec<Attribute>,
            NftError,
        >(NftError::UpdateTooSoon) && *final(state) == *old(state),
        !spec_update_too_soon(*old(state), min_time_elapsed, t) && new_level <= old(state).level
            ==> r == Err::<Vec<Attribute>, NftError>(NftError::InvalidLevelProgression)
            && *final(state) == *old(state),
        !spec_update_too_soon(*old(state), min_time_elapsed, t) && new_level > old(state).level
            ==> (r matches Ok(attrs) && entries(attrs@) == spec_update_attributes(
            *old(state),
            new_level,
            new_rarity,
            t,
        )) && *final(state) == spec_updated_state(*old(state), new_level, new_rarity, t),
        r is Ok ==> final(state).level > old(state).level,
        r is Err ==> *final(state) == *old(state),
        r is Ok && old(state).wf() && min_time_elapsed >= 0 ==> final(state).wf(),
{
    let cooldown_multiplier: i64 = state.rarity.cooldown_multiplier();
    let required_cooldown: i64 = min_time_elapsed * cooldown_multiplier;
    if t < state.last_updated + required_cooldown {
        return Err(NftError::UpdateTooSoon);
    }
    if new_level <= state.level {
        return Err(NftError::InvalidLevelProgression);
    }

    let reward_multiplier: u64 = state.rarity.reward_multiplier();
    let level_gain: u64 = new_level - state.level;
    let bonus_experience: u64 = level_gain * reward_multiplier;

    let mut attrs: Vec<Attribute> = Vec::new();
    push_attr(&mut attrs, "level", u64_to_dec(new_level));
    push_attr(&mut attrs, "last_updated", i64_to_dec(t));
    push_attr(&mut attrs, "bonus_experience", u64_to_dec(bonus_experience));
    push_attr(&mut attrs, "cooldown_multiplier", u64_to_dec(cooldown_multiplier as u64));
    if let Some(nr) = new_rarity {
        push_attr(&mut attrs, "rarity", nr.label());
    }
    proof {
        assert(entries(attrs@) =~= spec_update_attributes(*old(state), new_level, new_rarity, t));
    }

    state.level = new_level;
    state.last_updated = t;
    if let Some(nr) = new_rarity {
        state.rarity = nr;
    }
    Ok(attrs)
}

/// The elapsed time an evolution requires: one day per current level,
/// discounted one hour per fusion-potential point. A large enough
/// fusion potential makes this negative, and a negative requirement
/// trivially passes the time check; the value is deliberately not
/// clamped.
pub open spec fn spec_required_evolution_time(s: NftState) -> int {
    s.level * 86400 - s.fusion_potential * 3600
}

/// Whether an evolution at time `t` comes before the elapsed-time
/// requirement is met.
pub open spec fn spec_evolution_not_ready(s: NftState, t: i64) -> bool {
    t - s.mint_date < spec_required_evolution_time(s)
}

/// The evolution roll: the timestamp's remainder modulo 100, a
/// deterministic, reproducible check. The roll fails when it exceeds
/// the current rarity's success chance.
pub open spec fn spec_evolution_roll(t: i64) -> int {
    trunc_mod(t as int, 100)
}

/// Whether the evolution roll at time `t` fails against the state's
/// success chance.
pub open spec fn spec_evolution_failed(s: NftState, t: i64) -> bool {
    spec_evolution_roll(t) > s.rarity.spec_evolution_chance()
}

/// The state a successful evolution leaves behind: one level gained,
/// the rarity advanced one ladder step, the update clock moved to the
/// evolution time, and the evolution count incremented.
pub open spec fn spec_evolved_state(s: NftState, t: i64) -> NftState {
    NftState {
        level: (s.level + 1) as u64,
        rarity: s.rarity.spec_next_tier(),
        mint_date: s.mint_date,
        last_updated: t,
        evolution_count: (s.evolution_count + 1) as u64,
        fusion_potential: s.fusion_potential,
        asset: s.asset,
        achievement_points: s.achievement_points,
    }
}

/// The attribute set a successful evolution emits.
pub open spec fn spec_evolve_attributes(s: NftState, t: i64) -> Seq<(Seq<char>, Seq<char>)> {
    seq![
        ("level"@, spec_dec_nat((s.level + 1) as nat)),
        ("rarity"@, s.rarity.spec_next_tier().spec_label()),
        ("evolved_at"@, spec_dec_int(t as int)),
        ("evolution_count"@, spec_dec_nat((s.evolution_count + 1) as nat)),
        ("fusion_bonus_used"@, spec_dec_nat((s.fusion_potential * 3600) as nat)),
        ("evolution_chance"@, spec_dec_nat(s.rarity.spec_evolution_chance() as nat)),
    ]
}

/// Evolves an asset. Evolution is driven entirely by elapsed time and
/// current state: the time check compares the time since mint against
/// the level-scaled requirement (less the fusion discount), then the
/// deterministic roll is held against the rarity's success chance.
/// A failed check leaves the state untouched.
pub fn evolve_nft(state: &mut NftState, t: i64) -> (r: Result<Vec<Attribute>, NftError>)
    requires
        old(state).level * 86400 <= i64::MAX,
        old(state).fusion_potential * 3600 <= i64::MAX,
        i64::MIN <= t - old(state).mint_date <= i64::MAX,
        !spec_evolution_not_ready(*old(state), t) && !spec_evolution_failed(*old(state), t)
            ==> old(state).evolution_count < u64::MAX,
    ensures
        spec_evolution_not_ready(*old(state), t) ==> r == Err::<Vec<Attribute>, NftError>(
            NftError::EvolutionNotReady,
        ) && *final(state) == *old(state),
        !spec_evolution_not_ready(*old(state), t) && spec_evolution_failed(*old(state), t) ==> r
            == Err::<Vec<Attribute>, NftError>(NftError::EvolutionFailed)
            && *final(state) == *old(state),
        !spec_evolution_not_ready(*old(state), t) && !spec_evolution_failed(*old(state), t) ==> (
        r matches Ok(attrs) && entries(attrs@) == spec_evolve_attributes(*old(state), t))
            && *final(state) == spec_evolved_state(*old(state), t),
        r is Ok ==> final(state).level == old(state).level + 1 && final(state).evolution_count
            == old(state).evolution_count + 1 && final(state).rarity
            == old(state).rarity.spec_next_tier(),
        r is Err ==> *final(state) == *old(state),
        r is Ok && old(state).wf() && spec_required_evolution_time(*old(state)) >= 0
            ==> final(state).wf(),
{
    let base_evolution_time: i64 = (state.level as i64) * 86400;
    let fusion_discount: i64 = (state.fusion_potential as i64) * 3600;
    let total_required_time: i64 = base_evolution_time - fusion_discount;
    let time_since_mint: i64 = t - state.mint_date;
    if time_since_mint < total_required_time {
        return Err(NftError::EvolutionNotReady);
    }

    let evolution_chance: i64 = state.rarity.evolution_chance();
    let roll: i64 = t % 100;
    if roll > evolution_chance {
        return Err(NftError::EvolutionFailed);
    }

    let new_level: u64 = state.level + 1;
    let evolved_rarity: Rarity = state.rarity.next_tier();
    let new_count: u64 = state.evolution_count + 1;

    let mut attrs: Vec<Attribute> = Vec::new();
    push_attr(&mut attrs, "level", u64_to_dec(new_level));
    push_attr(&mut attrs, "rarity", evolved_rarity.label());
    push_attr(&mut attrs, "evolved_at", i64_to_dec(t));
    push_attr(&mut attrs, "evolution_count", u64_to_dec(new_count));
    push_attr(&mut attrs, "fusion_bonus_used", u64_to_dec(fusion_discount as u64));
    push_attr(&mut attrs, "evolution_chance", u64_to_dec(evolution_chance as u64));
    proof {
        assert(entries(attrs@) =~= spec_evolve_attributes(*old(state), t));
    }

    state.level = new_level;
    state.rarity = evolved_rarity;
    state.last_updated = t;
    state.evolution_count = new_count;
    Ok(attrs)
}

/// The multiplier a fusion type stands for. An unrecognised label
/// silently falls back to 1; it is not an error.
pub open spec fn spec_fusion_multiplier(fusion_type: Seq<char>) -> int {
    if fusion_type == "Power"@ {
        2
    } else if fusion_type == "Speed"@ {
        3
    } else if fusion_type == "Magic"@ {
        4
    } else if fusion_type == "Legendary"@ {
        5
    } else {
        1
    }
}

pub fn fusion_multiplier(fusion_type: &str) -> (m: u64)
    ensures
        m == spec_fusion_multiplier(fusion_type@),
        1 <= m <= 5,
{
    if str_eq(fusion_type, "Power") {
        2
    } else if str_eq(fusion_type, "Speed") {
        3
    } else if str_eq(fusion_type, "Magic") {
        4
    } else if str_eq(fusion_type, "Legendary") {
        5
    } else {
        1
    }
}

/// The level a fusion combines two source levels into: their sum,
/// scaled by the fusion multiplier, halved with truncation.
pub open spec fn spec_combined_level(a: NftState, b: NftState, multiplier: int) -> int {
    (a.level + b.level) * multiplier / 2
}

/// The rarity a fusion produces: a matched pair of Rare or better
/// advances one tier past the pair (Legendary pairs reach Divine);
/// every other pairing coarsely falls back to Rare.
pub open spec fn spec_fusion_rarity(a: Rarity, b: Rarity) -> Rarity {
    if a == Rarity::Legendary && b == Rarity::Legendary {
        Rarity::Divine
    } else if a == Rarity::Epic && b == Rarity::Epic {
        Rarity::Legendary
    } else if a == Rarity::Rare && b == Rarity::Rare {
        Rarity::Epic
    } else {
        Rarity::Rare
    }
}

/// The state a fusion writes into the result asset's record. When the
/// result asset had no prior record, one is created at the fusion
/// time; an existing record keeps its creation time, identifier and
/// achievement points untouched.
pub open spec fn spec_fused_state(
    a: NftState,
    b: NftState,
    multiplier: int,
    prior: Option<NftState>,
    result_asset: u64,
    t: i64,
) -> NftState {
    NftState {
        level: spec_combined_level(a, b, multiplier) as u64,
        rarity: spec_fusion_rarity(a.rarity, b.rarity),
        mint_date: match prior {
            Some(p) => p.mint_date,
            None => t,
        },
        last_updated: t,
        evolution_count: (a.evolution_count + b.evolution_count) as u64,
        fusion_potential: (a.fusion_potential + b.fusion_potential + 1) as u64,
        asset: match prior {
            Some(p) => p.asset,
            None => result_asset,
        },
        achievement_points: match prior {
            Some(p) => p.achievement_points,
            None => 0,
        },
    }
}

/// The attribute set a successful fusion emits; the fusion type is
/// echoed back as given, recognised or not.
pub open spec fn spec_fuse_attributes(a: NftState, b: NftState, fusion_type: Seq<char>, t: i64) -> Seq<
    (Seq<char>, Seq<char>),
> {
    let multiplier = spec_fusion_multiplier(fusion_type);
    seq![
        ("level"@, spec_dec_nat(spec_combined_level(a, b, multiplier) as nat)),
        ("rarity"@, spec_fusion_rarity(a.rarity, b.rarity).spec_label()),
        ("fusion_type"@, fusion_type),
        ("fusion_potential"@, spec_dec_nat((a.fusion_potential + b.fusion_potential + 1) as nat)),
        ("fused_at"@, spec_dec_int(t as int)),
        ("fusion_multiplier"@, spec_dec_nat(multiplier as nat)),
    ]
}

/// Fuses two source assets into the result asset's record. Two
/// distinct source assets are required; naming the same asset twice
/// fails with `CannotFuseSameNFT` and writes nothing. On success the
/// returned record replaces the result asset's prior record (`prior`;
/// pass `None` when the result asset has none yet).
pub fn fuse_nfts(
    a: &NftState,
    b: &NftState,
    fusion_type: &str,
    prior: Option<NftState>,
    result_asset: u64,
    t: i64,
) -> (r: Result<(NftState, Vec<Attribute>), NftError>)
    requires
        a.asset != b.asset ==> (a.level + b.level) * spec_fusion_multiplier(fusion_type@)
            <= u64::MAX,
        a.asset != b.asset ==> a.fusion_potential + b.fusion_potential + 1 <= u64::MAX,
        a.asset != b.asset ==> a.evolution_count + b.evolution_count <= u64::MAX,
    ensures
        a.asset == b.asset <==> r == Err::<(NftState, Vec<Attribute>), NftError>(
            NftError::CannotFuseSameNFT,
        ),
        a.asset != b.asset ==> (r matches Ok(out) && out.0 == spec_fused_state(
            *a,
            *b,
            spec_fusion_multiplier(fusion_type@),
            prior,
            result_asset,
            t,
        ) && entries(out.1@) == spec_fuse_attributes(*a, *b, fusion_type@, t)),
        a.asset != b.asset && (prior matches Some(p) ==> p.mint_date <= t) ==> (r matches Ok(out)
            && out.0.wf()),
{
    if a.asset == b.asset {
        return Err(NftError::CannotFuseSameNFT);
    }

    let multiplier: u64 = fusion_multiplier(fusion_type);
    let combined_level: u64 = (a.level + b.level) * multiplier / 2;
    let fusion_potential: u64 = a.fusion_potential + b.fusion_potential + 1;
    let evolution_count: u64 = a.evolution_count + b.evolution_count;

    let rarity_bonus: Rarity = match (a.rarity, b.rarity) {
        (Rarity::Legendary, Rarity::Legendary) => Rarity::Divine,
        (Rarity::Epic, Rarity::Epic) => Rarity::Legendary,
        (Rarity::Rare, Rarity::Rare) => Rarity::Epic,
        _ => Rarity::Rare,
    };

    let mut attrs: Vec<Attribute> = Vec::new();
    push_attr(&mut attrs, "level", u64_to_dec(combined_level));
    push_attr(&mut attrs, "rarity", rarity_bonus.label());
    push_attr(&mut attrs, "fusion_type", fusion_type.to_owned());
    push_attr(&mut attrs, "fusion_potential", u64_to_dec(fusion_potential));
    push_attr(&mut attrs, "fused_at", i64_to_dec(t));
    push_attr(&mut attrs, "fusion_multiplier", u64_to_dec(multiplier));
    proof {
        assert(entries(attrs@) =~= spec_fuse_attributes(*a, *b, fusion_type@, t));
    }

    let state = match prior {
        Some(p) => NftState {
            level: combined_level,
            rarity: rarity_bonus,
            mint_date: p.mint_date,
            last_updated: t,
            evolution_count,
            fusion_potential,
            asset: p.asset,
            achievement_points: p.achievement_points,
        },
        None => NftState {
            level: combined_level,
            rarity: rarity_bonus,
            mint_date: t,
            last_updated: t,
            evolution_count,
            fusion_potential,
            asset: result_asset,
            achievement_points: 0,
        },
    };
    Ok((state, attrs))
}

/// Fusion treats its two sources symmetrically: swapping them yields
/// the same result record — the same combined level, fusion
/// potential and evolution count, and, the pairing table being
/// symmetric, the same rarity.
pub proof fn lemma_fuse_commutative(
    a: NftState,
    b: NftState,
    multiplier: int,
    prior: Option<NftState>,
    result_asset: u64,
    t: i64,
)
    ensures
        spec_fused_state(a, b, multiplier, prior, result_asset, t) == spec_fused_state(
            b,
            a,
            multiplier,
            prior,
            result_asset,
            t,
        ),
        spec_combined_level(a, b, multiplier) == spec_combined_level(b, a, multiplier),
        spec_fusion_rarity(a.rarity, b.rarity) == spec_fusion_rarity(b.rarity, a.rarity),
{
}

} // verus!
