use nft_minter::attributes::Attribute;
use nft_minter::engine::{evolve_nft, fuse_nfts, mint_nft, update_nft_metadata, NftError};
use nft_minter::rarity::Rarity;
use nft_minter::state::NftState;

fn entry(attrs: &[Attribute], key: &str) -> String {
    for a in attrs {
        if a.key == key {
            return a.value.clone();
        }
    }
    panic!("attribute {} not emitted", key);
}

fn state(level: u64, rarity: Rarity, mint_date: i64, fusion_potential: u64, asset: u64) -> NftState {
    NftState {
        level,
        rarity,
        mint_date,
        last_updated: mint_date,
        evolution_count: 0,
        fusion_potential,
        asset,
        achievement_points: 0,
    }
}

#[test]
fn mint_at_golden_hour_keeps_stored_rarity_but_emits_legendary() {
    let (s, attrs) = mint_nft(5, Rarity::Rare, 2, 7, 0);
    assert_eq!(s.level, 5);
    assert_eq!(s.rarity, Rarity::Rare);
    assert_eq!(s.mint_date, 0);
    assert_eq!(s.last_updated, 0);
    assert_eq!(s.evolution_count, 0);
    assert_eq!(s.fusion_potential, 2);
    assert_eq!(s.asset, 7);
    assert_eq!(s.achievement_points, 0);
    assert_eq!(entry(&attrs, "rarity"), "Legendary");
    assert_eq!(entry(&attrs, "mint_hour"), "0");
}

#[test]
fn mint_at_noon_is_golden_too() {
    let (_, attrs) = mint_nft(3, Rarity::Common, 0, 1, 12 * 3600);
    assert_eq!(entry(&attrs, "rarity"), "Legendary");
    assert_eq!(entry(&attrs, "mint_hour"), "12");
}

#[test]
fn mint_outside_golden_hours_keeps_caller_rarity() {
    let t = 5 * 3600 + 1234;
    let (s, attrs) = mint_nft(7, Rarity::Epic, 3, 9, t);
    assert_eq!(s.rarity, Rarity::Epic);
    assert_eq!(entry(&attrs, "rarity"), "Epic");
    assert_eq!(entry(&attrs, "mint_hour"), "5");
    assert_eq!(entry(&attrs, "level"), "7");
    assert_eq!(entry(&attrs, "mint_date"), t.to_string());
    assert_eq!(entry(&attrs, "fusion_potential"), "3");
    assert_eq!(entry(&attrs, "fusion_bonus"), "30");
}

#[test]
fn mint_attribute_order_matches_emission() {
    let (_, attrs) = mint_nft(1, Rarity::Common, 0, 1, 3 * 3600);
    let keys: Vec<&str> = attrs.iter().map(|a| a.key.as_str()).collect();
    assert_eq!(
        keys,
        vec![
            "level",
            "rarity",
            "mint_date",
            "fusion_potential",
            "achievement_level",
            "fusion_bonus",
            "mint_hour"
        ]
    );
}

#[test]
fn golden_hours_wrap_with_the_day() {
    // 23:59:59 is not golden; one second later the day wraps to hour 0.
    let (_, attrs) = mint_nft(1, Rarity::Common, 0, 1, 86399);
    assert_eq!(entry(&attrs, "mint_hour"), "23");
    assert_eq!(entry(&attrs, "rarity"), "Common");
    let (_, attrs) = mint_nft(1, Rarity::Common, 0, 1, 86400);
    assert_eq!(entry(&attrs, "mint_hour"), "0");
    assert_eq!(entry(&attrs, "rarity"), "Legendary");
}

#[test]
fn achievement_tiers_cover_all_brackets() {
    let t = 3 * 3600;
    for (level, tier) in [
        (0, "Grandmaster"),
        (1, "Novice"),
        (10, "Novice"),
        (11, "Apprentice"),
        (25, "Apprentice"),
        (26, "Expert"),
        (50, "Expert"),
        (51, "Master"),
        (75, "Master"),
        (76, "Grandmaster"),
        (1000, "Grandmaster"),
    ] {
        let (_, attrs) = mint_nft(level, Rarity::Common, 0, 1, t);
        assert_eq!(entry(&attrs, "achievement_level"), tier, "level {}", level);
    }
}

#[test]
fn update_too_soon_fails_and_leaves_state_alone() {
    // Rare scales the 100s base cooldown by 3: updates pass from 1300 on.
    let mut s = state(5, Rarity::Rare, 0, 0, 1);
    s.last_updated = 1000;
    let before = s;
    let r = update_nft_metadata(&mut s, 6, 100, None, 1299);
    assert_eq!(r.unwrap_err(), NftError::UpdateTooSoon);
    assert_eq!(s, before);
}

#[test]
fn update_exactly_at_the_deadline_passes() {
    let mut s = state(5, Rarity::Rare, 0, 0, 1);
    s.last_updated = 1000;
    let r = update_nft_metadata(&mut s, 6, 100, None, 1300);
    assert!(r.is_ok());
}

#[test]
fn update_level_must_move_forward() {
    let mut s = state(5, Rarity::Common, 0, 0, 1);
    let before = s;
    let r = update_nft_metadata(&mut s, 5, 0, None, 100);
    assert_eq!(r.unwrap_err(), NftError::InvalidLevelProgression);
    assert_eq!(s, before);
    let r = update_nft_metadata(&mut s, 4, 0, Some(Rarity::Divine), 100);
    assert_eq!(r.unwrap_err(), NftError::InvalidLevelProgression);
    assert_eq!(s, before);
}

#[test]
fn update_cooldown_is_checked_before_level() {
    let mut s = state(5, Rarity::Common, 0, 0, 1);
    let r = update_nft_metadata(&mut s, 5, 100, None, 50);
    assert_eq!(r.unwrap_err(), NftError::UpdateTooSoon);
}

#[test]
fn update_success_moves_level_and_clock() {
    let mut s = state(5, Rarity::Rare, 0, 0, 1);
    s.last_updated = 1000;
    let attrs = update_nft_metadata(&mut s, 9, 100, None, 1300).unwrap();
    assert_eq!(s.level, 9);
    assert_eq!(s.last_updated, 1300);
    assert_eq!(s.rarity, Rarity::Rare);
    assert_eq!(s.mint_date, 0);
    assert_eq!(entry(&attrs, "level"), "9");
    assert_eq!(entry(&attrs, "last_updated"), "1300");
    // Level gain 4 at reward multiplier 3.
    assert_eq!(entry(&attrs, "bonus_experience"), "12");
    assert_eq!(entry(&attrs, "cooldown_multiplier"), "3");
    assert!(!attrs.iter().any(|a| a.key == "rarity"));
}

#[test]
fn update_sets_supplied_rarity_even_backward() {
    let mut s = state(5, Rarity::Legendary, 0, 0, 1);
    let attrs = update_nft_metadata(&mut s, 6, 0, Some(Rarity::Common), 10).unwrap();
    assert_eq!(s.rarity, Rarity::Common);
    assert_eq!(entry(&attrs, "rarity"), "Common");
    // The multipliers were read from the rarity before the change.
    assert_eq!(entry(&attrs, "cooldown_multiplier"), "5");
    assert_eq!(entry(&attrs, "bonus_experience"), "5");
}

#[test]
fn update_negative_base_cooldown_allows_early_updates() {
    let mut s = state(1, Rarity::Uncommon, 0, 0, 1);
    s.last_updated = 1000;
    // Base -100 scaled by 2 lets an update 200 before the last one pass.
    let r = update_nft_metadata(&mut s, 2, -100, None, 800);
    assert!(r.is_ok());
    assert_eq!(s.last_updated, 800);
}

#[test]
fn evolve_one_day_per_level() {
    // One level, one day: evolution is ready exactly at 86400.
    let mut s = state(1, Rarity::Common, 0, 0, 1);
    let attrs = evolve_nft(&mut s, 86400).unwrap();
    assert_eq!(s.level, 2);
    assert_eq!(s.rarity, Rarity::Uncommon);
    assert_eq!(s.evolution_count, 1);
    assert_eq!(s.last_updated, 86400);
    assert_eq!(entry(&attrs, "level"), "2");
    assert_eq!(entry(&attrs, "rarity"), "Uncommon");
    assert_eq!(entry(&attrs, "evolved_at"), "86400");
    assert_eq!(entry(&attrs, "evolution_count"), "1");
    assert_eq!(entry(&attrs, "fusion_bonus_used"), "0");
    assert_eq!(entry(&attrs, "evolution_chance"), "100");
}

#[test]
fn evolve_not_ready_one_second_early() {
    let mut s = state(1, Rarity::Common, 0, 0, 1);
    let before = s;
    let r = evolve_nft(&mut s, 86399);
    assert_eq!(r.unwrap_err(), NftError::EvolutionNotReady);
    assert_eq!(s, before);
}

#[test]
fn evolve_fusion_potential_discounts_an_hour_each() {
    // Two levels need two days; 24 potential points discount one day.
    let mut s = state(2, Rarity::Common, 0, 24, 1);
    let attrs = evolve_nft(&mut s, 86400).unwrap();
    assert_eq!(s.level, 3);
    assert_eq!(entry(&attrs, "fusion_bonus_used"), "86400");
}

#[test]
fn evolve_negative_requirement_passes_at_once() {
    // The discount exceeds the base requirement; it is not clamped,
    // so evolution is ready from the mint time itself.
    let mut s = state(1, Rarity::Common, 500, 25, 1);
    let r = evolve_nft(&mut s, 500);
    assert!(r.is_ok());
    assert_eq!(s.level, 2);
}

#[test]
fn evolve_roll_above_chance_fails() {
    // Legendary evolves with chance 25; a timestamp ending in 99 rolls 99.
    let mut s = state(1, Rarity::Legendary, 0, 24, 1);
    let before = s;
    let r = evolve_nft(&mut s, 86499);
    assert_eq!(r.unwrap_err(), NftError::EvolutionFailed);
    assert_eq!(s, before);
    // The same state a second later rolls 0 and succeeds.
    let r = evolve_nft(&mut s, 86500);
    assert!(r.is_ok());
    assert_eq!(s.rarity, Rarity::Mythic);
}

#[test]
fn evolve_roll_equal_to_chance_passes() {
    // Epic evolves with chance 50: a roll of exactly 50 still passes,
    // 51 does not.
    let mut s = state(1, Rarity::Epic, 0, 24, 1);
    let r = evolve_nft(&mut s, 86450);
    assert!(r.is_ok());
    let mut s = state(1, Rarity::Epic, 0, 24, 1);
    let r = evolve_nft(&mut s, 86451);
    assert_eq!(r.unwrap_err(), NftError::EvolutionFailed);
}

#[test]
fn evolve_walks_the_whole_ladder_and_stops_at_divine() {
    let mut s = state(1, Rarity::Common, 0, 0, 1);
    let mut t: i64 = 0;
    let order = [
        Rarity::Uncommon,
        Rarity::Rare,
        Rarity::Epic,
        Rarity::Legendary,
        Rarity::Mythic,
        Rarity::Divine,
        Rarity::Divine,
    ];
    for (i, expected) in order.iter().enumerate() {
        t += 86400 * s.level as i64;
        t -= t % 100;  // roll 0 passes every chance threshold
        let r = evolve_nft(&mut s, t);
        assert!(r.is_ok(), "step {}", i);
        assert_eq!(s.rarity, *expected, "step {}", i);
        assert_eq!(s.evolution_count, (i + 1) as u64);
    }
}

#[test]
fn fuse_same_asset_fails_and_writes_nothing() {
    let a = state(10, Rarity::Rare, 0, 1, 5);
    let b = state(20, Rarity::Epic, 0, 2, 5);
    let r = fuse_nfts(&a, &b, "Power", None, 9, 100);
    assert_eq!(r.unwrap_err(), NftError::CannotFuseSameNFT);
}

#[test]
fn fuse_power_doubles_the_average() {
    let a = state(10, Rarity::Rare, 0, 1, 1);
    let b = state(20, Rarity::Rare, 0, 2, 2);
    let (s, attrs) = fuse_nfts(&a, &b, "Power", None, 3, 50).unwrap();
    assert_eq!(s.level, 30);
    assert_eq!(s.rarity, Rarity::Epic);
    assert_eq!(s.fusion_potential, 4);
    assert_eq!(s.evolution_count, 0);
    assert_eq!(s.mint_date, 50);
    assert_eq!(s.last_updated, 50);
    assert_eq!(s.asset, 3);
    assert_eq!(entry(&attrs, "level"), "30");
    assert_eq!(entry(&attrs, "rarity"), "Epic");
    assert_eq!(entry(&attrs, "fusion_type"), "Power");
    assert_eq!(entry(&attrs, "fusion_potential"), "4");
    assert_eq!(entry(&attrs, "fused_at"), "50");
    assert_eq!(entry(&attrs, "fusion_multiplier"), "2");
}

#[test]
fn fuse_multipliers_by_type() {
    let a = state(3, Rarity::Common, 0, 0, 1);
    let b = state(4, Rarity::Common, 0, 0, 2);
    for (ty, level) in [
        ("Power", 7u64),
        ("Speed", 10),
        ("Magic", 14),
        ("Legendary", 17),
        ("Anything", 3),
        ("", 3),
        ("power", 3),
    ] {
        let (s, _) = fuse_nfts(&a, &b, ty, None, 9, 0).unwrap();
        assert_eq!(s.level, level, "type {:?}", ty);
    }
}

#[test]
fn fuse_rarity_table() {
    for (ra, rb, out) in [
        (Rarity::Legendary, Rarity::Legendary, Rarity::Divine),
        (Rarity::Epic, Rarity::Epic, Rarity::Legendary),
        (Rarity::Rare, Rarity::Rare, Rarity::Epic),
        (Rarity::Common, Rarity::Common, Rarity::Rare),
        (Rarity::Uncommon, Rarity::Uncommon, Rarity::Rare),
        (Rarity::Mythic, Rarity::Mythic, Rarity::Rare),
        (Rarity::Divine, Rarity::Divine, Rarity::Rare),
        (Rarity::Legendary, Rarity::Epic, Rarity::Rare),
        (Rarity::Rare, Rarity::Epic, Rarity::Rare),
    ] {
        let a = state(1, ra, 0, 0, 1);
        let b = state(1, rb, 0, 0, 2);
        let (s, _) = fuse_nfts(&a, &b, "Power", None, 9, 0).unwrap();
        assert_eq!(s.rarity, out, "{:?}+{:?}", ra, rb);
    }
}

#[test]
fn fuse_swapping_sources_changes_nothing() {
    let a = state(11, Rarity::Epic, 0, 3, 1);
    let mut b = state(26, Rarity::Rare, 0, 5, 2);
    b.evolution_count = 4;
    let (s1, _) = fuse_nfts(&a, &b, "Magic", None, 9, 77).unwrap();
    let (s2, _) = fuse_nfts(&b, &a, "Magic", None, 9, 77).unwrap();
    assert_eq!(s1, s2);
}

#[test]
fn fuse_into_existing_record_keeps_its_mint_date() {
    let a = state(2, Rarity::Common, 0, 0, 1);
    let b = state(4, Rarity::Common, 0, 0, 2);
    let mut prior = state(50, Rarity::Divine, 123, 9, 9);
    prior.achievement_points = 42;
    let (s, _) = fuse_nfts(&a, &b, "Speed", Some(prior), 9, 1000).unwrap();
    assert_eq!(s.mint_date, 123);
    assert_eq!(s.last_updated, 1000);
    assert_eq!(s.asset, 9);
    assert_eq!(s.achievement_points, 42);
    assert_eq!(s.level, 9);
    assert_eq!(s.rarity, Rarity::Rare);
}

#[test]
fn fuse_sums_evolution_counts() {
    let mut a = state(2, Rarity::Common, 0, 0, 1);
    a.evolution_count = 3;
    let mut b = state(4, Rarity::Common, 0, 0, 2);
    b.evolution_count = 5;
    let (s, _) = fuse_nfts(&a, &b, "Junk", None, 9, 0).unwrap();
    assert_eq!(s.evolution_count, 8);
    assert_eq!(s.level, 3);  // (2 + 4) * 1 / 2, truncating
}

#[test]
fn fuse_truncates_odd_sums() {
    let a = state(1, Rarity::Common, 0, 0, 1);
    let b = state(2, Rarity::Common, 0, 0, 2);
    let (s, _) = fuse_nfts(&a, &b, "Unknown", None, 9, 0).unwrap();
    assert_eq!(s.level, 1);  // 3 * 1 / 2
}
