use loot_oracle::loot::{
    ChestItem, Enchant, Enchants, GameSettings, Goodie, LUCK_SCALE,
};
use loot_oracle::rng::{DotnetRng, MBIG};

fn settings(toggle: bool) -> GameSettings {
    GameSettings { cracked_golden_coconut: toggle }
}

fn enchant_entries(item: &ChestItem) -> Option<(Vec<(Enchant, i32)>, i32, i32)> {
    // A weapon's enchantment list with the weapon's nominal level and speed.
    match item {
        ChestItem::DwarfSword(e) => Some((e.0.clone(), 13, 4)),
        ChestItem::DwarfHammer(e) => Some((e.0.clone(), 13, -8)),
        ChestItem::DwarfDagger(e) => Some((e.0.clone(), 11, 3)),
        ChestItem::DragontoothCutlass(e) => Some((e.0.clone(), 13, 0)),
        ChestItem::DragontoothClub(e) => Some((e.0.clone(), 14, -8)),
        ChestItem::DragontoothShiv(e) => Some((e.0.clone(), 12, 0)),
        _ => None,
    }
}

fn is_minor(e: Enchant) -> bool {
    matches!(e, Enchant::Defense | Enchant::Weight | Enchant::SlimeGatherer)
}

fn is_major(e: Enchant) -> bool {
    matches!(
        e,
        Enchant::Attack | Enchant::CritChance | Enchant::Speed | Enchant::SlimeSlayer
            | Enchant::CritPower
    )
}

fn magnitude_ok(e: Enchant, v: i32, speed: i32) -> bool {
    match e {
        Enchant::Defense => (1..=2).contains(&v),
        Enchant::Weight => (-5..=-1).contains(&v),
        Enchant::SlimeGatherer | Enchant::SlimeSlayer => v == 0,
        Enchant::CritPower => v == 25 || v == 50 || v == 75,
        Enchant::CritChance => (1..=3).contains(&v),
        Enchant::Attack => (1..=5).contains(&v),
        Enchant::Speed => v >= 1 && v <= i32::max(1, 4 - speed),
    }
}

#[test]
fn resolving_twice_is_identical() {
    for seed in [-12, 0, 1, 7, 1000, 123456, i32::MIN, i32::MAX] {
        for toggle in [false, true] {
            for level in [1, 9] {
                let a = Goodie::generate(seed, settings(toggle), level, 0, LUCK_SCALE);
                let b = Goodie::generate(seed, settings(toggle), level, 0, LUCK_SCALE);
                assert_eq!(a, b);
                let c = ChestItem::generate_common(seed, settings(toggle));
                let d = ChestItem::generate_common(seed, settings(toggle));
                assert_eq!(c, d);
                let e = ChestItem::generate_rare(seed, settings(toggle));
                let f = ChestItem::generate_rare(seed, settings(toggle));
                assert_eq!(e, f);
            }
        }
    }
}

#[test]
fn toggle_off_excludes_contested_items() {
    for seed in 0..3000 {
        let common = ChestItem::generate_common(seed, settings(false));
        assert_ne!(common, ChestItem::GoldenCoconut);
        let rare = ChestItem::generate_rare(seed, settings(false));
        assert_ne!(rare, ChestItem::GoldenCoconuts);
    }
}

#[test]
fn toggle_on_reaches_contested_items() {
    let mut found_common = false;
    let mut found_rare = false;
    for seed in 0..10000 {
        if ChestItem::generate_common(seed, settings(true)) == ChestItem::GoldenCoconut {
            found_common = true;
        }
        if ChestItem::generate_rare(seed, settings(true)) == ChestItem::GoldenCoconuts {
            found_rare = true;
        }
        if found_common && found_rare {
            break;
        }
    }
    assert!(found_common);
    assert!(found_rare);
}

#[test]
fn enchantment_lists_have_the_right_shape() {
    for seed in 0..4000 {
        for toggle in [false, true] {
            for item in [
                ChestItem::generate_common(seed, settings(toggle)),
                ChestItem::generate_rare(seed, settings(toggle)),
            ] {
                if let Some((entries, _lvl, speed)) = enchant_entries(&item) {
                    assert!(entries.len() <= 2);
                    if entries.len() == 2 {
                        assert!(is_minor(entries[0].0));
                    }
                    if let Some(last) = entries.last() {
                        assert!(is_major(last.0));
                    }
                    for (e, v) in entries {
                        assert!(magnitude_ok(e, v, speed), "seed {}: {:?} {}", seed, e, v);
                    }
                }
            }
        }
    }
}

#[test]
fn chance_chest_threshold_lies_in_the_band() {
    for seed in 0..2000 {
        let min = LUCK_SCALE / 2;
        let max = 3 * LUCK_SCALE / 2;
        let g = Goodie::generate(seed, settings(false), 1, min, max);
        match g {
            Goodie::DragonTooth => panic!("resolver never yields a dragon tooth"),
            Goodie::CommonChest(_) | Goodie::RareChest(_) => {}
            Goodie::ChanceChest { minluck, .. } => {
                assert!(min <= minluck && minluck < max);
            }
        }
    }
}

#[test]
fn branches_follow_the_roll() {
    for seed in 0..500 {
        // The roll is sample/MBIG + 0.9 (or + 0.5 at level nine), far below
        // 2.0: a band that starts at 2.0 forces the rare branch, a band that
        // ends at 0.0 forces the common branch.
        let g = Goodie::generate(seed, settings(false), 1, 2 * LUCK_SCALE, 3 * LUCK_SCALE);
        assert!(matches!(g, Goodie::RareChest(_)));
        let g = Goodie::generate(seed, settings(false), 1, -LUCK_SCALE, 0);
        assert!(matches!(g, Goodie::CommonChest(_)));
        // A band covering the roll's whole range yields the undetermined
        // outcome.
        let g = Goodie::generate(seed, settings(false), 1, 0, 2 * LUCK_SCALE);
        assert!(matches!(g, Goodie::ChanceChest { .. }));
    }
}

#[test]
fn threshold_matches_the_roll_formula() {
    for seed in [3, 50, 777] {
        let sample = DotnetRng::new(seed).next() as i64;
        let g = Goodie::generate(seed, settings(false), 1, 0, 2 * LUCK_SCALE);
        match g {
            Goodie::ChanceChest { minluck, .. } => {
                assert_eq!(minluck, 10 * sample + 9 * MBIG as i64);
            }
            other => panic!("expected an undetermined outcome, got {:?}", other),
        }
        let g = Goodie::generate(seed, settings(false), 9, 0, 2 * LUCK_SCALE);
        match g {
            Goodie::ChanceChest { minluck, .. } => {
                assert_eq!(minluck, 10 * sample + 5 * MBIG as i64);
            }
            other => panic!("expected an undetermined outcome, got {:?}", other),
        }
    }
}

#[test]
fn branch_chests_match_the_tier_generators() {
    for seed in 0..300 {
        let g = Goodie::generate(seed, settings(true), 1, 0, 2 * LUCK_SCALE);
        match g {
            Goodie::ChanceChest { common, rare, .. } => {
                assert_eq!(common, ChestItem::generate_common(seed, settings(true)));
                assert_eq!(rare, ChestItem::generate_rare(seed, settings(true)));
            }
            other => panic!("expected an undetermined outcome, got {:?}", other),
        }
    }
}

#[test]
fn scenario_seed_one_resolves_to_recorded_value() {
    // Seed 1, toggle off, level 1, luck bounds covering 0.0 to 1.0: the
    // recorded outcome for this generator.
    let g = Goodie::generate(1, settings(false), 1, 0, LUCK_SCALE);
    assert_eq!(g, Goodie::CommonChest(ChestItem::CinderShards3));
}

#[test]
fn recorded_common_and_rare_items() {
    let c = ChestItem::generate_common(2024, settings(false));
    let r = ChestItem::generate_rare(2024, settings(false));
    assert_eq!(
        (c, r),
        (ChestItem::ProtectionRing, ChestItem::DragontoothClub(Enchants(vec![]))),
    );
}

#[test]
fn recorded_weapon_with_two_enchantments() {
    // The first seed whose common chest is a weapon with a two-entry
    // enchantment list, with the entries it carries.
    let mut found: Option<(i32, ChestItem)> = None;
    for seed in 0..5000 {
        let item = ChestItem::generate_common(seed, settings(false));
        if let Some((entries, _, _)) = enchant_entries(&item) {
            if entries.len() == 2 {
                found = Some((seed, item));
                break;
            }
        }
    }
    let expected = ChestItem::DwarfHammer(Enchants(vec![
        (Enchant::Weight, -4),
        (Enchant::Speed, 6),
    ]));
    assert_eq!(found, Some((4, expected.clone())));
    assert_eq!(expected.to_text(), "Dwarf Hammer (-4 Weight, +6 Speed)");
}
