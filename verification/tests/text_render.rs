use loot_oracle::loot::{ChestItem, Enchant, Enchants, GameSettings};

#[test]
fn plain_items_render_their_names() {
    assert_eq!(ChestItem::CinderShards3.to_text(), "Cinder Shard (3)");
    assert_eq!(ChestItem::TaroTuber.to_text(), "Taro Tuber (8)");
    assert_eq!(ChestItem::PineappleSeeds.to_text(), "Pineapple Seeds (5)");
    assert_eq!(ChestItem::GoldenCoconuts.to_text(), "Golden Coconut (3)");
    assert_eq!(ChestItem::CinderShards10.to_text(), "Cinder Shard (10)");
    assert_eq!(ChestItem::DeluxePirateHat.to_text(), "Deluxe Pirate Hat");
    assert_eq!(ChestItem::OstrichEgg.to_text(), "Ostrich Egg");
}

#[test]
fn weapons_without_enchantments_have_no_suffix() {
    let sword = ChestItem::DwarfSword(Enchants(vec![]));
    assert_eq!(sword.to_text(), "Dwarf Sword");
    assert_eq!(Enchants(vec![]).to_text(), "");
}

#[test]
fn enchantment_suffix_lists_signed_magnitudes() {
    let e = Enchants(vec![(Enchant::Defense, 2), (Enchant::Attack, 3)]);
    assert_eq!(e.to_text(), " (+2 Defense, +3 Attack)");
    let club = ChestItem::DragontoothClub(Enchants(vec![
        (Enchant::Weight, -5),
        (Enchant::CritPower, 75),
    ]));
    assert_eq!(club.to_text(), "Dragontooth Club (-5 Weight, +75 Crit. Power)");
}

#[test]
fn zero_magnitude_entries_render_without_a_number() {
    let e = Enchants(vec![(Enchant::SlimeGatherer, 0), (Enchant::SlimeSlayer, 0)]);
    assert_eq!(e.to_text(), " (Slime Gatherer, Slime Slayer)");
    let shiv = ChestItem::DragontoothShiv(Enchants(vec![(Enchant::SlimeSlayer, 0)]));
    assert_eq!(shiv.to_text(), "Dragontooth Shiv (Slime Slayer)");
}

#[test]
fn single_major_enchantment_renders_alone() {
    let dagger = ChestItem::DwarfDagger(Enchants(vec![(Enchant::Speed, 1)]));
    assert_eq!(dagger.to_text(), "Dwarf Dagger (+1 Speed)");
    let hammer = ChestItem::DwarfHammer(Enchants(vec![(Enchant::CritChance, 2)]));
    assert_eq!(hammer.to_text(), "Dwarf Hammer (+2 Crit. Chance)");
}

#[test]
fn icon_keys_are_stable_per_variant() {
    let bare = ChestItem::DwarfSword(Enchants(vec![]));
    let loaded = ChestItem::DwarfSword(Enchants(vec![
        (Enchant::Defense, 1),
        (Enchant::CritPower, 50),
    ]));
    assert_eq!(bare.get_icon(), loaded.get_icon());
    assert_eq!(bare.get_icon(), "dwarf_sword");
    let cutlass_a = ChestItem::DragontoothCutlass(Enchants(vec![(Enchant::Attack, 5)]));
    let cutlass_b = ChestItem::DragontoothCutlass(Enchants(vec![(Enchant::Weight, -1)]));
    assert_eq!(cutlass_a.get_icon(), cutlass_b.get_icon());
    assert_eq!(cutlass_a.get_icon(), "dragontooth_cutlass");
}

#[test]
fn icon_keys_cover_the_tables() {
    assert_eq!(ChestItem::CinderShards3.get_icon(), "cinder_shard");
    assert_eq!(ChestItem::CinderShards10.get_icon(), "cinder_shard");
    assert_eq!(ChestItem::GoldenCoconut.get_icon(), "golden_coconut");
    assert_eq!(ChestItem::GoldenCoconuts.get_icon(), "golden_coconut");
    assert_eq!(ChestItem::TaroTuber.get_icon(), "taro_tuber");
    assert_eq!(ChestItem::PineappleSeeds.get_icon(), "pineapple_seeds");
    assert_eq!(ChestItem::ProtectionRing.get_icon(), "protection_ring");
    assert_eq!(ChestItem::SoulSapperRing.get_icon(), "soul_sapper_ring");
    assert_eq!(ChestItem::MermaidBoots.get_icon(), "mermaid_boots");
    assert_eq!(ChestItem::DragonscaleBoots.get_icon(), "dragonscale_boots");
    assert_eq!(ChestItem::PhoenixRing.get_icon(), "phoenix_ring");
    assert_eq!(ChestItem::HotJavaRing.get_icon(), "hot_java_ring");
    assert_eq!(ChestItem::DeluxePirateHat.get_icon(), "deluxe_pirate_hat");
    assert_eq!(ChestItem::OstrichEgg.get_icon(), "ostrich_egg");
}

#[test]
fn generated_weapons_render_cleanly() {
    // Rendering a generated item never panics and starts with the weapon's
    // name.
    for seed in 0..500 {
        let item = ChestItem::generate_common(seed, GameSettings { cracked_golden_coconut: true });
        let text = item.to_text();
        assert!(!text.is_empty());
        if let ChestItem::DwarfHammer(_) = item {
            assert!(text.starts_with("Dwarf Hammer"));
        }
    }
}
