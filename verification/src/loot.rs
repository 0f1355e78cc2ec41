//! The loot decision engine: resolves what a companion creature's treasure
//! chest will hold, given the seed the game will draw from at the moment of
//! opening.
//!
//! Everything here is a pure function of the seed and the settings. Each
//! query seeds its own generator; the common and the rare branch each reseed
//! an independent generator from the same original seed, exactly as the game
//! recomputes each branch from scratch.
//!
//! Luck bounds and roll thresholds are exact fixed-point numbers: a value of
//! `v` stands for a luck multiplier of `v / LUCK_SCALE`. The roll drawn for a
//! chest is `sample / MBIG - offset + 1` in real terms, which in these units
//! is the exact integer `10 * sample + (10 - 10 * offset) * MBIG`.

use crate::rng::{
    range_draw, rng_from_seed, rng_wf, sample_of, step, DotnetRng, RngModel, EIGHTH_CUT, HALF_CUT,
    MBIG,
};
use vstd::prelude::*;

verus! {

/// Number of redraws the rejection-sampling loops allow before giving up and
/// accepting the draw as it stands. The game's own loop is unbounded; at one
/// redraw per generator draw, exhausting this counter would need 2^64
/// consecutive draws to land on the one contested index, which no 32-bit
/// seed comes anywhere near.
pub const SELECT_TRIES: u64 = 0xffff_ffff_ffff_ffff;

/// One fixed-point luck unit is `1 / LUCK_SCALE` of a luck multiplier; this
/// constant is `10 * MBIG`, so a multiplier of `1.0` is `LUCK_SCALE`.
pub const LUCK_SCALE: i64 = 21474836470;

/// Feature toggles the decision engine reads.
#[derive(Clone, Copy, Debug, PartialEq, Eq)]
pub struct GameSettings {
    /// Whether the contested reward (the golden coconut, normally excluded
    /// once its unique unlock has been obtained) is eligible.
    pub cracked_golden_coconut: bool,
}

/// An innate enchantment a weapon can carry.
#[derive(Clone, Copy, Debug, PartialEq, Eq)]
pub enum Enchant {
    Defense,
    Weight,
    SlimeGatherer,
    SlimeSlayer,
    CritPower,
    CritChance,
    Attack,
    Speed,
}

/// List of (enchant, level). The levels are stored as the number the game
/// displays, not the raw internal level (25-75 for crit. power, negative for
/// weight).
#[derive(Clone, Debug, PartialEq)]
pub struct Enchants(pub Vec<(Enchant, i32)>);

impl View for Enchants {
    type V = Seq<(Enchant, i32)>;

    open spec fn view(&self) -> Seq<(Enchant, i32)> {
        self.0@
    }
}

/// Possible contents of one chest (common or rare tier).
#[derive(Clone, Debug, PartialEq)]
pub enum ChestItem {
    CinderShards3,
    GoldenCoconut,
    TaroTuber,
    PineappleSeeds,
    ProtectionRing,
    SoulSapperRing,
    DwarfSword(Enchants),
    DwarfHammer(Enchants),
    DwarfDagger(Enchants),
    CinderShards10,
    MermaidBoots,
    DragonscaleBoots,
    GoldenCoconuts,
    PhoenixRing,
    HotJavaRing,
    DragontoothCutlass(Enchants),
    DragontoothClub(Enchants),
    DragontoothShiv(Enchants),
    DeluxePirateHat,
    OstrichEgg,
}

/// Mathematical value of a `ChestItem`: the same variants, with enchantment
/// lists as sequences.
pub enum ChestItemModel {
    CinderShards3,
    GoldenCoconut,
    TaroTuber,
    PineappleSeeds,
    ProtectionRing,
    SoulSapperRing,
    DwarfSword(Seq<(Enchant, i32)>),
    DwarfHammer(Seq<(Enchant, i32)>),
    DwarfDagger(Seq<(Enchant, i32)>),
    CinderShards10,
    MermaidBoots,
    DragonscaleBoots,
    GoldenCoconuts,
    PhoenixRing,
    HotJavaRing,
    DragontoothCutlass(Seq<(Enchant, i32)>),
    DragontoothClub(Seq<(Enchant, i32)>),
    DragontoothShiv(Seq<(Enchant, i32)>),
    DeluxePirateHat,
    OstrichEgg,
}

impl View for ChestItem {
    type V = ChestItemModel;

    open spec fn view(&self) -> ChestItemModel {
        match self {
            ChestItem::CinderShards3 => ChestItemModel::CinderShards3,
            ChestItem::GoldenCoconut => ChestItemModel::GoldenCoconut,
            ChestItem::TaroTuber => ChestItemModel::TaroTuber,
            ChestItem::PineappleSeeds => ChestItemModel::PineappleSeeds,
            ChestItem::ProtectionRing => ChestItemModel::ProtectionRing,
            ChestItem::SoulSapperRing => ChestItemModel::SoulSapperRing,
            ChestItem::DwarfSword(e) => ChestItemModel::DwarfSword(e@),
            ChestItem::DwarfHammer(e) => ChestItemModel::DwarfHammer(e@),
            ChestItem::DwarfDagger(e) => ChestItemModel::DwarfDagger(e@),
            ChestItem::CinderShards10 => ChestItemModel::CinderShards10,
            ChestItem::MermaidBoots => ChestItemModel::MermaidBoots,
            ChestItem::DragonscaleBoots => ChestItemModel::DragonscaleBoots,
            ChestItem::GoldenCoconuts => ChestItemModel::GoldenCoconuts,
            ChestItem::PhoenixRing => ChestItemModel::PhoenixRing,
            ChestItem::HotJavaRing => ChestItemModel::HotJavaRing,
            ChestItem::DragontoothCutlass(e) => ChestItemModel::DragontoothCutlass(e@),
            ChestItem::DragontoothClub(e) => ChestItemModel::DragontoothClub(e@),
            ChestItem::DragontoothShiv(e) => ChestItemModel::DragontoothShiv(e@),
            ChestItem::DeluxePirateHat => ChestItemModel::DeluxePirateHat,
            ChestItem::OstrichEgg => ChestItemModel::OstrichEgg,
        }
    }
}

/// One row of the loot overview: a dragon tooth or chest contents. The
/// `minluck` threshold is in fixed-point luck units (see `LUCK_SCALE`).
#[derive(Clone, Debug, PartialEq)]
pub enum Goodie {
    DragonTooth,
    CommonChest(ChestItem),
    RareChest(ChestItem),
    ChanceChest { minluck: i64, common: ChestItem, rare: ChestItem },
}

/// Mathematical value of a `Goodie`.
pub enum GoodieModel {
    DragonTooth,
    CommonChest(ChestItemModel),
    RareChest(ChestItemModel),
    ChanceChest { minluck: i64, common: ChestItemModel, rare: ChestItemModel },
}

impl View for Goodie {
    type V = GoodieModel;

    open spec fn view(&self) -> GoodieModel {
        match self {
            Goodie::DragonTooth => GoodieModel::DragonTooth,
            Goodie::CommonChest(c) => GoodieModel::CommonChest(c@),
            Goodie::RareChest(c) => GoodieModel::RareChest(c@),
            Goodie::ChanceChest { minluck, common, rare } => GoodieModel::ChanceChest {
                minluck: *minluck,
                common: common@,
                rare: rare@,
            },
        }
    }
}

/// Clamp into `lo..=hi` (callers keep `lo <= hi`).
pub open spec fn sclamp(x: int, lo: int, hi: int) -> int {
    if x < lo {
        lo
    } else if x > hi {
        hi
    } else {
        x
    }
}

/// The three low-probability bonuses that may precede the major enchantment.
pub open spec fn is_minor_enchant(e: Enchant) -> bool {
    e == Enchant::Defense || e == Enchant::Weight || e == Enchant::SlimeGatherer
}

/// The five enchantments of the always-performed final 5-way roll.
pub open spec fn is_major_enchant(e: Enchant) -> bool {
    e == Enchant::Attack || e == Enchant::CritChance || e == Enchant::Speed || e
        == Enchant::SlimeSlayer || e == Enchant::CritPower
}

/// The display-unit range each enchantment's magnitude is clamped into, for
/// a weapon of the given nominal level and speed.
pub open spec fn mag_in_range(p: (Enchant, i32), lvl: i32, speed: i32) -> bool {
    match p.0 {
        Enchant::Defense => 1 <= p.1 <= 2,
        Enchant::Weight => -5 <= p.1 <= -1,
        Enchant::SlimeGatherer => p.1 == 0,
        Enchant::SlimeSlayer => p.1 == 0,
        Enchant::CritPower => p.1 == 25 || p.1 == 50 || p.1 == 75,
        Enchant::CritChance => 1 <= p.1 <= 3,
        Enchant::Attack => 1 <= p.1 <= 5,
        Enchant::Speed => 1 <= p.1 && p.1 <= sclamp(4 - speed as int, 1, 4 - speed as int),
    }
}

/// Shape of an innate-enchantment list: at most two entries; a list of two
/// opens with one of the three conditional bonuses; a non-empty list always
/// ends with a major enchantment.
pub open spec fn enchants_shape(s: Seq<(Enchant, i32)>) -> bool {
    &&& s.len() <= 2
    &&& s.len() == 2 ==> is_minor_enchant(s[0].0)
    &&& s.len() >= 1 ==> is_major_enchant(s[s.len() - 1].0)
}

/// Well-formed enchantment list for a weapon of the given nominal level and
/// speed: right shape, every magnitude in its display range.
pub open spec fn enchants_wf(s: Seq<(Enchant, i32)>, lvl: i32, speed: i32) -> bool {
    &&& enchants_shape(s)
    &&& forall|j: int| 0 <= j < s.len() ==> mag_in_range(s[j], lvl, speed)
}

/// The common tier's subset of the item set.
pub open spec fn is_common_item(m: ChestItemModel) -> bool {
    match m {
        ChestItemModel::CinderShards3 => true,
        ChestItemModel::GoldenCoconut => true,
        ChestItemModel::TaroTuber => true,
        ChestItemModel::PineappleSeeds => true,
        ChestItemModel::ProtectionRing => true,
        ChestItemModel::SoulSapperRing => true,
        ChestItemModel::DwarfSword(_) => true,
        ChestItemModel::DwarfHammer(_) => true,
        ChestItemModel::DwarfDagger(_) => true,
        _ => false,
    }
}

/// The rare tier's subset of the item set.
pub open spec fn is_rare_item(m: ChestItemModel) -> bool {
    match m {
        ChestItemModel::CinderShards10 => true,
        ChestItemModel::MermaidBoots => true,
        ChestItemModel::DragonscaleBoots => true,
        ChestItemModel::GoldenCoconuts => true,
        ChestItemModel::PhoenixRing => true,
        ChestItemModel::HotJavaRing => true,
        ChestItemModel::DragontoothCutlass(_) => true,
        ChestItemModel::DragontoothClub(_) => true,
        ChestItemModel::DragontoothShiv(_) => true,
        ChestItemModel::DeluxePirateHat => true,
        ChestItemModel::OstrichEgg => true,
        _ => false,
    }
}

/// Weapons carry a well-formed enchantment list for their table-defined
/// nominal level and speed; other items carry none.
pub open spec fn item_enchants_wf(m: ChestItemModel) -> bool {
    match m {
        ChestItemModel::DwarfSword(e) => enchants_wf(e, 13, 4),
        ChestItemModel::DwarfHammer(e) => enchants_wf(e, 13, -8i32),
        ChestItemModel::DwarfDagger(e) => enchants_wf(e, 11, 3),
        ChestItemModel::DragontoothCutlass(e) => enchants_wf(e, 13, 0),
        ChestItemModel::DragontoothClub(e) => enchants_wf(e, 14, -8i32),
        ChestItemModel::DragontoothShiv(e) => enchants_wf(e, 12, 0),
        _ => true,
    }
}

/// Every item a goodie carries comes from the right tier and has
/// well-formed enchantments.
pub open spec fn goodie_items_wf(g: GoodieModel) -> bool {
    match g {
        GoodieModel::DragonTooth => true,
        GoodieModel::CommonChest(c) => is_common_item(c) && item_enchants_wf(c),
        GoodieModel::RareChest(r) => is_rare_item(r) && item_enchants_wf(r),
        GoodieModel::ChanceChest { common, rare, .. } => is_common_item(common)
            && item_enchants_wf(common) && is_rare_item(rare) && item_enchants_wf(rare),
    }
}

/// The conditional bonus part of the cascade: one eighth-chance test for
/// Defense (only at nominal level 10 or below), else one for Weight, else
/// one for Slime Gatherer. Returns the entries granted (none or one) and the
/// generator state after the draws consumed.
pub open spec fn spec_minor(m: RngModel, lvl: i32) -> (Seq<(Enchant, i32)>, RngModel) {
    let s1 = sample_of(m);
    let m1 = step(m);
    if s1 < EIGHTH_CUT && lvl <= 10 {
        let d = range_draw(sample_of(m1), (lvl + 1) as i32);
        let m2 = step(m1);
        let v = sclamp(d as int / 2 + 1, 1, 2);
        (seq![(Enchant::Defense, v as i32)], m2)
    } else {
        let s2 = sample_of(m1);
        let m2 = step(m1);
        if s2 < EIGHTH_CUT {
            let d = range_draw(sample_of(m2), 5);
            let m3 = step(m2);
            (seq![(Enchant::Weight, (-1 - d as int) as i32)], m3)
        } else {
            let s3 = sample_of(m2);
            let m3 = step(m2);
            if s3 < EIGHTH_CUT {
                (seq![(Enchant::SlimeGatherer, 0i32)], m3)
            } else {
                (Seq::empty(), m3)
            }
        }
    }
}

/// The always-performed final 5-way roll and its magnitude draw.
pub open spec fn spec_major(m: RngModel, lvl: i32, speed: i32) -> ((Enchant, i32), RngModel) {
    let k = range_draw(sample_of(m), 5);
    let m1 = step(m);
    if k == 0 {
        let d = range_draw(sample_of(m1), (lvl + 1) as i32);
        ((Enchant::Attack, sclamp(d as int / 2 + 1, 1, 5) as i32), step(m1))
    } else if k == 1 {
        let d = range_draw(sample_of(m1), lvl);
        ((Enchant::CritChance, sclamp(d as int / 3, 1, 3) as i32), step(m1))
    } else if k == 2 {
        let d = range_draw(sample_of(m1), lvl);
        let cap = if 4 - speed as int > 1 {
            4 - speed as int
        } else {
            1
        };
        ((Enchant::Speed, sclamp(d as int, 1, cap) as i32), step(m1))
    } else if k == 3 {
        ((Enchant::SlimeSlayer, 0i32), m1)
    } else {
        let d = range_draw(sample_of(m1), lvl);
        ((Enchant::CritPower, (sclamp(d as int / 3, 1, 3) * 25) as i32), step(m1))
    }
}

/// The whole innate-enchantment cascade for a freshly selected weapon: a
/// half-chance gate, then the conditional bonus, then the major roll.
pub open spec fn spec_enchant(m: RngModel, lvl: i32, speed: i32) -> (Seq<(Enchant, i32)>, RngModel) {
    let gate = sample_of(m);
    let m0 = step(m);
    if gate < HALF_CUT {
        let (minor, m1) = spec_minor(m0, lvl);
        let (major, m2) = spec_major(m1, lvl, speed);
        (minor.push(major), m2)
    } else {
        (Seq::empty(), m0)
    }
}

/// Apply innate enchantments to a weapon, consuming draws from the shared
/// generator in the game's fixed order.
pub fn enchant_item(rng: &mut DotnetRng, weapon_lvl: i32, weapon_speed: i32) -> (r: Enchants)
    requires
        rng_wf(old(rng)@),
        0 <= weapon_lvl <= 100,
        -100 <= weapon_speed <= 100,
    ensures
        rng_wf(final(rng)@),
        r@ == spec_enchant(old(rng)@, weapon_lvl, weapon_speed).0,
        final(rng)@ == spec_enchant(old(rng)@, weapon_lvl, weapon_speed).1,
        enchants_wf(r@, weapon_lvl, weapon_speed),
{
    let mut enchs: Vec<(Enchant, i32)> = Vec::new();
    let gate: i32 = rng.next();
    if gate < HALF_CUT {
        let s1: i32 = rng.next();
        if s1 < EIGHTH_CUT && weapon_lvl <= 10 {
            let d: i32 = rng.next_range(weapon_lvl + 1);
            let mut v: i32 = d / 2 + 1;
            if v > 2 {
                v = 2;
            }
            if v < 1 {
                v = 1;
            }
            enchs.push((Enchant::Defense, v));
        } else {
            let s2: i32 = rng.next();
            if s2 < EIGHTH_CUT {
                let d: i32 = rng.next_range(5);
                enchs.push((Enchant::Weight, -1 - d));
            } else {
                let s3: i32 = rng.next();
                if s3 < EIGHTH_CUT {
                    enchs.push((Enchant::SlimeGatherer, 0));
                }
            }
        }
        let k: i32 = rng.next_range(5);
        if k == 0 {
            let d: i32 = rng.next_range(weapon_lvl + 1);
            let mut v: i32 = d / 2 + 1;
            if v < 1 {
                v = 1;
            }
            if v > 5 {
                v = 5;
            }
            enchs.push((Enchant::Attack, v));
        } else if k == 1 {
            let d: i32 = rng.next_range(weapon_lvl);
            let mut v: i32 = d / 3;
            if v < 1 {
                v = 1;
            }
            if v > 3 {
                v = 3;
            }
            enchs.push((Enchant::CritChance, v));
        } else if k == 2 {
            let d: i32 = rng.next_range(weapon_lvl);
            let cap: i32 = if 4 - weapon_speed > 1 {
                4 - weapon_speed
            } else {
                1
            };
            let mut v: i32 = d;
            if v < 1 {
                v = 1;
            }
            if v > cap {
                v = cap;
            }
            enchs.push((Enchant::Speed, v));
        } else if k == 3 {
            enchs.push((Enchant::SlimeSlayer, 0));
        } else {
            let d: i32 = rng.next_range(weapon_lvl);
            let mut v: i32 = d / 3;
            if v < 1 {
                v = 1;
            }
            if v > 3 {
                v = 3;
            }
            enchs.push((Enchant::CritPower, v * 25));
        }
    }
    let r = Enchants(enchs);
    proof {
        assert(r@ =~= spec_enchant(old(rng)@, weapon_lvl, weapon_speed).0);
    }
    r
}

/// Rejection sampling, resumed: `ind` is the range draw already made; while
/// it hits the contested index `excl` with the toggle off and redraws are
/// left, draw again from the same generator.
pub open spec fn spec_select_from(
    ind: i32,
    m: RngModel,
    width: i32,
    excl: i32,
    allow: bool,
    fuel: nat,
) -> (i32, RngModel)
    decreases fuel,
{
    if ind == excl && !allow && fuel > 0 {
        spec_select_from(
            range_draw(sample_of(m), width),
            step(m),
            width,
            excl,
            allow,
            (fuel - 1) as nat,
        )
    } else {
        (ind, m)
    }
}

/// The index a tier selector settles on, with the generator state after it:
/// one range draw over the tier's table width, then rejection sampling of
/// the contested index.
pub open spec fn spec_select(m: RngModel, width: i32, excl: i32, allow: bool) -> (i32, RngModel) {
    spec_select_from(
        range_draw(sample_of(m), width),
        step(m),
        width,
        excl,
        allow,
        SELECT_TRIES as nat,
    )
}

/// Every one of the first `fuel + 1` range draws (starting from the already
/// drawn `ind`) lands on the contested index.
pub open spec fn all_draws_excluded(ind: i32, m: RngModel, width: i32, excl: i32, fuel: nat) -> bool
    decreases fuel,
{
    &&& ind == excl
    &&& (fuel > 0 ==> all_draws_excluded(
        range_draw(sample_of(m), width),
        step(m),
        width,
        excl,
        (fuel - 1) as nat,
    ))
}

/// With the toggle off, rejection sampling returns the contested index only
/// if every single redraw landed on it until the redraw counter ran out.
pub proof fn lemma_select_exclusion(ind: i32, m: RngModel, width: i32, excl: i32, fuel: nat)
    ensures
        spec_select_from(ind, m, width, excl, false, fuel).0 == excl ==> all_draws_excluded(
            ind,
            m,
            width,
            excl,
            fuel,
        ),
    decreases fuel,
{
    if ind == excl && fuel > 0 {
        lemma_select_exclusion(
            range_draw(sample_of(m), width),
            step(m),
            width,
            excl,
            (fuel - 1) as nat,
        );
    }
}

/// The common tier's table, indexed as the game indexes it; index 6 is the
/// dwarven weapon family, which costs one more draw and an enchantment
/// cascade.
pub open spec fn spec_common_item(ind: i32, m: RngModel) -> ChestItemModel {
    if ind == 0 {
        ChestItemModel::CinderShards3
    } else if ind == 1 {
        ChestItemModel::GoldenCoconut
    } else if ind == 2 {
        ChestItemModel::TaroTuber
    } else if ind == 3 {
        ChestItemModel::PineappleSeeds
    } else if ind == 4 {
        ChestItemModel::ProtectionRing
    } else if ind == 5 {
        ChestItemModel::SoulSapperRing
    } else {
        let w = range_draw(sample_of(m), 3);
        let m1 = step(m);
        if w == 0 {
            ChestItemModel::DwarfSword(spec_enchant(m1, 13, 4).0)
        } else if w == 1 {
            ChestItemModel::DwarfHammer(spec_enchant(m1, 13, -8i32).0)
        } else {
            ChestItemModel::DwarfDagger(spec_enchant(m1, 11, 3).0)
        }
    }
}

/// The rare tier's table; index 6 is the dragontooth weapon family.
pub open spec fn spec_rare_item(ind: i32, m: RngModel) -> ChestItemModel {
    if ind == 0 {
        ChestItemModel::CinderShards10
    } else if ind == 1 {
        ChestItemModel::MermaidBoots
    } else if ind == 2 {
        ChestItemModel::DragonscaleBoots
    } else if ind == 3 {
        ChestItemModel::GoldenCoconuts
    } else if ind == 4 {
        ChestItemModel::PhoenixRing
    } else if ind == 5 {
        ChestItemModel::HotJavaRing
    } else if ind == 6 {
        let w = range_draw(sample_of(m), 3);
        let m1 = step(m);
        if w == 0 {
            ChestItemModel::DragontoothCutlass(spec_enchant(m1, 13, 0).0)
        } else if w == 1 {
            ChestItemModel::DragontoothClub(spec_enchant(m1, 14, -8i32).0)
        } else {
            ChestItemModel::DragontoothShiv(spec_enchant(m1, 12, 0).0)
        }
    } else if ind == 7 {
        ChestItemModel::DeluxePirateHat
    } else {
        ChestItemModel::OstrichEgg
    }
}

/// The item a common chest resolves to for this seed: seed a generator,
/// discard the one draw the game spends on its rare-or-common check, select
/// from the 7-entry table (index 1, the golden coconut, is contested).
pub open spec fn spec_generate_common(seed: i32, allow: bool) -> ChestItemModel {
    let m0 = step(rng_from_seed(seed));
    let sel = spec_select(m0, 7, 1, allow);
    spec_common_item(sel.0, sel.1)
}

/// The item a rare chest resolves to for this seed: like the common tier,
/// over the 9-entry table (index 3, the golden coconuts, is contested).
pub open spec fn spec_generate_rare(seed: i32, allow: bool) -> ChestItemModel {
    let m0 = step(rng_from_seed(seed));
    let sel = spec_select(m0, 9, 3, allow);
    spec_rare_item(sel.0, sel.1)
}

/// The common selection could only settle on the contested index by
/// exhausting every redraw on it.
pub open spec fn common_selection_exhausted(seed: i32) -> bool {
    let m0 = step(rng_from_seed(seed));
    all_draws_excluded(range_draw(sample_of(m0), 7), step(m0), 7, 1, SELECT_TRIES as nat)
}

/// The rare-tier counterpart of `common_selection_exhausted`.
pub open spec fn rare_selection_exhausted(seed: i32) -> bool {
    let m0 = step(rng_from_seed(seed));
    all_draws_excluded(range_draw(sample_of(m0), 9), step(m0), 9, 3, SELECT_TRIES as nat)
}

impl ChestItem {
    /// Resolve the common-tier chest for this seed.
    pub fn generate_common(seed: i32, settings: GameSettings) -> (item: Self)
        ensures
            item@ == spec_generate_common(seed, settings.cracked_golden_coconut),
            !settings.cracked_golden_coconut && !common_selection_exhausted(seed) ==> item@
                != ChestItemModel::GoldenCoconut,
            is_common_item(item@),
            item_enchants_wf(item@),
    {
        let mut rng = DotnetRng::new(seed);
        rng.next();  // the game spends one draw on its rare-or-common check
        let ghost m0 = rng@;
        let mut tries: u64 = SELECT_TRIES;
        let mut ind: i32 = rng.next_range(7);
        while ind == 1 && !settings.cracked_golden_coconut && tries > 0
            invariant
                rng_wf(rng@),
                spec_select_from(
                    ind,
                    rng@,
                    7,
                    1,
                    settings.cracked_golden_coconut,
                    tries as nat,
                ) == spec_select(m0, 7, 1, settings.cracked_golden_coconut),
            decreases tries,
        {
            ind = rng.next_range(7);
            tries = tries - 1;
        }
        proof {
            if !settings.cracked_golden_coconut {
                lemma_select_exclusion(
                    range_draw(sample_of(m0), 7),
                    step(m0),
                    7,
                    1,
                    SELECT_TRIES as nat,
                );
            }
        }
        if ind == 0 {
            ChestItem::CinderShards3
        } else if ind == 1 {
            ChestItem::GoldenCoconut
        } else if ind == 2 {
            ChestItem::TaroTuber
        } else if ind == 3 {
            ChestItem::PineappleSeeds
        } else if ind == 4 {
            ChestItem::ProtectionRing
        } else if ind == 5 {
            ChestItem::SoulSapperRing
        } else {
            let w: i32 = rng.next_range(3);
            if w == 0 {
                ChestItem::DwarfSword(enchant_item(&mut rng, 13, 4))
            } else if w == 1 {
                ChestItem::DwarfHammer(enchant_item(&mut rng, 13, -8))
            } else {
                ChestItem::DwarfDagger(enchant_item(&mut rng, 11, 3))
            }
        }
    }

    /// Resolve the rare-tier chest for this seed.
    pub fn generate_rare(seed: i32, settings: GameSettings) -> (item: Self)
        ensures
            item@ == spec_generate_rare(seed, settings.cracked_golden_coconut),
            !settings.cracked_golden_coconut && !rare_selection_exhausted(seed) ==> item@
                != ChestItemModel::GoldenCoconuts,
            is_rare_item(item@),
            item_enchants_wf(item@),
    {
        let mut rng = DotnetRng::new(seed);
        rng.next();  // the game spends one draw on its rare-or-common check
        let ghost m0 = rng@;
        let mut tries: u64 = SELECT_TRIES;
        let mut ind: i32 = rng.next_range(9);
        while ind == 3 && !settings.cracked_golden_coconut && tries > 0
            invariant
                rng_wf(rng@),
                spec_select_from(
                    ind,
                    rng@,
                    9,
                    3,
                    settings.cracked_golden_coconut,
                    tries as nat,
                ) == spec_select(m0, 9, 3, settings.cracked_golden_coconut),
            decreases tries,
        {
            ind = rng.next_range(9);
            tries = tries - 1;
        }
        proof {
            if !settings.cracked_golden_coconut {
                lemma_select_exclusion(
                    range_draw(sample_of(m0), 9),
                    step(m0),
                    9,
                    3,
                    SELECT_TRIES as nat,
                );
            }
        }
        if ind == 0 {
            ChestItem::CinderShards10
        } else if ind == 1 {
            ChestItem::MermaidBoots
        } else if ind == 2 {
            ChestItem::DragonscaleBoots
        } else if ind == 3 {
            ChestItem::GoldenCoconuts
        } else if ind == 4 {
            ChestItem::PhoenixRing
        } else if ind == 5 {
            ChestItem::HotJavaRing
        } else if ind == 6 {
            let w: i32 = rng.next_range(3);
            if w == 0 {
                ChestItem::DragontoothCutlass(enchant_item(&mut rng, 13, 0))
            } else if w == 1 {
                ChestItem::DragontoothClub(enchant_item(&mut rng, 14, -8))
            } else {
                ChestItem::DragontoothShiv(enchant_item(&mut rng, 12, 0))
            }
        } else if ind == 7 {
            ChestItem::DeluxePirateHat
        } else {
            ChestItem::OstrichEgg
        }
    }
}

/// The chest roll for this seed and level, in fixed-point luck units: the
/// real roll `sample / MBIG - offset + 1`, where the offset is `0.5` at the
/// special level 9 and `0.1` elsewhere.
pub open spec fn spec_chest_roll(seed: i32, level: i32) -> int {
    10 * (sample_of(rng_from_seed(seed)) as int) + if level == 9 {
        5 * (MBIG as int)
    } else {
        9 * (MBIG as int)
    }
}

/// The goodie a seed resolves to against a band of possible player luck:
/// rare-only below the band, common-only above it, both candidates inside
/// it.
pub open spec fn spec_generate_goodie(
    seed: i32,
    allow: bool,
    level: i32,
    min_luck: i64,
    max_luck: i64,
) -> GoodieModel {
    let roll = spec_chest_roll(seed, level);
    if roll < min_luck as int {
        GoodieModel::RareChest(spec_generate_rare(seed, allow))
    } else if roll >= max_luck as int {
        GoodieModel::CommonChest(spec_generate_common(seed, allow))
    } else {
        GoodieModel::ChanceChest {
            minluck: roll as i64,
            common: spec_generate_common(seed, allow),
            rare: spec_generate_rare(seed, allow),
        }
    }
}

impl Goodie {
    /// Resolve one chest: draw the luck-gated roll, then commit to the rare
    /// branch, the common branch, or both. Each branch reseeds its own
    /// generator from the same original seed, as the game does. `min_luck`
    /// and `max_luck` are in fixed-point luck units (see `LUCK_SCALE`).
    pub fn generate(
        chest_seed: i32,
        settings: GameSettings,
        level: i32,
        min_luck: i64,
        max_luck: i64,
    ) -> (g: Goodie)
        ensures
            g@ == spec_generate_goodie(
                chest_seed,
                settings.cracked_golden_coconut,
                level,
                min_luck,
                max_luck,
            ),
            g@ matches GoodieModel::RareChest(_) <==> spec_chest_roll(chest_seed, level)
                < min_luck as int,
            g@ matches GoodieModel::CommonChest(_) <==> (min_luck as int <= spec_chest_roll(
                chest_seed,
                level,
            ) && max_luck as int <= spec_chest_roll(chest_seed, level)),
            g@ matches GoodieModel::ChanceChest { .. } <==> (min_luck as int <= spec_chest_roll(
                chest_seed,
                level,
            ) < max_luck as int),
            !(g@ matches GoodieModel::DragonTooth),
            g@ matches GoodieModel::ChanceChest { minluck, .. } ==> minluck as int
                == spec_chest_roll(chest_seed, level),
            goodie_items_wf(g@),
    {
        let mut chest_rng = DotnetRng::new(chest_seed);
        let s: i32 = chest_rng.next();
        let offset: i64 = if level == 9 {
            5
        } else {
            9
        };
        let chest_roll: i64 = 10 * (s as i64) + offset * (MBIG as i64);
        if chest_roll < min_luck {
            Goodie::RareChest(ChestItem::generate_rare(chest_seed, settings))
        } else if chest_roll >= max_luck {
            Goodie::CommonChest(ChestItem::generate_common(chest_seed, settings))
        } else {
            Goodie::ChanceChest {
                minluck: chest_roll,
                common: ChestItem::generate_common(chest_seed, settings),
                rare: ChestItem::generate_rare(chest_seed, settings),
            }
        }
    }
}

/// Determinism: the resolved goodie is a pure function of seed, settings,
/// level and luck bounds; any two results of resolving the same query are
/// equal, enchantment lists and their order included.
pub proof fn lemma_generate_deterministic(
    r1: GoodieModel,
    r2: GoodieModel,
    seed: i32,
    allow: bool,
    level: i32,
    min_luck: i64,
    max_luck: i64,
)
    requires
        r1 == spec_generate_goodie(seed, allow, level, min_luck, max_luck),
        r2 == spec_generate_goodie(seed, allow, level, min_luck, max_luck),
    ensures
        r1 == r2,
{
}

} // verus!
