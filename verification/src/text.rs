//! Rendering of resolved items: the human-readable display string of each
//! chest item (with its enchantment suffix) and the stable icon key used to
//! look up a display glyph.

use crate::loot::{ChestItem, ChestItemModel, Enchant, Enchants};
use vstd::prelude::*;
use vstd::string::StringExecFns;

verus! {

/// The text of one decimal digit.
pub open spec fn digit_text(d: nat) -> Seq<char> {
    if d == 0 {
        "0"@
    } else if d == 1 {
        "1"@
    } else if d == 2 {
        "2"@
    } else if d == 3 {
        "3"@
    } else if d == 4 {
        "4"@
    } else if d == 5 {
        "5"@
    } else if d == 6 {
        "6"@
    } else if d == 7 {
        "7"@
    } else if d == 8 {
        "8"@
    } else {
        "9"@
    }
}

/// The decimal text of a natural number, most significant digit first.
pub open spec fn dec_digits(n: nat) -> Seq<char>
    decreases n,
{
    if n < 10 {
        digit_text(n)
    } else {
        dec_digits(n / 10) + digit_text(n % 10)
    }
}

/// The magnitude prefix of an enchantment entry: the signed level and a
/// space ("+2 ", "-5 "), or nothing when the level is zero.
pub open spec fn magnitude_prefix(v: i32) -> Seq<char> {
    if v > 0 {
        "+"@ + dec_digits(v as nat) + " "@
    } else if v < 0 {
        "-"@ + dec_digits((-(v as int)) as nat) + " "@
    } else {
        Seq::empty()
    }
}

/// The display name of an enchantment.
pub open spec fn enchant_name(e: Enchant) -> Seq<char> {
    match e {
        Enchant::Defense => "Defense"@,
        Enchant::Weight => "Weight"@,
        Enchant::SlimeGatherer => "Slime Gatherer"@,
        Enchant::SlimeSlayer => "Slime Slayer"@,
        Enchant::CritPower => "Crit. Power"@,
        Enchant::CritChance => "Crit. Chance"@,
        Enchant::Attack => "Attack"@,
        Enchant::Speed => "Speed"@,
    }
}

/// One rendered enchantment entry.
pub open spec fn entry_text(p: (Enchant, i32)) -> Seq<char> {
    magnitude_prefix(p.1) + enchant_name(p.0)
}

/// The first `i` entries rendered, comma-separated.
pub open spec fn entries_upto(s: Seq<(Enchant, i32)>, i: int) -> Seq<char>
    decreases i,
{
    if i <= 0 {
        Seq::empty()
    } else {
        entries_upto(s, i - 1) + (if i - 1 > 0 {
            ", "@
        } else {
            Seq::<char>::empty()
        }) + entry_text(s[i - 1])
    }
}

/// The display suffix of an enchantment list: empty when the list is empty,
/// else the entries in parentheses.
pub open spec fn enchants_text(s: Seq<(Enchant, i32)>) -> Seq<char> {
    if s.len() == 0 {
        Seq::empty()
    } else {
        " ("@ + entries_upto(s, s.len() as int) + ")"@
    }
}

/// The full display string of a chest item: its name, with the enchantment
/// suffix on weapons.
pub open spec fn item_text(m: ChestItemModel) -> Seq<char> {
    match m {
        ChestItemModel::CinderShards3 => "Cinder Shard (3)"@,
        ChestItemModel::GoldenCoconut => "Golden Coconut"@,
        ChestItemModel::TaroTuber => "Taro Tuber (8)"@,
        ChestItemModel::PineappleSeeds => "Pineapple Seeds (5)"@,
        ChestItemModel::ProtectionRing => "Protection Ring"@,
        ChestItemModel::SoulSapperRing => "Soul Sapper Ring"@,
        ChestItemModel::DwarfSword(e) => "Dwarf Sword"@ + enchants_text(e),
        ChestItemModel::DwarfHammer(e) => "Dwarf Hammer"@ + enchants_text(e),
        ChestItemModel::DwarfDagger(e) => "Dwarf Dagger"@ + enchants_text(e),
        ChestItemModel::CinderShards10 => "Cinder Shard (10)"@,
        ChestItemModel::MermaidBoots => "Mermaid Boots"@,
        ChestItemModel::DragonscaleBoots => "Dragonscale Boots"@,
        ChestItemModel::GoldenCoconuts => "Golden Coconut (3)"@,
        ChestItemModel::PhoenixRing => "Phoenix Ring"@,
        ChestItemModel::HotJavaRing => "Hot Java Ring"@,
        ChestItemModel::DragontoothCutlass(e) => "Dragontooth Cutlass"@ + enchants_text(e),
        ChestItemModel::DragontoothClub(e) => "Dragontooth Club"@ + enchants_text(e),
        ChestItemModel::DragontoothShiv(e) => "Dragontooth Shiv"@ + enchants_text(e),
        ChestItemModel::DeluxePirateHat => "Deluxe Pirate Hat"@,
        ChestItemModel::OstrichEgg => "Ostrich Egg"@,
    }
}

/// The icon key of a chest item. It depends on the variant alone, never on
/// attached enchantments.
pub open spec fn icon_key(m: ChestItemModel) -> Seq<char> {
    match m {
        ChestItemModel::CinderShards3 => "cinder_shard"@,
        ChestItemModel::GoldenCoconut => "golden_coconut"@,
        ChestItemModel::TaroTuber => "taro_tuber"@,
        ChestItemModel::PineappleSeeds => "pineapple_seeds"@,
        ChestItemModel::ProtectionRing => "protection_ring"@,
        ChestItemModel::SoulSapperRing => "soul_sapper_ring"@,
        ChestItemModel::DwarfSword(_) => "dwarf_sword"@,
        ChestItemModel::DwarfHammer(_) => "dwarf_hammer"@,
        ChestItemModel::DwarfDagger(_) => "dwarf_dagger"@,
        ChestItemModel::CinderShards10 => "cinder_shard"@,
        ChestItemModel::MermaidBoots => "mermaid_boots"@,
        ChestItemModel::DragonscaleBoots => "dragonscale_boots"@,
        ChestItemModel::GoldenCoconuts => "golden_coconut"@,
        ChestItemModel::PhoenixRing => "phoenix_ring"@,
        ChestItemModel::HotJavaRing => "hot_java_ring"@,
        ChestItemModel::DragontoothCutlass(_) => "dragontooth_cutlass"@,
        ChestItemModel::DragontoothClub(_) => "dragontooth_club"@,
        ChestItemModel::DragontoothShiv(_) => "dragontooth_shiv"@,
        ChestItemModel::DeluxePirateHat => "deluxe_pirate_hat"@,
        ChestItemModel::OstrichEgg => "ostrich_egg"@,
    }
}

/// Two item values of the same variant, whatever their enchantment lists.
pub open spec fn same_variant(a: ChestItemModel, b: ChestItemModel) -> bool {
    match (a, b) {
        (ChestItemModel::DwarfSword(_), ChestItemModel::DwarfSword(_)) => true,
        (ChestItemModel::DwarfHammer(_), ChestItemModel::DwarfHammer(_)) => true,
        (ChestItemModel::DwarfDagger(_), ChestItemModel::DwarfDagger(_)) => true,
        (ChestItemModel::DragontoothCutlass(_), ChestItemModel::DragontoothCutlass(_)) => true,
        (ChestItemModel::DragontoothClub(_), ChestItemModel::DragontoothClub(_)) => true,
        (ChestItemModel::DragontoothShiv(_), ChestItemModel::DragontoothShiv(_)) => true,
        _ => a == b,
    }
}

/// Icon keys are stable per item variant: two items of the same variant
/// share one icon key, regardless of attached enchantments.
pub proof fn lemma_icon_stable(a: ChestItemModel, b: ChestItemModel)
    requires
        same_variant(a, b),
    ensures
        icon_key(a) == icon_key(b),
{
}

/// Append one decimal digit to `out`.
fn append_digit(out: &mut String, d: u32)
    requires
        d < 10,
    ensures
        final(out)@ == old(out)@ + digit_text(d as nat),
{
    if d == 0 {
        out.append("0");
    } else if d == 1 {
        out.append("1");
    } else if d == 2 {
        out.append("2");
    } else if d == 3 {
        out.append("3");
    } else if d == 4 {
        out.append("4");
    } else if d == 5 {
        out.append("5");
    } else if d == 6 {
        out.append("6");
    } else if d == 7 {
        out.append("7");
    } else if d == 8 {
        out.append("8");
    } else {
        out.append("9");
    }
}

/// Append the decimal text of `n` to `out`.
fn append_dec(out: &mut String, n: u32)
    ensures
        final(out)@ == old(out)@ + dec_digits(n as nat),
    decreases n,
{
    if n >= 10 {
        append_dec(out, n / 10);
    }
    append_digit(out, n % 10);
    proof {
        assert(final(out)@ =~= old(out)@ + dec_digits(n as nat));
    }
}

/// Append the signed magnitude prefix of one entry to `out`.
fn append_magnitude(out: &mut String, v: i32)
    ensures
        final(out)@ == old(out)@ + magnitude_prefix(v),
{
    if v > 0 {
        out.append("+");
        append_dec(out, v as u32);
        out.append(" ");
    } else if v < 0 {
        let mag: u32 = (-(v as i64)) as u32;
        out.append("-");
        append_dec(out, mag);
        out.append(" ");
    }
    proof {
        assert(final(out)@ =~= old(out)@ + magnitude_prefix(v));
    }
}

/// Append an enchantment's display name to `out`.
fn append_enchant_name(out: &mut String, e: Enchant)
    ensures
        final(out)@ == old(out)@ + enchant_name(e),
{
    match e {
        Enchant::Defense => out.append("Defense"),
        Enchant::Weight => out.append("Weight"),
        Enchant::SlimeGatherer => out.append("Slime Gatherer"),
        Enchant::SlimeSlayer => out.append("Slime Slayer"),
        Enchant::CritPower => out.append("Crit. Power"),
        Enchant::CritChance => out.append("Crit. Chance"),
        Enchant::Attack => out.append("Attack"),
        Enchant::Speed => out.append("Speed"),
    }
}

impl Enchants {
    /// The display suffix of this list: empty when there are no
    /// enchantments, else the rendered entries in parentheses, such as
    /// " (+1 Defense, +2 Attack)".
    pub fn to_text(&self) -> (r: String)
        ensures
            r@ == enchants_text(self@),
    {
        let mut out = String::new();
        if self.0.len() == 0 {
            return out;
        }
        out.append(" (");
        let mut i: usize = 0;
        while i < self.0.len()
            invariant
                i <= self.0.len(),
                out@ == " ("@ + entries_upto(self@, i as int),
            decreases self.0.len() - i,
        {
            if i > 0 {
                out.append(", ");
            }
            let p: (Enchant, i32) = self.0[i];
            append_magnitude(&mut out, p.1);
            append_enchant_name(&mut out, p.0);
            i = i + 1;
            proof {
                assert(out@ =~= " ("@ + entries_upto(self@, i as int));
            }
        }
        out.append(")");
        proof {
            assert(out@ =~= enchants_text(self@));
        }
        out
    }
}

impl ChestItem {
    /// The human-readable display string of this item, enchantment suffix
    /// included.
    pub fn to_text(&self) -> (r: String)
        ensures
            r@ == item_text(self@),
    {
        match self {
            ChestItem::CinderShards3 => String::from_str("Cinder Shard (3)"),
            ChestItem::GoldenCoconut => String::from_str("Golden Coconut"),
            ChestItem::TaroTuber => String::from_str("Taro Tuber (8)"),
            ChestItem::PineappleSeeds => String::from_str("Pineapple Seeds (5)"),
            ChestItem::ProtectionRing => String::from_str("Protection Ring"),
            ChestItem::SoulSapperRing => String::from_str("Soul Sapper Ring"),
            ChestItem::DwarfSword(e) => {
                let mut s = String::from_str("Dwarf Sword");
                let suffix = e.to_text();
                s.append(suffix.as_str());
                s
            },
            ChestItem::DwarfHammer(e) => {
                let mut s = String::from_str("Dwarf Hammer");
                let suffix = e.to_text();
                s.append(suffix.as_str());
                s
            },
            ChestItem::DwarfDagger(e) => {
                let mut s = String::from_str("Dwarf Dagger");
                let suffix = e.to_text();
                s.append(suffix.as_str());
                s
            },
            ChestItem::CinderShards10 => String::from_str("Cinder Shard (10)"),
            ChestItem::MermaidBoots => String::from_str("Mermaid Boots"),
            ChestItem::DragonscaleBoots => String::from_str("Dragonscale Boots"),
            ChestItem::GoldenCoconuts => String::from_str("Golden Coconut (3)"),
            ChestItem::PhoenixRing => String::from_str("Phoenix Ring"),
            ChestItem::HotJavaRing => String::from_str("Hot Java Ring"),
            ChestItem::DragontoothCutlass(e) => {
                let mut s = String::from_str("Dragontooth Cutlass");
                let suffix = e.to_text();
                s.append(suffix.as_str());
                s
            },
            ChestItem::DragontoothClub(e) => {
                let mut s = String::from_str("Dragontooth Club");
                let suffix = e.to_text();
                s.append(suffix.as_str());
                s
            },
            ChestItem::DragontoothShiv(e) => {
                let mut s = String::from_str("Dragontooth Shiv");
                let suffix = e.to_text();
                s.append(suffix.as_str());
                s
            },
            ChestItem::DeluxePirateHat => String::from_str("Deluxe Pirate Hat"),
            ChestItem::OstrichEgg => String::from_str("Ostrich Egg"),
        }
    }

    /// The stable icon key of this item, used to look up a display glyph.
    pub fn get_icon(&self) -> (r: &'static str)
        ensures
            r@ == icon_key(self@),
    {
        match self {
            ChestItem::CinderShards3 => "cinder_shard",
            ChestItem::GoldenCoconut => "golden_coconut",
            ChestItem::TaroTuber => "taro_tuber",
            ChestItem::PineappleSeeds => "pineapple_seeds",
            ChestItem::ProtectionRing => "protection_ring",
            ChestItem::SoulSapperRing => "soul_sapper_ring",
            ChestItem::DwarfSword(_) => "dwarf_sword",
            ChestItem::DwarfHammer(_) => "dwarf_hammer",
            ChestItem::DwarfDagger(_) => "dwarf_dagger",
            ChestItem::CinderShards10 => "cinder_shard",
            ChestItem::MermaidBoots => "mermaid_boots",
            ChestItem::DragonscaleBoots => "dragonscale_boots",
            ChestItem::GoldenCoconuts => "golden_coconut",
            ChestItem::PhoenixRing => "phoenix_ring",
            ChestItem::HotJavaRing => "hot_java_ring",
            ChestItem::DragontoothCutlass(_) => "dragontooth_cutlass",
            ChestItem::DragontoothClub(_) => "dragontooth_club",
            ChestItem::DragontoothShiv(_) => "dragontooth_shiv",
            ChestItem::DeluxePirateHat => "deluxe_pirate_hat",
            ChestItem::OstrichEgg => "ostrich_egg",
        }
    }
}

} // verus!
