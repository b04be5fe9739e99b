//! Enchantments, named as item data names them.
use crate::bytes::ParseError;
use crate::data_gen::spec_title_case;
use crate::text::{rest_is, starts_with};
use vstd::prelude::*;
use vstd::string::StringExecFns;

verus! {

/// An enchantment of an item.
#[derive(Debug, Clone, Copy, PartialEq, Eq, Structural)]
pub enum Enchantment {
    Protection,
    FireProtection,
    FeatherFalling,
    BlastProtection,
    ProjectileProtection,
    Respiration,
    AquaAffinity,
    Thorns,
    DepthStrider,
    FrostWalker,
    BindingCurse,
    SoulSpeed,
    Sharpness,
    Smite,
    BaneOfArthropods,
    Knockback,
    FireAspect,
    Looting,
    Sweeping,
    Efficiency,
    SilkTouch,
    Unbreaking,
    Fortune,
    Power,
    Punch,
    Flame,
    Infinity,
    LuckOfTheSea,
    Lure,
    Loyalty,
    Impaling,
    Riptide,
    Channeling,
    Multishot,
    QuickCharge,
    Piercing,
    Mending,
    VanishingCurse,
    SwiftSneak,
}

/// The enchantment that a name (without its namespace) stands for.
pub open spec fn enchantment_named(name: Seq<char>) -> Option<Enchantment> {
    if name == "protection"@ {
        Some(Enchantment::Protection)
    } else if name == "fire_protection"@ {
        Some(Enchantment::FireProtection)
    } else if name == "feather_falling"@ {
        Some(Enchantment::FeatherFalling)
    } else if name == "blast_protection"@ {
        Some(Enchantment::BlastProtection)
    } else if name == "projectile_protection"@ {
        Some(Enchantment::ProjectileProtection)
    } else if name == "respiration"@ {
        Some(Enchantment::Respiration)
    } else if name == "aqua_affinity"@ {
        Some(Enchantment::AquaAffinity)
    } else if name == "thorns"@ {
        Some(Enchantment::Thorns)
    } else if name == "depth_strider"@ {
        Some(Enchantment::DepthStrider)
    } else if name == "frost_walker"@ {
        Some(Enchantment::FrostWalker)
    } else if name == "binding_curse"@ {
        Some(Enchantment::BindingCurse)
    } else if name == "soul_speed"@ {
        Some(Enchantment::SoulSpeed)
    } else if name == "sharpness"@ {
        Some(Enchantment::Sharpness)
    } else if name == "smite"@ {
        Some(Enchantment::Smite)
    } else if name == "bane_of_arthropods"@ {
        Some(Enchantment::BaneOfArthropods)
    } else if name == "knockback"@ {
        Some(Enchantment::Knockback)
    } else if name == "fire_aspect"@ {
        Some(Enchantment::FireAspect)
    } else if name == "looting"@ {
        Some(Enchantment::Looting)
    } else if name == "sweeping"@ {
        Some(Enchantment::Sweeping)
    } else if name == "efficiency"@ {
        Some(Enchantment::Efficiency)
    } else if name == "silk_touch"@ {
        Some(Enchantment::SilkTouch)
    } else if name == "unbreaking"@ {
        Some(Enchantment::Unbreaking)
    } else if name == "fortune"@ {
        Some(Enchantment::Fortune)
    } else if name == "power"@ {
        Some(Enchantment::Power)
    } else if name == "punch"@ {
        Some(Enchantment::Punch)
    } else if name == "flame"@ {
        Some(Enchantment::Flame)
    } else if name == "infinity"@ {
        Some(Enchantment::Infinity)
    } else if name == "luck_of_the_sea"@ {
        Some(Enchantment::LuckOfTheSea)
    } else if name == "lure"@ {
        Some(Enchantment::Lure)
    } else if name == "loyalty"@ {
        Some(Enchantment::Loyalty)
    } else if name == "impaling"@ {
        Some(Enchantment::Impaling)
    } else if name == "riptide"@ {
        Some(Enchantment::Riptide)
    } else if name == "channeling"@ {
        Some(Enchantment::Channeling)
    } else if name == "multishot"@ {
        Some(Enchantment::Multishot)
    } else if name == "quick_charge"@ {
        Some(Enchantment::QuickCharge)
    } else if name == "piercing"@ {
        Some(Enchantment::Piercing)
    } else if name == "mending"@ {
        Some(Enchantment::Mending)
    } else if name == "vanishing_curse"@ {
        Some(Enchantment::VanishingCurse)
    } else if name == "swift_sneak"@ {
        Some(Enchantment::SwiftSneak)
    } else {
        None
    }
}

/// The enchantment that an identifier such as `minecraft:sharpness` stands
/// for: the `minecraft:` namespace, then a known name.
pub open spec fn spec_enchantment(input: Seq<char>) -> Option<Enchantment> {
    let namespace = "minecraft:"@;
    if namespace.len() <= input.len() && input.take(namespace.len() as int) == namespace {
        enchantment_named(input.skip(namespace.len() as int))
    } else {
        None
    }
}

impl Enchantment {
    /// The enchantment that an identifier such as `minecraft:sharpness`
    /// stands for; any other identifier is an error.
    pub fn from(input: &str) -> (res: Result<Enchantment, ParseError>)
        ensures
            match spec_enchantment(input@) {
                Some(e) => res == Ok::<Enchantment, ParseError>(e),
                None => (res matches Err(ParseError::UnknownEnchantment(name)) && name@ == input@),
            },
    {
        let len = input.unicode_len();
        let namespace = "minecraft:";
        if !starts_with(input, len, namespace) {
            return Err(ParseError::UnknownEnchantment(String::from_str(input)));
        }
        let start = namespace.unicode_len();
        if rest_is(input, len, start, "protection") {
            return Ok(Enchantment::Protection);
        }
        if rest_is(input, len, start, "fire_protection") {
            return Ok(Enchantment::FireProtection);
        }
        if rest_is(input, len, start, "feather_falling") {
            return Ok(Enchantment::FeatherFalling);
        }
        if rest_is(input, len, start, "blast_protection") {
            return Ok(Enchantment::BlastProtection);
        }
        if rest_is(input, len, start, "projectile_protection") {
            return Ok(Enchantment::ProjectileProtection);
        }
        if rest_is(input, len, start, "respiration") {
            return Ok(Enchantment::Respiration);
        }
        if rest_is(input, len, start, "aqua_affinity") {
            return Ok(Enchantment::AquaAffinity);
        }
        if rest_is(input, len, start, "thorns") {
            return Ok(Enchantment::Thorns);
        }
        if rest_is(input, len, start, "depth_strider") {
            return Ok(Enchantment::DepthStrider);
        }
        if rest_is(input, len, start, "frost_walker") {
            return Ok(Enchantment::FrostWalker);
        }
        if rest_is(input, len, start, "binding_curse") {
            return Ok(Enchantment::BindingCurse);
        }
        if rest_is(input, len, start, "soul_speed") {
            return Ok(Enchantment::SoulSpeed);
        }
        if rest_is(input, len, start, "sharpness") {
            return Ok(Enchantment::Sharpness);
        }
        if rest_is(input, len, start, "smite") {
            return Ok(Enchantment::Smite);
        }
        if rest_is(input, len, start, "bane_of_arthropods") {
            return Ok(Enchantment::BaneOfArthropods);
        }
        if rest_is(input, len, start, "knockback") {
            return Ok(Enchantment::Knockback);
        }
        if rest_is(input, len, start, "fire_aspect") {
            return Ok(Enchantment::FireAspect);
        }
        if rest_is(input, len, start, "looting") {
            return Ok(Enchantment::Looting);
        }
        if rest_is(input, len, start, "sweeping") {
            return Ok(Enchantment::Sweeping);
        }
        if rest_is(input, len, start, "efficiency") {
            return Ok(Enchantment::Efficiency);
        }
        if rest_is(input, len, start, "silk_touch") {
            return Ok(Enchantment::SilkTouch);
        }
        if rest_is(input, len, start, "unbreaking") {
            return Ok(Enchantment::Unbreaking);
        }
        if rest_is(input, len, start, "fortune") {
            return Ok(Enchantment::Fortune);
        }
        if rest_is(input, len, start, "power") {
            return Ok(Enchantment::Power);
        }
        if rest_is(input, len, start, "punch") {
            return Ok(Enchantment::Punch);
        }
        if rest_is(input, len, start, "flame") {
            return Ok(Enchantment::Flame);
        }
        if rest_is(input, len, start, "infinity") {
            return Ok(Enchantment::Infinity);
        }
        if rest_is(input, len, start, "luck_of_the_sea") {
            return Ok(Enchantment::LuckOfTheSea);
        }
        if rest_is(input, len, start, "lure") {
            return Ok(Enchantment::Lure);
        }
        if rest_is(input, len, start, "loyalty") {
            return Ok(Enchantment::Loyalty);
        }
        if rest_is(input, len, start, "impaling") {
            return Ok(Enchantment::Impaling);
        }
        if rest_is(input, len, start, "riptide") {
            return Ok(Enchantment::Riptide);
        }
        if rest_is(input, len, start, "channeling") {
            return Ok(Enchantment::Channeling);
        }
        if rest_is(input, len, start, "multishot") {
            return Ok(Enchantment::Multishot);
        }
        if rest_is(input, len, start, "quick_charge") {
            return Ok(Enchantment::QuickCharge);
        }
        if rest_is(input, len, start, "piercing") {
            return Ok(Enchantment::Piercing);
        }
        if rest_is(input, len, start, "mending") {
            return Ok(Enchantment::Mending);
        }
        if rest_is(input, len, start, "vanishing_curse") {
            return Ok(Enchantment::VanishingCurse);
        }
        if rest_is(input, len, start, "swift_sneak") {
            return Ok(Enchantment::SwiftSneak);
        }
        Err(ParseError::UnknownEnchantment(String::from_str(input)))
    }
}

} // verus!
verus! {

/// The name of an enchantment's variant, as its identifier is written in
/// this crate's source.
pub open spec fn enchantment_type_name(e: Enchantment) -> Seq<char> {
    match e {
        Enchantment::Protection => "Protection"@,
        Enchantment::FireProtection => "FireProtection"@,
        Enchantment::FeatherFalling => "FeatherFalling"@,
        Enchantment::BlastProtection => "BlastProtection"@,
        Enchantment::ProjectileProtection => "ProjectileProtection"@,
        Enchantment::Respiration => "Respiration"@,
        Enchantment::AquaAffinity => "AquaAffinity"@,
        Enchantment::Thorns => "Thorns"@,
        Enchantment::DepthStrider => "DepthStrider"@,
        Enchantment::FrostWalker => "FrostWalker"@,
        Enchantment::BindingCurse => "BindingCurse"@,
        Enchantment::SoulSpeed => "SoulSpeed"@,
        Enchantment::Sharpness => "Sharpness"@,
        Enchantment::Smite => "Smite"@,
        Enchantment::BaneOfArthropods => "BaneOfArthropods"@,
        Enchantment::Knockback => "Knockback"@,
        Enchantment::FireAspect => "FireAspect"@,
        Enchantment::Looting => "Looting"@,
        Enchantment::Sweeping => "Sweeping"@,
        Enchantment::Efficiency => "Efficiency"@,
        Enchantment::SilkTouch => "SilkTouch"@,
        Enchantment::Unbreaking => "Unbreaking"@,
        Enchantment::Fortune => "Fortune"@,
        Enchantment::Power => "Power"@,
        Enchantment::Punch => "Punch"@,
        Enchantment::Flame => "Flame"@,
        Enchantment::Infinity => "Infinity"@,
        Enchantment::LuckOfTheSea => "LuckOfTheSea"@,
        Enchantment::Lure => "Lure"@,
        Enchantment::Loyalty => "Loyalty"@,
        Enchantment::Impaling => "Impaling"@,
        Enchantment::Riptide => "Riptide"@,
        Enchantment::Channeling => "Channeling"@,
        Enchantment::Multishot => "Multishot"@,
        Enchantment::QuickCharge => "QuickCharge"@,
        Enchantment::Piercing => "Piercing"@,
        Enchantment::Mending => "Mending"@,
        Enchantment::VanishingCurse => "VanishingCurse"@,
        Enchantment::SwiftSneak => "SwiftSneak"@,
    }
}

proof fn lemma_title_protection()
    ensures
        spec_title_case("protection"@, true) == "Protection"@,
{
    reveal_strlit("protection");
    reveal_strlit("Protection");
    assert("protection"@ =~= seq!['p', 'r', 'o', 't', 'e', 'c', 't', 'i', 'o', 'n']);
    assert("Protection"@ =~= seq!['P', 'r', 'o', 't', 'e', 'c', 't', 'i', 'o', 'n']);
    reveal_with_fuel(spec_title_case, 11);
}

proof fn lemma_title_fire_protection()
    ensures
        spec_title_case("fire_protection"@, true) == "FireProtection"@,
{
    reveal_strlit("fire_protection");
    reveal_strlit("FireProtection");
    assert("fire_protection"@ =~= seq!['f', 'i', 'r', 'e', '_', 'p', 'r', 'o', 't', 'e', 'c', 't', 'i', 'o', 'n']);
    assert("FireProtection"@ =~= seq!['F', 'i', 'r', 'e', 'P', 'r', 'o', 't', 'e', 'c', 't', 'i', 'o', 'n']);
    reveal_with_fuel(spec_title_case, 16);
}

proof fn lemma_title_feather_falling()
    ensures
        spec_title_case("feather_falling"@, true) == "FeatherFalling"@,
{
    reveal_strlit("feather_falling");
    reveal_strlit("FeatherFalling");
    assert("feather_falling"@ =~= seq!['f', 'e', 'a', 't', 'h', 'e', 'r', '_', 'f', 'a', 'l', 'l', 'i', 'n', 'g']);
    assert("FeatherFalling"@ =~= seq!['F', 'e', 'a', 't', 'h', 'e', 'r', 'F', 'a', 'l', 'l', 'i', 'n', 'g']);
    reveal_with_fuel(spec_title_case, 16);
}

proof fn lemma_title_blast_protection()
    ensures
        spec_title_case("blast_protection"@, true) == "BlastProtection"@,
{
    reveal_strlit("blast_protection");
    reveal_strlit("BlastProtection");
    assert("blast_protection"@ =~= seq!['b', 'l', 'a', 's', 't', '_', 'p', 'r', 'o', 't', 'e', 'c', 't', 'i', 'o', 'n']);
    assert("BlastProtection"@ =~= seq!['B', 'l', 'a', 's', 't', 'P', 'r', 'o', 't', 'e', 'c', 't', 'i', 'o', 'n']);
    reveal_with_fuel(spec_title_case, 17);
}

proof fn lemma_title_projectile_protection()
    ensures
        spec_title_case("projectile_protection"@, true) == "ProjectileProtection"@,
{
    reveal_strlit("projectile_protection");
    reveal_strlit("ProjectileProtection");
    assert("projectile_protection"@ =~= seq!['p', 'r', 'o', 'j', 'e', 'c', 't', 'i', 'l', 'e', '_', 'p', 'r', 'o', 't', 'e', 'c', 't', 'i', 'o', 'n']);
    assert("ProjectileProtection"@ =~= seq!['P', 'r', 'o', 'j', 'e', 'c', 't', 'i', 'l', 'e', 'P', 'r', 'o', 't', 'e', 'c', 't', 'i', 'o', 'n']);
    reveal_with_fuel(spec_title_case, 22);
}

proof fn lemma_title_respiration()
    ensures
        spec_title_case("respiration"@, true) == "Respiration"@,
{
    reveal_strlit("respiration");
    reveal_strlit("Respiration");
    assert("respiration"@ =~= seq!['r', 'e', 's', 'p', 'i', 'r', 'a', 't', 'i', 'o', 'n']);
    assert("Respiration"@ =~= seq!['R', 'e', 's', 'p', 'i', 'r', 'a', 't', 'i', 'o', 'n']);
    reveal_with_fuel(spec_title_case, 12);
}

proof fn lemma_title_aqua_affinity()
    ensures
        spec_title_case("aqua_affinity"@, true) == "AquaAffinity"@,
{
    reveal_strlit("aqua_affinity");
    reveal_strlit("AquaAffinity");
    assert("aqua_affinity"@ =~= seq!['a', 'q', 'u', 'a', '_', 'a', 'f', 'f', 'i', 'n', 'i', 't', 'y']);
    assert("AquaAffinity"@ =~= seq!['A', 'q', 'u', 'a', 'A', 'f', 'f', 'i', 'n', 'i', 't', 'y']);
    reveal_with_fuel(spec_title_case, 14);
}

proof fn lemma_title_thorns()
    ensures
        spec_title_case("thorns"@, true) == "Thorns"@,
{
    reveal_strlit("thorns");
    reveal_strlit("Thorns");
    assert("thorns"@ =~= seq!['t', 'h', 'o', 'r', 'n', 's']);
    assert("Thorns"@ =~= seq!['T', 'h', 'o', 'r', 'n', 's']);
    reveal_with_fuel(spec_title_case, 7);
}

proof fn lemma_title_depth_strider()
    ensures
        spec_title_case("depth_strider"@, true) == "DepthStrider"@,
{
    reveal_strlit("depth_strider");
    reveal_strlit("DepthStrider");
    assert("depth_strider"@ =~= seq!['d', 'e', 'p', 't', 'h', '_', 's', 't', 'r', 'i', 'd', 'e', 'r']);
    assert("DepthStrider"@ =~= seq!['D', 'e', 'p', 't', 'h', 'S', 't', 'r', 'i', 'd', 'e', 'r']);
    reveal_with_fuel(spec_title_case, 14);
}

proof fn lemma_title_frost_walker()
    ensures
        spec_title_case("frost_walker"@, true) == "FrostWalker"@,
{
    reveal_strlit("frost_walker");
    reveal_strlit("FrostWalker");
    assert("frost_walker"@ =~= seq!['f', 'r', 'o', 's', 't', '_', 'w', 'a', 'l', 'k', 'e', 'r']);
    assert("FrostWalker"@ =~= seq!['F', 'r', 'o', 's', 't', 'W', 'a', 'l', 'k', 'e', 'r']);
    reveal_with_fuel(spec_title_case, 13);
}

proof fn lemma_title_binding_curse()
    ensures
        spec_title_case("binding_curse"@, true) == "BindingCurse"@,
{
    reveal_strlit("binding_curse");
    reveal_strlit("BindingCurse");
    assert("binding_curse"@ =~= seq!['b', 'i', 'n', 'd', 'i', 'n', 'g', '_', 'c', 'u', 'r', 's', 'e']);
    assert("BindingCurse"@ =~= seq!['B', 'i', 'n', 'd', 'i', 'n', 'g', 'C', 'u', 'r', 's', 'e']);
    reveal_with_fuel(spec_title_case, 14);
}

proof fn lemma_title_soul_speed()
    ensures
        spec_title_case("soul_speed"@, true) == "SoulSpeed"@,
{
    reveal_strlit("soul_speed");
    reveal_strlit("SoulSpeed");
    assert("soul_speed"@ =~= seq!['s', 'o', 'u', 'l', '_', 's', 'p', 'e', 'e', 'd']);
    assert("SoulSpeed"@ =~= seq!['S', 'o', 'u', 'l', 'S', 'p', 'e', 'e', 'd']);
    reveal_with_fuel(spec_title_case, 11);
}

proof fn lemma_title_sharpness()
    ensures
        spec_title_case("sharpness"@, true) == "Sharpness"@,
{
    reveal_strlit("sharpness");
    reveal_strlit("Sharpness");
    assert("sharpness"@ =~= seq!['s', 'h', 'a', 'r', 'p', 'n', 'e', 's', 's']);
    assert("Sharpness"@ =~= seq!['S', 'h', 'a', 'r', 'p', 'n', 'e', 's', 's']);
    reveal_with_fuel(spec_title_case, 10);
}

proof fn lemma_title_smite()
    ensures
        spec_title_case("smite"@, true) == "Smite"@,
{
    reveal_strlit("smite");
    reveal_strlit("Smite");
    assert("smite"@ =~= seq!['s', 'm', 'i', 't', 'e']);
    assert("Smite"@ =~= seq!['S', 'm', 'i', 't', 'e']);
    reveal_with_fuel(spec_title_case, 6);
}

proof fn lemma_title_bane_of_arthropods()
    ensures
        spec_title_case("bane_of_arthropods"@, true) == "BaneOfArthropods"@,
{
    reveal_strlit("bane_of_arthropods");
    reveal_strlit("BaneOfArthropods");
    assert("bane_of_arthropods"@ =~= seq!['b', 'a', 'n', 'e', '_', 'o', 'f', '_', 'a', 'r', 't', 'h', 'r', 'o', 'p', 'o', 'd', 's']);
    assert("BaneOfArthropods"@ =~= seq!['B', 'a', 'n', 'e', 'O', 'f', 'A', 'r', 't', 'h', 'r', 'o', 'p', 'o', 'd', 's']);
    reveal_with_fuel(spec_title_case, 19);
}

proof fn lemma_title_knockback()
    ensures
        spec_title_case("knockback"@, true) == "Knockback"@,
{
    reveal_strlit("knockback");
    reveal_strlit("Knockback");
    assert("knockback"@ =~= seq!['k', 'n', 'o', 'c', 'k', 'b', 'a', 'c', 'k']);
    assert("Knockback"@ =~= seq!['K', 'n', 'o', 'c', 'k', 'b', 'a', 'c', 'k']);
    reveal_with_fuel(spec_title_case, 10);
}

proof fn lemma_title_fire_aspect()
    ensures
        spec_title_case("fire_aspect"@, true) == "FireAspect"@,
{
    reveal_strlit("fire_aspect");
    reveal_strlit("FireAspect");
    assert("fire_aspect"@ =~= seq!['f', 'i', 'r', 'e', '_', 'a', 's', 'p', 'e', 'c', 't']);
    assert("FireAspect"@ =~= seq!['F', 'i', 'r', 'e', 'A', 's', 'p', 'e', 'c', 't']);
    reveal_with_fuel(spec_title_case, 12);
}

proof fn lemma_title_looting()
    ensures
        spec_title_case("looting"@, true) == "Looting"@,
{
    reveal_strlit("looting");
    reveal_strlit("Looting");
    assert("looting"@ =~= seq!['l', 'o', 'o', 't', 'i', 'n', 'g']);
    assert("Looting"@ =~= seq!['L', 'o', 'o', 't', 'i', 'n', 'g']);
    reveal_with_fuel(spec_title_case, 8);
}

proof fn lemma_title_sweeping()
    ensures
        spec_title_case("sweeping"@, true) == "Sweeping"@,
{
    reveal_strlit("sweeping");
    reveal_strlit("Sweeping");
    assert("sweeping"@ =~= seq!['s', 'w', 'e', 'e', 'p', 'i', 'n', 'g']);
    assert("Sweeping"@ =~= seq!['S', 'w', 'e', 'e', 'p', 'i', 'n', 'g']);
    reveal_with_fuel(spec_title_case, 9);
}

proof fn lemma_title_efficiency()
    ensures
        spec_title_case("efficiency"@, true) == "Efficiency"@,
{
    reveal_strlit("efficiency");
    reveal_strlit("Efficiency");
    assert("efficiency"@ =~= seq!['e', 'f', 'f', 'i', 'c', 'i', 'e', 'n', 'c', 'y']);
    assert("Efficiency"@ =~= seq!['E', 'f', 'f', 'i', 'c', 'i', 'e', 'n', 'c', 'y']);
    reveal_with_fuel(spec_title_case, 11);
}

proof fn lemma_title_silk_touch()
    ensures
        spec_title_case("silk_touch"@, true) == "SilkTouch"@,
{
    reveal_strlit("silk_touch");
    reveal_strlit("SilkTouch");
    assert("silk_touch"@ =~= seq!['s', 'i', 'l', 'k', '_', 't', 'o', 'u', 'c', 'h']);
    assert("SilkTouch"@ =~= seq!['S', 'i', 'l', 'k', 'T', 'o', 'u', 'c', 'h']);
    reveal_with_fuel(spec_title_case, 11);
}

proof fn lemma_title_unbreaking()
    ensures
        spec_title_case("unbreaking"@, true) == "Unbreaking"@,
{
    reveal_strlit("unbreaking");
    reveal_strlit("Unbreaking");
    assert("unbreaking"@ =~= seq!['u', 'n', 'b', 'r', 'e', 'a', 'k', 'i', 'n', 'g']);
    assert("Unbreaking"@ =~= seq!['U', 'n', 'b', 'r', 'e', 'a', 'k', 'i', 'n', 'g']);
    reveal_with_fuel(spec_title_case, 11);
}

proof fn lemma_title_fortune()
    ensures
        spec_title_case("fortune"@, true) == "Fortune"@,
{
    reveal_strlit("fortune");
    reveal_strlit("Fortune");
    assert("fortune"@ =~= seq!['f', 'o', 'r', 't', 'u', 'n', 'e']);
    assert("Fortune"@ =~= seq!['F', 'o', 'r', 't', 'u', 'n', 'e']);
    reveal_with_fuel(spec_title_case, 8);
}

proof fn lemma_title_power()
    ensures
        spec_title_case("power"@, true) == "Power"@,
{
    reveal_strlit("power");
    reveal_strlit("Power");
    assert("power"@ =~= seq!['p', 'o', 'w', 'e', 'r']);
    assert("Power"@ =~= seq!['P', 'o', 'w', 'e', 'r']);
    reveal_with_fuel(spec_title_case, 6);
}

proof fn lemma_title_punch()
    ensures
        spec_title_case("punch"@, true) == "Punch"@,
{
    reveal_strlit("punch");
    reveal_strlit("Punch");
    assert("punch"@ =~= seq!['p', 'u', 'n', 'c', 'h']);
    assert("Punch"@ =~= seq!['P', 'u', 'n', 'c', 'h']);
    reveal_with_fuel(spec_title_case, 6);
}

proof fn lemma_title_flame()
    ensures
        spec_title_case("flame"@, true) == "Flame"@,
{
    reveal_strlit("flame");
    reveal_strlit("Flame");
    assert("flame"@ =~= seq!['f', 'l', 'a', 'm', 'e']);
    assert("Flame"@ =~= seq!['F', 'l', 'a', 'm', 'e']);
    reveal_with_fuel(spec_title_case, 6);
}

proof fn lemma_title_infinity()
    ensures
        spec_title_case("infinity"@, true) == "Infinity"@,
{
    reveal_strlit("infinity");
    reveal_strlit("Infinity");
    assert("infinity"@ =~= seq!['i', 'n', 'f', 'i', 'n', 'i', 't', 'y']);
    assert("Infinity"@ =~= seq!['I', 'n', 'f', 'i', 'n', 'i', 't', 'y']);
    reveal_with_fuel(spec_title_case, 9);
}

proof fn lemma_title_luck_of_the_sea()
    ensures
        spec_title_case("luck_of_the_sea"@, true) == "LuckOfTheSea"@,
{
    reveal_strlit("luck_of_the_sea");
    reveal_strlit("LuckOfTheSea");
    assert("luck_of_the_sea"@ =~= seq!['l', 'u', 'c', 'k', '_', 'o', 'f', '_', 't', 'h', 'e', '_', 's', 'e', 'a']);
    assert("LuckOfTheSea"@ =~= seq!['L', 'u', 'c', 'k', 'O', 'f', 'T', 'h', 'e', 'S', 'e', 'a']);
    reveal_with_fuel(spec_title_case, 16);
}

proof fn lemma_title_lure()
    ensures
        spec_title_case("lure"@, true) == "Lure"@,
{
    reveal_strlit("lure");
    reveal_strlit("Lure");
    assert("lure"@ =~= seq!['l', 'u', 'r', 'e']);
    assert("Lure"@ =~= seq!['L', 'u', 'r', 'e']);
    reveal_with_fuel(spec_title_case, 5);
}

proof fn lemma_title_loyalty()
    ensures
        spec_title_case("loyalty"@, true) == "Loyalty"@,
{
    reveal_strlit("loyalty");
    reveal_strlit("Loyalty");
    assert("loyalty"@ =~= seq!['l', 'o', 'y', 'a', 'l', 't', 'y']);
    assert("Loyalty"@ =~= seq!['L', 'o', 'y', 'a', 'l', 't', 'y']);
    reveal_with_fuel(spec_title_case, 8);
}

proof fn lemma_title_impaling()
    ensures
        spec_title_case("impaling"@, true) == "Impaling"@,
{
    reveal_strlit("impaling");
    reveal_strlit("Impaling");
    assert("impaling"@ =~= seq!['i', 'm', 'p', 'a', 'l', 'i', 'n', 'g']);
    assert("Impaling"@ =~= seq!['I', 'm', 'p', 'a', 'l', 'i', 'n', 'g']);
    reveal_with_fuel(spec_title_case, 9);
}

proof fn lemma_title_riptide()
    ensures
        spec_title_case("riptide"@, true) == "Riptide"@,
{
    reveal_strlit("riptide");
    reveal_strlit("Riptide");
    assert("riptide"@ =~= seq!['r', 'i', 'p', 't', 'i', 'd', 'e']);
    assert("Riptide"@ =~= seq!['R', 'i', 'p', 't', 'i', 'd', 'e']);
    reveal_with_fuel(spec_title_case, 8);
}

proof fn lemma_title_channeling()
    ensures
        spec_title_case("channeling"@, true) == "Channeling"@,
{
    reveal_strlit("channeling");
    reveal_strlit("Channeling");
    assert("channeling"@ =~= seq!['c', 'h', 'a', 'n', 'n', 'e', 'l', 'i', 'n', 'g']);
    assert("Channeling"@ =~= seq!['C', 'h', 'a', 'n', 'n', 'e', 'l', 'i', 'n', 'g']);
    reveal_with_fuel(spec_title_case, 11);
}

proof fn lemma_title_multishot()
    ensures
        spec_title_case("multishot"@, true) == "Multishot"@,
{
    reveal_strlit("multishot");
    reveal_strlit("Multishot");
    assert("multishot"@ =~= seq!['m', 'u', 'l', 't', 'i', 's', 'h', 'o', 't']);
    assert("Multishot"@ =~= seq!['M', 'u', 'l', 't', 'i', 's', 'h', 'o', 't']);
    reveal_with_fuel(spec_title_case, 10);
}

proof fn lemma_title_quick_charge()
    ensures
        spec_title_case("quick_charge"@, true) == "QuickCharge"@,
{
    reveal_strlit("quick_charge");
    reveal_strlit("QuickCharge");
    assert("quick_charge"@ =~= seq!['q', 'u', 'i', 'c', 'k', '_', 'c', 'h', 'a', 'r', 'g', 'e']);
    assert("QuickCharge"@ =~= seq!['Q', 'u', 'i', 'c', 'k', 'C', 'h', 'a', 'r', 'g', 'e']);
    reveal_with_fuel(spec_title_case, 13);
}

proof fn lemma_title_piercing()
    ensures
        spec_title_case("piercing"@, true) == "Piercing"@,
{
    reveal_strlit("piercing");
    reveal_strlit("Piercing");
    assert("piercing"@ =~= seq!['p', 'i', 'e', 'r', 'c', 'i', 'n', 'g']);
    assert("Piercing"@ =~= seq!['P', 'i', 'e', 'r', 'c', 'i', 'n', 'g']);
    reveal_with_fuel(spec_title_case, 9);
}

proof fn lemma_title_mending()
    ensures
        spec_title_case("mending"@, true) == "Mending"@,
{
    reveal_strlit("mending");
    reveal_strlit("Mending");
    assert("mending"@ =~= seq!['m', 'e', 'n', 'd', 'i', 'n', 'g']);
    assert("Mending"@ =~= seq!['M', 'e', 'n', 'd', 'i', 'n', 'g']);
    reveal_with_fuel(spec_title_case, 8);
}

proof fn lemma_title_vanishing_curse()
    ensures
        spec_title_case("vanishing_curse"@, true) == "VanishingCurse"@,
{
    reveal_strlit("vanishing_curse");
    reveal_strlit("VanishingCurse");
    assert("vanishing_curse"@ =~= seq!['v', 'a', 'n', 'i', 's', 'h', 'i', 'n', 'g', '_', 'c', 'u', 'r', 's', 'e']);
    assert("VanishingCurse"@ =~= seq!['V', 'a', 'n', 'i', 's', 'h', 'i', 'n', 'g', 'C', 'u', 'r', 's', 'e']);
    reveal_with_fuel(spec_title_case, 16);
}

proof fn lemma_title_swift_sneak()
    ensures
        spec_title_case("swift_sneak"@, true) == "SwiftSneak"@,
{
    reveal_strlit("swift_sneak");
    reveal_strlit("SwiftSneak");
    assert("swift_sneak"@ =~= seq!['s', 'w', 'i', 'f', 't', '_', 's', 'n', 'e', 'a', 'k']);
    assert("SwiftSneak"@ =~= seq!['S', 'w', 'i', 'f', 't', 'S', 'n', 'e', 'a', 'k']);
    reveal_with_fuel(spec_title_case, 12);
}

/// An identifier names the enchantment whose variant is its name in title
/// case, as the enchantment table is generated: `minecraft:fire_protection`
/// is `FireProtection`, `minecraft:smite` is `Smite`.
pub proof fn lemma_enchantment_title_case(input: Seq<char>)
    ensures
        match spec_enchantment(input) {
            Some(e) => spec_title_case(input.skip(10), true) == enchantment_type_name(e),
            None => true,
        },
{
    reveal_strlit("minecraft:");
    let name = input.skip(10);
    if spec_enchantment(input) is Some {
        assert(input.take(10) == "minecraft:"@);
        if name == "protection"@ {
            lemma_title_protection();
        } else if name == "fire_protection"@ {
            lemma_title_fire_protection();
        } else if name == "feather_falling"@ {
            lemma_title_feather_falling();
        } else if name == "blast_protection"@ {
            lemma_title_blast_protection();
        } else if name == "projectile_protection"@ {
            lemma_title_projectile_protection();
        } else if name == "respiration"@ {
            lemma_title_respiration();
        } else if name == "aqua_affinity"@ {
            lemma_title_aqua_affinity();
        } else if name == "thorns"@ {
            lemma_title_thorns();
        } else if name == "depth_strider"@ {
            lemma_title_depth_strider();
        } else if name == "frost_walker"@ {
            lemma_title_frost_walker();
        } else if name == "binding_curse"@ {
            lemma_title_binding_curse();
        } else if name == "soul_speed"@ {
            lemma_title_soul_speed();
        } else if name == "sharpness"@ {
            lemma_title_sharpness();
        } else if name == "smite"@ {
            lemma_title_smite();
        } else if name == "bane_of_arthropods"@ {
            lemma_title_bane_of_arthropods();
        } else if name == "knockback"@ {
            lemma_title_knockback();
        } else if name == "fire_aspect"@ {
            lemma_title_fire_aspect();
        } else if name == "looting"@ {
            lemma_title_looting();
        } else if name == "sweeping"@ {
            lemma_title_sweeping();
        } else if name == "efficiency"@ {
            lemma_title_efficiency();
        } else if name == "silk_touch"@ {
            lemma_title_silk_touch();
        } else if name == "unbreaking"@ {
            lemma_title_unbreaking();
        } else if name == "fortune"@ {
            lemma_title_fortune();
        } else if name == "power"@ {
            lemma_title_power();
        } else if name == "punch"@ {
            lemma_title_punch();
        } else if name == "flame"@ {
            lemma_title_flame();
        } else if name == "infinity"@ {
            lemma_title_infinity();
        } else if name == "luck_of_the_sea"@ {
            lemma_title_luck_of_the_sea();
        } else if name == "lure"@ {
            lemma_title_lure();
        } else if name == "loyalty"@ {
            lemma_title_loyalty();
        } else if name == "impaling"@ {
            lemma_title_impaling();
        } else if name == "riptide"@ {
            lemma_title_riptide();
        } else if name == "channeling"@ {
            lemma_title_channeling();
        } else if name == "multishot"@ {
            lemma_title_multishot();
        } else if name == "quick_charge"@ {
            lemma_title_quick_charge();
        } else if name == "piercing"@ {
            lemma_title_piercing();
        } else if name == "mending"@ {
            lemma_title_mending();
        } else if name == "vanishing_curse"@ {
            lemma_title_vanishing_curse();
        } else if name == "swift_sneak"@ {
            lemma_title_swift_sneak();
        }
    }
}

/// Every enchantment has an identifier that names it.
pub proof fn lemma_every_enchantment_named(e: Enchantment)
    ensures
        exists|name: Seq<char>| #[trigger] spec_enchantment("minecraft:"@ + name) == Some(e),
{
    reveal_strlit("minecraft:");
    reveal_strlit("protection");
    reveal_strlit("fire_protection");
    reveal_strlit("feather_falling");
    reveal_strlit("blast_protection");
    reveal_strlit("projectile_protection");
    reveal_strlit("respiration");
    reveal_strlit("aqua_affinity");
    reveal_strlit("thorns");
    reveal_strlit("depth_strider");
    reveal_strlit("frost_walker");
    reveal_strlit("binding_curse");
    reveal_strlit("soul_speed");
    reveal_strlit("sharpness");
    reveal_strlit("smite");
    reveal_strlit("bane_of_arthropods");
    reveal_strlit("knockback");
    reveal_strlit("fire_aspect");
    reveal_strlit("looting");
    reveal_strlit("sweeping");
    reveal_strlit("efficiency");
    reveal_strlit("silk_touch");
    reveal_strlit("unbreaking");
    reveal_strlit("fortune");
    reveal_strlit("power");
    reveal_strlit("punch");
    reveal_strlit("flame");
    reveal_strlit("infinity");
    reveal_strlit("luck_of_the_sea");
    reveal_strlit("lure");
    reveal_strlit("loyalty");
    reveal_strlit("impaling");
    reveal_strlit("riptide");
    reveal_strlit("channeling");
    reveal_strlit("multishot");
    reveal_strlit("quick_charge");
    reveal_strlit("piercing");
    reveal_strlit("mending");
    reveal_strlit("vanishing_curse");
    reveal_strlit("swift_sneak");
    match e {
        Enchantment::Protection => {
            assert(("minecraft:"@ + "protection"@).take(10) =~= "minecraft:"@);
            assert(("minecraft:"@ + "protection"@).skip(10) =~= "protection"@);
            assert(spec_enchantment("minecraft:"@ + "protection"@) == Some(e));
        },
        Enchantment::FireProtection => {
            assert(("minecraft:"@ + "fire_protection"@).take(10) =~= "minecraft:"@);
            assert(("minecraft:"@ + "fire_protection"@).skip(10) =~= "fire_protection"@);
            assert(spec_enchantment("minecraft:"@ + "fire_protection"@) == Some(e));
        },
        Enchantment::FeatherFalling => {
            assert(("minecraft:"@ + "feather_falling"@).take(10) =~= "minecraft:"@);
            assert(("minecraft:"@ + "feather_falling"@).skip(10) =~= "feather_falling"@);
            assert("feather_falling"@[1] != "fire_protection"@[1]);
            assert(spec_enchantment("minecraft:"@ + "feather_falling"@) == Some(e));
        },
        Enchantment::BlastProtection => {
            assert(("minecraft:"@ + "blast_protection"@).take(10) =~= "minecraft:"@);
            assert(("minecraft:"@ + "blast_protection"@).skip(10) =~= "blast_protection"@);
            assert(spec_enchantment("minecraft:"@ + "blast_protection"@) == Some(e));
        },
        Enchantment::ProjectileProtection => {
            assert(("minecraft:"@ + "projectile_protection"@).take(10) =~= "minecraft:"@);
            assert(("minecraft:"@ + "projectile_protection"@).skip(10) =~= "projectile_protection"@);
            assert(spec_enchantment("minecraft:"@ + "projectile_protection"@) == Some(e));
        },
        Enchantment::Respiration => {
            assert(("minecraft:"@ + "respiration"@).take(10) =~= "minecraft:"@);
            assert(("minecraft:"@ + "respiration"@).skip(10) =~= "respiration"@);
            assert(spec_enchantment("minecraft:"@ + "respiration"@) == Some(e));
        },
        Enchantment::AquaAffinity => {
            assert(("minecraft:"@ + "aqua_affinity"@).take(10) =~= "minecraft:"@);
            assert(("minecraft:"@ + "aqua_affinity"@).skip(10) =~= "aqua_affinity"@);
            assert(spec_enchantment("minecraft:"@ + "aqua_affinity"@) == Some(e));
        },
        Enchantment::Thorns => {
            assert(("minecraft:"@ + "thorns"@).take(10) =~= "minecraft:"@);
            assert(("minecraft:"@ + "thorns"@).skip(10) =~= "thorns"@);
            assert(spec_enchantment("minecraft:"@ + "thorns"@) == Some(e));
        },
        Enchantment::DepthStrider => {
            assert(("minecraft:"@ + "depth_strider"@).take(10) =~= "minecraft:"@);
            assert(("minecraft:"@ + "depth_strider"@).skip(10) =~= "depth_strider"@);
            assert("depth_strider"@[0] != "aqua_affinity"@[0]);
            assert(spec_enchantment("minecraft:"@ + "depth_strider"@) == Some(e));
        },
        Enchantment::FrostWalker => {
            assert(("minecraft:"@ + "frost_walker"@).take(10) =~= "minecraft:"@);
            assert(("minecraft:"@ + "frost_walker"@).skip(10) =~= "frost_walker"@);
            assert(spec_enchantment("minecraft:"@ + "frost_walker"@) == Some(e));
        },
        Enchantment::BindingCurse => {
            assert(("minecraft:"@ + "binding_curse"@).take(10) =~= "minecraft:"@);
            assert(("minecraft:"@ + "binding_curse"@).skip(10) =~= "binding_curse"@);
            assert("binding_curse"@[0] != "aqua_affinity"@[0]);
            assert("binding_curse"@[0] != "depth_strider"@[0]);
            assert(spec_enchantment("minecraft:"@ + "binding_curse"@) == Some(e));
        },
        Enchantment::SoulSpeed => {
            assert(("minecraft:"@ + "soul_speed"@).take(10) =~= "minecraft:"@);
            assert(("minecraft:"@ + "soul_speed"@).skip(10) =~= "soul_speed"@);
            assert("soul_speed"@[0] != "protection"@[0]);
            assert(spec_enchantment("minecraft:"@ + "soul_speed"@) == Some(e));
        },
        Enchantment::Sharpness => {
            assert(("minecraft:"@ + "sharpness"@).take(10) =~= "minecraft:"@);
            assert(("minecraft:"@ + "sharpness"@).skip(10) =~= "sharpness"@);
            assert(spec_enchantment("minecraft:"@ + "sharpness"@) == Some(e));
        },
        Enchantment::Smite => {
            assert(("minecraft:"@ + "smite"@).take(10) =~= "minecraft:"@);
            assert(("minecraft:"@ + "smite"@).skip(10) =~= "smite"@);
            assert(spec_enchantment("minecraft:"@ + "smite"@) == Some(e));
        },
        Enchantment::BaneOfArthropods => {
            assert(("minecraft:"@ + "bane_of_arthropods"@).take(10) =~= "minecraft:"@);
            assert(("minecraft:"@ + "bane_of_arthropods"@).skip(10) =~= "bane_of_arthropods"@);
            assert(spec_enchantment("minecraft:"@ + "bane_of_arthropods"@) == Some(e));
        },
        Enchantment::Knockback => {
            assert(("minecraft:"@ + "knockback"@).take(10) =~= "minecraft:"@);
            assert(("minecraft:"@ + "knockback"@).skip(10) =~= "knockback"@);
            assert("knockback"@[0] != "sharpness"@[0]);
            assert(spec_enchantment("minecraft:"@ + "knockback"@) == Some(e));
        },
        Enchantment::FireAspect => {
            assert(("minecraft:"@ + "fire_aspect"@).take(10) =~= "minecraft:"@);
            assert(("minecraft:"@ + "fire_aspect"@).skip(10) =~= "fire_aspect"@);
            assert("fire_aspect"@[0] != "respiration"@[0]);
            assert(spec_enchantment("minecraft:"@ + "fire_aspect"@) == Some(e));
        },
        Enchantment::Looting => {
            assert(("minecraft:"@ + "looting"@).take(10) =~= "minecraft:"@);
            assert(("minecraft:"@ + "looting"@).skip(10) =~= "looting"@);
            assert(spec_enchantment("minecraft:"@ + "looting"@) == Some(e));
        },
        Enchantment::Sweeping => {
            assert(("minecraft:"@ + "sweeping"@).take(10) =~= "minecraft:"@);
            assert(("minecraft:"@ + "sweeping"@).skip(10) =~= "sweeping"@);
            assert(spec_enchantment("minecraft:"@ + "sweeping"@) == Some(e));
        },
        Enchantment::Efficiency => {
            assert(("minecraft:"@ + "efficiency"@).take(10) =~= "minecraft:"@);
            assert(("minecraft:"@ + "efficiency"@).skip(10) =~= "efficiency"@);
            assert("efficiency"@[0] != "protection"@[0]);
            assert("efficiency"@[0] != "soul_speed"@[0]);
            assert(spec_enchantment("minecraft:"@ + "efficiency"@) == Some(e));
        },
        Enchantment::SilkTouch => {
            assert(("minecraft:"@ + "silk_touch"@).take(10) =~= "minecraft:"@);
            assert(("minecraft:"@ + "silk_touch"@).skip(10) =~= "silk_touch"@);
            assert("silk_touch"@[0] != "protection"@[0]);
            assert("silk_touch"@[1] != "soul_speed"@[1]);
            assert("silk_touch"@[0] != "efficiency"@[0]);
            assert(spec_enchantment("minecraft:"@ + "silk_touch"@) == Some(e));
        },
        Enchantment::Unbreaking => {
            assert(("minecraft:"@ + "unbreaking"@).take(10) =~= "minecraft:"@);
            assert(("minecraft:"@ + "unbreaking"@).skip(10) =~= "unbreaking"@);
            assert("unbreaking"@[0] != "protection"@[0]);
            assert("unbreaking"@[0] != "soul_speed"@[0]);
            assert("unbreaking"@[0] != "efficiency"@[0]);
            assert("unbreaking"@[0] != "silk_touch"@[0]);
            assert(spec_enchantment("minecraft:"@ + "unbreaking"@) == Some(e));
        },
        Enchantment::Fortune => {
            assert(("minecraft:"@ + "fortune"@).take(10) =~= "minecraft:"@);
            assert(("minecraft:"@ + "fortune"@).skip(10) =~= "fortune"@);
            assert("fortune"@[0] != "looting"@[0]);
            assert(spec_enchantment("minecraft:"@ + "fortune"@) == Some(e));
        },
        Enchantment::Power => {
            assert(("minecraft:"@ + "power"@).take(10) =~= "minecraft:"@);
            assert(("minecraft:"@ + "power"@).skip(10) =~= "power"@);
            assert("power"@[0] != "smite"@[0]);
            assert(spec_enchantment("minecraft:"@ + "power"@) == Some(e));
        },
        Enchantment::Punch => {
            assert(("minecraft:"@ + "punch"@).take(10) =~= "minecraft:"@);
            assert(("minecraft:"@ + "punch"@).skip(10) =~= "punch"@);
            assert("punch"@[0] != "smite"@[0]);
            assert("punch"@[1] != "power"@[1]);
            assert(spec_enchantment("minecraft:"@ + "punch"@) == Some(e));
        },
        Enchantment::Flame => {
            assert(("minecraft:"@ + "flame"@).take(10) =~= "minecraft:"@);
            assert(("minecraft:"@ + "flame"@).skip(10) =~= "flame"@);
            assert("flame"@[0] != "smite"@[0]);
            assert("flame"@[0] != "power"@[0]);
            assert("flame"@[0] != "punch"@[0]);
            assert(spec_enchantment("minecraft:"@ + "flame"@) == Some(e));
        },
        Enchantment::Infinity => {
            assert(("minecraft:"@ + "infinity"@).take(10) =~= "minecraft:"@);
            assert(("minecraft:"@ + "infinity"@).skip(10) =~= "infinity"@);
            assert("infinity"@[0] != "sweeping"@[0]);
            assert(spec_enchantment("minecraft:"@ + "infinity"@) == Some(e));
        },
        Enchantment::LuckOfTheSea => {
            assert(("minecraft:"@ + "luck_of_the_sea"@).take(10) =~= "minecraft:"@);
            assert(("minecraft:"@ + "luck_of_the_sea"@).skip(10) =~= "luck_of_the_sea"@);
            assert("luck_of_the_sea"@[0] != "fire_protection"@[0]);
            assert("luck_of_the_sea"@[0] != "feather_falling"@[0]);
            assert(spec_enchantment("minecraft:"@ + "luck_of_the_sea"@) == Some(e));
        },
        Enchantment::Lure => {
            assert(("minecraft:"@ + "lure"@).take(10) =~= "minecraft:"@);
            assert(("minecraft:"@ + "lure"@).skip(10) =~= "lure"@);
            assert(spec_enchantment("minecraft:"@ + "lure"@) == Some(e));
        },
        Enchantment::Loyalty => {
            assert(("minecraft:"@ + "loyalty"@).take(10) =~= "minecraft:"@);
            assert(("minecraft:"@ + "loyalty"@).skip(10) =~= "loyalty"@);
            assert("loyalty"@[2] != "looting"@[2]);
            assert("loyalty"@[0] != "fortune"@[0]);
            assert(spec_enchantment("minecraft:"@ + "loyalty"@) == Some(e));
        },
        Enchantment::Impaling => {
            assert(("minecraft:"@ + "impaling"@).take(10) =~= "minecraft:"@);
            assert(("minecraft:"@ + "impaling"@).skip(10) =~= "impaling"@);
            assert("impaling"@[0] != "sweeping"@[0]);
            assert("impaling"@[1] != "infinity"@[1]);
            assert(spec_enchantment("minecraft:"@ + "impaling"@) == Some(e));
        },
        Enchantment::Riptide => {
            assert(("minecraft:"@ + "riptide"@).take(10) =~= "minecraft:"@);
            assert(("minecraft:"@ + "riptide"@).skip(10) =~= "riptide"@);
            assert("riptide"@[0] != "looting"@[0]);
            assert("riptide"@[0] != "fortune"@[0]);
            assert("riptide"@[0] != "loyalty"@[0]);
            assert(spec_enchantment("minecraft:"@ + "riptide"@) == Some(e));
        },
        Enchantment::Channeling => {
            assert(("minecraft:"@ + "channeling"@).take(10) =~= "minecraft:"@);
            assert(("minecraft:"@ + "channeling"@).skip(10) =~= "channeling"@);
            assert("channeling"@[0] != "protection"@[0]);
            assert("channeling"@[0] != "soul_speed"@[0]);
            assert("channeling"@[0] != "efficiency"@[0]);
            assert("channeling"@[0] != "silk_touch"@[0]);
            assert("channeling"@[0] != "unbreaking"@[0]);
            assert(spec_enchantment("minecraft:"@ + "channeling"@) == Some(e));
        },
        Enchantment::Multishot => {
            assert(("minecraft:"@ + "multishot"@).take(10) =~= "minecraft:"@);
            assert(("minecraft:"@ + "multishot"@).skip(10) =~= "multishot"@);
            assert("multishot"@[0] != "sharpness"@[0]);
            assert("multishot"@[0] != "knockback"@[0]);
            assert(spec_enchantment("minecraft:"@ + "multishot"@) == Some(e));
        },
        Enchantment::QuickCharge => {
            assert(("minecraft:"@ + "quick_charge"@).take(10) =~= "minecraft:"@);
            assert(("minecraft:"@ + "quick_charge"@).skip(10) =~= "quick_charge"@);
            assert("quick_charge"@[0] != "frost_walker"@[0]);
            assert(spec_enchantment("minecraft:"@ + "quick_charge"@) == Some(e));
        },
        Enchantment::Piercing => {
            assert(("minecraft:"@ + "piercing"@).take(10) =~= "minecraft:"@);
            assert(("minecraft:"@ + "piercing"@).skip(10) =~= "piercing"@);
            assert("piercing"@[0] != "sweeping"@[0]);
            assert("piercing"@[0] != "infinity"@[0]);
            assert("piercing"@[0] != "impaling"@[0]);
            assert(spec_enchantment("minecraft:"@ + "piercing"@) == Some(e));
        },
        Enchantment::Mending => {
            assert(("minecraft:"@ + "mending"@).take(10) =~= "minecraft:"@);
            assert(("minecraft:"@ + "mending"@).skip(10) =~= "mending"@);
            assert("mending"@[0] != "looting"@[0]);
            assert("mending"@[0] != "fortune"@[0]);
            assert("mending"@[0] != "loyalty"@[0]);
            assert("mending"@[0] != "riptide"@[0]);
            assert(spec_enchantment("minecraft:"@ + "mending"@) == Some(e));
        },
        Enchantment::VanishingCurse => {
            assert(("minecraft:"@ + "vanishing_curse"@).take(10) =~= "minecraft:"@);
            assert(("minecraft:"@ + "vanishing_curse"@).skip(10) =~= "vanishing_curse"@);
            assert("vanishing_curse"@[0] != "fire_protection"@[0]);
            assert("vanishing_curse"@[0] != "feather_falling"@[0]);
            assert("vanishing_curse"@[0] != "luck_of_the_sea"@[0]);
            assert(spec_enchantment("minecraft:"@ + "vanishing_curse"@) == Some(e));
        },
        Enchantment::SwiftSneak => {
            assert(("minecraft:"@ + "swift_sneak"@).take(10) =~= "minecraft:"@);
            assert(("minecraft:"@ + "swift_sneak"@).skip(10) =~= "swift_sneak"@);
            assert("swift_sneak"@[0] != "respiration"@[0]);
            assert("swift_sneak"@[0] != "fire_aspect"@[0]);
            assert(spec_enchantment("minecraft:"@ + "swift_sneak"@) == Some(e));
        },
    }
}

} // verus!
