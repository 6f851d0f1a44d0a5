//! Games that clips are recorded in, and the database that recognises them from window titles,
//! process names and Steam application ids.
use vstd::prelude::*;
use crate::text::{
    ascii_lower_char, ascii_lowercase, char_is_ascii_alphanumeric, char_to_ascii_lower, chars_are,
    chars_eq, chars_eq_ignore_ascii_case, chars_starts_with, chars_to_ascii_lowercase,
    eq_ignore_ascii_case, is_ascii_alphanumeric, is_prefix, push_str, str_chars, str_eq,
    string_from_chars, trim, trim_chars,
};

verus! {

/// A tag that describes a game's genre or style.
#[derive(Debug, Clone, Copy, PartialEq, Eq, Hash, Structural)]
pub enum ClipsGameTag {
    Fps,
    Rpg,
    OpenWorld,
    Survival,
    Coop,
    Competitive,
    Soulslike,
    Roguelike,
    Crafting,
    Strategy,
    Dynamism,
    Action,
    Adventure,
    Simulation,
    Sports,
    Racing,
    Sandbox,
    Mmo,
    Moba,
    Puzzle,
    Horror,
    Platformer,
    Fighting,
    Deckbuilder,
    Casual,
    HackAndSlash,
    Shooter,
}

/// A game that clips can be recorded in; `Unknown` is declared last.
#[derive(Debug, Clone, Copy, PartialEq, Eq, Hash, Structural)]
pub enum ClipsGames {
    TheFinals,
    CounterStrike2,
    Dota2,
    Pubg,
    ApexLegends,
    GrandTheftAutoV,
    Rust,
    RainbowSixSiege,
    TeamFortress2,
    Left4Dead2,
    Portal2,
    HalfLife2,
    EldenRing,
    DarkSoulsIII,
    BaldursGate3,
    Cyberpunk2077,
    TheWitcher3,
    Terraria,
    StardewValley,
    Minecraft,
    Factorio,
    Satisfactory,
    Hades,
    HollowKnight,
    DeepRockGalactic,
    Warframe,
    Destiny2,
    Fortnite,
    LeagueOfLegends,
    Overwatch2,
    WorldOfWarcraft,
    PathOfExile,
    PathOfExile2,
    DiabloIV,
    SeaOfThieves,
    NoMansSky,
    Subnautica,
    ArkSurvivalEvolved,
    RocketLeague,
    FallGuys,
    AmongUs,
    ItTakesTwo,
    MonsterHunterWorld,
    Palworld,
    Helldivers2,
    LethalCompany,
    EscapeFromTarkov,
    Squad,
    Arma3,
    DayZ,
    InsurgencySandstorm,
    KillingFloor2,
    Valheim,
    SeaOfStars,
    Ets2,
    MarvelRivals,
    BlackMythWukong,
    Starfield,
    RedDeadRedemption2,
    CitiesSkylines2,
    CivilizationVI,
    FootballManager,
    EaSportsFc,
    CallOfDutyWarzone,
    CallOfDutyModernWarfare3,
    CallOfDutyBlackOps6,
    Battlefield2042,
    Payday3,
    RiskOfRain2,
    VampireSurvivors,
    SonsOfTheForest,
    TheForest,
    GreenHell,
    Phasmophobia,
    Repo,
    Grounded,
    VRising,
    CoreKeeper,
    ProjectZomboid,
    Enshrouded,
    SlayTheSpire,
    Balatro,
    WarhammerDarktide,
    Remnant2,
    LiesOfP,
    Sekiro,
    Skyrim,
    Fallout4,
    Fallout76,
    Kenshi,
    RimWorld,
    OxygenNotIncluded,
    CultOfTheLamb,
    DontStarveTogether,
    Raft,
    ReadyOrNot,
    Gtfo,
    Back4Blood,
    Vermintide2,
    Chivalry2,
    Mordhau,
    ForHonor,
    HaloInfinite,
    Titanfall2,
    Splitgate,
    XDefiant,
    NarakaBladepoint,
    Smite,
    Brawlhalla,
    MultiVersus,
    StreetFighter6,
    Tekken8,
    MortalKombat1,
    Unknown,
}

/// Every game, in declaration order.
pub open spec fn all_variants_spec() -> Seq<ClipsGames> {
    seq![
        ClipsGames::TheFinals,
        ClipsGames::CounterStrike2,
        ClipsGames::Dota2,
        ClipsGames::Pubg,
        ClipsGames::ApexLegends,
        ClipsGames::GrandTheftAutoV,
        ClipsGames::Rust,
        ClipsGames::RainbowSixSiege,
        ClipsGames::TeamFortress2,
        ClipsGames::Left4Dead2,
        ClipsGames::Portal2,
        ClipsGames::HalfLife2,
        ClipsGames::EldenRing,
        ClipsGames::DarkSoulsIII,
        ClipsGames::BaldursGate3,
        ClipsGames::Cyberpunk2077,
        ClipsGames::TheWitcher3,
        ClipsGames::Terraria,
        ClipsGames::StardewValley,
        ClipsGames::Minecraft,
        ClipsGames::Factorio,
        ClipsGames::Satisfactory,
        ClipsGames::Hades,
        ClipsGames::HollowKnight,
        ClipsGames::DeepRockGalactic,
        ClipsGames::Warframe,
        ClipsGames::Destiny2,
        ClipsGames::Fortnite,
        ClipsGames::LeagueOfLegends,
        ClipsGames::Overwatch2,
        ClipsGames::WorldOfWarcraft,
        ClipsGames::PathOfExile,
        ClipsGames::PathOfExile2,
        ClipsGames::DiabloIV,
        ClipsGames::SeaOfThieves,
        ClipsGames::NoMansSky,
        ClipsGames::Subnautica,
        ClipsGames::ArkSurvivalEvolved,
        ClipsGames::RocketLeague,
        ClipsGames::FallGuys,
        ClipsGames::AmongUs,
        ClipsGames::ItTakesTwo,
        ClipsGames::MonsterHunterWorld,
        ClipsGames::Palworld,
        ClipsGames::Helldivers2,
        ClipsGames::LethalCompany,
        ClipsGames::EscapeFromTarkov,
        ClipsGames::Squad,
        ClipsGames::Arma3,
        ClipsGames::DayZ,
        ClipsGames::InsurgencySandstorm,
        ClipsGames::KillingFloor2,
        ClipsGames::Valheim,
        ClipsGames::SeaOfStars,
        ClipsGames::Ets2,
        ClipsGames::MarvelRivals,
        ClipsGames::BlackMythWukong,
        ClipsGames::Starfield,
        ClipsGames::RedDeadRedemption2,
        ClipsGames::CitiesSkylines2,
        ClipsGames::CivilizationVI,
        ClipsGames::FootballManager,
        ClipsGames::EaSportsFc,
        ClipsGames::CallOfDutyWarzone,
        ClipsGames::CallOfDutyModernWarfare3,
        ClipsGames::CallOfDutyBlackOps6,
        ClipsGames::Battlefield2042,
        ClipsGames::Payday3,
        ClipsGames::RiskOfRain2,
        ClipsGames::VampireSurvivors,
        ClipsGames::SonsOfTheForest,
        ClipsGames::TheForest,
        ClipsGames::GreenHell,
        ClipsGames::Phasmophobia,
        ClipsGames::Repo,
        ClipsGames::Grounded,
        ClipsGames::VRising,
        ClipsGames::CoreKeeper,
        ClipsGames::ProjectZomboid,
        ClipsGames::Enshrouded,
        ClipsGames::SlayTheSpire,
        ClipsGames::Balatro,
        ClipsGames::WarhammerDarktide,
        ClipsGames::Remnant2,
        ClipsGames::LiesOfP,
        ClipsGames::Sekiro,
        ClipsGames::Skyrim,
        ClipsGames::Fallout4,
        ClipsGames::Fallout76,
        ClipsGames::Kenshi,
        ClipsGames::RimWorld,
        ClipsGames::OxygenNotIncluded,
        ClipsGames::CultOfTheLamb,
        ClipsGames::DontStarveTogether,
        ClipsGames::Raft,
        ClipsGames::ReadyOrNot,
        ClipsGames::Gtfo,
        ClipsGames::Back4Blood,
        ClipsGames::Vermintide2,
        ClipsGames::Chivalry2,
        ClipsGames::Mordhau,
        ClipsGames::ForHonor,
        ClipsGames::HaloInfinite,
        ClipsGames::Titanfall2,
        ClipsGames::Splitgate,
        ClipsGames::XDefiant,
        ClipsGames::NarakaBladepoint,
        ClipsGames::Smite,
        ClipsGames::Brawlhalla,
        ClipsGames::MultiVersus,
        ClipsGames::StreetFighter6,
        ClipsGames::Tekken8,
        ClipsGames::MortalKombat1,
        ClipsGames::Unknown,
    ]
}

fn all_variants() -> (v: Vec<ClipsGames>)
    ensures
        v@ == all_variants_spec(),
{
    vec![
        ClipsGames::TheFinals,
        ClipsGames::CounterStrike2,
        ClipsGames::Dota2,
        ClipsGames::Pubg,
        ClipsGames::ApexLegends,
        ClipsGames::GrandTheftAutoV,
        ClipsGames::Rust,
        ClipsGames::RainbowSixSiege,
        ClipsGames::TeamFortress2,
        ClipsGames::Left4Dead2,
        ClipsGames::Portal2,
        ClipsGames::HalfLife2,
        ClipsGames::EldenRing,
        ClipsGames::DarkSoulsIII,
        ClipsGames::BaldursGate3,
        ClipsGames::Cyberpunk2077,
        ClipsGames::TheWitcher3,
        ClipsGames::Terraria,
        ClipsGames::StardewValley,
        ClipsGames::Minecraft,
        ClipsGames::Factorio,
        ClipsGames::Satisfactory,
        ClipsGames::Hades,
        ClipsGames::HollowKnight,
        ClipsGames::DeepRockGalactic,
        ClipsGames::Warframe,
        ClipsGames::Destiny2,
        ClipsGames::Fortnite,
        ClipsGames::LeagueOfLegends,
        ClipsGames::Overwatch2,
        ClipsGames::WorldOfWarcraft,
        ClipsGames::PathOfExile,
        ClipsGames::PathOfExile2,
        ClipsGames::DiabloIV,
        ClipsGames::SeaOfThieves,
        ClipsGames::NoMansSky,
        ClipsGames::Subnautica,
        ClipsGames::ArkSurvivalEvolved,
        ClipsGames::RocketLeague,
        ClipsGames::FallGuys,
        ClipsGames::AmongUs,
        ClipsGames::ItTakesTwo,
        ClipsGames::MonsterHunterWorld,
        ClipsGames::Palworld,
        ClipsGames::Helldivers2,
        ClipsGames::LethalCompany,
        ClipsGames::EscapeFromTarkov,
        ClipsGames::Squad,
        ClipsGames::Arma3,
        ClipsGames::DayZ,
        ClipsGames::InsurgencySandstorm,
        ClipsGames::KillingFloor2,
        ClipsGames::Valheim,
        ClipsGames::SeaOfStars,
        ClipsGames::Ets2,
        ClipsGames::MarvelRivals,
        ClipsGames::BlackMythWukong,
        ClipsGames::Starfield,
        ClipsGames::RedDeadRedemption2,
        ClipsGames::CitiesSkylines2,
        ClipsGames::CivilizationVI,
        ClipsGames::FootballManager,
        ClipsGames::EaSportsFc,
        ClipsGames::CallOfDutyWarzone,
        ClipsGames::CallOfDutyModernWarfare3,
        ClipsGames::CallOfDutyBlackOps6,
        ClipsGames::Battlefield2042,
        ClipsGames::Payday3,
        ClipsGames::RiskOfRain2,
        ClipsGames::VampireSurvivors,
        ClipsGames::SonsOfTheForest,
        ClipsGames::TheForest,
        ClipsGames::GreenHell,
        ClipsGames::Phasmophobia,
        ClipsGames::Repo,
        ClipsGames::Grounded,
        ClipsGames::VRising,
        ClipsGames::CoreKeeper,
        ClipsGames::ProjectZomboid,
        ClipsGames::Enshrouded,
        ClipsGames::SlayTheSpire,
        ClipsGames::Balatro,
        ClipsGames::WarhammerDarktide,
        ClipsGames::Remnant2,
        ClipsGames::LiesOfP,
        ClipsGames::Sekiro,
        ClipsGames::Skyrim,
        ClipsGames::Fallout4,
        ClipsGames::Fallout76,
        ClipsGames::Kenshi,
        ClipsGames::RimWorld,
        ClipsGames::OxygenNotIncluded,
        ClipsGames::CultOfTheLamb,
        ClipsGames::DontStarveTogether,
        ClipsGames::Raft,
        ClipsGames::ReadyOrNot,
        ClipsGames::Gtfo,
        ClipsGames::Back4Blood,
        ClipsGames::Vermintide2,
        ClipsGames::Chivalry2,
        ClipsGames::Mordhau,
        ClipsGames::ForHonor,
        ClipsGames::HaloInfinite,
        ClipsGames::Titanfall2,
        ClipsGames::Splitgate,
        ClipsGames::XDefiant,
        ClipsGames::NarakaBladepoint,
        ClipsGames::Smite,
        ClipsGames::Brawlhalla,
        ClipsGames::MultiVersus,
        ClipsGames::StreetFighter6,
        ClipsGames::Tekken8,
        ClipsGames::MortalKombat1,
        ClipsGames::Unknown,
    ]
}

/// Every game occurs in the declaration list.
pub proof fn lemma_all_variants_cover(g: ClipsGames)
    ensures
        all_variants_spec().contains(g),
{
    let v = all_variants_spec();
    match g {
        ClipsGames::TheFinals => assert(v[0] == g),
        ClipsGames::CounterStrike2 => assert(v[1] == g),
        ClipsGames::Dota2 => assert(v[2] == g),
        ClipsGames::Pubg => assert(v[3] == g),
        ClipsGames::ApexLegends => assert(v[4] == g),
        ClipsGames::GrandTheftAutoV => assert(v[5] == g),
        ClipsGames::Rust => assert(v[6] == g),
        ClipsGames::RainbowSixSiege => assert(v[7] == g),
        ClipsGames::TeamFortress2 => assert(v[8] == g),
        ClipsGames::Left4Dead2 => assert(v[9] == g),
        ClipsGames::Portal2 => assert(v[10] == g),
        ClipsGames::HalfLife2 => assert(v[11] == g),
        ClipsGames::EldenRing => assert(v[12] == g),
        ClipsGames::DarkSoulsIII => assert(v[13] == g),
        ClipsGames::BaldursGate3 => assert(v[14] == g),
        ClipsGames::Cyberpunk2077 => assert(v[15] == g),
        ClipsGames::TheWitcher3 => assert(v[16] == g),
        ClipsGames::Terraria => assert(v[17] == g),
        ClipsGames::StardewValley => assert(v[18] == g),
        ClipsGames::Minecraft => assert(v[19] == g),
        ClipsGames::Factorio => assert(v[20] == g),
        ClipsGames::Satisfactory => assert(v[21] == g),
        ClipsGames::Hades => assert(v[22] == g),
        ClipsGames::HollowKnight => assert(v[23] == g),
        ClipsGames::DeepRockGalactic => assert(v[24] == g),
        ClipsGames::Warframe => assert(v[25] == g),
        ClipsGames::Destiny2 => assert(v[26] == g),
        ClipsGames::Fortnite => assert(v[27] == g),
        ClipsGames::LeagueOfLegends => assert(v[28] == g),
        ClipsGames::Overwatch2 => assert(v[29] == g),
        ClipsGames::WorldOfWarcraft => assert(v[30] == g),
        ClipsGames::PathOfExile => assert(v[31] == g),
        ClipsGames::PathOfExile2 => assert(v[32] == g),
        ClipsGames::DiabloIV => assert(v[33] == g),
        ClipsGames::SeaOfThieves => assert(v[34] == g),
        ClipsGames::NoMansSky => assert(v[35] == g),
        ClipsGames::Subnautica => assert(v[36] == g),
        ClipsGames::ArkSurvivalEvolved => assert(v[37] == g),
        ClipsGames::RocketLeague => assert(v[38] == g),
        ClipsGames::FallGuys => assert(v[39] == g),
        ClipsGames::AmongUs => assert(v[40] == g),
        ClipsGames::ItTakesTwo => assert(v[41] == g),
        ClipsGames::MonsterHunterWorld => assert(v[42] == g),
        ClipsGames::Palworld => assert(v[43] == g),
        ClipsGames::Helldivers2 => assert(v[44] == g),
        ClipsGames::LethalCompany => assert(v[45] == g),
        ClipsGames::EscapeFromTarkov => assert(v[46] == g),
        ClipsGames::Squad => assert(v[47] == g),
        ClipsGames::Arma3 => assert(v[48] == g),
        ClipsGames::DayZ => assert(v[49] == g),
        ClipsGames::InsurgencySandstorm => assert(v[50] == g),
        ClipsGames::KillingFloor2 => assert(v[51] == g),
        ClipsGames::Valheim => assert(v[52] == g),
        ClipsGames::SeaOfStars => assert(v[53] == g),
        ClipsGames::Ets2 => assert(v[54] == g),
        ClipsGames::MarvelRivals => assert(v[55] == g),
        ClipsGames::BlackMythWukong => assert(v[56] == g),
        ClipsGames::Starfield => assert(v[57] == g),
        ClipsGames::RedDeadRedemption2 => assert(v[58] == g),
        ClipsGames::CitiesSkylines2 => assert(v[59] == g),
        ClipsGames::CivilizationVI => assert(v[60] == g),
        ClipsGames::FootballManager => assert(v[61] == g),
        ClipsGames::EaSportsFc => assert(v[62] == g),
        ClipsGames::CallOfDutyWarzone => assert(v[63] == g),
        ClipsGames::CallOfDutyModernWarfare3 => assert(v[64] == g),
        ClipsGames::CallOfDutyBlackOps6 => assert(v[65] == g),
        ClipsGames::Battlefield2042 => assert(v[66] == g),
        ClipsGames::Payday3 => assert(v[67] == g),
        ClipsGames::RiskOfRain2 => assert(v[68] == g),
        ClipsGames::VampireSurvivors => assert(v[69] == g),
        ClipsGames::SonsOfTheForest => assert(v[70] == g),
        ClipsGames::TheForest => assert(v[71] == g),
        ClipsGames::GreenHell => assert(v[72] == g),
        ClipsGames::Phasmophobia => assert(v[73] == g),
        ClipsGames::Repo => assert(v[74] == g),
        ClipsGames::Grounded => assert(v[75] == g),
        ClipsGames::VRising => assert(v[76] == g),
        ClipsGames::CoreKeeper => assert(v[77] == g),
        ClipsGames::ProjectZomboid => assert(v[78] == g),
        ClipsGames::Enshrouded => assert(v[79] == g),
        ClipsGames::SlayTheSpire => assert(v[80] == g),
        ClipsGames::Balatro => assert(v[81] == g),
        ClipsGames::WarhammerDarktide => assert(v[82] == g),
        ClipsGames::Remnant2 => assert(v[83] == g),
        ClipsGames::LiesOfP => assert(v[84] == g),
        ClipsGames::Sekiro => assert(v[85] == g),
        ClipsGames::Skyrim => assert(v[86] == g),
        ClipsGames::Fallout4 => assert(v[87] == g),
        ClipsGames::Fallout76 => assert(v[88] == g),
        ClipsGames::Kenshi => assert(v[89] == g),
        ClipsGames::RimWorld => assert(v[90] == g),
        ClipsGames::OxygenNotIncluded => assert(v[91] == g),
        ClipsGames::CultOfTheLamb => assert(v[92] == g),
        ClipsGames::DontStarveTogether => assert(v[93] == g),
        ClipsGames::Raft => assert(v[94] == g),
        ClipsGames::ReadyOrNot => assert(v[95] == g),
        ClipsGames::Gtfo => assert(v[96] == g),
        ClipsGames::Back4Blood => assert(v[97] == g),
        ClipsGames::Vermintide2 => assert(v[98] == g),
        ClipsGames::Chivalry2 => assert(v[99] == g),
        ClipsGames::Mordhau => assert(v[100] == g),
        ClipsGames::ForHonor => assert(v[101] == g),
        ClipsGames::HaloInfinite => assert(v[102] == g),
        ClipsGames::Titanfall2 => assert(v[103] == g),
        ClipsGames::Splitgate => assert(v[104] == g),
        ClipsGames::XDefiant => assert(v[105] == g),
        ClipsGames::NarakaBladepoint => assert(v[106] == g),
        ClipsGames::Smite => assert(v[107] == g),
        ClipsGames::Brawlhalla => assert(v[108] == g),
        ClipsGames::MultiVersus => assert(v[109] == g),
        ClipsGames::StreetFighter6 => assert(v[110] == g),
        ClipsGames::Tekken8 => assert(v[111] == g),
        ClipsGames::MortalKombat1 => assert(v[112] == g),
        ClipsGames::Unknown => assert(v[113] == g),
    }
}

impl ClipsGames {
    /// The variant's identifier, as `AsRef<str>` gives it.
    pub open spec fn ident(self) -> Seq<char> {
        match self {
            ClipsGames::TheFinals => "TheFinals"@,
            ClipsGames::CounterStrike2 => "CounterStrike2"@,
            ClipsGames::Dota2 => "Dota2"@,
            ClipsGames::Pubg => "Pubg"@,
            ClipsGames::ApexLegends => "ApexLegends"@,
            ClipsGames::GrandTheftAutoV => "GrandTheftAutoV"@,
            ClipsGames::Rust => "Rust"@,
            ClipsGames::RainbowSixSiege => "RainbowSixSiege"@,
            ClipsGames::TeamFortress2 => "TeamFortress2"@,
            ClipsGames::Left4Dead2 => "Left4Dead2"@,
            ClipsGames::Portal2 => "Portal2"@,
            ClipsGames::HalfLife2 => "HalfLife2"@,
            ClipsGames::EldenRing => "EldenRing"@,
            ClipsGames::DarkSoulsIII => "DarkSoulsIII"@,
            ClipsGames::BaldursGate3 => "BaldursGate3"@,
            ClipsGames::Cyberpunk2077 => "Cyberpunk2077"@,
            ClipsGames::TheWitcher3 => "TheWitcher3"@,
            ClipsGames::Terraria => "Terraria"@,
            ClipsGames::StardewValley => "StardewValley"@,
            ClipsGames::Minecraft => "Minecraft"@,
            ClipsGames::Factorio => "Factorio"@,
            ClipsGames::Satisfactory => "Satisfactory"@,
            ClipsGames::Hades => "Hades"@,
            ClipsGames::HollowKnight => "HollowKnight"@,
            ClipsGames::DeepRockGalactic => "DeepRockGalactic"@,
            ClipsGames::Warframe => "Warframe"@,
            ClipsGames::Destiny2 => "Destiny2"@,
            ClipsGames::Fortnite => "Fortnite"@,
            ClipsGames::LeagueOfLegends => "LeagueOfLegends"@,
            ClipsGames::Overwatch2 => "Overwatch2"@,
            ClipsGames::WorldOfWarcraft => "WorldOfWarcraft"@,
            ClipsGames::PathOfExile => "PathOfExile"@,
            ClipsGames::PathOfExile2 => "PathOfExile2"@,
            ClipsGames::DiabloIV => "DiabloIV"@,
            ClipsGames::SeaOfThieves => "SeaOfThieves"@,
            ClipsGames::NoMansSky => "NoMansSky"@,
            ClipsGames::Subnautica => "Subnautica"@,
            ClipsGames::ArkSurvivalEvolved => "ArkSurvivalEvolved"@,
            ClipsGames::RocketLeague => "RocketLeague"@,
            ClipsGames::FallGuys => "FallGuys"@,
            ClipsGames::AmongUs => "AmongUs"@,
            ClipsGames::ItTakesTwo => "ItTakesTwo"@,
            ClipsGames::MonsterHunterWorld => "MonsterHunterWorld"@,
            ClipsGames::Palworld => "Palworld"@,
            ClipsGames::Helldivers2 => "Helldivers2"@,
            ClipsGames::LethalCompany => "LethalCompany"@,
            ClipsGames::EscapeFromTarkov => "EscapeFromTarkov"@,
            ClipsGames::Squad => "Squad"@,
            ClipsGames::Arma3 => "Arma3"@,
            ClipsGames::DayZ => "DayZ"@,
            ClipsGames::InsurgencySandstorm => "InsurgencySandstorm"@,
            ClipsGames::KillingFloor2 => "KillingFloor2"@,
            ClipsGames::Valheim => "Valheim"@,
            ClipsGames::SeaOfStars => "SeaOfStars"@,
            ClipsGames::Ets2 => "Ets2"@,
            ClipsGames::MarvelRivals => "MarvelRivals"@,
            ClipsGames::BlackMythWukong => "BlackMythWukong"@,
            ClipsGames::Starfield => "Starfield"@,
            ClipsGames::RedDeadRedemption2 => "RedDeadRedemption2"@,
            ClipsGames::CitiesSkylines2 => "CitiesSkylines2"@,
            ClipsGames::CivilizationVI => "CivilizationVI"@,
            ClipsGames::FootballManager => "FootballManager"@,
            ClipsGames::EaSportsFc => "EaSportsFc"@,
            ClipsGames::CallOfDutyWarzone => "CallOfDutyWarzone"@,
            ClipsGames::CallOfDutyModernWarfare3 => "CallOfDutyModernWarfare3"@,
            ClipsGames::CallOfDutyBlackOps6 => "CallOfDutyBlackOps6"@,
            ClipsGames::Battlefield2042 => "Battlefield2042"@,
            ClipsGames::Payday3 => "Payday3"@,
            ClipsGames::RiskOfRain2 => "RiskOfRain2"@,
            ClipsGames::VampireSurvivors => "VampireSurvivors"@,
            ClipsGames::SonsOfTheForest => "SonsOfTheForest"@,
            ClipsGames::TheForest => "TheForest"@,
            ClipsGames::GreenHell => "GreenHell"@,
            ClipsGames::Phasmophobia => "Phasmophobia"@,
            ClipsGames::Repo => "Repo"@,
            ClipsGames::Grounded => "Grounded"@,
            ClipsGames::VRising => "VRising"@,
            ClipsGames::CoreKeeper => "CoreKeeper"@,
            ClipsGames::ProjectZomboid => "ProjectZomboid"@,
            ClipsGames::Enshrouded => "Enshrouded"@,
            ClipsGames::SlayTheSpire => "SlayTheSpire"@,
            ClipsGames::Balatro => "Balatro"@,
            ClipsGames::WarhammerDarktide => "WarhammerDarktide"@,
            ClipsGames::Remnant2 => "Remnant2"@,
            ClipsGames::LiesOfP => "LiesOfP"@,
            ClipsGames::Sekiro => "Sekiro"@,
            ClipsGames::Skyrim => "Skyrim"@,
            ClipsGames::Fallout4 => "Fallout4"@,
            ClipsGames::Fallout76 => "Fallout76"@,
            ClipsGames::Kenshi => "Kenshi"@,
            ClipsGames::RimWorld => "RimWorld"@,
            ClipsGames::OxygenNotIncluded => "OxygenNotIncluded"@,
            ClipsGames::CultOfTheLamb => "CultOfTheLamb"@,
            ClipsGames::DontStarveTogether => "DontStarveTogether"@,
            ClipsGames::Raft => "Raft"@,
            ClipsGames::ReadyOrNot => "ReadyOrNot"@,
            ClipsGames::Gtfo => "Gtfo"@,
            ClipsGames::Back4Blood => "Back4Blood"@,
            ClipsGames::Vermintide2 => "Vermintide2"@,
            ClipsGames::Chivalry2 => "Chivalry2"@,
            ClipsGames::Mordhau => "Mordhau"@,
            ClipsGames::ForHonor => "ForHonor"@,
            ClipsGames::HaloInfinite => "HaloInfinite"@,
            ClipsGames::Titanfall2 => "Titanfall2"@,
            ClipsGames::Splitgate => "Splitgate"@,
            ClipsGames::XDefiant => "XDefiant"@,
            ClipsGames::NarakaBladepoint => "NarakaBladepoint"@,
            ClipsGames::Smite => "Smite"@,
            ClipsGames::Brawlhalla => "Brawlhalla"@,
            ClipsGames::MultiVersus => "MultiVersus"@,
            ClipsGames::StreetFighter6 => "StreetFighter6"@,
            ClipsGames::Tekken8 => "Tekken8"@,
            ClipsGames::MortalKombat1 => "MortalKombat1"@,
            ClipsGames::Unknown => "Unknown"@,
        }
    }

    /// The variant's identifier.
    pub fn as_ref(&self) -> (s: &'static str)
        ensures
            s@ == self.ident(),
    {
        match self {
            ClipsGames::TheFinals => "TheFinals",
            ClipsGames::CounterStrike2 => "CounterStrike2",
            ClipsGames::Dota2 => "Dota2",
            ClipsGames::Pubg => "Pubg",
            ClipsGames::ApexLegends => "ApexLegends",
            ClipsGames::GrandTheftAutoV => "GrandTheftAutoV",
            ClipsGames::Rust => "Rust",
            ClipsGames::RainbowSixSiege => "RainbowSixSiege",
            ClipsGames::TeamFortress2 => "TeamFortress2",
            ClipsGames::Left4Dead2 => "Left4Dead2",
            ClipsGames::Portal2 => "Portal2",
            ClipsGames::HalfLife2 => "HalfLife2",
            ClipsGames::EldenRing => "EldenRing",
            ClipsGames::DarkSoulsIII => "DarkSoulsIII",
            ClipsGames::BaldursGate3 => "BaldursGate3",
            ClipsGames::Cyberpunk2077 => "Cyberpunk2077",
            ClipsGames::TheWitcher3 => "TheWitcher3",
            ClipsGames::Terraria => "Terraria",
            ClipsGames::StardewValley => "StardewValley",
            ClipsGames::Minecraft => "Minecraft",
            ClipsGames::Factorio => "Factorio",
            ClipsGames::Satisfactory => "Satisfactory",
            ClipsGames::Hades => "Hades",
            ClipsGames::HollowKnight => "HollowKnight",
            ClipsGames::DeepRockGalactic => "DeepRockGalactic",
            ClipsGames::Warframe => "Warframe",
            ClipsGames::Destiny2 => "Destiny2",
            ClipsGames::Fortnite => "Fortnite",
            ClipsGames::LeagueOfLegends => "LeagueOfLegends",
            ClipsGames::Overwatch2 => "Overwatch2",
            ClipsGames::WorldOfWarcraft => "WorldOfWarcraft",
            ClipsGames::PathOfExile => "PathOfExile",
            ClipsGames::PathOfExile2 => "PathOfExile2",
            ClipsGames::DiabloIV => "DiabloIV",
            ClipsGames::SeaOfThieves => "SeaOfThieves",
            ClipsGames::NoMansSky => "NoMansSky",
            ClipsGames::Subnautica => "Subnautica",
            ClipsGames::ArkSurvivalEvolved => "ArkSurvivalEvolved",
            ClipsGames::RocketLeague => "RocketLeague",
            ClipsGames::FallGuys => "FallGuys",
            ClipsGames::AmongUs => "AmongUs",
            ClipsGames::ItTakesTwo => "ItTakesTwo",
            ClipsGames::MonsterHunterWorld => "MonsterHunterWorld",
            ClipsGames::Palworld => "Palworld",
            ClipsGames::Helldivers2 => "Helldivers2",
            ClipsGames::LethalCompany => "LethalCompany",
            ClipsGames::EscapeFromTarkov => "EscapeFromTarkov",
            ClipsGames::Squad => "Squad",
            ClipsGames::Arma3 => "Arma3",
            ClipsGames::DayZ => "DayZ",
            ClipsGames::InsurgencySandstorm => "InsurgencySandstorm",
            ClipsGames::KillingFloor2 => "KillingFloor2",
            ClipsGames::Valheim => "Valheim",
            ClipsGames::SeaOfStars => "SeaOfStars",
            ClipsGames::Ets2 => "Ets2",
            ClipsGames::MarvelRivals => "MarvelRivals",
            ClipsGames::BlackMythWukong => "BlackMythWukong",
            ClipsGames::Starfield => "Starfield",
            ClipsGames::RedDeadRedemption2 => "RedDeadRedemption2",
            ClipsGames::CitiesSkylines2 => "CitiesSkylines2",
            ClipsGames::CivilizationVI => "CivilizationVI",
            ClipsGames::FootballManager => "FootballManager",
            ClipsGames::EaSportsFc => "EaSportsFc",
            ClipsGames::CallOfDutyWarzone => "CallOfDutyWarzone",
            ClipsGames::CallOfDutyModernWarfare3 => "CallOfDutyModernWarfare3",
            ClipsGames::CallOfDutyBlackOps6 => "CallOfDutyBlackOps6",
            ClipsGames::Battlefield2042 => "Battlefield2042",
            ClipsGames::Payday3 => "Payday3",
            ClipsGames::RiskOfRain2 => "RiskOfRain2",
            ClipsGames::VampireSurvivors => "VampireSurvivors",
            ClipsGames::SonsOfTheForest => "SonsOfTheForest",
            ClipsGames::TheForest => "TheForest",
            ClipsGames::GreenHell => "GreenHell",
            ClipsGames::Phasmophobia => "Phasmophobia",
            ClipsGames::Repo => "Repo",
            ClipsGames::Grounded => "Grounded",
            ClipsGames::VRising => "VRising",
            ClipsGames::CoreKeeper => "CoreKeeper",
            ClipsGames::ProjectZomboid => "ProjectZomboid",
            ClipsGames::Enshrouded => "Enshrouded",
            ClipsGames::SlayTheSpire => "SlayTheSpire",
            ClipsGames::Balatro => "Balatro",
            ClipsGames::WarhammerDarktide => "WarhammerDarktide",
            ClipsGames::Remnant2 => "Remnant2",
            ClipsGames::LiesOfP => "LiesOfP",
            ClipsGames::Sekiro => "Sekiro",
            ClipsGames::Skyrim => "Skyrim",
            ClipsGames::Fallout4 => "Fallout4",
            ClipsGames::Fallout76 => "Fallout76",
            ClipsGames::Kenshi => "Kenshi",
            ClipsGames::RimWorld => "RimWorld",
            ClipsGames::OxygenNotIncluded => "OxygenNotIncluded",
            ClipsGames::CultOfTheLamb => "CultOfTheLamb",
            ClipsGames::DontStarveTogether => "DontStarveTogether",
            ClipsGames::Raft => "Raft",
            ClipsGames::ReadyOrNot => "ReadyOrNot",
            ClipsGames::Gtfo => "Gtfo",
            ClipsGames::Back4Blood => "Back4Blood",
            ClipsGames::Vermintide2 => "Vermintide2",
            ClipsGames::Chivalry2 => "Chivalry2",
            ClipsGames::Mordhau => "Mordhau",
            ClipsGames::ForHonor => "ForHonor",
            ClipsGames::HaloInfinite => "HaloInfinite",
            ClipsGames::Titanfall2 => "Titanfall2",
            ClipsGames::Splitgate => "Splitgate",
            ClipsGames::XDefiant => "XDefiant",
            ClipsGames::NarakaBladepoint => "NarakaBladepoint",
            ClipsGames::Smite => "Smite",
            ClipsGames::Brawlhalla => "Brawlhalla",
            ClipsGames::MultiVersus => "MultiVersus",
            ClipsGames::StreetFighter6 => "StreetFighter6",
            ClipsGames::Tekken8 => "Tekken8",
            ClipsGames::MortalKombat1 => "MortalKombat1",
            ClipsGames::Unknown => "Unknown",
        }
    }
}

impl ClipsGames {
    /// The game whose variant identifier is exactly `s` (the first in declaration order, as
    /// identifiers are distinct).
    pub fn from_variant_ident(s: &str) -> (r: Option<Self>)
        ensures
            r == first_with_ident(all_variants_spec(), s@),
            r matches Some(g) ==> g.ident() == s@,
            r is None ==> forall|g: ClipsGames| #[trigger] g.ident() != s@,
    {
        let all = all_variants();
        let mut i: usize = 0;
        assert(all@.skip(0) =~= all@);
        while i < all.len()
            invariant
                all@ == all_variants_spec(),
                i <= all@.len(),
                forall|j: int| 0 <= j < i ==> (#[trigger] all@[j]).ident() != s@,
                first_with_ident(all@, s@) == first_with_ident(all@.skip(i as int), s@),
            decreases all@.len() - i,
        {
            let g = all[i];
            assert(all@.skip(i as int)[0] == g);
            if str_eq(g.as_ref(), s) {
                return Some(g);
            }
            assert(all@.skip(i as int).drop_first() =~= all@.skip(i + 1));
            i = i + 1;
        }
        proof {
            assert forall|g: ClipsGames| #[trigger] g.ident() != s@ by {
                lemma_all_variants_cover(g);
                let j = choose|j: int| 0 <= j < all@.len() && all@[j] == g;
                assert(all@[j].ident() != s@);
            }
        }
        None
    }

    /// Every game but `Unknown`, in declaration order.
    pub fn all() -> (v: Vec<Self>)
        ensures
            v@ == all_variants_spec().drop_last(),
    {
        let mut v = all_variants();
        v.pop();
        v
    }
}

/// The first game in `vs` whose identifier is `t`.
pub open spec fn first_with_ident(vs: Seq<ClipsGames>, t: Seq<char>) -> Option<ClipsGames>
    decreases vs.len(),
{
    if vs.len() == 0 {
        None
    } else if vs[0].ident() == t {
        Some(vs[0])
    } else {
        first_with_ident(vs.drop_first(), t)
    }
}

/// The lowercased ASCII letters and digits of `s`, in order: the form in which games are
/// compared.
pub open spec fn normal_form(s: Seq<char>) -> Seq<char>
    decreases s.len(),
{
    if s.len() == 0 {
        Seq::empty()
    } else {
        let rest = normal_form(s.drop_last());
        if is_ascii_alphanumeric(s.last()) {
            rest.push(ascii_lower_char(s.last()))
        } else {
            rest
        }
    }
}

/// Keeps the ASCII letters and digits of `s`, lowercased.
pub fn normalize(s: &str) -> (r: String)
    ensures
        r@ == normal_form(s@),
{
    let chars = str_chars(s);
    let mut out = String::new();
    let mut i: usize = 0;
    while i < chars.len()
        invariant
            chars@ == s@,
            i <= chars@.len(),
            out@ == normal_form(chars@.subrange(0, i as int)),
        decreases chars@.len() - i,
    {
        let ghost pre = chars@.subrange(0, i as int);
        assert(chars@.subrange(0, i + 1).drop_last() =~= pre);
        let c = chars[i];
        if char_is_ascii_alphanumeric(c) {
            out.push(char_to_ascii_lower(c));
        }
        i = i + 1;
    }
    assert(chars@.subrange(0, chars@.len() as int) =~= chars@);
    out
}

/// Process names that too many games share to say anything on their own.
pub open spec fn generic_process(n: Seq<char>) -> bool {
    ||| n == "java"@
    ||| n == "javaw"@
    ||| n == "python"@
    ||| n == "python3"@
    ||| n == "wine"@
    ||| n == "wine64"@
    ||| n == "proton"@
    ||| n == "steam"@
}

fn is_generic_process(n: &[char]) -> (b: bool)
    ensures
        b == generic_process(n@),
{
    chars_are(n, "java") || chars_are(n, "javaw") || chars_are(n, "python") || chars_are(
        n,
        "python3",
    ) || chars_are(n, "wine") || chars_are(n, "wine64") || chars_are(n, "proton") || chars_are(
        n,
        "steam",
    )
}

/// One game as the games file lists it.
pub struct GameEntry {
    pub variant: String,
    pub slug: String,
    pub display_name: String,
    pub steam_appids: Vec<u64>,
    pub titles: Vec<String>,
    pub processes: Vec<String>,
    pub prefixes: Vec<String>,
}

/// A game as the database holds it: its names, and the normalized patterns by which window
/// titles and process names are recognised.
pub struct GameRecord {
    pub variant: ClipsGames,
    pub slug: String,
    pub display_name: String,
    pub steam_appids: Vec<u64>,
    pub contains_patterns: Vec<String>,
    pub prefix_patterns: Vec<String>,
}

/// The views of a sequence of strings.
pub open spec fn string_views(v: Seq<String>) -> Seq<Seq<char>> {
    v.map_values(|s: String| s@)
}

/// Whether `p` occurs in `s` as a contiguous piece.
pub open spec fn occurs_in(p: Seq<char>, s: Seq<char>) -> bool {
    exists|i: int| 0 <= i && i + p.len() <= s.len() && #[trigger] s.subrange(i, i + p.len()) == p
}

/// Whether `n` starts with one of the record's prefix patterns.
pub open spec fn prefix_hit(r: GameRecord, n: Seq<char>) -> bool {
    exists|j: int| 0 <= j < r.prefix_patterns@.len() && is_prefix(#[trigger] r.prefix_patterns@[j]@, n)
}

/// Whether one of the record's contains patterns occurs in `n`.
pub open spec fn contains_hit(r: GameRecord, n: Seq<char>) -> bool {
    exists|j: int| 0 <= j < r.contains_patterns@.len() && occurs_in(#[trigger] r.contains_patterns@[j]@, n)
}

/// The game of the first record, taken in `order`, that `n` hits by prefix (`by_prefix`) or by
/// containment.
pub open spec fn first_hit(
    rs: Seq<GameRecord>,
    order: Seq<usize>,
    n: Seq<char>,
    by_prefix: bool,
) -> Option<ClipsGames>
    decreases order.len(),
{
    if order.len() == 0 {
        None
    } else {
        let r = rs[order[0] as int];
        if (if by_prefix { prefix_hit(r, n) } else { contains_hit(r, n) }) {
            Some(r.variant)
        } else {
            first_hit(rs, order.drop_first(), n, by_prefix)
        }
    }
}

/// The index of the last record that satisfies `p`.
pub open spec fn last_record(rs: Seq<GameRecord>, p: spec_fn(GameRecord) -> bool) -> Option<int>
    decreases rs.len(),
{
    if rs.len() == 0 {
        None
    } else if p(rs.last()) {
        Some(rs.len() - 1)
    } else {
        last_record(rs.drop_last(), p)
    }
}

proof fn lemma_last_record_step(rs: Seq<GameRecord>, p: spec_fn(GameRecord) -> bool, i: int)
    requires
        0 <= i < rs.len(),
    ensures
        p(rs[i]) ==> last_record(rs.subrange(0, i + 1), p) == Some(i),
        !p(rs[i]) ==> last_record(rs.subrange(0, i + 1), p) == last_record(rs.subrange(0, i), p),
{
    assert(rs.subrange(0, i + 1).drop_last() =~= rs.subrange(0, i));
}

pub fn occurs_exec(p: &[char], s: &[char]) -> (b: bool)
    ensures
        b == occurs_in(p@, s@),
{
    if p.len() > s.len() {
        return false;
    }
    if p.len() == 0 {
        assert(s@.subrange(0, 0 + p@.len() as int) =~= p@);
        return true;
    }
    let n = s.len();
    let m = n - p.len();
    let mut i: usize = 0;
    while i <= m
        invariant
            n == s@.len(),
            m == s@.len() - p@.len(),
            m < s@.len(),
            i <= m + 1,
            forall|k: int| 0 <= k < i ==> #[trigger] s@.subrange(k, k + p@.len()) != p@,
        decreases m + 1 - i,
    {
        let mut j: usize = 0;
        let mut same = true;
        while j < p.len()
            invariant
                i <= m,
                n == s@.len(),
                m == s@.len() - p@.len(),
                m < s@.len(),
                forall|k: int| 0 <= k < i ==> #[trigger] s@.subrange(k, k + p@.len()) != p@,
                j <= p@.len(),
                same == forall|t: int| 0 <= t < j ==> s@[i + t] == p@[t],
            decreases p@.len() - j,
        {
            if s[i + j] != p[j] {
                same = false;
            }
            j = j + 1;
        }
        if same {
            assert(s@.subrange(i as int, i + p@.len()) =~= p@);
            return true;
        }
        assert(s@.subrange(i as int, i + p@.len()) != p@) by {
            let t = choose|t: int| 0 <= t < p@.len() && s@[i + t] != p@[t];
            assert(s@.subrange(i as int, i + p@.len())[t] == s@[i + t]);
        }
        i = i + 1;
    }
    false
}

fn record_prefix_hit(r: &GameRecord, n: &[char]) -> (b: bool)
    ensures
        b == prefix_hit(*r, n@),
{
    let mut j: usize = 0;
    while j < r.prefix_patterns.len()
        invariant
            j <= r.prefix_patterns@.len(),
            forall|k: int| 0 <= k < j ==> !is_prefix(#[trigger] r.prefix_patterns@[k]@, n@),
        decreases r.prefix_patterns@.len() - j,
    {
        let p = str_chars(r.prefix_patterns[j].as_str());
        if chars_starts_with(n, p.as_slice()) {
            return true;
        }
        j = j + 1;
    }
    false
}

fn record_contains_hit(r: &GameRecord, n: &[char]) -> (b: bool)
    ensures
        b == contains_hit(*r, n@),
{
    let mut j: usize = 0;
    while j < r.contains_patterns.len()
        invariant
            j <= r.contains_patterns@.len(),
            forall|k: int| 0 <= k < j ==> !occurs_in(#[trigger] r.contains_patterns@[k]@, n@),
        decreases r.contains_patterns@.len() - j,
    {
        let p = str_chars(r.contains_patterns[j].as_str());
        if occurs_exec(p.as_slice(), n) {
            return true;
        }
        j = j + 1;
    }
    false
}


/// The games database: one record per entry of the games file, and the order in which records
/// are tried when recognising a game (longest contains pattern first, file order among equals).
/// The lookups by game, Steam application id and name go to the last record that matches,
/// as a map filled in file order would.
pub struct GamesDb {
    pub records: Vec<GameRecord>,
    pub fuzzy_order: Vec<usize>,
}

/// The game recognised in `input`: nothing in an input without letters or digits; else the
/// first record (in `order`) with a prefix pattern that starts the normalized input; else
/// nothing for a generic process name; else the first record with a contains pattern that
/// occurs in it; else nothing.
pub open spec fn fuzzy_spec(rs: Seq<GameRecord>, order: Seq<usize>, input: Seq<char>) -> ClipsGames {
    let n = normal_form(input);
    if n.len() == 0 {
        ClipsGames::Unknown
    } else {
        match first_hit(rs, order, n, true) {
            Some(g) => g,
            None => if generic_process(n) {
                ClipsGames::Unknown
            } else {
                match first_hit(rs, order, n, false) {
                    Some(g) => g,
                    None => ClipsGames::Unknown,
                }
            },
        }
    }
}

/// The game of the last record listing the Steam application id `appid`.
pub open spec fn appid_spec(rs: Seq<GameRecord>, appid: u64) -> ClipsGames {
    match last_record(rs, |r: GameRecord| r.steam_appids@.contains(appid)) {
        Some(i) => rs[i].variant,
        None => ClipsGames::Unknown,
    }
}

/// The game of the last record whose display name or slug, ASCII-lowercased, is `lower`.
pub open spec fn name_spec(rs: Seq<GameRecord>, lower: Seq<char>) -> Option<ClipsGames> {
    match last_record(
        rs,
        |r: GameRecord| ascii_lowercase(r.display_name@) == lower || ascii_lowercase(r.slug@) == lower,
    ) {
        Some(i) => Some(rs[i].variant),
        None => None,
    }
}

impl GamesDb {
    /// Every position of the order names a record.
    pub open spec fn wf(&self) -> bool {
        forall|k: int| 0 <= k < self.fuzzy_order@.len() ==> #[trigger] self.fuzzy_order@[k] < self.records@.len()
    }

    fn scan(&self, n: &[char], by_prefix: bool) -> (r: Option<ClipsGames>)
        requires
            self.wf(),
        ensures
            r == first_hit(self.records@, self.fuzzy_order@, n@, by_prefix),
    {
        let mut k: usize = 0;
        assert(self.fuzzy_order@.skip(0) =~= self.fuzzy_order@);
        while k < self.fuzzy_order.len()
            invariant
                self.wf(),
                k <= self.fuzzy_order@.len(),
                first_hit(self.records@, self.fuzzy_order@, n@, by_prefix) == first_hit(
                    self.records@,
                    self.fuzzy_order@.skip(k as int),
                    n@,
                    by_prefix,
                ),
            decreases self.fuzzy_order@.len() - k,
        {
            let idx = self.fuzzy_order[k];
            let r = &self.records[idx];
            let hit = if by_prefix {
                record_prefix_hit(r, n)
            } else {
                record_contains_hit(r, n)
            };
            assert(self.fuzzy_order@.skip(k as int)[0] == idx);
            if hit {
                return Some(r.variant);
            }
            assert(self.fuzzy_order@.skip(k as int).drop_first() =~= self.fuzzy_order@.skip(k + 1));
            k = k + 1;
        }
        None
    }

    /// The game recognised in a window title or process name (see `fuzzy_spec`).
    pub fn fuzzy_match(&self, input: &str) -> (g: ClipsGames)
        requires
            self.wf(),
        ensures
            g == fuzzy_spec(self.records@, self.fuzzy_order@, input@),
    {
        let normalized = normalize(input);
        let n = str_chars(normalized.as_str());
        if n.len() == 0 {
            return ClipsGames::Unknown;
        }
        if let Some(g) = self.scan(n.as_slice(), true) {
            return g;
        }
        if is_generic_process(n.as_slice()) {
            return ClipsGames::Unknown;
        }
        match self.scan(n.as_slice(), false) {
            Some(g) => g,
            None => ClipsGames::Unknown,
        }
    }

    /// The record of `game`: the last one in the file that names it.
    pub fn record_for(&self, game: ClipsGames) -> (r: Option<&GameRecord>)
        ensures
            match last_record(self.records@, |rec: GameRecord| rec.variant == game) {
                Some(i) => r == Some(&self.records@[i]),
                None => r is None,
            },
    {
        let ghost p = |rec: GameRecord| rec.variant == game;
        let mut i = self.records.len();
        assert(self.records@.subrange(0, i as int) =~= self.records@);
        while i > 0
            invariant
                i <= self.records@.len(),
                p == (|rec: GameRecord| rec.variant == game),
                last_record(self.records@, p) == last_record(self.records@.subrange(0, i as int), p),
            decreases i,
        {
            i = i - 1;
            proof {
                lemma_last_record_step(self.records@, p, i as int);
            }
            if self.records[i].variant == game {
                return Some(&self.records[i]);
            }
        }
        None
    }

    /// The game whose Steam application id is `appid` (see `appid_spec`).
    pub fn appid_lookup(&self, appid: u64) -> (g: ClipsGames)
        ensures
            g == appid_spec(self.records@, appid),
    {
        let ghost p = |r: GameRecord| r.steam_appids@.contains(appid);
        let mut i = self.records.len();
        assert(self.records@.subrange(0, i as int) =~= self.records@);
        while i > 0
            invariant
                i <= self.records@.len(),
                p == (|r: GameRecord| r.steam_appids@.contains(appid)),
                last_record(self.records@, p) == last_record(self.records@.subrange(0, i as int), p),
            decreases i,
        {
            i = i - 1;
            proof {
                lemma_last_record_step(self.records@, p, i as int);
            }
            let ids = &self.records[i].steam_appids;
            let mut j: usize = 0;
            let mut found = false;
            while j < ids.len()
                invariant
                    j <= ids@.len(),
                    found == exists|t: int| 0 <= t < j && ids@[t] == appid,
                decreases ids@.len() - j,
            {
                if ids[j] == appid {
                    found = true;
                }
                j = j + 1;
            }
            if found {
                return self.records[i].variant;
            }
        }
        ClipsGames::Unknown
    }

    /// The game whose display name or slug, ASCII-lowercased, is `lower` (see `name_spec`).
    pub fn name_lookup(&self, lower: &[char]) -> (g: Option<ClipsGames>)
        ensures
            g == name_spec(self.records@, lower@),
    {
        let ghost p = |r: GameRecord| ascii_lowercase(r.display_name@) == lower@ || ascii_lowercase(
            r.slug@,
        ) == lower@;
        let mut i = self.records.len();
        assert(self.records@.subrange(0, i as int) =~= self.records@);
        while i > 0
            invariant
                i <= self.records@.len(),
                p == (|r: GameRecord| ascii_lowercase(r.display_name@) == lower@ || ascii_lowercase(
                    r.slug@,
                ) == lower@),
                last_record(self.records@, p) == last_record(self.records@.subrange(0, i as int), p),
            decreases i,
        {
            i = i - 1;
            proof {
                lemma_last_record_step(self.records@, p, i as int);
            }
            let r = &self.records[i];
            let d = str_chars(r.display_name.as_str());
            let dl = chars_to_ascii_lowercase(d.as_slice());
            let sl0 = str_chars(r.slug.as_str());
            let sl = chars_to_ascii_lowercase(sl0.as_slice());
            if chars_eq(dl.as_slice(), lower) || chars_eq(sl.as_slice(), lower) {
                return Some(r.variant);
            }
        }
        None
    }
}

impl ClipsGames {
    /// The game recognised in a window title.
    pub fn from_title(db: &GamesDb, title: &str) -> (g: Self)
        requires
            db.wf(),
        ensures
            g == fuzzy_spec(db.records@, db.fuzzy_order@, title@),
    {
        db.fuzzy_match(title)
    }

    /// The game recognised in a process name.
    pub fn from_process_name(db: &GamesDb, process: &str) -> (g: Self)
        requires
            db.wf(),
        ensures
            g == fuzzy_spec(db.records@, db.fuzzy_order@, process@),
    {
        db.fuzzy_match(process)
    }

    /// The game with the Steam application id `appid`, or `Unknown`.
    pub fn from_steam_appid(db: &GamesDb, appid: u64) -> (g: Self)
        ensures
            g == appid_spec(db.records@, appid),
    {
        db.appid_lookup(appid)
    }

    /// The game's display name, or `Unknown` when the database has no record of it.
    pub fn display_name(&self, db: &GamesDb) -> (s: String)
        ensures
            s@ == match last_record(db.records@, |r: GameRecord| r.variant == *self) {
                Some(i) => db.records@[i].display_name@,
                None => "Unknown"@,
            },
    {
        match db.record_for(*self) {
            Some(r) => r.display_name.clone(),
            None => "Unknown".to_owned(),
        }
    }

    /// The displayed form of the game: its display name.
    pub fn to_string(&self, db: &GamesDb) -> (s: String)
        ensures
            s@ == match last_record(db.records@, |r: GameRecord| r.variant == *self) {
                Some(i) => db.records@[i].display_name@,
                None => "Unknown"@,
            },
    {
        self.display_name(db)
    }

    /// The game's slug, or `unknown` when the database has no record of it.
    pub fn slug(&self, db: &GamesDb) -> (s: String)
        ensures
            s@ == match last_record(db.records@, |r: GameRecord| r.variant == *self) {
                Some(i) => db.records@[i].slug@,
                None => "unknown"@,
            },
    {
        match db.record_for(*self) {
            Some(r) => r.slug.clone(),
            None => "unknown".to_owned(),
        }
    }

    /// The game's Steam application ids, none when the database has no record of it.
    pub fn steam_appids(&self, db: &GamesDb) -> (v: Vec<u64>)
        ensures
            v@ == match last_record(db.records@, |r: GameRecord| r.variant == *self) {
                Some(i) => db.records@[i].steam_appids@,
                None => Seq::<u64>::empty(),
            },
    {
        match db.record_for(*self) {
            Some(r) => {
                let ids = &r.steam_appids;
                let mut v: Vec<u64> = Vec::new();
                let mut j: usize = 0;
                while j < ids.len()
                    invariant
                        j <= ids@.len(),
                        v@ == ids@.subrange(0, j as int),
                    decreases ids@.len() - j,
                {
                    v.push(ids[j]);
                    j = j + 1;
                }
                assert(ids@.subrange(0, ids@.len() as int) =~= ids@);
                v
            },
            None => Vec::new(),
        }
    }
}

/// What `ClipsGames::from_str` gives for `s`: the trimmed input names `Unknown` (in any ASCII
/// case), a variant identifier, or (ASCII-lowercased) a display name or slug; otherwise the
/// game recognised in it, and an error when none is.
pub open spec fn game_parse(rs: Seq<GameRecord>, order: Seq<usize>, s: Seq<char>) -> Result<ClipsGames, Seq<char>> {
    let t = trim(s);
    if eq_ignore_ascii_case(t, "unknown"@) {
        Ok(ClipsGames::Unknown)
    } else if first_with_ident(all_variants_spec(), t) is Some {
        Ok(first_with_ident(all_variants_spec(), t).unwrap())
    } else {
        match name_spec(rs, ascii_lowercase(t)) {
            Some(g) => Ok(g),
            None => match fuzzy_spec(rs, order, t) {
                ClipsGames::Unknown => Err("unknown game: "@ + s),
                g => Ok(g),
            },
        }
    }
}

impl ClipsGames {
    /// Reads a game from its identifier, display name, slug or a text that names it.
    pub fn from_str(db: &GamesDb, s: &str) -> (r: Result<Self, String>)
        requires
            db.wf(),
        ensures
            match game_parse(db.records@, db.fuzzy_order@, s@) {
                Ok(g) => r == Ok::<ClipsGames, String>(g),
                Err(m) => r matches Err(e) && e@ == m,
            },
    {
        let chars = str_chars(s);
        let t = trim_chars(chars.as_slice());
        let unknown = str_chars("unknown");
        if chars_eq_ignore_ascii_case(t.as_slice(), unknown.as_slice()) {
            return Ok(ClipsGames::Unknown);
        }
        let ts = string_from_chars(t.as_slice());
        if let Some(g) = ClipsGames::from_variant_ident(ts.as_str()) {
            return Ok(g);
        }
        let lower = chars_to_ascii_lowercase(t.as_slice());
        if let Some(g) = db.name_lookup(lower.as_slice()) {
            return Ok(g);
        }
        match db.fuzzy_match(ts.as_str()) {
            ClipsGames::Unknown => {
                let mut msg = "unknown game: ".to_owned();
                push_str(&mut msg, s);
                Err(msg)
            },
            g => Ok(g),
        }
    }
}


/// The texts from which an entry's contains patterns come: its display name, variant, slug,
/// titles and process names.
pub open spec fn candidates(e: GameEntry) -> Seq<Seq<char>> {
    seq![e.display_name@, e.variant@, e.slug@] + string_views(e.titles@) + string_views(
        e.processes@,
    )
}

/// Whether `x` is the non-empty normal form of one of `cands`.
pub open spec fn pattern_of(cands: Seq<Seq<char>>, x: Seq<char>) -> bool {
    x.len() > 0 && exists|i: int| 0 <= i < cands.len() && normal_form(#[trigger] cands[i]) == x
}

/// The non-empty normal forms of `ss`, in order.
pub open spec fn nonempty_forms(ss: Seq<Seq<char>>) -> Seq<Seq<char>>
    decreases ss.len(),
{
    if ss.len() == 0 {
        Seq::empty()
    } else {
        let rest = nonempty_forms(ss.drop_last());
        let n = normal_form(ss.last());
        if n.len() > 0 {
            rest.push(n)
        } else {
            rest
        }
    }
}

/// How the database holds the games file entry `e` as the record `r`: the same names and ids,
/// the non-empty normal forms of the prefixes in order, and the non-empty normal forms of the
/// candidates, each once, in the order of strings.
pub open spec fn record_of(e: GameEntry, r: GameRecord) -> bool {
    &&& Some(r.variant) == first_with_ident(all_variants_spec(), e.variant@)
    &&& r.slug@ == e.slug@
    &&& r.display_name@ == e.display_name@
    &&& r.steam_appids@ == e.steam_appids@
    &&& string_views(r.prefix_patterns@) == nonempty_forms(string_views(e.prefixes@))
    &&& strictly_sorted(string_views(r.contains_patterns@))
    &&& string_views(r.contains_patterns@).no_duplicates()
    &&& forall|x: Seq<char>| #[trigger]
        string_views(r.contains_patterns@).contains(x) <==> pattern_of(candidates(e), x)
}

/// The length of the longest of `ps`, 0 for none.
pub open spec fn max_len(ps: Seq<Seq<char>>) -> nat
    decreases ps.len(),
{
    if ps.len() == 0 {
        0
    } else {
        let m = max_len(ps.drop_last());
        if ps.last().len() > m {
            ps.last().len()
        } else {
            m
        }
    }
}

/// The length of a record's longest contains pattern: records with longer patterns are tried
/// first.
pub open spec fn fuzzy_key(r: GameRecord) -> nat {
    max_len(string_views(r.contains_patterns@))
}

/// Whether record `a` is tried before record `b`: a longer longest pattern, or the same length
/// and earlier in the file.
pub open spec fn tried_before(rs: Seq<GameRecord>, a: int, b: int) -> bool {
    ||| fuzzy_key(rs[a]) > fuzzy_key(rs[b])
    ||| (fuzzy_key(rs[a]) == fuzzy_key(rs[b]) && a < b)
}

/// `order` lists every record once, in the order in which they are tried.
pub open spec fn fuzzy_order_of(rs: Seq<GameRecord>, order: Seq<usize>) -> bool {
    &&& order.len() == rs.len()
    &&& forall|k: int| 0 <= k < order.len() ==> #[trigger] order[k] < rs.len()
    &&& forall|a: int, b: int|
        0 <= a < b < order.len() ==> tried_before(rs, #[trigger] order[a] as int, #[trigger] order[b] as int)
}

proof fn lemma_pattern_of_push(cands: Seq<Seq<char>>, c: Seq<char>, x: Seq<char>)
    ensures
        pattern_of(cands.push(c), x) <==> (pattern_of(cands, x) || (x.len() > 0 && normal_form(c)
            == x)),
{
    let cs = cands.push(c);
    if pattern_of(cands, x) {
        let i = choose|i: int| 0 <= i < cands.len() && normal_form(#[trigger] cands[i]) == x;
        assert(cs[i] == cands[i]);
    }
    if x.len() > 0 && normal_form(c) == x {
        assert(cs[cands.len() as int] == c);
    }
    if pattern_of(cs, x) {
        let i = choose|i: int| 0 <= i < cs.len() && normal_form(#[trigger] cs[i]) == x;
        if i < cands.len() {
            assert(cands[i] == cs[i]);
        }
    }
}

/// Whether `a` comes before `b` in the order of strings: character by character, a proper
/// prefix first.
pub open spec fn text_lt(a: Seq<char>, b: Seq<char>) -> bool
    decreases a.len(),
{
    if b.len() == 0 {
        false
    } else if a.len() == 0 {
        true
    } else if (a[0] as int) < (b[0] as int) {
        true
    } else if a[0] == b[0] {
        text_lt(a.drop_first(), b.drop_first())
    } else {
        false
    }
}

/// Whether the texts are in increasing order, each once.
pub open spec fn strictly_sorted(s: Seq<Seq<char>>) -> bool {
    forall|i: int, j: int| 0 <= i < j < s.len() ==> text_lt(#[trigger] s[i], #[trigger] s[j])
}

proof fn lemma_text_lt_irreflexive(a: Seq<char>)
    ensures
        !text_lt(a, a),
    decreases a.len(),
{
    if a.len() > 0 {
        lemma_text_lt_irreflexive(a.drop_first());
    }
}

proof fn lemma_text_lt_transitive(a: Seq<char>, b: Seq<char>, c: Seq<char>)
    requires
        text_lt(a, b),
        text_lt(b, c),
    ensures
        text_lt(a, c),
    decreases a.len(),
{
    if a.len() > 0 && b.len() > 0 && c.len() > 0 && a[0] == b[0] && b[0] == c[0] {
        lemma_text_lt_transitive(a.drop_first(), b.drop_first(), c.drop_first());
    }
}

proof fn lemma_text_lt_total(a: Seq<char>, b: Seq<char>)
    requires
        a != b,
    ensures
        text_lt(a, b) || text_lt(b, a),
    decreases a.len(),
{
    if a.len() == 0 && b.len() == 0 {
        assert(a =~= b);
    } else if a.len() > 0 && b.len() > 0 && a[0] == b[0] {
        if a.drop_first() == b.drop_first() {
            assert(a =~= seq![a[0]] + a.drop_first());
            assert(b =~= seq![b[0]] + b.drop_first());
        }
        lemma_text_lt_total(a.drop_first(), b.drop_first());
    } else if a.len() > 0 && b.len() > 0 {
        assert((a[0] as int) != (b[0] as int));
    }
}

proof fn lemma_strictly_sorted_unique(s: Seq<Seq<char>>)
    requires
        strictly_sorted(s),
    ensures
        s.no_duplicates(),
{
    assert forall|i: int, j: int| 0 <= i < s.len() && 0 <= j < s.len() && i != j implies s[i] != s[j] by {
        if i < j {
            assert(text_lt(s[i], s[j]));
        } else {
            assert(text_lt(s[j], s[i]));
        }
        lemma_text_lt_irreflexive(s[i]);
    }
}

/// Whether `a` comes before `b` in the order of strings.
fn text_lt_exec(a: &[char], b: &[char]) -> (r: bool)
    ensures
        r == text_lt(a@, b@),
{
    let mut i: usize = 0;
    assert(a@.skip(0) =~= a@ && b@.skip(0) =~= b@);
    while i < a.len() && i < b.len() && a[i] == b[i]
        invariant
            i <= a@.len(),
            i <= b@.len(),
            text_lt(a@, b@) == text_lt(a@.skip(i as int), b@.skip(i as int)),
        decreases a@.len() - i,
    {
        assert(a@.skip(i as int).drop_first() =~= a@.skip(i + 1));
        assert(b@.skip(i as int).drop_first() =~= b@.skip(i + 1));
        i = i + 1;
    }
    if i == b.len() {
        assert(b@.skip(i as int).len() == 0);
        false
    } else if i == a.len() {
        assert(a@.skip(i as int).len() == 0);
        true
    } else {
        assert(a@.skip(i as int)[0] == a@[i as int] && b@.skip(i as int)[0] == b@[i as int]);
        a[i] < b[i]
    }
}

/// Adds the non-empty normal form of `c` to `pats` in its place in the order of strings,
/// unless it is there.
fn add_pattern(pats: &mut Vec<String>, c: &str)
    requires
        strictly_sorted(string_views(old(pats)@)),
    ensures
        strictly_sorted(string_views(final(pats)@)),
        string_views(final(pats)@).no_duplicates(),
        forall|x: Seq<char>| #[trigger]
            string_views(final(pats)@).contains(x) <==> (string_views(old(pats)@).contains(x) || (
            x.len() > 0 && x == normal_form(c@))),
{
    let n = normalize(c);
    let nc = str_chars(n.as_str());
    if nc.len() == 0 {
        proof {
            lemma_strictly_sorted_unique(string_views(pats@));
        }
        return;
    }
    let ghost before = string_views(pats@);
    let mut j: usize = 0;
    loop
        invariant
            pats@ == old(pats)@,
            before == string_views(pats@),
            strictly_sorted(before),
            n@ == normal_form(c@),
            nc@ == n@,
            j <= pats@.len(),
            forall|k: int| 0 <= k < j ==> text_lt(#[trigger] before[k], n@),
        ensures
            pats@ == old(pats)@,
            j <= pats@.len(),
            forall|k: int| 0 <= k < j ==> text_lt(#[trigger] before[k], n@),
            j < pats@.len() ==> !text_lt(before[j as int], n@),
        decreases pats@.len() - j,
    {
        if j == pats.len() {
            break;
        }
        let pj = str_chars(pats[j].as_str());
        assert(before[j as int] == pj@);
        if !text_lt_exec(pj.as_slice(), nc.as_slice()) {
            break;
        }
        j = j + 1;
    }
    if j < pats.len() && str_eq(pats[j].as_str(), n.as_str()) {
        proof {
            lemma_strictly_sorted_unique(before);
            assert(before[j as int] == n@);
        }
        return;
    }
    pats.insert(j, n);
    let ghost after = string_views(pats@);
    proof {
        assert(after =~= before.insert(j as int, n@));
        if j < before.len() {
            assert(before[j as int] != n@);
            lemma_text_lt_total(before[j as int], n@);
        }
        assert forall|a: int, b: int| 0 <= a < b < after.len() implies text_lt(
            #[trigger] after[a],
            #[trigger] after[b],
        ) by {
            if b < j {
                assert(after[a] == before[a] && after[b] == before[b]);
            } else if b == j {
                assert(after[a] == before[a]);
            } else if a < j {
                assert(after[a] == before[a] && after[b] == before[b - 1]);
            } else if a == j {
                assert(after[b] == before[b - 1]);
                if b - 1 > j {
                    assert(text_lt(before[j as int], before[b - 1]));
                    lemma_text_lt_transitive(n@, before[j as int], before[b - 1]);
                }
            } else {
                assert(after[a] == before[a - 1] && after[b] == before[b - 1]);
            }
        }
        lemma_strictly_sorted_unique(after);
    }
    assert forall|x: Seq<char>| #[trigger] after.contains(x) <==> (before.contains(x) || (x.len()
        > 0 && x == normal_form(c@))) by {
        if after.contains(x) {
            let k = choose|k: int| 0 <= k < after.len() && after[k] == x;
            if k < j {
                assert(before[k] == x);
            } else if k > j {
                assert(before[k - 1] == x);
            }
        }
        if before.contains(x) {
            let k = choose|k: int| 0 <= k < before.len() && before[k] == x;
            if k < j {
                assert(after[k] == x);
            } else {
                assert(after[k + 1] == x);
            }
        }
        if x.len() > 0 && x == normal_form(c@) {
            assert(after[j as int] == x);
        }
    }
}

fn prefix_patterns_of(prefixes: &Vec<String>) -> (pp: Vec<String>)
    ensures
        string_views(pp@) == nonempty_forms(string_views(prefixes@)),
{
    let ghost ps = string_views(prefixes@);
    let mut pp: Vec<String> = Vec::new();
    let mut j: usize = 0;
    while j < prefixes.len()
        invariant
            ps == string_views(prefixes@),
            j <= prefixes@.len(),
            string_views(pp@) == nonempty_forms(ps.subrange(0, j as int)),
        decreases prefixes@.len() - j,
    {
        assert(ps.subrange(0, j + 1).drop_last() =~= ps.subrange(0, j as int));
        assert(ps.subrange(0, j + 1).last() == prefixes@[j as int]@);
        let n = normalize(prefixes[j].as_str());
        let nc = str_chars(n.as_str());
        if nc.len() > 0 {
            let ghost before = string_views(pp@);
            pp.push(n);
            assert(string_views(pp@) =~= before.push(n@));
        }
        j = j + 1;
    }
    assert(ps.subrange(0, prefixes@.len() as int) =~= ps);
    pp
}

fn record_from_entry(e: GameEntry) -> (r: GameRecord)
    requires
        first_with_ident(all_variants_spec(), e.variant@) is Some,
    ensures
        record_of(e, r),
{
    let ghost cands = candidates(e);
    let variant = ClipsGames::from_variant_ident(e.variant.as_str()).unwrap();
    let mut pats: Vec<String> = Vec::new();
    let ghost mut seen: Seq<Seq<char>> = Seq::empty();
    assert(string_views(pats@) =~= Seq::<Seq<char>>::empty());
    add_pattern(&mut pats, e.display_name.as_str());
    proof {
        seen = seen.push(e.display_name@);
        assert forall|x: Seq<char>| #[trigger]
            string_views(pats@).contains(x) <==> pattern_of(seen, x) by {
            lemma_pattern_of_push(Seq::empty(), e.display_name@, x);
            assert(Seq::<Seq<char>>::empty().push(e.display_name@) =~= seen);
        }
    }
    add_pattern(&mut pats, e.variant.as_str());
    proof {
        assert forall|x: Seq<char>| #[trigger]
            string_views(pats@).contains(x) <==> pattern_of(seen.push(e.variant@), x) by {
            lemma_pattern_of_push(seen, e.variant@, x);
        }
        seen = seen.push(e.variant@);
    }
    add_pattern(&mut pats, e.slug.as_str());
    proof {
        assert forall|x: Seq<char>| #[trigger]
            string_views(pats@).contains(x) <==> pattern_of(seen.push(e.slug@), x) by {
            lemma_pattern_of_push(seen, e.slug@, x);
        }
        seen = seen.push(e.slug@);
    }
    let mut j: usize = 0;
    while j < e.titles.len()
        invariant
            j <= e.titles@.len(),
            seen == seq![e.display_name@, e.variant@, e.slug@] + string_views(e.titles@).subrange(
                0,
                j as int,
            ),
            strictly_sorted(string_views(pats@)),
            string_views(pats@).no_duplicates(),
            forall|x: Seq<char>| #[trigger]
                string_views(pats@).contains(x) <==> pattern_of(seen, x),
        decreases e.titles@.len() - j,
    {
        let t = &e.titles[j];
        add_pattern(&mut pats, t.as_str());
        proof {
            assert forall|x: Seq<char>| #[trigger]
                string_views(pats@).contains(x) <==> pattern_of(seen.push(t@), x) by {
                lemma_pattern_of_push(seen, t@, x);
            }
            seen = seen.push(t@);
            assert(seen =~= seq![e.display_name@, e.variant@, e.slug@] + string_views(
                e.titles@,
            ).subrange(0, j + 1));
        }
        j = j + 1;
    }
    assert(string_views(e.titles@).subrange(0, e.titles@.len() as int) =~= string_views(e.titles@));
    let mut j: usize = 0;
    while j < e.processes.len()
        invariant
            j <= e.processes@.len(),
            seen == seq![e.display_name@, e.variant@, e.slug@] + string_views(e.titles@)
                + string_views(e.processes@).subrange(0, j as int),
            strictly_sorted(string_views(pats@)),
            string_views(pats@).no_duplicates(),
            forall|x: Seq<char>| #[trigger]
                string_views(pats@).contains(x) <==> pattern_of(seen, x),
        decreases e.processes@.len() - j,
    {
        let t = &e.processes[j];
        add_pattern(&mut pats, t.as_str());
        proof {
            assert forall|x: Seq<char>| #[trigger]
                string_views(pats@).contains(x) <==> pattern_of(seen.push(t@), x) by {
                lemma_pattern_of_push(seen, t@, x);
            }
            seen = seen.push(t@);
            assert(seen =~= seq![e.display_name@, e.variant@, e.slug@] + string_views(e.titles@)
                + string_views(e.processes@).subrange(0, j + 1));
        }
        j = j + 1;
    }
    assert(string_views(e.processes@).subrange(0, e.processes@.len() as int) =~= string_views(
        e.processes@,
    ));
    assert(seen =~= cands);
    let prefix_patterns = prefix_patterns_of(&e.prefixes);
    GameRecord {
        variant,
        slug: e.slug,
        display_name: e.display_name,
        steam_appids: e.steam_appids,
        contains_patterns: pats,
        prefix_patterns,
    }
}


fn max_pattern_len(r: &GameRecord) -> (m: usize)
    ensures
        m == fuzzy_key(*r),
{
    let ghost ps = string_views(r.contains_patterns@);
    let mut m: usize = 0;
    let mut j: usize = 0;
    while j < r.contains_patterns.len()
        invariant
            ps == string_views(r.contains_patterns@),
            j <= r.contains_patterns@.len(),
            m == max_len(ps.subrange(0, j as int)),
        decreases r.contains_patterns@.len() - j,
    {
        assert(ps.subrange(0, j + 1).drop_last() =~= ps.subrange(0, j as int));
        let len = str_chars(r.contains_patterns[j].as_str()).len();
        assert(ps.subrange(0, j + 1).last().len() == len);
        if len > m {
            m = len;
        }
        j = j + 1;
    }
    assert(ps.subrange(0, r.contains_patterns@.len() as int) =~= ps);
    m
}

/// The order in which records are tried: by longest contains pattern, longest first, and in
/// file order among equals (a stable sort).
fn fuzzy_order_for(rs: &Vec<GameRecord>) -> (order: Vec<usize>)
    ensures
        fuzzy_order_of(rs@, order@),
{
    let n = rs.len();
    let mut keys: Vec<usize> = Vec::new();
    let mut i: usize = 0;
    while i < n
        invariant
            n == rs@.len(),
            i <= n,
            keys@.len() == i,
            forall|k: int| 0 <= k < i ==> #[trigger] keys@[k] == fuzzy_key(rs@[k]),
        decreases n - i,
    {
        keys.push(max_pattern_len(&rs[i]));
        i = i + 1;
    }
    let mut order: Vec<usize> = Vec::new();
    let mut i: usize = 0;
    while i < n
        invariant
            n == rs@.len(),
            keys@.len() == n,
            forall|k: int| 0 <= k < n ==> #[trigger] keys@[k] == fuzzy_key(rs@[k]),
            i <= n,
            order@.len() == i,
            forall|k: int| 0 <= k < order@.len() ==> #[trigger] order@[k] < i,
            forall|a: int, b: int|
                0 <= a < b < order@.len() ==> tried_before(rs@, #[trigger] order@[a] as int, #[trigger] order@[b] as int),
        decreases n - i,
    {
        let ki = keys[i];
        let mut p: usize = 0;
        loop
            invariant
                p <= order@.len(),
                keys@.len() == n,
                forall|k: int| 0 <= k < order@.len() ==> #[trigger] order@[k] < i,
                i < n,
                forall|q: int| 0 <= q < p ==> #[trigger] keys@[order@[q] as int] >= ki,
            ensures
                p <= order@.len(),
                forall|q: int| 0 <= q < p ==> #[trigger] keys@[order@[q] as int] >= ki,
                p < order@.len() ==> keys@[order@[p as int] as int] < ki,
            decreases order@.len() - p,
        {
            if p == order.len() {
                break;
            }
            if keys[order[p]] < ki {
                break;
            }
            p = p + 1;
        }
        let ghost old_order = order@;
        order.insert(p, i);
        proof {
            let o = old_order;
            let o2 = order@;
            assert(o2 =~= o.insert(p as int, i));
            assert forall|k: int| 0 <= k < o2.len() implies #[trigger] o2[k] < i + 1 by {
                if k < p {
                    assert(o2[k] == o[k]);
                } else if k > p {
                    assert(o2[k] == o[k - 1]);
                }
            }
            assert forall|a: int, b: int| 0 <= a < b < o2.len() implies tried_before(
                rs@,
                #[trigger] o2[a] as int,
                #[trigger] o2[b] as int,
            ) by {
                if b < p {
                    assert(o2[a] == o[a] && o2[b] == o[b]);
                } else if b == p {
                    assert(o2[a] == o[a]);
                    assert(keys@[o[a] as int] >= ki);
                } else if a < p {
                    assert(o2[a] == o[a] && o2[b] == o[b - 1]);
                } else if a == p {
                    assert(o2[b] == o[b - 1]);
                    assert(keys@[o[p as int] as int] < ki);
                    if b - 1 > p {
                        assert(tried_before(rs@, o[p as int] as int, o[b - 1] as int));
                    }
                } else {
                    assert(o2[a] == o[a - 1] && o2[b] == o[b - 1]);
                }
            }
        }
        i = i + 1;
    }
    order
}

impl GamesDb {
    /// The database built from the entries of the games file, which must each name a variant.
    pub fn init(entries: Vec<GameEntry>) -> (db: GamesDb)
        requires
            forall|i: int|
                0 <= i < entries@.len() ==> first_with_ident(
                    all_variants_spec(),
                    (#[trigger] entries@[i]).variant@,
                ) is Some,
        ensures
            db.wf(),
            db.records@.len() == entries@.len(),
            forall|i: int| 0 <= i < entries@.len() ==> record_of(#[trigger] entries@[i], db.records@[i]),
            fuzzy_order_of(db.records@, db.fuzzy_order@),
            built_from(entries@, db),
    {
        let ghost orig = entries@;
        let mut rest = entries;
        let n = rest.len();
        let mut records: Vec<GameRecord> = Vec::new();
        let mut i: usize = 0;
        assert(orig.skip(0) =~= orig);
        while i < n
            invariant
                n == orig.len(),
                i <= n,
                rest@ == orig.skip(i as int),
                records@.len() == i,
                forall|k: int|
                    0 <= k < orig.len() ==> first_with_ident(
                        all_variants_spec(),
                        (#[trigger] orig[k]).variant@,
                    ) is Some,
                forall|k: int| 0 <= k < i ==> record_of(#[trigger] orig[k], records@[k]),
            decreases n - i,
        {
            let e = rest.remove(0);
            assert(orig.skip(i as int)[0] == orig[i as int]);
            assert(orig.skip(i as int).remove(0) =~= orig.skip(i + 1));
            let r = record_from_entry(e);
            records.push(r);
            i = i + 1;
        }
        let fuzzy_order = fuzzy_order_for(&records);
        GamesDb { records, fuzzy_order }
    }
}

} // verus!

verus! {


/// A number that tells the games' identifiers apart: made of the length and the first two
/// and the last characters of the text.
spec fn ident_key(s: Seq<char>) -> int {
    ((s.len() * 0x110000 + s[0] as int) * 0x110000 + s[1] as int) * 0x110000 + s[s.len() - 1] as int
}

/// The game whose identifier has the key `k`.
spec fn game_of_key(k: int) -> ClipsGames {
    if k == 12446083309957021811 {
        ClipsGames::TheFinals
    } else if k == 19360495011687759922 {
        ClipsGames::CounterStrike2
    } else if k == 6914517207718232114 {
        ClipsGames::Dota2
    } else if k == 5531645542092046439 {
        ClipsGames::Pubg
    } else if k == 15211832847459418227 {
        ClipsGames::ApexLegends
    } else if k == 20743386537252749398 {
        ClipsGames::GrandTheftAutoV
    } else if k == 5531648024583143540 {
        ClipsGames::Rust
    } else if k == 20743400190934843493 {
        ClipsGames::RainbowSixSiege
    } else if k == 17977629552271491122 {
        ClipsGames::TeamFortress2
    } else if k == 13828959940568743986 {
        ClipsGames::Left4Dead2
    } else if k == 9680305223823720498 {
        ClipsGames::Portal2
    } else if k == 12446068415002640434 {
        ClipsGames::HalfLife2
    } else if k == 12446064691278250087 {
        ClipsGames::EldenRing
    } else if k == 16594723131758805065 {
        ClipsGames::DarkSoulsIII
    } else if k == 16594720649267707955 {
        ClipsGames::BaldursGate3
    } else if k == 17977608451119448119 {
        ClipsGames::Cyberpunk2077
    } else if k == 15211856431115927603 {
        ClipsGames::TheWitcher3
    } else if k == 11063196749374226529 {
        ClipsGames::Terraria
    } else if k == 17977628311042654329 {
        ClipsGames::StardewValley
    } else if k == 12446074621239296116 {
        ClipsGames::Minecraft
    } else if k == 11063179371932090479 {
        ClipsGames::Factorio
    } else if k == 16594741750442033273 {
        ClipsGames::Satisfactory
    } else if k == 6914522172684828787 {
        ClipsGames::Hades
    } else if k == 16594728096756596852 {
        ClipsGames::HollowKnight
    } else if k == 22126269374081073251 {
        ClipsGames::DeepRockGalactic
    } else if k == 11063200473106415717 {
        ClipsGames::Warframe
    } else if k == 11063176889445449778 {
        ClipsGames::Destiny2
    } else if k == 11063179371947688037 {
        ClipsGames::Fortnite
    } else if k == 20743392743466008691 {
        ClipsGames::LeagueOfLegends
    } else if k == 13828963664324329522 {
        ClipsGames::Overwatch2
    } else if k == 20743406397178183796 {
        ClipsGames::WorldOfWarcraft
    } else if k == 15211851466125934693 {
        ClipsGames::PathOfExile
    } else if k == 16594738026705387570 {
        ClipsGames::PathOfExile2
    } else if k == 11063176889449906262 {
        ClipsGames::DiabloIV
    } else if k == 16594741750446489715 {
        ClipsGames::SeaOfThieves
    } else if k == 12446075862491529337 {
        ClipsGames::NoMansSky
    } else if k == 13828968629305409633 {
        ClipsGames::Subnautica
    } else if k == 24892038771517816932 {
        ClipsGames::ArkSurvivalEvolved
    } else if k == 16594740509212082277 {
        ClipsGames::RocketLeague
    } else if k == 11063179371932090483 {
        ClipsGames::FallGuys
    } else if k == 9680286605138264179 {
        ClipsGames::AmongUs
    } else if k == 13828956216848810095 {
        ClipsGames::ItTakesTwo
    } else if k == 24892053666461057124 {
        ClipsGames::MonsterHunterWorld
    } else if k == 11063191784387575908 {
        ClipsGames::Palworld
    } else if k == 15211841536166002738 {
        ClipsGames::Helldivers2
    } else if k == 17977619622307102841 {
        ClipsGames::LethalCompany
    } else if k == 22126270615342219382 {
        ClipsGames::EscapeFromTarkov
    } else if k == 6914535826403688548 {
        ClipsGames::Squad
    } else if k == 6914513483984928819 {
        ClipsGames::Arma3
    } else if k == 5531630647123181658 {
        ClipsGames::DayZ
    } else if k == 26274935262057201773 {
        ClipsGames::InsurgencySandstorm
    } else if k == 17977618381066010674 {
        ClipsGames::KillingFloor2
    } else if k == 9680312671281414253 {
        ClipsGames::Valheim
    } else if k == 13828968629287583859 {
        ClipsGames::SeaOfStars
    } else if k == 5531631888389898290 {
        ClipsGames::Ets2
    } else if k == 16594734302968742003 {
        ClipsGames::MarvelRivals
    } else if k == 20743380331018322023 {
        ClipsGames::BlackMythWukong
    } else if k == 12446082068724842596 {
        ClipsGames::Starfield
    } else if k == 24892059872677658674 {
        ClipsGames::RedDeadRedemption2
    } else if k == 20743381572260528178 {
        ClipsGames::CitiesSkylines2
    } else if k == 19360495011681075273 {
        ClipsGames::CivilizationVI
    } else if k == 20743385296003858546 {
        ClipsGames::FootballManager
    } else if k == 13828951251845447779 {
        ClipsGames::EaSportsFc
    } else if k == 23509154693410521189 {
        ClipsGames::CallOfDutyWarzone
    } else if k == 33189360617466691635 {
        ClipsGames::CallOfDutyModernWarfare3
    } else if k == 26274927814569426998 {
        ClipsGames::CallOfDutyBlackOps6
    } else if k == 20743380331006066738 {
        ClipsGames::Battlefield2042
    } else if k == 9680305223808122931 {
        ClipsGames::Payday3
    } else if k == 15211853948625944626 {
        ClipsGames::RiskOfRain2
    } else if k == 22126291716496490611 {
        ClipsGames::VampireSurvivors
    } else if k == 20743401432195989620 {
        ClipsGames::SonsOfTheForest
    } else if k == 12446083309957021812 {
        ClipsGames::TheForest
    } else if k == 12446067173776031852 {
        ClipsGames::GreenHell
    } else if k == 16594738026713186401 {
        ClipsGames::Phasmophobia
    } else if k == 5531648024565317743 {
        ClipsGames::Repo
    } else if k == 11063180613196578916 {
        ClipsGames::Grounded
    } else if k == 9680312671264702567 {
        ClipsGames::VRising
    } else if k == 13828948769369948274 {
        ClipsGames::CoreKeeper
    } else if k == 19360511147883233380 {
        ClipsGames::ProjectZomboid
    } else if k == 13828951251859931236 {
        ClipsGames::Enshrouded
    } else if k == 16594741750454288485 {
        ClipsGames::SlayTheSpire
    } else if k == 9680287846370443375 {
        ClipsGames::Balatro
    } else if k == 23509179518321492069 {
        ClipsGames::WarhammerDarktide
    } else if k == 11063194266883129394 {
        ClipsGames::Remnant2
    } else if k == 9680300258834841680 {
        ClipsGames::LiesOfP
    } else if k == 8297422386969772143 {
        ClipsGames::Sekiro
    } else if k == 8297422386976456813 {
        ClipsGames::Skyrim
    } else if k == 11063179371932090420 {
        ClipsGames::Fallout4
    } else if k == 12446065932511543350 {
        ClipsGames::Fallout76
    } else if k == 8297412457005383785 {
        ClipsGames::Kenshi
    } else if k == 11063194266887585892 {
        ClipsGames::RimWorld
    } else if k == 23509169588382728292 {
        ClipsGames::OxygenNotIncluded
    } else if k == 17977608451114991714 {
        ClipsGames::CultOfTheLamb
    } else if k == 24892042495251120242 {
        ClipsGames::DontStarveTogether
    } else if k == 5531648024560861300 {
        ClipsGames::Raft
    } else if k == 13828967388042035316 {
        ClipsGames::ReadyOrNot
    } else if k == 5531634370880995439 {
        ClipsGames::Gtfo
    } else if k == 13828947528108802148 {
        ClipsGames::Back4Blood
    } else if k == 15211858913603682354 {
        ClipsGames::Vermintide2
    } else if k == 12446062208782696498 {
        ClipsGames::Chivalry2
    } else if k == 9680301500087074933 {
        ClipsGames::Mordhau
    } else if k == 11063179371947688050 {
        ClipsGames::ForHonor
    } else if k == 16594728096740999269 {
        ClipsGames::HaloInfinite
    } else if k == 13828969870537588786 {
        ClipsGames::Titanfall2
    } else if k == 12446082068720386149 {
        ClipsGames::Splitgate
    } else if k == 11063201714319655028 {
        ClipsGames::XDefiant
    } else if k == 22126281786532102260 {
        ClipsGames::NarakaBladepoint
    } else if k == 6914535826399232101 {
        ClipsGames::Smite
    } else if k == 13828947528127742049 {
        ClipsGames::Brawlhalla
    } else if k == 15211847742411571315 {
        ClipsGames::MultiVersus
    } else if k == 19360514871622107190 {
        ClipsGames::StreetFighter6
    } else if k == 9680310188794773560 {
        ClipsGames::Tekken8
    } else if k == 17977620863563792433 {
        ClipsGames::MortalKombat1
    } else if k == 9680311430050349166 {
        ClipsGames::Unknown
    } else {
        ClipsGames::Unknown
    }
}

#[verifier::rlimit(100)]
proof fn lemma_key_decodes(g: ClipsGames)
    ensures
        game_of_key(ident_key(g.ident())) == g,
{
    match g {
        ClipsGames::TheFinals => reveal_strlit("TheFinals"),
        ClipsGames::CounterStrike2 => reveal_strlit("CounterStrike2"),
        ClipsGames::Dota2 => reveal_strlit("Dota2"),
        ClipsGames::Pubg => reveal_strlit("Pubg"),
        ClipsGames::ApexLegends => reveal_strlit("ApexLegends"),
        ClipsGames::GrandTheftAutoV => reveal_strlit("GrandTheftAutoV"),
        ClipsGames::Rust => reveal_strlit("Rust"),
        ClipsGames::RainbowSixSiege => reveal_strlit("RainbowSixSiege"),
        ClipsGames::TeamFortress2 => reveal_strlit("TeamFortress2"),
        ClipsGames::Left4Dead2 => reveal_strlit("Left4Dead2"),
        ClipsGames::Portal2 => reveal_strlit("Portal2"),
        ClipsGames::HalfLife2 => reveal_strlit("HalfLife2"),
        ClipsGames::EldenRing => reveal_strlit("EldenRing"),
        ClipsGames::DarkSoulsIII => reveal_strlit("DarkSoulsIII"),
        ClipsGames::BaldursGate3 => reveal_strlit("BaldursGate3"),
        ClipsGames::Cyberpunk2077 => reveal_strlit("Cyberpunk2077"),
        ClipsGames::TheWitcher3 => reveal_strlit("TheWitcher3"),
        ClipsGames::Terraria => reveal_strlit("Terraria"),
        ClipsGames::StardewValley => reveal_strlit("StardewValley"),
        ClipsGames::Minecraft => reveal_strlit("Minecraft"),
        ClipsGames::Factorio => reveal_strlit("Factorio"),
        ClipsGames::Satisfactory => reveal_strlit("Satisfactory"),
        ClipsGames::Hades => reveal_strlit("Hades"),
        ClipsGames::HollowKnight => reveal_strlit("HollowKnight"),
        ClipsGames::DeepRockGalactic => reveal_strlit("DeepRockGalactic"),
        ClipsGames::Warframe => reveal_strlit("Warframe"),
        ClipsGames::Destiny2 => reveal_strlit("Destiny2"),
        ClipsGames::Fortnite => reveal_strlit("Fortnite"),
        ClipsGames::LeagueOfLegends => reveal_strlit("LeagueOfLegends"),
        ClipsGames::Overwatch2 => reveal_strlit("Overwatch2"),
        ClipsGames::WorldOfWarcraft => reveal_strlit("WorldOfWarcraft"),
        ClipsGames::PathOfExile => reveal_strlit("PathOfExile"),
        ClipsGames::PathOfExile2 => reveal_strlit("PathOfExile2"),
        ClipsGames::DiabloIV => reveal_strlit("DiabloIV"),
        ClipsGames::SeaOfThieves => reveal_strlit("SeaOfThieves"),
        ClipsGames::NoMansSky => reveal_strlit("NoMansSky"),
        ClipsGames::Subnautica => reveal_strlit("Subnautica"),
        ClipsGames::ArkSurvivalEvolved => reveal_strlit("ArkSurvivalEvolved"),
        ClipsGames::RocketLeague => reveal_strlit("RocketLeague"),
        ClipsGames::FallGuys => reveal_strlit("FallGuys"),
        ClipsGames::AmongUs => reveal_strlit("AmongUs"),
        ClipsGames::ItTakesTwo => reveal_strlit("ItTakesTwo"),
        ClipsGames::MonsterHunterWorld => reveal_strlit("MonsterHunterWorld"),
        ClipsGames::Palworld => reveal_strlit("Palworld"),
        ClipsGames::Helldivers2 => reveal_strlit("Helldivers2"),
        ClipsGames::LethalCompany => reveal_strlit("LethalCompany"),
        ClipsGames::EscapeFromTarkov => reveal_strlit("EscapeFromTarkov"),
        ClipsGames::Squad => reveal_strlit("Squad"),
        ClipsGames::Arma3 => reveal_strlit("Arma3"),
        ClipsGames::DayZ => reveal_strlit("DayZ"),
        ClipsGames::InsurgencySandstorm => reveal_strlit("InsurgencySandstorm"),
        ClipsGames::KillingFloor2 => reveal_strlit("KillingFloor2"),
        ClipsGames::Valheim => reveal_strlit("Valheim"),
        ClipsGames::SeaOfStars => reveal_strlit("SeaOfStars"),
        ClipsGames::Ets2 => reveal_strlit("Ets2"),
        ClipsGames::MarvelRivals => reveal_strlit("MarvelRivals"),
        ClipsGames::BlackMythWukong => reveal_strlit("BlackMythWukong"),
        ClipsGames::Starfield => reveal_strlit("Starfield"),
        ClipsGames::RedDeadRedemption2 => reveal_strlit("RedDeadRedemption2"),
        ClipsGames::CitiesSkylines2 => reveal_strlit("CitiesSkylines2"),
        ClipsGames::CivilizationVI => reveal_strlit("CivilizationVI"),
        ClipsGames::FootballManager => reveal_strlit("FootballManager"),
        ClipsGames::EaSportsFc => reveal_strlit("EaSportsFc"),
        ClipsGames::CallOfDutyWarzone => reveal_strlit("CallOfDutyWarzone"),
        ClipsGames::CallOfDutyModernWarfare3 => reveal_strlit("CallOfDutyModernWarfare3"),
        ClipsGames::CallOfDutyBlackOps6 => reveal_strlit("CallOfDutyBlackOps6"),
        ClipsGames::Battlefield2042 => reveal_strlit("Battlefield2042"),
        ClipsGames::Payday3 => reveal_strlit("Payday3"),
        ClipsGames::RiskOfRain2 => reveal_strlit("RiskOfRain2"),
        ClipsGames::VampireSurvivors => reveal_strlit("VampireSurvivors"),
        ClipsGames::SonsOfTheForest => reveal_strlit("SonsOfTheForest"),
        ClipsGames::TheForest => reveal_strlit("TheForest"),
        ClipsGames::GreenHell => reveal_strlit("GreenHell"),
        ClipsGames::Phasmophobia => reveal_strlit("Phasmophobia"),
        ClipsGames::Repo => reveal_strlit("Repo"),
        ClipsGames::Grounded => reveal_strlit("Grounded"),
        ClipsGames::VRising => reveal_strlit("VRising"),
        ClipsGames::CoreKeeper => reveal_strlit("CoreKeeper"),
        ClipsGames::ProjectZomboid => reveal_strlit("ProjectZomboid"),
        ClipsGames::Enshrouded => reveal_strlit("Enshrouded"),
        ClipsGames::SlayTheSpire => reveal_strlit("SlayTheSpire"),
        ClipsGames::Balatro => reveal_strlit("Balatro"),
        ClipsGames::WarhammerDarktide => reveal_strlit("WarhammerDarktide"),
        ClipsGames::Remnant2 => reveal_strlit("Remnant2"),
        ClipsGames::LiesOfP => reveal_strlit("LiesOfP"),
        ClipsGames::Sekiro => reveal_strlit("Sekiro"),
        ClipsGames::Skyrim => reveal_strlit("Skyrim"),
        ClipsGames::Fallout4 => reveal_strlit("Fallout4"),
        ClipsGames::Fallout76 => reveal_strlit("Fallout76"),
        ClipsGames::Kenshi => reveal_strlit("Kenshi"),
        ClipsGames::RimWorld => reveal_strlit("RimWorld"),
        ClipsGames::OxygenNotIncluded => reveal_strlit("OxygenNotIncluded"),
        ClipsGames::CultOfTheLamb => reveal_strlit("CultOfTheLamb"),
        ClipsGames::DontStarveTogether => reveal_strlit("DontStarveTogether"),
        ClipsGames::Raft => reveal_strlit("Raft"),
        ClipsGames::ReadyOrNot => reveal_strlit("ReadyOrNot"),
        ClipsGames::Gtfo => reveal_strlit("Gtfo"),
        ClipsGames::Back4Blood => reveal_strlit("Back4Blood"),
        ClipsGames::Vermintide2 => reveal_strlit("Vermintide2"),
        ClipsGames::Chivalry2 => reveal_strlit("Chivalry2"),
        ClipsGames::Mordhau => reveal_strlit("Mordhau"),
        ClipsGames::ForHonor => reveal_strlit("ForHonor"),
        ClipsGames::HaloInfinite => reveal_strlit("HaloInfinite"),
        ClipsGames::Titanfall2 => reveal_strlit("Titanfall2"),
        ClipsGames::Splitgate => reveal_strlit("Splitgate"),
        ClipsGames::XDefiant => reveal_strlit("XDefiant"),
        ClipsGames::NarakaBladepoint => reveal_strlit("NarakaBladepoint"),
        ClipsGames::Smite => reveal_strlit("Smite"),
        ClipsGames::Brawlhalla => reveal_strlit("Brawlhalla"),
        ClipsGames::MultiVersus => reveal_strlit("MultiVersus"),
        ClipsGames::StreetFighter6 => reveal_strlit("StreetFighter6"),
        ClipsGames::Tekken8 => reveal_strlit("Tekken8"),
        ClipsGames::MortalKombat1 => reveal_strlit("MortalKombat1"),
        ClipsGames::Unknown => reveal_strlit("Unknown"),
    }
}

proof fn lemma_ident_injective(g1: ClipsGames, g2: ClipsGames)
    requires
        g1.ident() == g2.ident(),
    ensures
        g1 == g2,
{
    lemma_key_decodes(g1);
    lemma_key_decodes(g2);
}

proof fn lemma_first_with_ident_found(vs: Seq<ClipsGames>, g: ClipsGames)
    requires
        vs.contains(g),
    ensures
        first_with_ident(vs, g.ident()) matches Some(h) && h.ident() == g.ident(),
    decreases vs.len(),
{
    if vs[0] != g {
        let k = choose|k: int| 0 <= k < vs.len() && vs[k] == g;
        assert(vs.drop_first()[k - 1] == g);
        lemma_first_with_ident_found(vs.drop_first(), g);
    }
}

/// Reading a game back from its identifier gives the game.
pub proof fn law_ident_round_trip(g: ClipsGames)
    ensures
        first_with_ident(all_variants_spec(), g.ident()) == Some(g),
{
    lemma_all_variants_cover(g);
    lemma_first_with_ident_found(all_variants_spec(), g);
    let h = first_with_ident(all_variants_spec(), g.ident())->0;
    lemma_ident_injective(h, g);
}


/// How `GamesDb::init` builds the database from the entries of the games file: one record per
/// entry, in file order, and the order in which records are tried.
pub open spec fn built_from(entries: Seq<GameEntry>, db: GamesDb) -> bool {
    &&& db.wf()
    &&& db.records@.len() == entries.len()
    &&& forall|i: int| 0 <= i < entries.len() ==> record_of(#[trigger] entries[i], db.records@[i])
    &&& fuzzy_order_of(db.records@, db.fuzzy_order@)
}

/// The index of the last entry that satisfies `p`.
pub open spec fn last_entry(es: Seq<GameEntry>, p: spec_fn(GameEntry) -> bool) -> Option<int>
    decreases es.len(),
{
    if es.len() == 0 {
        None
    } else if p(es.last()) {
        Some(es.len() - 1)
    } else {
        last_entry(es.drop_last(), p)
    }
}

/// The index of the last record of the game `g` (the record that `record_for` gives).
pub open spec fn record_index(rs: Seq<GameRecord>, g: ClipsGames) -> Option<int> {
    last_record(rs, |r: GameRecord| r.variant == g)
}

/// The index of the last entry of the games file that names the game `g`.
pub open spec fn entry_index(es: Seq<GameEntry>, g: ClipsGames) -> Option<int> {
    last_entry(es, |e: GameEntry| entry_game(e) == g)
}

/// The game that an entry of the games file names.
pub open spec fn entry_game(e: GameEntry) -> ClipsGames {
    first_with_ident(all_variants_spec(), e.variant@)->0
}

proof fn lemma_last_record_entry(
    rs: Seq<GameRecord>,
    es: Seq<GameEntry>,
    pr: spec_fn(GameRecord) -> bool,
    pe: spec_fn(GameEntry) -> bool,
)
    requires
        rs.len() == es.len(),
        forall|i: int| 0 <= i < rs.len() ==> pr(#[trigger] rs[i]) == pe(es[i]),
    ensures
        last_record(rs, pr) == last_entry(es, pe),
    decreases rs.len(),
{
    if rs.len() > 0 {
        let r2 = rs.drop_last();
        let e2 = es.drop_last();
        assert(pr(rs[rs.len() - 1]) == pe(es[es.len() - 1]));
        assert forall|i: int| 0 <= i < r2.len() implies pr(#[trigger] r2[i]) == pe(e2[i]) by {
            assert(pr(rs[i]) == pe(es[i]));
        }
        lemma_last_record_entry(r2, e2, pr, pe);
    }
}

/// The database built from a games file tries every record exactly once, records with a
/// longer longest contains pattern first and in file order among equals; looking a game up,
/// by the game, by a Steam application id, or by a lowercased display name or slug, gives the
/// record of the last entry of the file that matches (the game `Unknown`, or nothing, when no
/// entry does).
pub proof fn law_games_db_built(entries: Seq<GameEntry>, db: GamesDb)
    requires
        built_from(entries, db),
    ensures
        db.fuzzy_order@.len() == entries.len(),
        db.fuzzy_order@.no_duplicates(),
        forall|i: int| 0 <= i < entries.len() ==> #[trigger] db.fuzzy_order@.contains(i as usize),
        forall|a: int, b: int|
            0 <= a < b < db.fuzzy_order@.len() ==> tried_before(
                db.records@,
                #[trigger] db.fuzzy_order@[a] as int,
                #[trigger] db.fuzzy_order@[b] as int,
            ),
        forall|g: ClipsGames| #[trigger] record_index(db.records@, g) == entry_index(entries, g),
        forall|a: u64|
            #[trigger] appid_spec(db.records@, a) == match last_entry(
                entries,
                |e: GameEntry| e.steam_appids@.contains(a),
            ) {
                Some(i) => entry_game(entries[i]),
                None => ClipsGames::Unknown,
            },
        forall|l: Seq<char>|
            #[trigger] name_spec(db.records@, l) == match last_entry(
                entries,
                |e: GameEntry| ascii_lowercase(e.display_name@) == l || ascii_lowercase(e.slug@) == l,
            ) {
                Some(i) => Some(entry_game(entries[i])),
                None => None,
            },
{
    let rs = db.records@;
    let o = db.fuzzy_order@;
    let n = entries.len();
    assert forall|a: int, b: int| 0 <= a < o.len() && 0 <= b < o.len() && a != b implies o[a] != o[b] by {
        if a < b {
            assert(tried_before(rs, o[a] as int, o[b] as int));
        } else {
            assert(tried_before(rs, o[b] as int, o[a] as int));
        }
    }
    let m = o.map_values(|k: usize| k as int);
    assert(m.no_duplicates()) by {
        assert forall|a: int, b: int| 0 <= a < m.len() && 0 <= b < m.len() && a != b implies m[a] != m[b] by {
            assert(o[a] != o[b]);
        }
    }
    m.unique_seq_to_set();
    vstd::set_lib::lemma_int_range(0, n as int);
    let range = vstd::set_lib::set_int_range(0, n as int);
    assert(m.to_set().subset_of(range)) by {
        assert forall|x: int| m.to_set().contains(x) implies range.contains(x) by {
            let k = choose|k: int| 0 <= k < m.len() && m[k] == x;
            assert(o[k] < rs.len());
        }
    }
    vstd::set_lib::lemma_len_subset(m.to_set(), range);
    vstd::set_lib::lemma_subset_equality(m.to_set(), range);
    assert forall|i: int| 0 <= i < n implies #[trigger] o.contains(i as usize) by {
        assert(range.contains(i));
        assert(m.to_set().contains(i));
        let k = choose|k: int| 0 <= k < m.len() && m[k] == i;
        assert(o[k] == i as usize);
    }
    assert forall|g: ClipsGames| #[trigger] record_index(rs, g) == entry_index(entries, g) by {
        let pr = |r: GameRecord| r.variant == g;
        let pe = |e: GameEntry| entry_game(e) == g;
        assert forall|i: int| 0 <= i < rs.len() implies pr(#[trigger] rs[i]) == pe(entries[i]) by {
            assert(record_of(entries[i], rs[i]));
        }
        lemma_last_record_entry(rs, entries, pr, pe);
    }
    assert forall|a: u64|
        #[trigger] appid_spec(rs, a) == match last_entry(
            entries,
            |e: GameEntry| e.steam_appids@.contains(a),
        ) {
            Some(i) => entry_game(entries[i]),
            None => ClipsGames::Unknown,
        } by {
        let pr = |r: GameRecord| r.steam_appids@.contains(a);
        let pe = |e: GameEntry| e.steam_appids@.contains(a);
        assert forall|i: int| 0 <= i < rs.len() implies pr(#[trigger] rs[i]) == pe(entries[i]) by {
            assert(record_of(entries[i], rs[i]));
        }
        lemma_last_record_entry(rs, entries, pr, pe);
        lemma_last_record_range(rs, pr);
        if let Some(i) = last_record(rs, pr) {
            assert(record_of(entries[i], rs[i]));
        }
    }
    assert forall|l: Seq<char>|
        #[trigger] name_spec(rs, l) == match last_entry(
            entries,
            |e: GameEntry| ascii_lowercase(e.display_name@) == l || ascii_lowercase(e.slug@) == l,
        ) {
            Some(i) => Some(entry_game(entries[i])),
            None => None,
        } by {
        let pr = |r: GameRecord| ascii_lowercase(r.display_name@) == l || ascii_lowercase(r.slug@) == l;
        let pe = |e: GameEntry| ascii_lowercase(e.display_name@) == l || ascii_lowercase(e.slug@) == l;
        assert forall|i: int| 0 <= i < rs.len() implies pr(#[trigger] rs[i]) == pe(entries[i]) by {
            assert(record_of(entries[i], rs[i]));
        }
        lemma_last_record_entry(rs, entries, pr, pe);
        lemma_last_record_range(rs, pr);
        if let Some(i) = last_record(rs, pr) {
            assert(record_of(entries[i], rs[i]));
        }
    }
}

proof fn lemma_last_record_range(rs: Seq<GameRecord>, p: spec_fn(GameRecord) -> bool)
    ensures
        last_record(rs, p) matches Some(i) ==> 0 <= i < rs.len() && p(rs[i]) && forall|j: int|
            i < j < rs.len() ==> !p(#[trigger] rs[j]),
        last_record(rs, p) is None ==> forall|j: int| 0 <= j < rs.len() ==> !p(#[trigger] rs[j]),
    decreases rs.len(),
{
    if rs.len() > 0 {
        let r2 = rs.drop_last();
        lemma_last_record_range(r2, p);
        if !p(rs.last()) {
            assert forall|j: int| 0 <= j < rs.len() - 1 implies rs[j] == #[trigger] r2[j] by {}
            if let Some(i) = last_record(r2, p) {
                assert forall|j: int| i < j < rs.len() implies !p(#[trigger] rs[j]) by {
                    if j < rs.len() - 1 {
                        assert(rs[j] == r2[j]);
                    }
                }
            } else {
                assert forall|j: int| 0 <= j < rs.len() implies !p(#[trigger] rs[j]) by {
                    if j < rs.len() - 1 {
                        assert(rs[j] == r2[j]);
                    }
                }
            }
        }
    }
}

/// Looking up a Steam application id that exactly one record lists gives the game of that
/// record; one that no record lists gives `Unknown`.
pub proof fn law_appid_lookup(db: GamesDb, g: ClipsGames, a: u64, b: u64)
    requires
        last_record(db.records@, |r: GameRecord| r.variant == g) matches Some(i)
            && db.records@[i].steam_appids@.contains(a),
        forall|i: int, j: int|
            0 <= i < db.records@.len() && 0 <= j < db.records@.len() && (
            #[trigger] db.records@[i]).steam_appids@.contains(a) && (
            #[trigger] db.records@[j]).steam_appids@.contains(a) ==> i == j,
        forall|i: int| 0 <= i < db.records@.len() ==> !(#[trigger] db.records@[i]).steam_appids@.contains(b),
    ensures
        appid_spec(db.records@, a) == g,
        appid_spec(db.records@, b) == ClipsGames::Unknown,
{
    let rs = db.records@;
    let pg = |r: GameRecord| r.variant == g;
    let pa = |r: GameRecord| r.steam_appids@.contains(a);
    let pb = |r: GameRecord| r.steam_appids@.contains(b);
    lemma_last_record_range(rs, pg);
    lemma_last_record_range(rs, pa);
    lemma_last_record_range(rs, pb);
    let i = last_record(rs, pg)->0;
    assert(pa(rs[i]));
    if last_record(rs, pa) is None {
        assert(!pa(rs[i]));
    }
    let k = last_record(rs, pa)->0;
    assert(pa(rs[k]));
    if let Some(j) = last_record(rs, pb) {
        assert(pb(rs[j]));
    }
}


proof fn lemma_first_hit_at(rs: Seq<GameRecord>, order: Seq<usize>, n: Seq<char>, by_prefix: bool, k: int)
    requires
        0 <= k < order.len(),
        (if by_prefix { prefix_hit(rs[order[k] as int], n) } else { contains_hit(rs[order[k] as int], n) }),
        forall|j: int|
            0 <= j < k ==> !(if by_prefix {
                prefix_hit(rs[#[trigger] order[j] as int], n)
            } else {
                contains_hit(rs[order[j] as int], n)
            }),
    ensures
        first_hit(rs, order, n, by_prefix) == Some(rs[order[k] as int].variant),
    decreases k,
{
    if k > 0 {
        let o2 = order.drop_first();
        assert(!(if by_prefix { prefix_hit(rs[order[0] as int], n) } else { contains_hit(rs[order[0] as int], n) }));
        assert forall|j: int| 0 <= j < k - 1 implies !(if by_prefix {
            prefix_hit(rs[#[trigger] o2[j] as int], n)
        } else {
            contains_hit(rs[o2[j] as int], n)
        }) by {
            assert(o2[j] == order[j + 1]);
        }
        assert(o2[k - 1] == order[k]);
        lemma_first_hit_at(rs, o2, n, by_prefix, k - 1);
    }
}

proof fn lemma_first_hit_none(rs: Seq<GameRecord>, order: Seq<usize>, n: Seq<char>, by_prefix: bool)
    requires
        forall|j: int|
            0 <= j < order.len() ==> !(if by_prefix {
                prefix_hit(rs[#[trigger] order[j] as int], n)
            } else {
                contains_hit(rs[order[j] as int], n)
            }),
    ensures
        first_hit(rs, order, n, by_prefix) is None,
    decreases order.len(),
{
    if order.len() > 0 {
        let o2 = order.drop_first();
        assert(!(if by_prefix { prefix_hit(rs[order[0] as int], n) } else { contains_hit(rs[order[0] as int], n) }));
        assert forall|j: int| 0 <= j < o2.len() implies !(if by_prefix {
            prefix_hit(rs[#[trigger] o2[j] as int], n)
        } else {
            contains_hit(rs[o2[j] as int], n)
        }) by {
            assert(o2[j] == order[j + 1]);
        }
        lemma_first_hit_none(rs, o2, n, by_prefix);
    }
}

/// Recognising a game goes through the records in the order given, first by prefix patterns,
/// then (unless the input is a generic process name) by contains patterns: the game is that of
/// the record at the first position that the normalized input hits, and `Unknown` when none
/// does or the input has no letters or digits.
pub proof fn law_fuzzy_first_position(rs: Seq<GameRecord>, order: Seq<usize>, input: Seq<char>, k: int)
    ensures
        ({
            let n = normal_form(input);
            let g = fuzzy_spec(rs, order, input);
            &&& n.len() == 0 ==> g == ClipsGames::Unknown
            &&& (n.len() > 0 && 0 <= k < order.len() && prefix_hit(rs[order[k] as int], n) && (forall|j: int|
                0 <= j < k ==> !prefix_hit(rs[#[trigger] order[j] as int], n)))
                ==> g == rs[order[k] as int].variant
            &&& (n.len() > 0 && (forall|j: int| 0 <= j < order.len() ==> !prefix_hit(rs[#[trigger] order[j] as int], n))
                && !generic_process(n) && 0 <= k < order.len() && contains_hit(rs[order[k] as int], n)
                && (forall|j: int| 0 <= j < k ==> !contains_hit(rs[#[trigger] order[j] as int], n)))
                ==> g == rs[order[k] as int].variant
            &&& (n.len() > 0 && (forall|j: int| 0 <= j < order.len() ==> !prefix_hit(rs[#[trigger] order[j] as int], n))
                && (generic_process(n) || forall|j: int|
                0 <= j < order.len() ==> !contains_hit(rs[#[trigger] order[j] as int], n)))
                ==> g == ClipsGames::Unknown
        }),
{
    let n = normal_form(input);
    if n.len() > 0 {
        if 0 <= k < order.len() && prefix_hit(rs[order[k] as int], n) && (forall|j: int|
            0 <= j < k ==> !prefix_hit(rs[#[trigger] order[j] as int], n)) {
            lemma_first_hit_at(rs, order, n, true, k);
        }
        if forall|j: int| 0 <= j < order.len() ==> !prefix_hit(rs[#[trigger] order[j] as int], n) {
            lemma_first_hit_none(rs, order, n, true);
            if !generic_process(n) && 0 <= k < order.len() && contains_hit(rs[order[k] as int], n)
                && (forall|j: int| 0 <= j < k ==> !contains_hit(rs[#[trigger] order[j] as int], n)) {
                lemma_first_hit_at(rs, order, n, false, k);
            }
            if forall|j: int| 0 <= j < order.len() ==> !contains_hit(rs[#[trigger] order[j] as int], n) {
                lemma_first_hit_none(rs, order, n, false);
            }
        }
    }
}

/// In a database built from a games file, when no prefix pattern starts the normalized input
/// and it is not a generic process name, the game recognised is that of a record whose contains
/// pattern occurs in it, tried before every other such record: one with a longer longest
/// pattern, or as long and earlier in the file. So a title holding both a longer and a shorter
/// game's pattern gives the game with the longer pattern.
pub proof fn law_fuzzy_longest_wins(entries: Seq<GameEntry>, db: GamesDb, input: Seq<char>, b: int)
    requires
        built_from(entries, db),
        0 <= b < db.records@.len(),
        contains_hit(db.records@[b], normal_form(input)),
        forall|j: int| 0 <= j < db.records@.len() ==> !prefix_hit(#[trigger] db.records@[j], normal_form(input)),
        !generic_process(normal_form(input)),
    ensures
        exists|a: int|
            #![trigger db.records@[a]]
            0 <= a < db.records@.len() && contains_hit(db.records@[a], normal_form(input))
                && fuzzy_spec(db.records@, db.fuzzy_order@, input) == db.records@[a].variant && (a == b
                || tried_before(db.records@, a, b)),
{
    let rs = db.records@;
    let o = db.fuzzy_order@;
    let n = normal_form(input);
    law_games_db_built(entries, db);
    assert(rs.len() <= usize::MAX) by {
        assert(rs.len() == db.records.len());
    }
    assert((b as usize) as int == b);
    assert(o.contains(b as usize));
    let kb = choose|kb: int| 0 <= kb < o.len() && o[kb] == b as usize;
    assert(o[kb] as int == b);
    let k = lemma_first_contains_position(rs, o, n, kb);
    assert(n.len() > 0) by {
        let j = choose|j: int| 0 <= j < rs[b].contains_patterns@.len() && occurs_in(#[trigger] rs[b].contains_patterns@[j]@, n);
        assert(record_of(entries[b], rs[b]));
        assert(string_views(rs[b].contains_patterns@)[j] == rs[b].contains_patterns@[j]@);
        assert(string_views(rs[b].contains_patterns@).contains(rs[b].contains_patterns@[j]@));
    }
    assert forall|j: int| 0 <= j < o.len() implies !prefix_hit(rs[#[trigger] o[j] as int], n) by {
        assert(o[j] < rs.len());
    }
    law_fuzzy_first_position(rs, o, input, k);
    let a = o[k] as int;
    if a != b {
        assert(k != kb);
        assert(tried_before(rs, o[k] as int, o[kb] as int));
    }
    assert(0 <= a < rs.len() && contains_hit(db.records@[a], n) && fuzzy_spec(rs, o, input)
        == db.records@[a].variant && (a == b || tried_before(rs, a, b)));
}

proof fn lemma_first_contains_position(rs: Seq<GameRecord>, o: Seq<usize>, n: Seq<char>, kb: int) -> (k: int)
    requires
        0 <= kb < o.len(),
        contains_hit(rs[o[kb] as int], n),
    ensures
        0 <= k <= kb,
        contains_hit(rs[o[k] as int], n),
        forall|j: int| 0 <= j < k ==> !contains_hit(rs[#[trigger] o[j] as int], n),
    decreases kb,
{
    if exists|j: int| 0 <= j < kb && contains_hit(rs[#[trigger] o[j] as int], n) {
        let j = choose|j: int| 0 <= j < kb && contains_hit(rs[#[trigger] o[j] as int], n);
        lemma_first_contains_position(rs, o, n, j)
    } else {
        kb
    }
}

} // verus!
