//! Display names for the damage causers that PUBG telemetry reports.

use vstd::prelude::*;
use crate::text::{is_ws, lemma_trim_unpadded, opt_text, str_eq, trim_seq};

verus! {

/// The display name of an official damage causer, if it is one the game documents.
pub open spec fn friendly_spec(v: Seq<char>) -> Option<Seq<char>> {
    match friendly_weapon_spec(v) {
        Some(d) => Some(d),
        None => match friendly_blueprint_spec(v) {
            Some(d) => Some(d),
            None => friendly_misc_spec(v),
        },
    }
}

/// The game's documented table of damage causer names: each official `damageCauserName` key
/// and the name it is shown as (`WeapAK47_C` is `AKM`, `WeapHK416_C` is `M416`); `None` for
/// a key the table does not list.
pub open spec fn documented_causer_name(key: Seq<char>) -> Option<Seq<char>> {
    if key == "WeapACE32_C"@ {
        Some("ACE32"@)
    } else if key == "WeapAK47_C"@ {
        Some("AKM"@)
    } else if key == "WeapAUG_C"@ {
        Some("AUG A3"@)
    } else if key == "WeapAWM_C"@ {
        Some("AWM"@)
    } else if key == "WeapBerreta686_C"@ {
        Some("S686"@)
    } else if key == "WeapBerylM762_C"@ {
        Some("Beryl"@)
    } else if key == "WeapBizonPP19_C"@ {
        Some("Bizon"@)
    } else if key == "WeapCowbarProjectile_C"@ {
        Some("Crowbar Projectile"@)
    } else if key == "WeapCowbar_C"@ {
        Some("Crowbar"@)
    } else if key == "WeapCrossbow_1_C"@ {
        Some("Crossbow"@)
    } else if key == "WeapDP12_C"@ {
        Some("DBS"@)
    } else if key == "WeapDP28_C"@ {
        Some("DP-28"@)
    } else if key == "WeapDesertEagle_C"@ {
        Some("Deagle"@)
    } else if key == "WeapDragunov_C"@ {
        Some("Dragunov"@)
    } else if key == "WeapDuncansHK416_C"@ {
        Some("M416"@)
    } else if key == "WeapFNFal_C"@ {
        Some("SLR"@)
    } else if key == "WeapG18_C"@ {
        Some("P18C"@)
    } else if key == "WeapG36C_C"@ {
        Some("G36C"@)
    } else if key == "WeapGroza_C"@ {
        Some("Groza"@)
    } else if key == "WeapHK416_C"@ {
        Some("M416"@)
    } else if key == "WeapJS9_C"@ {
        Some("JS9"@)
    } else if key == "WeapJuliesKar98k_C"@ {
        Some("Kar98k"@)
    } else if key == "WeapK2_C"@ {
        Some("K2"@)
    } else if key == "WeapKar98k_C"@ {
        Some("Kar98k"@)
    } else if key == "WeapL6_C"@ {
        Some("Lynx AMR"@)
    } else if key == "WeapLunchmeatsAK47_C"@ {
        Some("AKM"@)
    } else if key == "WeapM16A4_C"@ {
        Some("M16A4"@)
    } else if key == "WeapM1911_C"@ {
        Some("P1911"@)
    } else if key == "WeapM249_C"@ {
        Some("M249"@)
    } else if key == "WeapM24_C"@ {
        Some("M24"@)
    } else if key == "WeapM9_C"@ {
        Some("P92"@)
    } else if key == "WeapMG3_C"@ {
        Some("MG3"@)
    } else if key == "WeapMP5K_C"@ {
        Some("MP5K"@)
    } else if key == "WeapMP9_C"@ {
        Some("MP9"@)
    } else if key == "WeapMacheteProjectile_C"@ {
        Some("Machete Projectile"@)
    } else if key == "WeapMachete_C"@ {
        Some("Machete"@)
    } else if key == "WeapMadsQBU88_C"@ {
        Some("QBU88"@)
    } else if key == "WeapMini14_C"@ {
        Some("Mini 14"@)
    } else if key == "WeapMk12_C"@ {
        Some("Mk12"@)
    } else if key == "WeapMk14_C"@ {
        Some("Mk14 EBR"@)
    } else if key == "WeapMk47Mutant_C"@ {
        Some("Mk47 Mutant"@)
    } else if key == "WeapMosinNagant_C"@ {
        Some("Mosin-Nagant"@)
    } else if key == "WeapNagantM1895_C"@ {
        Some("R1895"@)
    } else if key == "WeapOriginS12_C"@ {
        Some("O12"@)
    } else if key == "WeapP90_C"@ {
        Some("P90"@)
    } else if key == "WeapPanProjectile_C"@ {
        Some("Pan Projectile"@)
    } else if key == "WeapPan_C"@ {
        Some("Pan"@)
    } else if key == "WeapPanzerFaust100M1_C"@ {
        Some("Panzerfaust"@)
    } else if key == "WeapQBU88_C"@ {
        Some("QBU88"@)
    } else if key == "WeapQBZ95_C"@ {
        Some("QBZ95"@)
    } else if key == "WeapRhino_C"@ {
        Some("R45"@)
    } else if key == "WeapSCAR-L_C"@ {
        Some("SCAR-L"@)
    } else if key == "WeapSKS_C"@ {
        Some("SKS"@)
    } else if key == "WeapSaiga12_C"@ {
        Some("S12K"@)
    } else if key == "WeapSawnoff_C"@ {
        Some("Sawed-off"@)
    } else if key == "WeapSickleProjectile_C"@ {
        Some("Sickle Projectile"@)
    } else if key == "WeapSickle_C"@ {
        Some("Sickle"@)
    } else if key == "WeapThompson_C"@ {
        Some("Tommy Gun"@)
    } else if key == "WeapTurret_KillTruck_Main_C"@ {
        Some("Kill Truck Turret"@)
    } else if key == "WeapUMP_C"@ {
        Some("UMP9"@)
    } else if key == "WeapUZI_C"@ {
        Some("Micro Uzi"@)
    } else if key == "WeapVSS_C"@ {
        Some("VSS"@)
    } else if key == "WeapVector_C"@ {
        Some("Vector"@)
    } else if key == "WeapWin94_C"@ {
        Some("Win94"@)
    } else if key == "WeapWinchester_C"@ {
        Some("S1897"@)
    } else if key == "Weapvz61Skorpion_C"@ {
        Some("Skorpion"@)
    } else if key == "BP_ATV_C"@ {
        Some("Quad"@)
    } else if key == "BP_BearV2_C"@ {
        Some("Bear"@)
    } else if key == "BP_BRDM_C"@ {
        Some("BRDM-2"@)
    } else if key == "BP_Bicycle_C"@ {
        Some("Mountain Bike"@)
    } else if key == "BP_Blanc_C"@ {
        Some("Coupe SUV"@)
    } else if key == "BP_CoupeRB_C"@ {
        Some("Coupe RB"@)
    } else if key == "BP_DO_Circle_Train_Merged_C"@ {
        Some("Train"@)
    } else if key == "BP_DO_Line_Train_Dino_Merged_C"@ {
        Some("Train"@)
    } else if key == "BP_DO_Line_Train_Merged_C"@ {
        Some("Train"@)
    } else if key == "BP_Dirtbike_C"@ {
        Some("Dirt Bike"@)
    } else if key == "BP_DronePackage_Projectile_C"@ {
        Some("Drone"@)
    } else if key == "BP_Eragel_CargoShip01_C"@ {
        Some("Ferry Damage"@)
    } else if key == "BP_FakeLootProj_AmmoBox_C"@ {
        Some("Loot Truck"@)
    } else if key == "BP_FakeLootProj_MilitaryCrate_C"@ {
        Some("Loot Truck"@)
    } else if key == "BP_FireEffectController_C"@ {
        Some("Molotov Fire"@)
    } else if key == "BP_FireEffectController_JerryCan_C"@ {
        Some("Jerrycan Fire"@)
    } else if key == "BP_Food_Truck_C"@ {
        Some("Food Truck"@)
    } else if key == "BP_Helicopter_C"@ {
        Some("Pillar Scout Helicopter"@)
    } else if key == "BP_IncendiaryDebuff_C"@ {
        Some("Burn"@)
    } else if key == "BP_JerryCanFireDebuff_C"@ {
        Some("Burn"@)
    } else if key == "BP_JerryCan_FuelPuddle_C"@ {
        Some("Burn"@)
    } else if key == "BP_KillTruck_C"@ {
        Some("Kill Truck"@)
    } else if key == "BP_LootTruck_C"@ {
        Some("Loot Truck"@)
    } else if key == "BP_M_Rony_A_01_C"@ {
        Some("Rony"@)
    } else if key == "BP_M_Rony_A_02_C"@ {
        Some("Rony"@)
    } else if key == "BP_M_Rony_A_03_C"@ {
        Some("Rony"@)
    } else if key == "BP_Mirado_A_02_C"@ {
        Some("Mirado"@)
    } else if key == "BP_Mirado_A_03_C"@ {
        Some("Mirado"@)
    } else if key == "BP_Mirado_A_03_Esports_C"@ {
        Some("Mirado"@)
    } else if key == "BP_Mirado_Open_03_C"@ {
        Some("Mirado (open top)"@)
    } else if key == "BP_Mirado_Open_04_C"@ {
        Some("Mirado (open top)"@)
    } else if key == "BP_Mirado_Open_05_C"@ {
        Some("Mirado (open top)"@)
    } else if key == "BP_MolotovFireDebuff_C"@ {
        Some("Molotov Fire Damage"@)
    } else if key == "BP_Motorbike_04_C"@ {
        Some("Motorcycle"@)
    } else if key == "BP_Motorbike_04_Desert_C"@ {
        Some("Motorcycle"@)
    } else if key == "BP_Motorbike_04_SideCar_C"@ {
        Some("Motorcycle (w/ Sidecar)"@)
    } else if key == "BP_Motorbike_04_SideCar_Desert_C"@ {
        Some("Motorcycle (w/ Sidecar)"@)
    } else if key == "BP_Motorbike_Solitario_C"@ {
        Some("Motorcycle"@)
    } else if key == "BP_Motorglider_C"@ {
        Some("Motor Glider"@)
    } else if key == "BP_Motorglider_Green_C"@ {
        Some("Motor Glider"@)
    } else if key == "BP_Niva_01_C"@ {
        Some("Zima"@)
    } else if key == "BP_Niva_02_C"@ {
        Some("Zima"@)
    } else if key == "BP_Niva_03_C"@ {
        Some("Zima"@)
    } else if key == "BP_Niva_04_C"@ {
        Some("Zima"@)
    } else if key == "BP_Niva_05_C"@ {
        Some("Zima"@)
    } else if key == "BP_Niva_06_C"@ {
        Some("Zima"@)
    } else if key == "BP_Niva_07_C"@ {
        Some("Zima"@)
    } else if key == "BP_Niva_Esports_C"@ {
        Some("Zima"@)
    } else if key == "BP_PickupTruck_A_01_C"@ {
        Some("Pickup Truck (closed top)"@)
    } else if key == "BP_PickupTruck_A_02_C"@ {
        Some("Pickup Truck (closed top)"@)
    } else if key == "BP_PickupTruck_A_03_C"@ {
        Some("Pickup Truck (closed top)"@)
    } else if key == "BP_PickupTruck_A_04_C"@ {
        Some("Pickup Truck (closed top)"@)
    } else if key == "BP_PickupTruck_A_05_C"@ {
        Some("Pickup Truck (closed top)"@)
    } else if key == "BP_PickupTruck_A_esports_C"@ {
        Some("Pickup Truck (closed top)"@)
    } else if key == "BP_PickupTruck_B_01_C"@ {
        Some("Pickup Truck (open top)"@)
    } else if key == "BP_PickupTruck_B_02_C"@ {
        Some("Pickup Truck (open top)"@)
    } else if key == "BP_PickupTruck_B_03_C"@ {
        Some("Pickup Truck (open top)"@)
    } else if key == "BP_PickupTruck_B_04_C"@ {
        Some("Pickup Truck (open top)"@)
    } else if key == "BP_PickupTruck_B_05_C"@ {
        Some("Pickup Truck (open top)"@)
    } else if key == "BP_Pillar_Car_C"@ {
        Some("Pillar Security Car"@)
    } else if key == "BP_PonyCoupe_C"@ {
        Some("Pony Coupe"@)
    } else if key == "BP_Porter_C"@ {
        Some("Porter"@)
    } else if key == "BP_Scooter_01_A_C"@ {
        Some("Scooter"@)
    } else if key == "BP_Scooter_02_A_C"@ {
        Some("Scooter"@)
    } else if key == "BP_Scooter_03_A_C"@ {
        Some("Scooter"@)
    } else if key == "BP_Scooter_04_A_C"@ {
        Some("Scooter"@)
    } else if key == "BP_Snowbike_01_C"@ {
        Some("Snowbike"@)
    } else if key == "BP_Snowbike_02_C"@ {
        Some("Snowbike"@)
    } else if key == "BP_Snowmobile_01_C"@ {
        Some("Snowmobile"@)
    } else if key == "BP_Snowmobile_02_C"@ {
        Some("Snowmobile"@)
    } else if key == "BP_Snowmobile_03_C"@ {
        Some("Snowmobile"@)
    } else if key == "BP_Spiketrap_C"@ {
        Some("Spike Trap"@)
    } else if key == "BP_TslGasPump_C"@ {
        Some("Gas Pump"@)
    } else if key == "BP_TukTukTuk_A_01_C"@ {
        Some("Tukshai"@)
    } else if key == "BP_TukTukTuk_A_02_C"@ {
        Some("Tukshai"@)
    } else if key == "BP_TukTukTuk_A_03_C"@ {
        Some("Tukshai"@)
    } else if key == "BP_Van_A_01_C"@ {
        Some("Van"@)
    } else if key == "BP_Van_A_02_C"@ {
        Some("Van"@)
    } else if key == "BP_Van_A_03_C"@ {
        Some("Van"@)
    } else if key == "AIPawn_Base_Female_C"@ {
        Some("AI Player"@)
    } else if key == "AIPawn_Base_Male_C"@ {
        Some("AI Player"@)
    } else if key == "AirBoat_V2_C"@ {
        Some("Airboat"@)
    } else if key == "AquaRail_A_01_C"@ {
        Some("Aquarail"@)
    } else if key == "AquaRail_A_02_C"@ {
        Some("Aquarail"@)
    } else if key == "AquaRail_A_03_C"@ {
        Some("Aquarail"@)
    } else if key == "BattleRoyaleModeController_Chimera_C"@ {
        Some("Bluezone"@)
    } else if key == "BattleRoyaleModeController_Def_C"@ {
        Some("Bluezone"@)
    } else if key == "BattleRoyaleModeController_Desert_C"@ {
        Some("Bluezone"@)
    } else if key == "BattleRoyaleModeController_DihorOtok_C"@ {
        Some("Bluezone"@)
    } else if key == "BattleRoyaleModeController_Heaven_C"@ {
        Some("Bluezone"@)
    } else if key == "BattleRoyaleModeController_Kiki_C"@ {
        Some("Bluezone"@)
    } else if key == "BattleRoyaleModeController_Savage_C"@ {
        Some("Bluezone"@)
    } else if key == "BattleRoyaleModeController_Summerland_C"@ {
        Some("Bluezone"@)
    } else if key == "BattleRoyaleModeController_Tiger_C"@ {
        Some("Bluezone"@)
    } else if key == "BlackZoneController_Def_C"@ {
        Some("Blackzone"@)
    } else if key == "Bluezonebomb_EffectActor_C"@ {
        Some("Bluezone Grenade"@)
    } else if key == "Boat_PG117_C"@ {
        Some("PG-117"@)
    } else if key == "Buff_DecreaseBreathInApnea_C"@ {
        Some("Drowning"@)
    } else if key == "Buggy_A_01_C"@ {
        Some("Buggy"@)
    } else if key == "Buggy_A_02_C"@ {
        Some("Buggy"@)
    } else if key == "Buggy_A_03_C"@ {
        Some("Buggy"@)
    } else if key == "Buggy_A_04_C"@ {
        Some("Buggy"@)
    } else if key == "Buggy_A_05_C"@ {
        Some("Buggy"@)
    } else if key == "Buggy_A_06_C"@ {
        Some("Buggy"@)
    } else if key == "Carepackage_Container_C"@ {
        Some("Care Package"@)
    } else if key == "Dacia_A_01_v2_C"@ {
        Some("Dacia"@)
    } else if key == "Dacia_A_01_v2_snow_C"@ {
        Some("Dacia"@)
    } else if key == "Dacia_A_02_v2_C"@ {
        Some("Dacia"@)
    } else if key == "Dacia_A_03_v2_C"@ {
        Some("Dacia"@)
    } else if key == "Dacia_A_03_v2_Esports_C"@ {
        Some("Dacia"@)
    } else if key == "Dacia_A_04_v2_C"@ {
        Some("Dacia"@)
    } else if key == "DroppedItemGroup"@ {
        Some("Object Fragments"@)
    } else if key == "EmergencyAircraft_Tiger_C"@ {
        Some("Emergency Aircraft"@)
    } else if key == "Jerrycan"@ {
        Some("Jerrycan"@)
    } else if key == "JerrycanFire"@ {
        Some("Jerrycan Fire"@)
    } else if key == "Lava"@ {
        Some("Lava"@)
    } else if key == "Mortar_Projectile_C"@ {
        Some("Mortar Projectile"@)
    } else if key == "None"@ {
        Some("None"@)
    } else if key == "PG117_A_01_C"@ {
        Some("PG-117"@)
    } else if key == "PanzerFaust100M_Projectile_C"@ {
        Some("Panzerfaust Projectile"@)
    } else if key == "PlayerFemale_A_C"@ {
        Some("Player"@)
    } else if key == "PlayerMale_A_C"@ {
        Some("Player"@)
    } else if key == "ProjC4_C"@ {
        Some("C4"@)
    } else if key == "ProjGrenade_C"@ {
        Some("Frag Grenade"@)
    } else if key == "ProjIncendiary_C"@ {
        Some("Incendiary Projectile"@)
    } else if key == "ProjMolotov_C"@ {
        Some("Molotov Cocktail"@)
    } else if key == "ProjMolotov_DamageField_Direct_C"@ {
        Some("Molotov Cocktail Fire Field"@)
    } else if key == "ProjStickyGrenade_C"@ {
        Some("Sticky Bomb"@)
    } else if key == "RacingDestructiblePropaneTankActor_C"@ {
        Some("Propane Tank"@)
    } else if key == "RacingModeContorller_Desert_C"@ {
        Some("Bluezone"@)
    } else if key == "RedZoneBomb_C"@ {
        Some("Redzone"@)
    } else if key == "RedZoneBombingField"@ {
        Some("Redzone"@)
    } else if key == "RedZoneBombingField_Def_C"@ {
        Some("Redzone"@)
    } else if key == "SandStormBuff_BP_C"@ {
        Some("Sandstorm"@)
    } else if key == "TslDestructibleSurfaceManager"@ {
        Some("Destructible Surface"@)
    } else if key == "TslPainCausingVolume"@ {
        Some("Lava"@)
    } else if key == "Uaz_A_01_C"@ {
        Some("UAZ (open top)"@)
    } else if key == "Uaz_Armored_C"@ {
        Some("UAZ (armored)"@)
    } else if key == "Uaz_B_01_C"@ {
        Some("UAZ (soft top)"@)
    } else if key == "Uaz_B_01_esports_C"@ {
        Some("UAZ (soft top)"@)
    } else if key == "Uaz_C_01_C"@ {
        Some("UAZ (hard top)"@)
    } else if key == "UltAIPawn_Base_Female_C"@ {
        Some("Player"@)
    } else if key == "UltAIPawn_Base_Male_C"@ {
        Some("Player"@)
    } else {
        None
    }
}

/// Every official causer key shows as the name the game's table gives it, and a key the
/// table does not list has no display name of its own.
pub proof fn law_causer_names_follow_the_documented_table(key: Seq<char>)
    ensures
        friendly_spec(key) == documented_causer_name(key),
{
}

/// The display name of an official damage causer (`WeapHK416_C` is `M416`), or `None` for
/// a name the table does not know.
pub fn friendly_damage_causer_name(value: &str) -> (res: Option<String>)
    ensures
        opt_text(res) == friendly_spec(value@),
{
    let weapon = friendly_weapon(value);
    if weapon.is_some() {
        return weapon;
    }
    let blueprint = friendly_blueprint(value);
    if blueprint.is_some() {
        return blueprint;
    }
    friendly_misc(value)
}

/// Display names of the official `weapon` damage causers.
pub open spec fn friendly_weapon_spec(v: Seq<char>) -> Option<Seq<char>> {
    if v == "WeapACE32_C"@ {
        Some("ACE32"@)
    } else if v == "WeapAK47_C"@ {
        Some("AKM"@)
    } else if v == "WeapAUG_C"@ {
        Some("AUG A3"@)
    } else if v == "WeapAWM_C"@ {
        Some("AWM"@)
    } else if v == "WeapBerreta686_C"@ {
        Some("S686"@)
    } else if v == "WeapBerylM762_C"@ {
        Some("Beryl"@)
    } else if v == "WeapBizonPP19_C"@ {
        Some("Bizon"@)
    } else if v == "WeapCowbarProjectile_C"@ {
        Some("Crowbar Projectile"@)
    } else if v == "WeapCowbar_C"@ {
        Some("Crowbar"@)
    } else if v == "WeapCrossbow_1_C"@ {
        Some("Crossbow"@)
    } else if v == "WeapDP12_C"@ {
        Some("DBS"@)
    } else if v == "WeapDP28_C"@ {
        Some("DP-28"@)
    } else if v == "WeapDesertEagle_C"@ {
        Some("Deagle"@)
    } else if v == "WeapDragunov_C"@ {
        Some("Dragunov"@)
    } else if v == "WeapDuncansHK416_C"@ {
        Some("M416"@)
    } else if v == "WeapFNFal_C"@ {
        Some("SLR"@)
    } else if v == "WeapG18_C"@ {
        Some("P18C"@)
    } else if v == "WeapG36C_C"@ {
        Some("G36C"@)
    } else if v == "WeapGroza_C"@ {
        Some("Groza"@)
    } else if v == "WeapHK416_C"@ {
        Some("M416"@)
    } else if v == "WeapJS9_C"@ {
        Some("JS9"@)
    } else if v == "WeapJuliesKar98k_C"@ {
        Some("Kar98k"@)
    } else if v == "WeapK2_C"@ {
        Some("K2"@)
    } else if v == "WeapKar98k_C"@ {
        Some("Kar98k"@)
    } else if v == "WeapL6_C"@ {
        Some("Lynx AMR"@)
    } else if v == "WeapLunchmeatsAK47_C"@ {
        Some("AKM"@)
    } else if v == "WeapM16A4_C"@ {
        Some("M16A4"@)
    } else if v == "WeapM1911_C"@ {
        Some("P1911"@)
    } else if v == "WeapM249_C"@ {
        Some("M249"@)
    } else if v == "WeapM24_C"@ {
        Some("M24"@)
    } else if v == "WeapM9_C"@ {
        Some("P92"@)
    } else if v == "WeapMG3_C"@ {
        Some("MG3"@)
    } else if v == "WeapMP5K_C"@ {
        Some("MP5K"@)
    } else if v == "WeapMP9_C"@ {
        Some("MP9"@)
    } else if v == "WeapMacheteProjectile_C"@ {
        Some("Machete Projectile"@)
    } else if v == "WeapMachete_C"@ {
        Some("Machete"@)
    } else if v == "WeapMadsQBU88_C"@ {
        Some("QBU88"@)
    } else if v == "WeapMini14_C"@ {
        Some("Mini 14"@)
    } else if v == "WeapMk12_C"@ {
        Some("Mk12"@)
    } else if v == "WeapMk14_C"@ {
        Some("Mk14 EBR"@)
    } else if v == "WeapMk47Mutant_C"@ {
        Some("Mk47 Mutant"@)
    } else if v == "WeapMosinNagant_C"@ {
        Some("Mosin-Nagant"@)
    } else if v == "WeapNagantM1895_C"@ {
        Some("R1895"@)
    } else if v == "WeapOriginS12_C"@ {
        Some("O12"@)
    } else if v == "WeapP90_C"@ {
        Some("P90"@)
    } else if v == "WeapPanProjectile_C"@ {
        Some("Pan Projectile"@)
    } else if v == "WeapPan_C"@ {
        Some("Pan"@)
    } else if v == "WeapPanzerFaust100M1_C"@ {
        Some("Panzerfaust"@)
    } else if v == "WeapQBU88_C"@ {
        Some("QBU88"@)
    } else if v == "WeapQBZ95_C"@ {
        Some("QBZ95"@)
    } else if v == "WeapRhino_C"@ {
        Some("R45"@)
    } else if v == "WeapSCAR-L_C"@ {
        Some("SCAR-L"@)
    } else if v == "WeapSKS_C"@ {
        Some("SKS"@)
    } else if v == "WeapSaiga12_C"@ {
        Some("S12K"@)
    } else if v == "WeapSawnoff_C"@ {
        Some("Sawed-off"@)
    } else if v == "WeapSickleProjectile_C"@ {
        Some("Sickle Projectile"@)
    } else if v == "WeapSickle_C"@ {
        Some("Sickle"@)
    } else if v == "WeapThompson_C"@ {
        Some("Tommy Gun"@)
    } else if v == "WeapTurret_KillTruck_Main_C"@ {
        Some("Kill Truck Turret"@)
    } else if v == "WeapUMP_C"@ {
        Some("UMP9"@)
    } else if v == "WeapUZI_C"@ {
        Some("Micro Uzi"@)
    } else if v == "WeapVSS_C"@ {
        Some("VSS"@)
    } else if v == "WeapVector_C"@ {
        Some("Vector"@)
    } else if v == "WeapWin94_C"@ {
        Some("Win94"@)
    } else if v == "WeapWinchester_C"@ {
        Some("S1897"@)
    } else if v == "Weapvz61Skorpion_C"@ {
        Some("Skorpion"@)
    } else {
        None
    }
}

/// Display names of the official `blueprint` damage causers.
pub open spec fn friendly_blueprint_spec(v: Seq<char>) -> Option<Seq<char>> {
    if v == "BP_ATV_C"@ {
        Some("Quad"@)
    } else if v == "BP_BearV2_C"@ {
        Some("Bear"@)
    } else if v == "BP_BRDM_C"@ {
        Some("BRDM-2"@)
    } else if v == "BP_Bicycle_C"@ {
        Some("Mountain Bike"@)
    } else if v == "BP_Blanc_C"@ {
        Some("Coupe SUV"@)
    } else if v == "BP_CoupeRB_C"@ {
        Some("Coupe RB"@)
    } else if v == "BP_DO_Circle_Train_Merged_C"@ {
        Some("Train"@)
    } else if v == "BP_DO_Line_Train_Dino_Merged_C"@ {
        Some("Train"@)
    } else if v == "BP_DO_Line_Train_Merged_C"@ {
        Some("Train"@)
    } else if v == "BP_Dirtbike_C"@ {
        Some("Dirt Bike"@)
    } else if v == "BP_DronePackage_Projectile_C"@ {
        Some("Drone"@)
    } else if v == "BP_Eragel_CargoShip01_C"@ {
        Some("Ferry Damage"@)
    } else if v == "BP_FakeLootProj_AmmoBox_C"@ {
        Some("Loot Truck"@)
    } else if v == "BP_FakeLootProj_MilitaryCrate_C"@ {
        Some("Loot Truck"@)
    } else if v == "BP_FireEffectController_C"@ {
        Some("Molotov Fire"@)
    } else if v == "BP_FireEffectController_JerryCan_C"@ {
        Some("Jerrycan Fire"@)
    } else if v == "BP_Food_Truck_C"@ {
        Some("Food Truck"@)
    } else if v == "BP_Helicopter_C"@ {
        Some("Pillar Scout Helicopter"@)
    } else if v == "BP_IncendiaryDebuff_C"@ {
        Some("Burn"@)
    } else if v == "BP_JerryCanFireDebuff_C"@ {
        Some("Burn"@)
    } else if v == "BP_JerryCan_FuelPuddle_C"@ {
        Some("Burn"@)
    } else if v == "BP_KillTruck_C"@ {
        Some("Kill Truck"@)
    } else if v == "BP_LootTruck_C"@ {
        Some("Loot Truck"@)
    } else if v == "BP_M_Rony_A_01_C"@ {
        Some("Rony"@)
    } else if v == "BP_M_Rony_A_02_C"@ {
        Some("Rony"@)
    } else if v == "BP_M_Rony_A_03_C"@ {
        Some("Rony"@)
    } else if v == "BP_Mirado_A_02_C"@ {
        Some("Mirado"@)
    } else if v == "BP_Mirado_A_03_C"@ {
        Some("Mirado"@)
    } else if v == "BP_Mirado_A_03_Esports_C"@ {
        Some("Mirado"@)
    } else if v == "BP_Mirado_Open_03_C"@ {
        Some("Mirado (open top)"@)
    } else if v == "BP_Mirado_Open_04_C"@ {
        Some("Mirado (open top)"@)
    } else if v == "BP_Mirado_Open_05_C"@ {
        Some("Mirado (open top)"@)
    } else if v == "BP_MolotovFireDebuff_C"@ {
        Some("Molotov Fire Damage"@)
    } else if v == "BP_Motorbike_04_C"@ {
        Some("Motorcycle"@)
    } else if v == "BP_Motorbike_04_Desert_C"@ {
        Some("Motorcycle"@)
    } else if v == "BP_Motorbike_04_SideCar_C"@ {
        Some("Motorcycle (w/ Sidecar)"@)
    } else if v == "BP_Motorbike_04_SideCar_Desert_C"@ {
        Some("Motorcycle (w/ Sidecar)"@)
    } else if v == "BP_Motorbike_Solitario_C"@ {
        Some("Motorcycle"@)
    } else if v == "BP_Motorglider_C"@ {
        Some("Motor Glider"@)
    } else if v == "BP_Motorglider_Green_C"@ {
        Some("Motor Glider"@)
    } else if v == "BP_Niva_01_C"@ {
        Some("Zima"@)
    } else if v == "BP_Niva_02_C"@ {
        Some("Zima"@)
    } else if v == "BP_Niva_03_C"@ {
        Some("Zima"@)
    } else if v == "BP_Niva_04_C"@ {
        Some("Zima"@)
    } else if v == "BP_Niva_05_C"@ {
        Some("Zima"@)
    } else if v == "BP_Niva_06_C"@ {
        Some("Zima"@)
    } else if v == "BP_Niva_07_C"@ {
        Some("Zima"@)
    } else if v == "BP_Niva_Esports_C"@ {
        Some("Zima"@)
    } else if v == "BP_PickupTruck_A_01_C"@ {
        Some("Pickup Truck (closed top)"@)
    } else if v == "BP_PickupTruck_A_02_C"@ {
        Some("Pickup Truck (closed top)"@)
    } else if v == "BP_PickupTruck_A_03_C"@ {
        Some("Pickup Truck (closed top)"@)
    } else if v == "BP_PickupTruck_A_04_C"@ {
        Some("Pickup Truck (closed top)"@)
    } else if v == "BP_PickupTruck_A_05_C"@ {
        Some("Pickup Truck (closed top)"@)
    } else if v == "BP_PickupTruck_A_esports_C"@ {
        Some("Pickup Truck (closed top)"@)
    } else if v == "BP_PickupTruck_B_01_C"@ {
        Some("Pickup Truck (open top)"@)
    } else if v == "BP_PickupTruck_B_02_C"@ {
        Some("Pickup Truck (open top)"@)
    } else if v == "BP_PickupTruck_B_03_C"@ {
        Some("Pickup Truck (open top)"@)
    } else if v == "BP_PickupTruck_B_04_C"@ {
        Some("Pickup Truck (open top)"@)
    } else if v == "BP_PickupTruck_B_05_C"@ {
        Some("Pickup Truck (open top)"@)
    } else if v == "BP_Pillar_Car_C"@ {
        Some("Pillar Security Car"@)
    } else if v == "BP_PonyCoupe_C"@ {
        Some("Pony Coupe"@)
    } else if v == "BP_Porter_C"@ {
        Some("Porter"@)
    } else if v == "BP_Scooter_01_A_C"@ {
        Some("Scooter"@)
    } else if v == "BP_Scooter_02_A_C"@ {
        Some("Scooter"@)
    } else if v == "BP_Scooter_03_A_C"@ {
        Some("Scooter"@)
    } else if v == "BP_Scooter_04_A_C"@ {
        Some("Scooter"@)
    } else if v == "BP_Snowbike_01_C"@ {
        Some("Snowbike"@)
    } else if v == "BP_Snowbike_02_C"@ {
        Some("Snowbike"@)
    } else if v == "BP_Snowmobile_01_C"@ {
        Some("Snowmobile"@)
    } else if v == "BP_Snowmobile_02_C"@ {
        Some("Snowmobile"@)
    } else if v == "BP_Snowmobile_03_C"@ {
        Some("Snowmobile"@)
    } else if v == "BP_Spiketrap_C"@ {
        Some("Spike Trap"@)
    } else if v == "BP_TslGasPump_C"@ {
        Some("Gas Pump"@)
    } else if v == "BP_TukTukTuk_A_01_C"@ {
        Some("Tukshai"@)
    } else if v == "BP_TukTukTuk_A_02_C"@ {
        Some("Tukshai"@)
    } else if v == "BP_TukTukTuk_A_03_C"@ {
        Some("Tukshai"@)
    } else if v == "BP_Van_A_01_C"@ {
        Some("Van"@)
    } else if v == "BP_Van_A_02_C"@ {
        Some("Van"@)
    } else if v == "BP_Van_A_03_C"@ {
        Some("Van"@)
    } else {
        None
    }
}

/// Display names of the official `misc` damage causers.
pub open spec fn friendly_misc_spec(v: Seq<char>) -> Option<Seq<char>> {
    if v == "AIPawn_Base_Female_C"@ {
        Some("AI Player"@)
    } else if v == "AIPawn_Base_Male_C"@ {
        Some("AI Player"@)
    } else if v == "AirBoat_V2_C"@ {
        Some("Airboat"@)
    } else if v == "AquaRail_A_01_C"@ {
        Some("Aquarail"@)
    } else if v == "AquaRail_A_02_C"@ {
        Some("Aquarail"@)
    } else if v == "AquaRail_A_03_C"@ {
        Some("Aquarail"@)
    } else if v == "BattleRoyaleModeController_Chimera_C"@ {
        Some("Bluezone"@)
    } else if v == "BattleRoyaleModeController_Def_C"@ {
        Some("Bluezone"@)
    } else if v == "BattleRoyaleModeController_Desert_C"@ {
        Some("Bluezone"@)
    } else if v == "BattleRoyaleModeController_DihorOtok_C"@ {
        Some("Bluezone"@)
    } else if v == "BattleRoyaleModeController_Heaven_C"@ {
        Some("Bluezone"@)
    } else if v == "BattleRoyaleModeController_Kiki_C"@ {
        Some("Bluezone"@)
    } else if v == "BattleRoyaleModeController_Savage_C"@ {
        Some("Bluezone"@)
    } else if v == "BattleRoyaleModeController_Summerland_C"@ {
        Some("Bluezone"@)
    } else if v == "BattleRoyaleModeController_Tiger_C"@ {
        Some("Bluezone"@)
    } else if v == "BlackZoneController_Def_C"@ {
        Some("Blackzone"@)
    } else if v == "Bluezonebomb_EffectActor_C"@ {
        Some("Bluezone Grenade"@)
    } else if v == "Boat_PG117_C"@ {
        Some("PG-117"@)
    } else if v == "Buff_DecreaseBreathInApnea_C"@ {
        Some("Drowning"@)
    } else if v == "Buggy_A_01_C"@ {
        Some("Buggy"@)
    } else if v == "Buggy_A_02_C"@ {
        Some("Buggy"@)
    } else if v == "Buggy_A_03_C"@ {
        Some("Buggy"@)
    } else if v == "Buggy_A_04_C"@ {
        Some("Buggy"@)
    } else if v == "Buggy_A_05_C"@ {
        Some("Buggy"@)
    } else if v == "Buggy_A_06_C"@ {
        Some("Buggy"@)
    } else if v == "Carepackage_Container_C"@ {
        Some("Care Package"@)
    } else if v == "Dacia_A_01_v2_C"@ {
        Some("Dacia"@)
    } else if v == "Dacia_A_01_v2_snow_C"@ {
        Some("Dacia"@)
    } else if v == "Dacia_A_02_v2_C"@ {
        Some("Dacia"@)
    } else if v == "Dacia_A_03_v2_C"@ {
        Some("Dacia"@)
    } else if v == "Dacia_A_03_v2_Esports_C"@ {
        Some("Dacia"@)
    } else if v == "Dacia_A_04_v2_C"@ {
        Some("Dacia"@)
    } else if v == "DroppedItemGroup"@ {
        Some("Object Fragments"@)
    } else if v == "EmergencyAircraft_Tiger_C"@ {
        Some("Emergency Aircraft"@)
    } else if v == "Jerrycan"@ {
        Some("Jerrycan"@)
    } else if v == "JerrycanFire"@ {
        Some("Jerrycan Fire"@)
    } else if v == "Lava"@ {
        Some("Lava"@)
    } else if v == "Mortar_Projectile_C"@ {
        Some("Mortar Projectile"@)
    } else if v == "None"@ {
        Some("None"@)
    } else if v == "PG117_A_01_C"@ {
        Some("PG-117"@)
    } else if v == "PanzerFaust100M_Projectile_C"@ {
        Some("Panzerfaust Projectile"@)
    } else if v == "PlayerFemale_A_C"@ {
        Some("Player"@)
    } else if v == "PlayerMale_A_C"@ {
        Some("Player"@)
    } else if v == "ProjC4_C"@ {
        Some("C4"@)
    } else if v == "ProjGrenade_C"@ {
        Some("Frag Grenade"@)
    } else if v == "ProjIncendiary_C"@ {
        Some("Incendiary Projectile"@)
    } else if v == "ProjMolotov_C"@ {
        Some("Molotov Cocktail"@)
    } else if v == "ProjMolotov_DamageField_Direct_C"@ {
        Some("Molotov Cocktail Fire Field"@)
    } else if v == "ProjStickyGrenade_C"@ {
        Some("Sticky Bomb"@)
    } else if v == "RacingDestructiblePropaneTankActor_C"@ {
        Some("Propane Tank"@)
    } else if v == "RacingModeContorller_Desert_C"@ {
        Some("Bluezone"@)
    } else if v == "RedZoneBomb_C"@ {
        Some("Redzone"@)
    } else if v == "RedZoneBombingField"@ {
        Some("Redzone"@)
    } else if v == "RedZoneBombingField_Def_C"@ {
        Some("Redzone"@)
    } else if v == "SandStormBuff_BP_C"@ {
        Some("Sandstorm"@)
    } else if v == "TslDestructibleSurfaceManager"@ {
        Some("Destructible Surface"@)
    } else if v == "TslPainCausingVolume"@ {
        Some("Lava"@)
    } else if v == "Uaz_A_01_C"@ {
        Some("UAZ (open top)"@)
    } else if v == "Uaz_Armored_C"@ {
        Some("UAZ (armored)"@)
    } else if v == "Uaz_B_01_C"@ {
        Some("UAZ (soft top)"@)
    } else if v == "Uaz_B_01_esports_C"@ {
        Some("UAZ (soft top)"@)
    } else if v == "Uaz_C_01_C"@ {
        Some("UAZ (hard top)"@)
    } else if v == "UltAIPawn_Base_Female_C"@ {
        Some("Player"@)
    } else if v == "UltAIPawn_Base_Male_C"@ {
        Some("Player"@)
    } else {
        None
    }
}

fn friendly_weapon(value: &str) -> (res: Option<String>)
    ensures
        opt_text(res) == friendly_weapon_spec(value@),
{
    if str_eq(value, "WeapACE32_C") {
        return Some("ACE32".to_owned());
    }
    if str_eq(value, "WeapAK47_C") {
        return Some("AKM".to_owned());
    }
    if str_eq(value, "WeapAUG_C") {
        return Some("AUG A3".to_owned());
    }
    if str_eq(value, "WeapAWM_C") {
        return Some("AWM".to_owned());
    }
    if str_eq(value, "WeapBerreta686_C") {
        return Some("S686".to_owned());
    }
    if str_eq(value, "WeapBerylM762_C") {
        return Some("Beryl".to_owned());
    }
    if str_eq(value, "WeapBizonPP19_C") {
        return Some("Bizon".to_owned());
    }
    if str_eq(value, "WeapCowbarProjectile_C") {
        return Some("Crowbar Projectile".to_owned());
    }
    if str_eq(value, "WeapCowbar_C") {
        return Some("Crowbar".to_owned());
    }
    if str_eq(value, "WeapCrossbow_1_C") {
        return Some("Crossbow".to_owned());
    }
    if str_eq(value, "WeapDP12_C") {
        return Some("DBS".to_owned());
    }
    if str_eq(value, "WeapDP28_C") {
        return Some("DP-28".to_owned());
    }
    if str_eq(value, "WeapDesertEagle_C") {
        return Some("Deagle".to_owned());
    }
    if str_eq(value, "WeapDragunov_C") {
        return Some("Dragunov".to_owned());
    }
    if str_eq(value, "WeapDuncansHK416_C") {
        return Some("M416".to_owned());
    }
    if str_eq(value, "WeapFNFal_C") {
        return Some("SLR".to_owned());
    }
    if str_eq(value, "WeapG18_C") {
        return Some("P18C".to_owned());
    }
    if str_eq(value, "WeapG36C_C") {
        return Some("G36C".to_owned());
    }
    if str_eq(value, "WeapGroza_C") {
        return Some("Groza".to_owned());
    }
    if str_eq(value, "WeapHK416_C") {
        return Some("M416".to_owned());
    }
    if str_eq(value, "WeapJS9_C") {
        return Some("JS9".to_owned());
    }
    if str_eq(value, "WeapJuliesKar98k_C") {
        return Some("Kar98k".to_owned());
    }
    if str_eq(value, "WeapK2_C") {
        return Some("K2".to_owned());
    }
    if str_eq(value, "WeapKar98k_C") {
        return Some("Kar98k".to_owned());
    }
    if str_eq(value, "WeapL6_C") {
        return Some("Lynx AMR".to_owned());
    }
    if str_eq(value, "WeapLunchmeatsAK47_C") {
        return Some("AKM".to_owned());
    }
    if str_eq(value, "WeapM16A4_C") {
        return Some("M16A4".to_owned());
    }
    if str_eq(value, "WeapM1911_C") {
        return Some("P1911".to_owned());
    }
    if str_eq(value, "WeapM249_C") {
        return Some("M249".to_owned());
    }
    if str_eq(value, "WeapM24_C") {
        return Some("M24".to_owned());
    }
    if str_eq(value, "WeapM9_C") {
        return Some("P92".to_owned());
    }
    if str_eq(value, "WeapMG3_C") {
        return Some("MG3".to_owned());
    }
    if str_eq(value, "WeapMP5K_C") {
        return Some("MP5K".to_owned());
    }
    if str_eq(value, "WeapMP9_C") {
        return Some("MP9".to_owned());
    }
    if str_eq(value, "WeapMacheteProjectile_C") {
        return Some("Machete Projectile".to_owned());
    }
    if str_eq(value, "WeapMachete_C") {
        return Some("Machete".to_owned());
    }
    if str_eq(value, "WeapMadsQBU88_C") {
        return Some("QBU88".to_owned());
    }
    if str_eq(value, "WeapMini14_C") {
        return Some("Mini 14".to_owned());
    }
    if str_eq(value, "WeapMk12_C") {
        return Some("Mk12".to_owned());
    }
    if str_eq(value, "WeapMk14_C") {
        return Some("Mk14 EBR".to_owned());
    }
    if str_eq(value, "WeapMk47Mutant_C") {
        return Some("Mk47 Mutant".to_owned());
    }
    if str_eq(value, "WeapMosinNagant_C") {
        return Some("Mosin-Nagant".to_owned());
    }
    if str_eq(value, "WeapNagantM1895_C") {
        return Some("R1895".to_owned());
    }
    if str_eq(value, "WeapOriginS12_C") {
        return Some("O12".to_owned());
    }
    if str_eq(value, "WeapP90_C") {
        return Some("P90".to_owned());
    }
    if str_eq(value, "WeapPanProjectile_C") {
        return Some("Pan Projectile".to_owned());
    }
    if str_eq(value, "WeapPan_C") {
        return Some("Pan".to_owned());
    }
    if str_eq(value, "WeapPanzerFaust100M1_C") {
        return Some("Panzerfaust".to_owned());
    }
    if str_eq(value, "WeapQBU88_C") {
        return Some("QBU88".to_owned());
    }
    if str_eq(value, "WeapQBZ95_C") {
        return Some("QBZ95".to_owned());
    }
    if str_eq(value, "WeapRhino_C") {
        return Some("R45".to_owned());
    }
    if str_eq(value, "WeapSCAR-L_C") {
        return Some("SCAR-L".to_owned());
    }
    if str_eq(value, "WeapSKS_C") {
        return Some("SKS".to_owned());
    }
    if str_eq(value, "WeapSaiga12_C") {
        return Some("S12K".to_owned());
    }
    if str_eq(value, "WeapSawnoff_C") {
        return Some("Sawed-off".to_owned());
    }
    if str_eq(value, "WeapSickleProjectile_C") {
        return Some("Sickle Projectile".to_owned());
    }
    if str_eq(value, "WeapSickle_C") {
        return Some("Sickle".to_owned());
    }
    if str_eq(value, "WeapThompson_C") {
        return Some("Tommy Gun".to_owned());
    }
    if str_eq(value, "WeapTurret_KillTruck_Main_C") {
        return Some("Kill Truck Turret".to_owned());
    }
    if str_eq(value, "WeapUMP_C") {
        return Some("UMP9".to_owned());
    }
    if str_eq(value, "WeapUZI_C") {
        return Some("Micro Uzi".to_owned());
    }
    if str_eq(value, "WeapVSS_C") {
        return Some("VSS".to_owned());
    }
    if str_eq(value, "WeapVector_C") {
        return Some("Vector".to_owned());
    }
    if str_eq(value, "WeapWin94_C") {
        return Some("Win94".to_owned());
    }
    if str_eq(value, "WeapWinchester_C") {
        return Some("S1897".to_owned());
    }
    if str_eq(value, "Weapvz61Skorpion_C") {
        return Some("Skorpion".to_owned());
    }
    None
}

fn friendly_blueprint(value: &str) -> (res: Option<String>)
    ensures
        opt_text(res) == friendly_blueprint_spec(value@),
{
    if str_eq(value, "BP_ATV_C") {
        return Some("Quad".to_owned());
    }
    if str_eq(value, "BP_BearV2_C") {
        return Some("Bear".to_owned());
    }
    if str_eq(value, "BP_BRDM_C") {
        return Some("BRDM-2".to_owned());
    }
    if str_eq(value, "BP_Bicycle_C") {
        return Some("Mountain Bike".to_owned());
    }
    if str_eq(value, "BP_Blanc_C") {
        return Some("Coupe SUV".to_owned());
    }
    if str_eq(value, "BP_CoupeRB_C") {
        return Some("Coupe RB".to_owned());
    }
    if str_eq(value, "BP_DO_Circle_Train_Merged_C") {
        return Some("Train".to_owned());
    }
    if str_eq(value, "BP_DO_Line_Train_Dino_Merged_C") {
        return Some("Train".to_owned());
    }
    if str_eq(value, "BP_DO_Line_Train_Merged_C") {
        return Some("Train".to_owned());
    }
    if str_eq(value, "BP_Dirtbike_C") {
        return Some("Dirt Bike".to_owned());
    }
    if str_eq(value, "BP_DronePackage_Projectile_C") {
        return Some("Drone".to_owned());
    }
    if str_eq(value, "BP_Eragel_CargoShip01_C") {
        return Some("Ferry Damage".to_owned());
    }
    if str_eq(value, "BP_FakeLootProj_AmmoBox_C") {
        return Some("Loot Truck".to_owned());
    }
    if str_eq(value, "BP_FakeLootProj_MilitaryCrate_C") {
        return Some("Loot Truck".to_owned());
    }
    if str_eq(value, "BP_FireEffectController_C") {
        return Some("Molotov Fire".to_owned());
    }
    if str_eq(value, "BP_FireEffectController_JerryCan_C") {
        return Some("Jerrycan Fire".to_owned());
    }
    if str_eq(value, "BP_Food_Truck_C") {
        return Some("Food Truck".to_owned());
    }
    if str_eq(value, "BP_Helicopter_C") {
        return Some("Pillar Scout Helicopter".to_owned());
    }
    if str_eq(value, "BP_IncendiaryDebuff_C") {
        return Some("Burn".to_owned());
    }
    if str_eq(value, "BP_JerryCanFireDebuff_C") {
        return Some("Burn".to_owned());
    }
    if str_eq(value, "BP_JerryCan_FuelPuddle_C") {
        return Some("Burn".to_owned());
    }
    if str_eq(value, "BP_KillTruck_C") {
        return Some("Kill Truck".to_owned());
    }
    if str_eq(value, "BP_LootTruck_C") {
        return Some("Loot Truck".to_owned());
    }
    if str_eq(value, "BP_M_Rony_A_01_C") {
        return Some("Rony".to_owned());
    }
    if str_eq(value, "BP_M_Rony_A_02_C") {
        return Some("Rony".to_owned());
    }
    if str_eq(value, "BP_M_Rony_A_03_C") {
        return Some("Rony".to_owned());
    }
    if str_eq(value, "BP_Mirado_A_02_C") {
        return Some("Mirado".to_owned());
    }
    if str_eq(value, "BP_Mirado_A_03_C") {
        return Some("Mirado".to_owned());
    }
    if str_eq(value, "BP_Mirado_A_03_Esports_C") {
        return Some("Mirado".to_owned());
    }
    if str_eq(value, "BP_Mirado_Open_03_C") {
        return Some("Mirado (open top)".to_owned());
    }
    if str_eq(value, "BP_Mirado_Open_04_C") {
        return Some("Mirado (open top)".to_owned());
    }
    if str_eq(value, "BP_Mirado_Open_05_C") {
        return Some("Mirado (open top)".to_owned());
    }
    if str_eq(value, "BP_MolotovFireDebuff_C") {
        return Some("Molotov Fire Damage".to_owned());
    }
    if str_eq(value, "BP_Motorbike_04_C") {
        return Some("Motorcycle".to_owned());
    }
    if str_eq(value, "BP_Motorbike_04_Desert_C") {
        return Some("Motorcycle".to_owned());
    }
    if str_eq(value, "BP_Motorbike_04_SideCar_C") {
        return Some("Motorcycle (w/ Sidecar)".to_owned());
    }
    if str_eq(value, "BP_Motorbike_04_SideCar_Desert_C") {
        return Some("Motorcycle (w/ Sidecar)".to_owned());
    }
    if str_eq(value, "BP_Motorbike_Solitario_C") {
        return Some("Motorcycle".to_owned());
    }
    if str_eq(value, "BP_Motorglider_C") {
        return Some("Motor Glider".to_owned());
    }
    if str_eq(value, "BP_Motorglider_Green_C") {
        return Some("Motor Glider".to_owned());
    }
    if str_eq(value, "BP_Niva_01_C") {
        return Some("Zima".to_owned());
    }
    if str_eq(value, "BP_Niva_02_C") {
        return Some("Zima".to_owned());
    }
    if str_eq(value, "BP_Niva_03_C") {
        return Some("Zima".to_owned());
    }
    if str_eq(value, "BP_Niva_04_C") {
        return Some("Zima".to_owned());
    }
    if str_eq(value, "BP_Niva_05_C") {
        return Some("Zima".to_owned());
    }
    if str_eq(value, "BP_Niva_06_C") {
        return Some("Zima".to_owned());
    }
    if str_eq(value, "BP_Niva_07_C") {
        return Some("Zima".to_owned());
    }
    if str_eq(value, "BP_Niva_Esports_C") {
        return Some("Zima".to_owned());
    }
    if str_eq(value, "BP_PickupTruck_A_01_C") {
        return Some("Pickup Truck (closed top)".to_owned());
    }
    if str_eq(value, "BP_PickupTruck_A_02_C") {
        return Some("Pickup Truck (closed top)".to_owned());
    }
    if str_eq(value, "BP_PickupTruck_A_03_C") {
        return Some("Pickup Truck (closed top)".to_owned());
    }
    if str_eq(value, "BP_PickupTruck_A_04_C") {
        return Some("Pickup Truck (closed top)".to_owned());
    }
    if str_eq(value, "BP_PickupTruck_A_05_C") {
        return Some("Pickup Truck (closed top)".to_owned());
    }
    if str_eq(value, "BP_PickupTruck_A_esports_C") {
        return Some("Pickup Truck (closed top)".to_owned());
    }
    if str_eq(value, "BP_PickupTruck_B_01_C") {
        return Some("Pickup Truck (open top)".to_owned());
    }
    if str_eq(value, "BP_PickupTruck_B_02_C") {
        return Some("Pickup Truck (open top)".to_owned());
    }
    if str_eq(value, "BP_PickupTruck_B_03_C") {
        return Some("Pickup Truck (open top)".to_owned());
    }
    if str_eq(value, "BP_PickupTruck_B_04_C") {
        return Some("Pickup Truck (open top)".to_owned());
    }
    if str_eq(value, "BP_PickupTruck_B_05_C") {
        return Some("Pickup Truck (open top)".to_owned());
    }
    if str_eq(value, "BP_Pillar_Car_C") {
        return Some("Pillar Security Car".to_owned());
    }
    if str_eq(value, "BP_PonyCoupe_C") {
        return Some("Pony Coupe".to_owned());
    }
    if str_eq(value, "BP_Porter_C") {
        return Some("Porter".to_owned());
    }
    if str_eq(value, "BP_Scooter_01_A_C") {
        return Some("Scooter".to_owned());
    }
    if str_eq(value, "BP_Scooter_02_A_C") {
        return Some("Scooter".to_owned());
    }
    if str_eq(value, "BP_Scooter_03_A_C") {
        return Some("Scooter".to_owned());
    }
    if str_eq(value, "BP_Scooter_04_A_C") {
        return Some("Scooter".to_owned());
    }
    if str_eq(value, "BP_Snowbike_01_C") {
        return Some("Snowbike".to_owned());
    }
    if str_eq(value, "BP_Snowbike_02_C") {
        return Some("Snowbike".to_owned());
    }
    if str_eq(value, "BP_Snowmobile_01_C") {
        return Some("Snowmobile".to_owned());
    }
    if str_eq(value, "BP_Snowmobile_02_C") {
        return Some("Snowmobile".to_owned());
    }
    if str_eq(value, "BP_Snowmobile_03_C") {
        return Some("Snowmobile".to_owned());
    }
    if str_eq(value, "BP_Spiketrap_C") {
        return Some("Spike Trap".to_owned());
    }
    if str_eq(value, "BP_TslGasPump_C") {
        return Some("Gas Pump".to_owned());
    }
    if str_eq(value, "BP_TukTukTuk_A_01_C") {
        return Some("Tukshai".to_owned());
    }
    if str_eq(value, "BP_TukTukTuk_A_02_C") {
        return Some("Tukshai".to_owned());
    }
    if str_eq(value, "BP_TukTukTuk_A_03_C") {
        return Some("Tukshai".to_owned());
    }
    if str_eq(value, "BP_Van_A_01_C") {
        return Some("Van".to_owned());
    }
    if str_eq(value, "BP_Van_A_02_C") {
        return Some("Van".to_owned());
    }
    if str_eq(value, "BP_Van_A_03_C") {
        return Some("Van".to_owned());
    }
    None
}

fn friendly_misc(value: &str) -> (res: Option<String>)
    ensures
        opt_text(res) == friendly_misc_spec(value@),
{
    if str_eq(value, "AIPawn_Base_Female_C") {
        return Some("AI Player".to_owned());
    }
    if str_eq(value, "AIPawn_Base_Male_C") {
        return Some("AI Player".to_owned());
    }
    if str_eq(value, "AirBoat_V2_C") {
        return Some("Airboat".to_owned());
    }
    if str_eq(value, "AquaRail_A_01_C") {
        return Some("Aquarail".to_owned());
    }
    if str_eq(value, "AquaRail_A_02_C") {
        return Some("Aquarail".to_owned());
    }
    if str_eq(value, "AquaRail_A_03_C") {
        return Some("Aquarail".to_owned());
    }
    if str_eq(value, "BattleRoyaleModeController_Chimera_C") {
        return Some("Bluezone".to_owned());
    }
    if str_eq(value, "BattleRoyaleModeController_Def_C") {
        return Some("Bluezone".to_owned());
    }
    if str_eq(value, "BattleRoyaleModeController_Desert_C") {
        return Some("Bluezone".to_owned());
    }
    if str_eq(value, "BattleRoyaleModeController_DihorOtok_C") {
        return Some("Bluezone".to_owned());
    }
    if str_eq(value, "BattleRoyaleModeController_Heaven_C") {
        return Some("Bluezone".to_owned());
    }
    if str_eq(value, "BattleRoyaleModeController_Kiki_C") {
        return Some("Bluezone".to_owned());
    }
    if str_eq(value, "BattleRoyaleModeController_Savage_C") {
        return Some("Bluezone".to_owned());
    }
    if str_eq(value, "BattleRoyaleModeController_Summerland_C") {
        return Some("Bluezone".to_owned());
    }
    if str_eq(value, "BattleRoyaleModeController_Tiger_C") {
        return Some("Bluezone".to_owned());
    }
    if str_eq(value, "BlackZoneController_Def_C") {
        return Some("Blackzone".to_owned());
    }
    if str_eq(value, "Bluezonebomb_EffectActor_C") {
        return Some("Bluezone Grenade".to_owned());
    }
    if str_eq(value, "Boat_PG117_C") {
        return Some("PG-117".to_owned());
    }
    if str_eq(value, "Buff_DecreaseBreathInApnea_C") {
        return Some("Drowning".to_owned());
    }
    if str_eq(value, "Buggy_A_01_C") {
        return Some("Buggy".to_owned());
    }
    if str_eq(value, "Buggy_A_02_C") {
        return Some("Buggy".to_owned());
    }
    if str_eq(value, "Buggy_A_03_C") {
        return Some("Buggy".to_owned());
    }
    if str_eq(value, "Buggy_A_04_C") {
        return Some("Buggy".to_owned());
    }
    if str_eq(value, "Buggy_A_05_C") {
        return Some("Buggy".to_owned());
    }
    if str_eq(value, "Buggy_A_06_C") {
        return Some("Buggy".to_owned());
    }
    if str_eq(value, "Carepackage_Container_C") {
        return Some("Care Package".to_owned());
    }
    if str_eq(value, "Dacia_A_01_v2_C") {
        return Some("Dacia".to_owned());
    }
    if str_eq(value, "Dacia_A_01_v2_snow_C") {
        return Some("Dacia".to_owned());
    }
    if str_eq(value, "Dacia_A_02_v2_C") {
        return Some("Dacia".to_owned());
    }
    if str_eq(value, "Dacia_A_03_v2_C") {
        return Some("Dacia".to_owned());
    }
    if str_eq(value, "Dacia_A_03_v2_Esports_C") {
        return Some("Dacia".to_owned());
    }
    if str_eq(value, "Dacia_A_04_v2_C") {
        return Some("Dacia".to_owned());
    }
    if str_eq(value, "DroppedItemGroup") {
        return Some("Object Fragments".to_owned());
    }
    if str_eq(value, "EmergencyAircraft_Tiger_C") {
        return Some("Emergency Aircraft".to_owned());
    }
    if str_eq(value, "Jerrycan") {
        return Some("Jerrycan".to_owned());
    }
    if str_eq(value, "JerrycanFire") {
        return Some("Jerrycan Fire".to_owned());
    }
    if str_eq(value, "Lava") {
        return Some("Lava".to_owned());
    }
    if str_eq(value, "Mortar_Projectile_C") {
        return Some("Mortar Projectile".to_owned());
    }
    if str_eq(value, "None") {
        return Some("None".to_owned());
    }
    if str_eq(value, "PG117_A_01_C") {
        return Some("PG-117".to_owned());
    }
    if str_eq(value, "PanzerFaust100M_Projectile_C") {
        return Some("Panzerfaust Projectile".to_owned());
    }
    if str_eq(value, "PlayerFemale_A_C") {
        return Some("Player".to_owned());
    }
    if str_eq(value, "PlayerMale_A_C") {
        return Some("Player".to_owned());
    }
    if str_eq(value, "ProjC4_C") {
        return Some("C4".to_owned());
    }
    if str_eq(value, "ProjGrenade_C") {
        return Some("Frag Grenade".to_owned());
    }
    if str_eq(value, "ProjIncendiary_C") {
        return Some("Incendiary Projectile".to_owned());
    }
    if str_eq(value, "ProjMolotov_C") {
        return Some("Molotov Cocktail".to_owned());
    }
    if str_eq(value, "ProjMolotov_DamageField_Direct_C") {
        return Some("Molotov Cocktail Fire Field".to_owned());
    }
    if str_eq(value, "ProjStickyGrenade_C") {
        return Some("Sticky Bomb".to_owned());
    }
    if str_eq(value, "RacingDestructiblePropaneTankActor_C") {
        return Some("Propane Tank".to_owned());
    }
    if str_eq(value, "RacingModeContorller_Desert_C") {
        return Some("Bluezone".to_owned());
    }
    if str_eq(value, "RedZoneBomb_C") {
        return Some("Redzone".to_owned());
    }
    if str_eq(value, "RedZoneBombingField") {
        return Some("Redzone".to_owned());
    }
    if str_eq(value, "RedZoneBombingField_Def_C") {
        return Some("Redzone".to_owned());
    }
    if str_eq(value, "SandStormBuff_BP_C") {
        return Some("Sandstorm".to_owned());
    }
    if str_eq(value, "TslDestructibleSurfaceManager") {
        return Some("Destructible Surface".to_owned());
    }
    if str_eq(value, "TslPainCausingVolume") {
        return Some("Lava".to_owned());
    }
    if str_eq(value, "Uaz_A_01_C") {
        return Some("UAZ (open top)".to_owned());
    }
    if str_eq(value, "Uaz_Armored_C") {
        return Some("UAZ (armored)".to_owned());
    }
    if str_eq(value, "Uaz_B_01_C") {
        return Some("UAZ (soft top)".to_owned());
    }
    if str_eq(value, "Uaz_B_01_esports_C") {
        return Some("UAZ (soft top)".to_owned());
    }
    if str_eq(value, "Uaz_C_01_C") {
        return Some("UAZ (hard top)".to_owned());
    }
    if str_eq(value, "UltAIPawn_Base_Female_C") {
        return Some("Player".to_owned());
    }
    if str_eq(value, "UltAIPawn_Base_Male_C") {
        return Some("Player".to_owned());
    }
    None
}
// ----- display names are settled ---------------------------------------------------------

/// No character of the text is an underscore.
pub open spec fn no_underscore(s: Seq<char>) -> bool {
    forall|i: int| 0 <= i < s.len() ==> #[trigger] s[i] != '_'
}

/// The known names that hold no underscore, and what they show as.
pub open spec fn plain_key_spec(v: Seq<char>) -> Option<Seq<char>> {
    if v == "DroppedItemGroup"@ {
        Some("Object Fragments"@)
    } else if v == "Jerrycan"@ {
        Some("Jerrycan"@)
    } else if v == "JerrycanFire"@ {
        Some("Jerrycan Fire"@)
    } else if v == "Lava"@ {
        Some("Lava"@)
    } else if v == "None"@ {
        Some("None"@)
    } else if v == "RedZoneBombingField"@ {
        Some("Redzone"@)
    } else if v == "TslDestructibleSurfaceManager"@ {
        Some("Destructible Surface"@)
    } else if v == "TslPainCausingVolume"@ {
        Some("Lava"@)
    } else {
        None
    }
}

/// Every `weapon` name the table knows holds an underscore.
#[verifier::rlimit(60)]
proof fn lemma_weapon_keys(v: Seq<char>)
    requires
        no_underscore(v),
    ensures
        friendly_weapon_spec(v) is None,
{
    reveal_strlit("WeapACE32_C");
    assert("WeapACE32_C"@[9] == '_');
    reveal_strlit("WeapAK47_C");
    assert("WeapAK47_C"@[8] == '_');
    reveal_strlit("WeapAUG_C");
    assert("WeapAUG_C"@[7] == '_');
    reveal_strlit("WeapAWM_C");
    assert("WeapAWM_C"@[7] == '_');
    reveal_strlit("WeapBerreta686_C");
    assert("WeapBerreta686_C"@[14] == '_');
    reveal_strlit("WeapBerylM762_C");
    assert("WeapBerylM762_C"@[13] == '_');
    reveal_strlit("WeapBizonPP19_C");
    assert("WeapBizonPP19_C"@[13] == '_');
    reveal_strlit("WeapCowbarProjectile_C");
    assert("WeapCowbarProjectile_C"@[20] == '_');
    reveal_strlit("WeapCowbar_C");
    assert("WeapCowbar_C"@[10] == '_');
    reveal_strlit("WeapCrossbow_1_C");
    assert("WeapCrossbow_1_C"@[12] == '_');
    reveal_strlit("WeapDP12_C");
    assert("WeapDP12_C"@[8] == '_');
    reveal_strlit("WeapDP28_C");
    assert("WeapDP28_C"@[8] == '_');
    reveal_strlit("WeapDesertEagle_C");
    assert("WeapDesertEagle_C"@[15] == '_');
    reveal_strlit("WeapDragunov_C");
    assert("WeapDragunov_C"@[12] == '_');
    reveal_strlit("WeapDuncansHK416_C");
    assert("WeapDuncansHK416_C"@[16] == '_');
    reveal_strlit("WeapFNFal_C");
    assert("WeapFNFal_C"@[9] == '_');
    reveal_strlit("WeapG18_C");
    assert("WeapG18_C"@[7] == '_');
    reveal_strlit("WeapG36C_C");
    assert("WeapG36C_C"@[8] == '_');
    reveal_strlit("WeapGroza_C");
    assert("WeapGroza_C"@[9] == '_');
    reveal_strlit("WeapHK416_C");
    assert("WeapHK416_C"@[9] == '_');
    reveal_strlit("WeapJS9_C");
    assert("WeapJS9_C"@[7] == '_');
    reveal_strlit("WeapJuliesKar98k_C");
    assert("WeapJuliesKar98k_C"@[16] == '_');
    reveal_strlit("WeapK2_C");
    assert("WeapK2_C"@[6] == '_');
    reveal_strlit("WeapKar98k_C");
    assert("WeapKar98k_C"@[10] == '_');
    reveal_strlit("WeapL6_C");
    assert("WeapL6_C"@[6] == '_');
    reveal_strlit("WeapLunchmeatsAK47_C");
    assert("WeapLunchmeatsAK47_C"@[18] == '_');
    reveal_strlit("WeapM16A4_C");
    assert("WeapM16A4_C"@[9] == '_');
    reveal_strlit("WeapM1911_C");
    assert("WeapM1911_C"@[9] == '_');
    reveal_strlit("WeapM249_C");
    assert("WeapM249_C"@[8] == '_');
    reveal_strlit("WeapM24_C");
    assert("WeapM24_C"@[7] == '_');
    reveal_strlit("WeapM9_C");
    assert("WeapM9_C"@[6] == '_');
    reveal_strlit("WeapMG3_C");
    assert("WeapMG3_C"@[7] == '_');
    reveal_strlit("WeapMP5K_C");
    assert("WeapMP5K_C"@[8] == '_');
    reveal_strlit("WeapMP9_C");
    assert("WeapMP9_C"@[7] == '_');
    reveal_strlit("WeapMacheteProjectile_C");
    assert("WeapMacheteProjectile_C"@[21] == '_');
    reveal_strlit("WeapMachete_C");
    assert("WeapMachete_C"@[11] == '_');
    reveal_strlit("WeapMadsQBU88_C");
    assert("WeapMadsQBU88_C"@[13] == '_');
    reveal_strlit("WeapMini14_C");
    assert("WeapMini14_C"@[10] == '_');
    reveal_strlit("WeapMk12_C");
    assert("WeapMk12_C"@[8] == '_');
    reveal_strlit("WeapMk14_C");
    assert("WeapMk14_C"@[8] == '_');
    reveal_strlit("WeapMk47Mutant_C");
    assert("WeapMk47Mutant_C"@[14] == '_');
    reveal_strlit("WeapMosinNagant_C");
    assert("WeapMosinNagant_C"@[15] == '_');
    reveal_strlit("WeapNagantM1895_C");
    assert("WeapNagantM1895_C"@[15] == '_');
    reveal_strlit("WeapOriginS12_C");
    assert("WeapOriginS12_C"@[13] == '_');
    reveal_strlit("WeapP90_C");
    assert("WeapP90_C"@[7] == '_');
    reveal_strlit("WeapPanProjectile_C");
    assert("WeapPanProjectile_C"@[17] == '_');
    reveal_strlit("WeapPan_C");
    assert("WeapPan_C"@[7] == '_');
    reveal_strlit("WeapPanzerFaust100M1_C");
    assert("WeapPanzerFaust100M1_C"@[20] == '_');
    reveal_strlit("WeapQBU88_C");
    assert("WeapQBU88_C"@[9] == '_');
    reveal_strlit("WeapQBZ95_C");
    assert("WeapQBZ95_C"@[9] == '_');
    reveal_strlit("WeapRhino_C");
    assert("WeapRhino_C"@[9] == '_');
    reveal_strlit("WeapSCAR-L_C");
    assert("WeapSCAR-L_C"@[10] == '_');
    reveal_strlit("WeapSKS_C");
    assert("WeapSKS_C"@[7] == '_');
    reveal_strlit("WeapSaiga12_C");
    assert("WeapSaiga12_C"@[11] == '_');
    reveal_strlit("WeapSawnoff_C");
    assert("WeapSawnoff_C"@[11] == '_');
    reveal_strlit("WeapSickleProjectile_C");
    assert("WeapSickleProjectile_C"@[20] == '_');
    reveal_strlit("WeapSickle_C");
    assert("WeapSickle_C"@[10] == '_');
    reveal_strlit("WeapThompson_C");
    assert("WeapThompson_C"@[12] == '_');
    reveal_strlit("WeapTurret_KillTruck_Main_C");
    assert("WeapTurret_KillTruck_Main_C"@[10] == '_');
    reveal_strlit("WeapUMP_C");
    assert("WeapUMP_C"@[7] == '_');
    reveal_strlit("WeapUZI_C");
    assert("WeapUZI_C"@[7] == '_');
    reveal_strlit("WeapVSS_C");
    assert("WeapVSS_C"@[7] == '_');
    reveal_strlit("WeapVector_C");
    assert("WeapVector_C"@[10] == '_');
    reveal_strlit("WeapWin94_C");
    assert("WeapWin94_C"@[9] == '_');
    reveal_strlit("WeapWinchester_C");
    assert("WeapWinchester_C"@[14] == '_');
    reveal_strlit("Weapvz61Skorpion_C");
    assert("Weapvz61Skorpion_C"@[16] == '_');
}

/// Every `blueprint` name the table knows holds an underscore.
#[verifier::rlimit(60)]
proof fn lemma_blueprint_keys(v: Seq<char>)
    requires
        no_underscore(v),
    ensures
        friendly_blueprint_spec(v) is None,
{
    reveal_strlit("BP_ATV_C");
    assert("BP_ATV_C"@[2] == '_');
    reveal_strlit("BP_BearV2_C");
    assert("BP_BearV2_C"@[2] == '_');
    reveal_strlit("BP_BRDM_C");
    assert("BP_BRDM_C"@[2] == '_');
    reveal_strlit("BP_Bicycle_C");
    assert("BP_Bicycle_C"@[2] == '_');
    reveal_strlit("BP_Blanc_C");
    assert("BP_Blanc_C"@[2] == '_');
    reveal_strlit("BP_CoupeRB_C");
    assert("BP_CoupeRB_C"@[2] == '_');
    reveal_strlit("BP_DO_Circle_Train_Merged_C");
    assert("BP_DO_Circle_Train_Merged_C"@[2] == '_');
    reveal_strlit("BP_DO_Line_Train_Dino_Merged_C");
    assert("BP_DO_Line_Train_Dino_Merged_C"@[2] == '_');
    reveal_strlit("BP_DO_Line_Train_Merged_C");
    assert("BP_DO_Line_Train_Merged_C"@[2] == '_');
    reveal_strlit("BP_Dirtbike_C");
    assert("BP_Dirtbike_C"@[2] == '_');
    reveal_strlit("BP_DronePackage_Projectile_C");
    assert("BP_DronePackage_Projectile_C"@[2] == '_');
    reveal_strlit("BP_Eragel_CargoShip01_C");
    assert("BP_Eragel_CargoShip01_C"@[2] == '_');
    reveal_strlit("BP_FakeLootProj_AmmoBox_C");
    assert("BP_FakeLootProj_AmmoBox_C"@[2] == '_');
    reveal_strlit("BP_FakeLootProj_MilitaryCrate_C");
    assert("BP_FakeLootProj_MilitaryCrate_C"@[2] == '_');
    reveal_strlit("BP_FireEffectController_C");
    assert("BP_FireEffectController_C"@[2] == '_');
    reveal_strlit("BP_FireEffectController_JerryCan_C");
    assert("BP_FireEffectController_JerryCan_C"@[2] == '_');
    reveal_strlit("BP_Food_Truck_C");
    assert("BP_Food_Truck_C"@[2] == '_');
    reveal_strlit("BP_Helicopter_C");
    assert("BP_Helicopter_C"@[2] == '_');
    reveal_strlit("BP_IncendiaryDebuff_C");
    assert("BP_IncendiaryDebuff_C"@[2] == '_');
    reveal_strlit("BP_JerryCanFireDebuff_C");
    assert("BP_JerryCanFireDebuff_C"@[2] == '_');
    reveal_strlit("BP_JerryCan_FuelPuddle_C");
    assert("BP_JerryCan_FuelPuddle_C"@[2] == '_');
    reveal_strlit("BP_KillTruck_C");
    assert("BP_KillTruck_C"@[2] == '_');
    reveal_strlit("BP_LootTruck_C");
    assert("BP_LootTruck_C"@[2] == '_');
    reveal_strlit("BP_M_Rony_A_01_C");
    assert("BP_M_Rony_A_01_C"@[2] == '_');
    reveal_strlit("BP_M_Rony_A_02_C");
    assert("BP_M_Rony_A_02_C"@[2] == '_');
    reveal_strlit("BP_M_Rony_A_03_C");
    assert("BP_M_Rony_A_03_C"@[2] == '_');
    reveal_strlit("BP_Mirado_A_02_C");
    assert("BP_Mirado_A_02_C"@[2] == '_');
    reveal_strlit("BP_Mirado_A_03_C");
    assert("BP_Mirado_A_03_C"@[2] == '_');
    reveal_strlit("BP_Mirado_A_03_Esports_C");
    assert("BP_Mirado_A_03_Esports_C"@[2] == '_');
    reveal_strlit("BP_Mirado_Open_03_C");
    assert("BP_Mirado_Open_03_C"@[2] == '_');
    reveal_strlit("BP_Mirado_Open_04_C");
    assert("BP_Mirado_Open_04_C"@[2] == '_');
    reveal_strlit("BP_Mirado_Open_05_C");
    assert("BP_Mirado_Open_05_C"@[2] == '_');
    reveal_strlit("BP_MolotovFireDebuff_C");
    assert("BP_MolotovFireDebuff_C"@[2] == '_');
    reveal_strlit("BP_Motorbike_04_C");
    assert("BP_Motorbike_04_C"@[2] == '_');
    reveal_strlit("BP_Motorbike_04_Desert_C");
    assert("BP_Motorbike_04_Desert_C"@[2] == '_');
    reveal_strlit("BP_Motorbike_04_SideCar_C");
    assert("BP_Motorbike_04_SideCar_C"@[2] == '_');
    reveal_strlit("BP_Motorbike_04_SideCar_Desert_C");
    assert("BP_Motorbike_04_SideCar_Desert_C"@[2] == '_');
    reveal_strlit("BP_Motorbike_Solitario_C");
    assert("BP_Motorbike_Solitario_C"@[2] == '_');
    reveal_strlit("BP_Motorglider_C");
    assert("BP_Motorglider_C"@[2] == '_');
    reveal_strlit("BP_Motorglider_Green_C");
    assert("BP_Motorglider_Green_C"@[2] == '_');
    reveal_strlit("BP_Niva_01_C");
    assert("BP_Niva_01_C"@[2] == '_');
    reveal_strlit("BP_Niva_02_C");
    assert("BP_Niva_02_C"@[2] == '_');
    reveal_strlit("BP_Niva_03_C");
    assert("BP_Niva_03_C"@[2] == '_');
    reveal_strlit("BP_Niva_04_C");
    assert("BP_Niva_04_C"@[2] == '_');
    reveal_strlit("BP_Niva_05_C");
    assert("BP_Niva_05_C"@[2] == '_');
    reveal_strlit("BP_Niva_06_C");
    assert("BP_Niva_06_C"@[2] == '_');
    reveal_strlit("BP_Niva_07_C");
    assert("BP_Niva_07_C"@[2] == '_');
    reveal_strlit("BP_Niva_Esports_C");
    assert("BP_Niva_Esports_C"@[2] == '_');
    reveal_strlit("BP_PickupTruck_A_01_C");
    assert("BP_PickupTruck_A_01_C"@[2] == '_');
    reveal_strlit("BP_PickupTruck_A_02_C");
    assert("BP_PickupTruck_A_02_C"@[2] == '_');
    reveal_strlit("BP_PickupTruck_A_03_C");
    assert("BP_PickupTruck_A_03_C"@[2] == '_');
    reveal_strlit("BP_PickupTruck_A_04_C");
    assert("BP_PickupTruck_A_04_C"@[2] == '_');
    reveal_strlit("BP_PickupTruck_A_05_C");
    assert("BP_PickupTruck_A_05_C"@[2] == '_');
    reveal_strlit("BP_PickupTruck_A_esports_C");
    assert("BP_PickupTruck_A_esports_C"@[2] == '_');
    reveal_strlit("BP_PickupTruck_B_01_C");
    assert("BP_PickupTruck_B_01_C"@[2] == '_');
    reveal_strlit("BP_PickupTruck_B_02_C");
    assert("BP_PickupTruck_B_02_C"@[2] == '_');
    reveal_strlit("BP_PickupTruck_B_03_C");
    assert("BP_PickupTruck_B_03_C"@[2] == '_');
    reveal_strlit("BP_PickupTruck_B_04_C");
    assert("BP_PickupTruck_B_04_C"@[2] == '_');
    reveal_strlit("BP_PickupTruck_B_05_C");
    assert("BP_PickupTruck_B_05_C"@[2] == '_');
    reveal_strlit("BP_Pillar_Car_C");
    assert("BP_Pillar_Car_C"@[2] == '_');
    reveal_strlit("BP_PonyCoupe_C");
    assert("BP_PonyCoupe_C"@[2] == '_');
    reveal_strlit("BP_Porter_C");
    assert("BP_Porter_C"@[2] == '_');
    reveal_strlit("BP_Scooter_01_A_C");
    assert("BP_Scooter_01_A_C"@[2] == '_');
    reveal_strlit("BP_Scooter_02_A_C");
    assert("BP_Scooter_02_A_C"@[2] == '_');
    reveal_strlit("BP_Scooter_03_A_C");
    assert("BP_Scooter_03_A_C"@[2] == '_');
    reveal_strlit("BP_Scooter_04_A_C");
    assert("BP_Scooter_04_A_C"@[2] == '_');
    reveal_strlit("BP_Snowbike_01_C");
    assert("BP_Snowbike_01_C"@[2] == '_');
    reveal_strlit("BP_Snowbike_02_C");
    assert("BP_Snowbike_02_C"@[2] == '_');
    reveal_strlit("BP_Snowmobile_01_C");
    assert("BP_Snowmobile_01_C"@[2] == '_');
    reveal_strlit("BP_Snowmobile_02_C");
    assert("BP_Snowmobile_02_C"@[2] == '_');
    reveal_strlit("BP_Snowmobile_03_C");
    assert("BP_Snowmobile_03_C"@[2] == '_');
    reveal_strlit("BP_Spiketrap_C");
    assert("BP_Spiketrap_C"@[2] == '_');
    reveal_strlit("BP_TslGasPump_C");
    assert("BP_TslGasPump_C"@[2] == '_');
    reveal_strlit("BP_TukTukTuk_A_01_C");
    assert("BP_TukTukTuk_A_01_C"@[2] == '_');
    reveal_strlit("BP_TukTukTuk_A_02_C");
    assert("BP_TukTukTuk_A_02_C"@[2] == '_');
    reveal_strlit("BP_TukTukTuk_A_03_C");
    assert("BP_TukTukTuk_A_03_C"@[2] == '_');
    reveal_strlit("BP_Van_A_01_C");
    assert("BP_Van_A_01_C"@[2] == '_');
    reveal_strlit("BP_Van_A_02_C");
    assert("BP_Van_A_02_C"@[2] == '_');
    reveal_strlit("BP_Van_A_03_C");
    assert("BP_Van_A_03_C"@[2] == '_');
}

/// Of the `misc` names, only the plain ones can equal a text without underscores.
#[verifier::rlimit(60)]
proof fn lemma_misc_keys(v: Seq<char>)
    requires
        no_underscore(v),
    ensures
        friendly_misc_spec(v) == plain_key_spec(v),
{
    reveal_strlit("AIPawn_Base_Female_C");
    assert("AIPawn_Base_Female_C"@[6] == '_');
    reveal_strlit("AIPawn_Base_Male_C");
    assert("AIPawn_Base_Male_C"@[6] == '_');
    reveal_strlit("AirBoat_V2_C");
    assert("AirBoat_V2_C"@[7] == '_');
    reveal_strlit("AquaRail_A_01_C");
    assert("AquaRail_A_01_C"@[8] == '_');
    reveal_strlit("AquaRail_A_02_C");
    assert("AquaRail_A_02_C"@[8] == '_');
    reveal_strlit("AquaRail_A_03_C");
    assert("AquaRail_A_03_C"@[8] == '_');
    reveal_strlit("BattleRoyaleModeController_Chimera_C");
    assert("BattleRoyaleModeController_Chimera_C"@[26] == '_');
    reveal_strlit("BattleRoyaleModeController_Def_C");
    assert("BattleRoyaleModeController_Def_C"@[26] == '_');
    reveal_strlit("BattleRoyaleModeController_Desert_C");
    assert("BattleRoyaleModeController_Desert_C"@[26] == '_');
    reveal_strlit("BattleRoyaleModeController_DihorOtok_C");
    assert("BattleRoyaleModeController_DihorOtok_C"@[26] == '_');
    reveal_strlit("BattleRoyaleModeController_Heaven_C");
    assert("BattleRoyaleModeController_Heaven_C"@[26] == '_');
    reveal_strlit("BattleRoyaleModeController_Kiki_C");
    assert("BattleRoyaleModeController_Kiki_C"@[26] == '_');
    reveal_strlit("BattleRoyaleModeController_Savage_C");
    assert("BattleRoyaleModeController_Savage_C"@[26] == '_');
    reveal_strlit("BattleRoyaleModeController_Summerland_C");
    assert("BattleRoyaleModeController_Summerland_C"@[26] == '_');
    reveal_strlit("BattleRoyaleModeController_Tiger_C");
    assert("BattleRoyaleModeController_Tiger_C"@[26] == '_');
    reveal_strlit("BlackZoneController_Def_C");
    assert("BlackZoneController_Def_C"@[19] == '_');
    reveal_strlit("Bluezonebomb_EffectActor_C");
    assert("Bluezonebomb_EffectActor_C"@[12] == '_');
    reveal_strlit("Boat_PG117_C");
    assert("Boat_PG117_C"@[4] == '_');
    reveal_strlit("Buff_DecreaseBreathInApnea_C");
    assert("Buff_DecreaseBreathInApnea_C"@[4] == '_');
    reveal_strlit("Buggy_A_01_C");
    assert("Buggy_A_01_C"@[5] == '_');
    reveal_strlit("Buggy_A_02_C");
    assert("Buggy_A_02_C"@[5] == '_');
    reveal_strlit("Buggy_A_03_C");
    assert("Buggy_A_03_C"@[5] == '_');
    reveal_strlit("Buggy_A_04_C");
    assert("Buggy_A_04_C"@[5] == '_');
    reveal_strlit("Buggy_A_05_C");
    assert("Buggy_A_05_C"@[5] == '_');
    reveal_strlit("Buggy_A_06_C");
    assert("Buggy_A_06_C"@[5] == '_');
    reveal_strlit("Carepackage_Container_C");
    assert("Carepackage_Container_C"@[11] == '_');
    reveal_strlit("Dacia_A_01_v2_C");
    assert("Dacia_A_01_v2_C"@[5] == '_');
    reveal_strlit("Dacia_A_01_v2_snow_C");
    assert("Dacia_A_01_v2_snow_C"@[5] == '_');
    reveal_strlit("Dacia_A_02_v2_C");
    assert("Dacia_A_02_v2_C"@[5] == '_');
    reveal_strlit("Dacia_A_03_v2_C");
    assert("Dacia_A_03_v2_C"@[5] == '_');
    reveal_strlit("Dacia_A_03_v2_Esports_C");
    assert("Dacia_A_03_v2_Esports_C"@[5] == '_');
    reveal_strlit("Dacia_A_04_v2_C");
    assert("Dacia_A_04_v2_C"@[5] == '_');
    reveal_strlit("DroppedItemGroup");
    reveal_strlit("EmergencyAircraft_Tiger_C");
    assert("EmergencyAircraft_Tiger_C"@[17] == '_');
    reveal_strlit("Jerrycan");
    reveal_strlit("JerrycanFire");
    reveal_strlit("Lava");
    reveal_strlit("Mortar_Projectile_C");
    assert("Mortar_Projectile_C"@[6] == '_');
    reveal_strlit("None");
    reveal_strlit("PG117_A_01_C");
    assert("PG117_A_01_C"@[5] == '_');
    reveal_strlit("PanzerFaust100M_Projectile_C");
    assert("PanzerFaust100M_Projectile_C"@[15] == '_');
    reveal_strlit("PlayerFemale_A_C");
    assert("PlayerFemale_A_C"@[12] == '_');
    reveal_strlit("PlayerMale_A_C");
    assert("PlayerMale_A_C"@[10] == '_');
    reveal_strlit("ProjC4_C");
    assert("ProjC4_C"@[6] == '_');
    reveal_strlit("ProjGrenade_C");
    assert("ProjGrenade_C"@[11] == '_');
    reveal_strlit("ProjIncendiary_C");
    assert("ProjIncendiary_C"@[14] == '_');
    reveal_strlit("ProjMolotov_C");
    assert("ProjMolotov_C"@[11] == '_');
    reveal_strlit("ProjMolotov_DamageField_Direct_C");
    assert("ProjMolotov_DamageField_Direct_C"@[11] == '_');
    reveal_strlit("ProjStickyGrenade_C");
    assert("ProjStickyGrenade_C"@[17] == '_');
    reveal_strlit("RacingDestructiblePropaneTankActor_C");
    assert("RacingDestructiblePropaneTankActor_C"@[34] == '_');
    reveal_strlit("RacingModeContorller_Desert_C");
    assert("RacingModeContorller_Desert_C"@[20] == '_');
    reveal_strlit("RedZoneBomb_C");
    assert("RedZoneBomb_C"@[11] == '_');
    reveal_strlit("RedZoneBombingField");
    reveal_strlit("RedZoneBombingField_Def_C");
    assert("RedZoneBombingField_Def_C"@[19] == '_');
    reveal_strlit("SandStormBuff_BP_C");
    assert("SandStormBuff_BP_C"@[13] == '_');
    reveal_strlit("TslDestructibleSurfaceManager");
    reveal_strlit("TslPainCausingVolume");
    reveal_strlit("Uaz_A_01_C");
    assert("Uaz_A_01_C"@[3] == '_');
    reveal_strlit("Uaz_Armored_C");
    assert("Uaz_Armored_C"@[3] == '_');
    reveal_strlit("Uaz_B_01_C");
    assert("Uaz_B_01_C"@[3] == '_');
    reveal_strlit("Uaz_B_01_esports_C");
    assert("Uaz_B_01_esports_C"@[3] == '_');
    reveal_strlit("Uaz_C_01_C");
    assert("Uaz_C_01_C"@[3] == '_');
    reveal_strlit("UltAIPawn_Base_Female_C");
    assert("UltAIPawn_Base_Female_C"@[9] == '_');
    reveal_strlit("UltAIPawn_Base_Male_C");
    assert("UltAIPawn_Base_Male_C"@[9] == '_');
}

/// A text in display form: not blank, not padded, and shown as itself (either no known
/// name, or a known name that shows as itself).
#[verifier::opaque]
pub open spec fn display_form(d: Seq<char>) -> bool {
    &&& d.len() > 0
    &&& trim_seq(d) == d
    &&& (friendly_spec(d) is None || friendly_spec(d) == Some(d))
}

proof fn lemma_display_form(d: Seq<char>)
    requires
        no_underscore(d),
        d.len() > 0,
        !is_ws(d[0]),
        !is_ws(d.last()),
        plain_key_spec(d) is None || plain_key_spec(d) == Some(d),
    ensures
        display_form(d),
{
    lemma_weapon_keys(d);
    lemma_blueprint_keys(d);
    lemma_misc_keys(d);
    lemma_trim_unpadded(d);
    reveal(display_form);
}

proof fn lemma_display_names_0()
    ensures
        display_form("ACE32"@),
        display_form("AI Player"@),
        display_form("AKM"@),
{
    reveal_strlit("DroppedItemGroup");
    reveal_strlit("Jerrycan");
    reveal_strlit("JerrycanFire");
    reveal_strlit("Lava");
    reveal_strlit("None");
    reveal_strlit("RedZoneBombingField");
    reveal_strlit("TslDestructibleSurfaceManager");
    reveal_strlit("TslPainCausingVolume");
    reveal_strlit("ACE32");
    assert("ACE32"@.len() == 5);
    lemma_display_form("ACE32"@);
    reveal_strlit("AI Player");
    assert("AI Player"@.len() == 9);
    lemma_display_form("AI Player"@);
    reveal_strlit("AKM");
    assert("AKM"@.len() == 3);
    lemma_display_form("AKM"@);
}

proof fn lemma_display_names_1()
    ensures
        display_form("AUG A3"@),
        display_form("AWM"@),
        display_form("Airboat"@),
{
    reveal_strlit("DroppedItemGroup");
    reveal_strlit("Jerrycan");
    reveal_strlit("JerrycanFire");
    reveal_strlit("Lava");
    reveal_strlit("None");
    reveal_strlit("RedZoneBombingField");
    reveal_strlit("TslDestructibleSurfaceManager");
    reveal_strlit("TslPainCausingVolume");
    reveal_strlit("AUG A3");
    assert("AUG A3"@.len() == 6);
    lemma_display_form("AUG A3"@);
    reveal_strlit("AWM");
    assert("AWM"@.len() == 3);
    lemma_display_form("AWM"@);
    reveal_strlit("Airboat");
    assert("Airboat"@.len() == 7);
    lemma_display_form("Airboat"@);
}

proof fn lemma_display_names_2()
    ensures
        display_form("Aquarail"@),
        display_form("BRDM-2"@),
        display_form("Bear"@),
{
    reveal_strlit("DroppedItemGroup");
    reveal_strlit("Jerrycan");
    reveal_strlit("JerrycanFire");
    reveal_strlit("Lava");
    reveal_strlit("None");
    reveal_strlit("RedZoneBombingField");
    reveal_strlit("TslDestructibleSurfaceManager");
    reveal_strlit("TslPainCausingVolume");
    reveal_strlit("Jerrycan");
    reveal_strlit("Lava");
    reveal_strlit("None");
    reveal_strlit("Aquarail");
    assert("Aquarail"@[0] != "Jerrycan"@[0]);
    assert("Aquarail"@.len() == 8);
    lemma_display_form("Aquarail"@);
    reveal_strlit("BRDM-2");
    assert("BRDM-2"@.len() == 6);
    lemma_display_form("BRDM-2"@);
    reveal_strlit("Bear");
    assert("Bear"@[0] != "Lava"@[0]);
    assert("Bear"@[0] != "None"@[0]);
    assert("Bear"@.len() == 4);
    lemma_display_form("Bear"@);
}

proof fn lemma_display_names_3()
    ensures
        display_form("Beryl"@),
        display_form("Bizon"@),
        display_form("Blackzone"@),
{
    reveal_strlit("DroppedItemGroup");
    reveal_strlit("Jerrycan");
    reveal_strlit("JerrycanFire");
    reveal_strlit("Lava");
    reveal_strlit("None");
    reveal_strlit("RedZoneBombingField");
    reveal_strlit("TslDestructibleSurfaceManager");
    reveal_strlit("TslPainCausingVolume");
    reveal_strlit("Beryl");
    assert("Beryl"@.len() == 5);
    lemma_display_form("Beryl"@);
    reveal_strlit("Bizon");
    assert("Bizon"@.len() == 5);
    lemma_display_form("Bizon"@);
    reveal_strlit("Blackzone");
    assert("Blackzone"@.len() == 9);
    lemma_display_form("Blackzone"@);
}

proof fn lemma_display_names_4()
    ensures
        display_form("Bluezone"@),
        display_form("Bluezone Grenade"@),
        display_form("Buggy"@),
{
    reveal_strlit("DroppedItemGroup");
    reveal_strlit("Jerrycan");
    reveal_strlit("JerrycanFire");
    reveal_strlit("Lava");
    reveal_strlit("None");
    reveal_strlit("RedZoneBombingField");
    reveal_strlit("TslDestructibleSurfaceManager");
    reveal_strlit("TslPainCausingVolume");
    reveal_strlit("DroppedItemGroup");
    reveal_strlit("Jerrycan");
    reveal_strlit("Bluezone");
    assert("Bluezone"@[0] != "Jerrycan"@[0]);
    assert("Bluezone"@.len() == 8);
    lemma_display_form("Bluezone"@);
    reveal_strlit("Bluezone Grenade");
    assert("Bluezone Grenade"@[0] != "DroppedItemGroup"@[0]);
    assert("Bluezone Grenade"@.len() == 16);
    lemma_display_form("Bluezone Grenade"@);
    reveal_strlit("Buggy");
    assert("Buggy"@.len() == 5);
    lemma_display_form("Buggy"@);
}

proof fn lemma_display_names_5()
    ensures
        display_form("Burn"@),
        display_form("C4"@),
        display_form("Care Package"@),
{
    reveal_strlit("DroppedItemGroup");
    reveal_strlit("Jerrycan");
    reveal_strlit("JerrycanFire");
    reveal_strlit("Lava");
    reveal_strlit("None");
    reveal_strlit("RedZoneBombingField");
    reveal_strlit("TslDestructibleSurfaceManager");
    reveal_strlit("TslPainCausingVolume");
    reveal_strlit("JerrycanFire");
    reveal_strlit("Lava");
    reveal_strlit("None");
    reveal_strlit("Burn");
    assert("Burn"@[0] != "Lava"@[0]);
    assert("Burn"@[0] != "None"@[0]);
    assert("Burn"@.len() == 4);
    lemma_display_form("Burn"@);
    reveal_strlit("C4");
    assert("C4"@.len() == 2);
    lemma_display_form("C4"@);
    reveal_strlit("Care Package");
    assert("Care Package"@[0] != "JerrycanFire"@[0]);
    assert("Care Package"@.len() == 12);
    lemma_display_form("Care Package"@);
}

proof fn lemma_display_names_6()
    ensures
        display_form("Coupe RB"@),
        display_form("Coupe SUV"@),
        display_form("Crossbow"@),
{
    reveal_strlit("DroppedItemGroup");
    reveal_strlit("Jerrycan");
    reveal_strlit("JerrycanFire");
    reveal_strlit("Lava");
    reveal_strlit("None");
    reveal_strlit("RedZoneBombingField");
    reveal_strlit("TslDestructibleSurfaceManager");
    reveal_strlit("TslPainCausingVolume");
    reveal_strlit("Jerrycan");
    reveal_strlit("Coupe RB");
    assert("Coupe RB"@[0] != "Jerrycan"@[0]);
    assert("Coupe RB"@.len() == 8);
    lemma_display_form("Coupe RB"@);
    reveal_strlit("Coupe SUV");
    assert("Coupe SUV"@.len() == 9);
    lemma_display_form("Coupe SUV"@);
    reveal_strlit("Crossbow");
    assert("Crossbow"@[0] != "Jerrycan"@[0]);
    assert("Crossbow"@.len() == 8);
    lemma_display_form("Crossbow"@);
}

proof fn lemma_display_names_7()
    ensures
        display_form("Crowbar"@),
        display_form("Crowbar Projectile"@),
        display_form("DBS"@),
{
    reveal_strlit("DroppedItemGroup");
    reveal_strlit("Jerrycan");
    reveal_strlit("JerrycanFire");
    reveal_strlit("Lava");
    reveal_strlit("None");
    reveal_strlit("RedZoneBombingField");
    reveal_strlit("TslDestructibleSurfaceManager");
    reveal_strlit("TslPainCausingVolume");
    reveal_strlit("Crowbar");
    assert("Crowbar"@.len() == 7);
    lemma_display_form("Crowbar"@);
    reveal_strlit("Crowbar Projectile");
    assert("Crowbar Projectile"@.len() == 18);
    lemma_display_form("Crowbar Projectile"@);
    reveal_strlit("DBS");
    assert("DBS"@.len() == 3);
    lemma_display_form("DBS"@);
}

proof fn lemma_display_names_8()
    ensures
        display_form("DP-28"@),
        display_form("Dacia"@),
        display_form("Deagle"@),
{
    reveal_strlit("DroppedItemGroup");
    reveal_strlit("Jerrycan");
    reveal_strlit("JerrycanFire");
    reveal_strlit("Lava");
    reveal_strlit("None");
    reveal_strlit("RedZoneBombingField");
    reveal_strlit("TslDestructibleSurfaceManager");
    reveal_strlit("TslPainCausingVolume");
    reveal_strlit("DP-28");
    assert("DP-28"@.len() == 5);
    lemma_display_form("DP-28"@);
    reveal_strlit("Dacia");
    assert("Dacia"@.len() == 5);
    lemma_display_form("Dacia"@);
    reveal_strlit("Deagle");
    assert("Deagle"@.len() == 6);
    lemma_display_form("Deagle"@);
}

proof fn lemma_display_names_9()
    ensures
        display_form("Destructible Surface"@),
        display_form("Dirt Bike"@),
        display_form("Dragunov"@),
{
    reveal_strlit("DroppedItemGroup");
    reveal_strlit("Jerrycan");
    reveal_strlit("JerrycanFire");
    reveal_strlit("Lava");
    reveal_strlit("None");
    reveal_strlit("RedZoneBombingField");
    reveal_strlit("TslDestructibleSurfaceManager");
    reveal_strlit("TslPainCausingVolume");
    reveal_strlit("Jerrycan");
    reveal_strlit("TslPainCausingVolume");
    reveal_strlit("Destructible Surface");
    assert("Destructible Surface"@[0] != "TslPainCausingVolume"@[0]);
    assert("Destructible Surface"@.len() == 20);
    lemma_display_form("Destructible Surface"@);
    reveal_strlit("Dirt Bike");
    assert("Dirt Bike"@.len() == 9);
    lemma_display_form("Dirt Bike"@);
    reveal_strlit("Dragunov");
    assert("Dragunov"@[0] != "Jerrycan"@[0]);
    assert("Dragunov"@.len() == 8);
    lemma_display_form("Dragunov"@);
}

proof fn lemma_display_names_10()
    ensures
        display_form("Drone"@),
        display_form("Drowning"@),
        display_form("Emergency Aircraft"@),
{
    reveal_strlit("DroppedItemGroup");
    reveal_strlit("Jerrycan");
    reveal_strlit("JerrycanFire");
    reveal_strlit("Lava");
    reveal_strlit("None");
    reveal_strlit("RedZoneBombingField");
    reveal_strlit("TslDestructibleSurfaceManager");
    reveal_strlit("TslPainCausingVolume");
    reveal_strlit("Jerrycan");
    reveal_strlit("Drone");
    assert("Drone"@.len() == 5);
    lemma_display_form("Drone"@);
    reveal_strlit("Drowning");
    assert("Drowning"@[0] != "Jerrycan"@[0]);
    assert("Drowning"@.len() == 8);
    lemma_display_form("Drowning"@);
    reveal_strlit("Emergency Aircraft");
    assert("Emergency Aircraft"@.len() == 18);
    lemma_display_form("Emergency Aircraft"@);
}

proof fn lemma_display_names_11()
    ensures
        display_form("Ferry Damage"@),
        display_form("Food Truck"@),
        display_form("Frag Grenade"@),
{
    reveal_strlit("DroppedItemGroup");
    reveal_strlit("Jerrycan");
    reveal_strlit("JerrycanFire");
    reveal_strlit("Lava");
    reveal_strlit("None");
    reveal_strlit("RedZoneBombingField");
    reveal_strlit("TslDestructibleSurfaceManager");
    reveal_strlit("TslPainCausingVolume");
    reveal_strlit("JerrycanFire");
    reveal_strlit("Ferry Damage");
    assert("Ferry Damage"@[0] != "JerrycanFire"@[0]);
    assert("Ferry Damage"@.len() == 12);
    lemma_display_form("Ferry Damage"@);
    reveal_strlit("Food Truck");
    assert("Food Truck"@.len() == 10);
    lemma_display_form("Food Truck"@);
    reveal_strlit("Frag Grenade");
    assert("Frag Grenade"@[0] != "JerrycanFire"@[0]);
    assert("Frag Grenade"@.len() == 12);
    lemma_display_form("Frag Grenade"@);
}

proof fn lemma_display_names_12()
    ensures
        display_form("G36C"@),
        display_form("Gas Pump"@),
        display_form("Groza"@),
{
    reveal_strlit("DroppedItemGroup");
    reveal_strlit("Jerrycan");
    reveal_strlit("JerrycanFire");
    reveal_strlit("Lava");
    reveal_strlit("None");
    reveal_strlit("RedZoneBombingField");
    reveal_strlit("TslDestructibleSurfaceManager");
    reveal_strlit("TslPainCausingVolume");
    reveal_strlit("Jerrycan");
    reveal_strlit("Lava");
    reveal_strlit("None");
    reveal_strlit("G36C");
    assert("G36C"@[0] != "Lava"@[0]);
    assert("G36C"@[0] != "None"@[0]);
    assert("G36C"@.len() == 4);
    lemma_display_form("G36C"@);
    reveal_strlit("Gas Pump");
    assert("Gas Pump"@[0] != "Jerrycan"@[0]);
    assert("Gas Pump"@.len() == 8);
    lemma_display_form("Gas Pump"@);
    reveal_strlit("Groza");
    assert("Groza"@.len() == 5);
    lemma_display_form("Groza"@);
}

proof fn lemma_display_names_13()
    ensures
        display_form("Incendiary Projectile"@),
        display_form("JS9"@),
        display_form("Jerrycan"@),
{
    reveal_strlit("DroppedItemGroup");
    reveal_strlit("Jerrycan");
    reveal_strlit("JerrycanFire");
    reveal_strlit("Lava");
    reveal_strlit("None");
    reveal_strlit("RedZoneBombingField");
    reveal_strlit("TslDestructibleSurfaceManager");
    reveal_strlit("TslPainCausingVolume");
    reveal_strlit("Jerrycan");
    reveal_strlit("Incendiary Projectile");
    assert("Incendiary Projectile"@.len() == 21);
    lemma_display_form("Incendiary Projectile"@);
    reveal_strlit("JS9");
    assert("JS9"@.len() == 3);
    lemma_display_form("JS9"@);
    reveal_strlit("Jerrycan");
    assert("Jerrycan"@.len() == 8);
    lemma_display_form("Jerrycan"@);
}

proof fn lemma_display_names_14()
    ensures
        display_form("Jerrycan Fire"@),
        display_form("K2"@),
        display_form("Kar98k"@),
{
    reveal_strlit("DroppedItemGroup");
    reveal_strlit("Jerrycan");
    reveal_strlit("JerrycanFire");
    reveal_strlit("Lava");
    reveal_strlit("None");
    reveal_strlit("RedZoneBombingField");
    reveal_strlit("TslDestructibleSurfaceManager");
    reveal_strlit("TslPainCausingVolume");
    reveal_strlit("Jerrycan Fire");
    assert("Jerrycan Fire"@.len() == 13);
    lemma_display_form("Jerrycan Fire"@);
    reveal_strlit("K2");
    assert("K2"@.len() == 2);
    lemma_display_form("K2"@);
    reveal_strlit("Kar98k");
    assert("Kar98k"@.len() == 6);
    lemma_display_form("Kar98k"@);
}

proof fn lemma_display_names_15()
    ensures
        display_form("Kill Truck"@),
        display_form("Kill Truck Turret"@),
        display_form("Lava"@),
{
    reveal_strlit("DroppedItemGroup");
    reveal_strlit("Jerrycan");
    reveal_strlit("JerrycanFire");
    reveal_strlit("Lava");
    reveal_strlit("None");
    reveal_strlit("RedZoneBombingField");
    reveal_strlit("TslDestructibleSurfaceManager");
    reveal_strlit("TslPainCausingVolume");
    reveal_strlit("Lava");
    reveal_strlit("None");
    reveal_strlit("Kill Truck");
    assert("Kill Truck"@.len() == 10);
    lemma_display_form("Kill Truck"@);
    reveal_strlit("Kill Truck Turret");
    assert("Kill Truck Turret"@.len() == 17);
    lemma_display_form("Kill Truck Turret"@);
    reveal_strlit("Lava");
    assert("Lava"@[0] != "None"@[0]);
    assert("Lava"@.len() == 4);
    lemma_display_form("Lava"@);
}

proof fn lemma_display_names_16()
    ensures
        display_form("Loot Truck"@),
        display_form("Lynx AMR"@),
        display_form("M16A4"@),
{
    reveal_strlit("DroppedItemGroup");
    reveal_strlit("Jerrycan");
    reveal_strlit("JerrycanFire");
    reveal_strlit("Lava");
    reveal_strlit("None");
    reveal_strlit("RedZoneBombingField");
    reveal_strlit("TslDestructibleSurfaceManager");
    reveal_strlit("TslPainCausingVolume");
    reveal_strlit("Jerrycan");
    reveal_strlit("Loot Truck");
    assert("Loot Truck"@.len() == 10);
    lemma_display_form("Loot Truck"@);
    reveal_strlit("Lynx AMR");
    assert("Lynx AMR"@[0] != "Jerrycan"@[0]);
    assert("Lynx AMR"@.len() == 8);
    lemma_display_form("Lynx AMR"@);
    reveal_strlit("M16A4");
    assert("M16A4"@.len() == 5);
    lemma_display_form("M16A4"@);
}

proof fn lemma_display_names_17()
    ensures
        display_form("M24"@),
        display_form("M249"@),
        display_form("M416"@),
{
    reveal_strlit("DroppedItemGroup");
    reveal_strlit("Jerrycan");
    reveal_strlit("JerrycanFire");
    reveal_strlit("Lava");
    reveal_strlit("None");
    reveal_strlit("RedZoneBombingField");
    reveal_strlit("TslDestructibleSurfaceManager");
    reveal_strlit("TslPainCausingVolume");
    reveal_strlit("Lava");
    reveal_strlit("None");
    reveal_strlit("M24");
    assert("M24"@.len() == 3);
    lemma_display_form("M24"@);
    reveal_strlit("M249");
    assert("M249"@[0] != "Lava"@[0]);
    assert("M249"@[0] != "None"@[0]);
    assert("M249"@.len() == 4);
    lemma_display_form("M249"@);
    reveal_strlit("M416");
    assert("M416"@[0] != "Lava"@[0]);
    assert("M416"@[0] != "None"@[0]);
    assert("M416"@.len() == 4);
    lemma_display_form("M416"@);
}

proof fn lemma_display_names_18()
    ensures
        display_form("MG3"@),
        display_form("MP5K"@),
        display_form("MP9"@),
{
    reveal_strlit("DroppedItemGroup");
    reveal_strlit("Jerrycan");
    reveal_strlit("JerrycanFire");
    reveal_strlit("Lava");
    reveal_strlit("None");
    reveal_strlit("RedZoneBombingField");
    reveal_strlit("TslDestructibleSurfaceManager");
    reveal_strlit("TslPainCausingVolume");
    reveal_strlit("Lava");
    reveal_strlit("None");
    reveal_strlit("MG3");
    assert("MG3"@.len() == 3);
    lemma_display_form("MG3"@);
    reveal_strlit("MP5K");
    assert("MP5K"@[0] != "Lava"@[0]);
    assert("MP5K"@[0] != "None"@[0]);
    assert("MP5K"@.len() == 4);
    lemma_display_form("MP5K"@);
    reveal_strlit("MP9");
    assert("MP9"@.len() == 3);
    lemma_display_form("MP9"@);
}

proof fn lemma_display_names_19()
    ensures
        display_form("Machete"@),
        display_form("Machete Projectile"@),
        display_form("Micro Uzi"@),
{
    reveal_strlit("DroppedItemGroup");
    reveal_strlit("Jerrycan");
    reveal_strlit("JerrycanFire");
    reveal_strlit("Lava");
    reveal_strlit("None");
    reveal_strlit("RedZoneBombingField");
    reveal_strlit("TslDestructibleSurfaceManager");
    reveal_strlit("TslPainCausingVolume");
    reveal_strlit("Machete");
    assert("Machete"@.len() == 7);
    lemma_display_form("Machete"@);
    reveal_strlit("Machete Projectile");
    assert("Machete Projectile"@.len() == 18);
    lemma_display_form("Machete Projectile"@);
    reveal_strlit("Micro Uzi");
    assert("Micro Uzi"@.len() == 9);
    lemma_display_form("Micro Uzi"@);
}

proof fn lemma_display_names_20()
    ensures
        display_form("Mini 14"@),
        display_form("Mirado"@),
        display_form("Mirado (open top)"@),
{
    reveal_strlit("DroppedItemGroup");
    reveal_strlit("Jerrycan");
    reveal_strlit("JerrycanFire");
    reveal_strlit("Lava");
    reveal_strlit("None");
    reveal_strlit("RedZoneBombingField");
    reveal_strlit("TslDestructibleSurfaceManager");
    reveal_strlit("TslPainCausingVolume");
    reveal_strlit("Mini 14");
    assert("Mini 14"@.len() == 7);
    lemma_display_form("Mini 14"@);
    reveal_strlit("Mirado");
    assert("Mirado"@.len() == 6);
    lemma_display_form("Mirado"@);
    reveal_strlit("Mirado (open top)");
    assert("Mirado (open top)"@.len() == 17);
    lemma_display_form("Mirado (open top)"@);
}

proof fn lemma_display_names_21()
    ensures
        display_form("Mk12"@),
        display_form("Mk14 EBR"@),
        display_form("Mk47 Mutant"@),
{
    reveal_strlit("DroppedItemGroup");
    reveal_strlit("Jerrycan");
    reveal_strlit("JerrycanFire");
    reveal_strlit("Lava");
    reveal_strlit("None");
    reveal_strlit("RedZoneBombingField");
    reveal_strlit("TslDestructibleSurfaceManager");
    reveal_strlit("TslPainCausingVolume");
    reveal_strlit("Jerrycan");
    reveal_strlit("Lava");
    reveal_strlit("None");
    reveal_strlit("Mk12");
    assert("Mk12"@[0] != "Lava"@[0]);
    assert("Mk12"@[0] != "None"@[0]);
    assert("Mk12"@.len() == 4);
    lemma_display_form("Mk12"@);
    reveal_strlit("Mk14 EBR");
    assert("Mk14 EBR"@[0] != "Jerrycan"@[0]);
    assert("Mk14 EBR"@.len() == 8);
    lemma_display_form("Mk14 EBR"@);
    reveal_strlit("Mk47 Mutant");
    assert("Mk47 Mutant"@.len() == 11);
    lemma_display_form("Mk47 Mutant"@);
}

proof fn lemma_display_names_22()
    ensures
        display_form("Molotov Cocktail"@),
        display_form("Molotov Cocktail Fire Field"@),
        display_form("Molotov Fire"@),
{
    reveal_strlit("DroppedItemGroup");
    reveal_strlit("Jerrycan");
    reveal_strlit("JerrycanFire");
    reveal_strlit("Lava");
    reveal_strlit("None");
    reveal_strlit("RedZoneBombingField");
    reveal_strlit("TslDestructibleSurfaceManager");
    reveal_strlit("TslPainCausingVolume");
    reveal_strlit("DroppedItemGroup");
    reveal_strlit("JerrycanFire");
    reveal_strlit("Molotov Cocktail");
    assert("Molotov Cocktail"@[0] != "DroppedItemGroup"@[0]);
    assert("Molotov Cocktail"@.len() == 16);
    lemma_display_form("Molotov Cocktail"@);
    reveal_strlit("Molotov Cocktail Fire Field");
    assert("Molotov Cocktail Fire Field"@.len() == 27);
    lemma_display_form("Molotov Cocktail Fire Field"@);
    reveal_strlit("Molotov Fire");
    assert("Molotov Fire"@[0] != "JerrycanFire"@[0]);
    assert("Molotov Fire"@.len() == 12);
    lemma_display_form("Molotov Fire"@);
}

proof fn lemma_display_names_23()
    ensures
        display_form("Molotov Fire Damage"@),
        display_form("Mortar Projectile"@),
        display_form("Mosin-Nagant"@),
{
    reveal_strlit("DroppedItemGroup");
    reveal_strlit("Jerrycan");
    reveal_strlit("JerrycanFire");
    reveal_strlit("Lava");
    reveal_strlit("None");
    reveal_strlit("RedZoneBombingField");
    reveal_strlit("TslDestructibleSurfaceManager");
    reveal_strlit("TslPainCausingVolume");
    reveal_strlit("JerrycanFire");
    reveal_strlit("RedZoneBombingField");
    reveal_strlit("Molotov Fire Damage");
    assert("Molotov Fire Damage"@[0] != "RedZoneBombingField"@[0]);
    assert("Molotov Fire Damage"@.len() == 19);
    lemma_display_form("Molotov Fire Damage"@);
    reveal_strlit("Mortar Projectile");
    assert("Mortar Projectile"@.len() == 17);
    lemma_display_form("Mortar Projectile"@);
    reveal_strlit("Mosin-Nagant");
    assert("Mosin-Nagant"@[0] != "JerrycanFire"@[0]);
    assert("Mosin-Nagant"@.len() == 12);
    lemma_display_form("Mosin-Nagant"@);
}

proof fn lemma_display_names_24()
    ensures
        display_form("Motor Glider"@),
        display_form("Motorcycle"@),
        display_form("Motorcycle (w/ Sidecar)"@),
{
    reveal_strlit("DroppedItemGroup");
    reveal_strlit("Jerrycan");
    reveal_strlit("JerrycanFire");
    reveal_strlit("Lava");
    reveal_strlit("None");
    reveal_strlit("RedZoneBombingField");
    reveal_strlit("TslDestructibleSurfaceManager");
    reveal_strlit("TslPainCausingVolume");
    reveal_strlit("JerrycanFire");
    reveal_strlit("Motor Glider");
    assert("Motor Glider"@[0] != "JerrycanFire"@[0]);
    assert("Motor Glider"@.len() == 12);
    lemma_display_form("Motor Glider"@);
    reveal_strlit("Motorcycle");
    assert("Motorcycle"@.len() == 10);
    lemma_display_form("Motorcycle"@);
    reveal_strlit("Motorcycle (w/ Sidecar)");
    assert("Motorcycle (w/ Sidecar)"@.len() == 23);
    lemma_display_form("Motorcycle (w/ Sidecar)"@);
}

proof fn lemma_display_names_25()
    ensures
        display_form("Mountain Bike"@),
        display_form("None"@),
        display_form("O12"@),
{
    reveal_strlit("DroppedItemGroup");
    reveal_strlit("Jerrycan");
    reveal_strlit("JerrycanFire");
    reveal_strlit("Lava");
    reveal_strlit("None");
    reveal_strlit("RedZoneBombingField");
    reveal_strlit("TslDestructibleSurfaceManager");
    reveal_strlit("TslPainCausingVolume");
    reveal_strlit("Lava");
    reveal_strlit("None");
    reveal_strlit("Mountain Bike");
    assert("Mountain Bike"@.len() == 13);
    lemma_display_form("Mountain Bike"@);
    reveal_strlit("None");
    assert("None"@[0] != "Lava"@[0]);
    assert("None"@.len() == 4);
    lemma_display_form("None"@);
    reveal_strlit("O12");
    assert("O12"@.len() == 3);
    lemma_display_form("O12"@);
}

proof fn lemma_display_names_26()
    ensures
        display_form("Object Fragments"@),
        display_form("P18C"@),
        display_form("P1911"@),
{
    reveal_strlit("DroppedItemGroup");
    reveal_strlit("Jerrycan");
    reveal_strlit("JerrycanFire");
    reveal_strlit("Lava");
    reveal_strlit("None");
    reveal_strlit("RedZoneBombingField");
    reveal_strlit("TslDestructibleSurfaceManager");
    reveal_strlit("TslPainCausingVolume");
    reveal_strlit("DroppedItemGroup");
    reveal_strlit("Lava");
    reveal_strlit("None");
    reveal_strlit("Object Fragments");
    assert("Object Fragments"@[0] != "DroppedItemGroup"@[0]);
    assert("Object Fragments"@.len() == 16);
    lemma_display_form("Object Fragments"@);
    reveal_strlit("P18C");
    assert("P18C"@[0] != "Lava"@[0]);
    assert("P18C"@[0] != "None"@[0]);
    assert("P18C"@.len() == 4);
    lemma_display_form("P18C"@);
    reveal_strlit("P1911");
    assert("P1911"@.len() == 5);
    lemma_display_form("P1911"@);
}

proof fn lemma_display_names_27()
    ensures
        display_form("P90"@),
        display_form("P92"@),
        display_form("PG-117"@),
{
    reveal_strlit("DroppedItemGroup");
    reveal_strlit("Jerrycan");
    reveal_strlit("JerrycanFire");
    reveal_strlit("Lava");
    reveal_strlit("None");
    reveal_strlit("RedZoneBombingField");
    reveal_strlit("TslDestructibleSurfaceManager");
    reveal_strlit("TslPainCausingVolume");
    reveal_strlit("P90");
    assert("P90"@.len() == 3);
    lemma_display_form("P90"@);
    reveal_strlit("P92");
    assert("P92"@.len() == 3);
    lemma_display_form("P92"@);
    reveal_strlit("PG-117");
    assert("PG-117"@.len() == 6);
    lemma_display_form("PG-117"@);
}

proof fn lemma_display_names_28()
    ensures
        display_form("Pan"@),
        display_form("Pan Projectile"@),
        display_form("Panzerfaust"@),
{
    reveal_strlit("DroppedItemGroup");
    reveal_strlit("Jerrycan");
    reveal_strlit("JerrycanFire");
    reveal_strlit("Lava");
    reveal_strlit("None");
    reveal_strlit("RedZoneBombingField");
    reveal_strlit("TslDestructibleSurfaceManager");
    reveal_strlit("TslPainCausingVolume");
    reveal_strlit("Pan");
    assert("Pan"@.len() == 3);
    lemma_display_form("Pan"@);
    reveal_strlit("Pan Projectile");
    assert("Pan Projectile"@.len() == 14);
    lemma_display_form("Pan Projectile"@);
    reveal_strlit("Panzerfaust");
    assert("Panzerfaust"@.len() == 11);
    lemma_display_form("Panzerfaust"@);
}

proof fn lemma_display_names_29()
    ensures
        display_form("Panzerfaust Projectile"@),
        display_form("Pickup Truck (closed top)"@),
        display_form("Pickup Truck (open top)"@),
{
    reveal_strlit("DroppedItemGroup");
    reveal_strlit("Jerrycan");
    reveal_strlit("JerrycanFire");
    reveal_strlit("Lava");
    reveal_strlit("None");
    reveal_strlit("RedZoneBombingField");
    reveal_strlit("TslDestructibleSurfaceManager");
    reveal_strlit("TslPainCausingVolume");
    reveal_strlit("Panzerfaust Projectile");
    assert("Panzerfaust Projectile"@.len() == 22);
    lemma_display_form("Panzerfaust Projectile"@);
    reveal_strlit("Pickup Truck (closed top)");
    assert("Pickup Truck (closed top)"@.len() == 25);
    lemma_display_form("Pickup Truck (closed top)"@);
    reveal_strlit("Pickup Truck (open top)");
    assert("Pickup Truck (open top)"@.len() == 23);
    lemma_display_form("Pickup Truck (open top)"@);
}

proof fn lemma_display_names_30()
    ensures
        display_form("Pillar Scout Helicopter"@),
        display_form("Pillar Security Car"@),
        display_form("Player"@),
{
    reveal_strlit("DroppedItemGroup");
    reveal_strlit("Jerrycan");
    reveal_strlit("JerrycanFire");
    reveal_strlit("Lava");
    reveal_strlit("None");
    reveal_strlit("RedZoneBombingField");
    reveal_strlit("TslDestructibleSurfaceManager");
    reveal_strlit("TslPainCausingVolume");
    reveal_strlit("RedZoneBombingField");
    reveal_strlit("Pillar Scout Helicopter");
    assert("Pillar Scout Helicopter"@.len() == 23);
    lemma_display_form("Pillar Scout Helicopter"@);
    reveal_strlit("Pillar Security Car");
    assert("Pillar Security Car"@[0] != "RedZoneBombingField"@[0]);
    assert("Pillar Security Car"@.len() == 19);
    lemma_display_form("Pillar Security Car"@);
    reveal_strlit("Player");
    assert("Player"@.len() == 6);
    lemma_display_form("Player"@);
}

proof fn lemma_display_names_31()
    ensures
        display_form("Pony Coupe"@),
        display_form("Porter"@),
        display_form("Propane Tank"@),
{
    reveal_strlit("DroppedItemGroup");
    reveal_strlit("Jerrycan");
    reveal_strlit("JerrycanFire");
    reveal_strlit("Lava");
    reveal_strlit("None");
    reveal_strlit("RedZoneBombingField");
    reveal_strlit("TslDestructibleSurfaceManager");
    reveal_strlit("TslPainCausingVolume");
    reveal_strlit("JerrycanFire");
    reveal_strlit("Pony Coupe");
    assert("Pony Coupe"@.len() == 10);
    lemma_display_form("Pony Coupe"@);
    reveal_strlit("Porter");
    assert("Porter"@.len() == 6);
    lemma_display_form("Porter"@);
    reveal_strlit("Propane Tank");
    assert("Propane Tank"@[0] != "JerrycanFire"@[0]);
    assert("Propane Tank"@.len() == 12);
    lemma_display_form("Propane Tank"@);
}

proof fn lemma_display_names_32()
    ensures
        display_form("QBU88"@),
        display_form("QBZ95"@),
        display_form("Quad"@),
{
    reveal_strlit("DroppedItemGroup");
    reveal_strlit("Jerrycan");
    reveal_strlit("JerrycanFire");
    reveal_strlit("Lava");
    reveal_strlit("None");
    reveal_strlit("RedZoneBombingField");
    reveal_strlit("TslDestructibleSurfaceManager");
    reveal_strlit("TslPainCausingVolume");
    reveal_strlit("Lava");
    reveal_strlit("None");
    reveal_strlit("QBU88");
    assert("QBU88"@.len() == 5);
    lemma_display_form("QBU88"@);
    reveal_strlit("QBZ95");
    assert("QBZ95"@.len() == 5);
    lemma_display_form("QBZ95"@);
    reveal_strlit("Quad");
    assert("Quad"@[0] != "Lava"@[0]);
    assert("Quad"@[0] != "None"@[0]);
    assert("Quad"@.len() == 4);
    lemma_display_form("Quad"@);
}

proof fn lemma_display_names_33()
    ensures
        display_form("R1895"@),
        display_form("R45"@),
        display_form("Redzone"@),
{
    reveal_strlit("DroppedItemGroup");
    reveal_strlit("Jerrycan");
    reveal_strlit("JerrycanFire");
    reveal_strlit("Lava");
    reveal_strlit("None");
    reveal_strlit("RedZoneBombingField");
    reveal_strlit("TslDestructibleSurfaceManager");
    reveal_strlit("TslPainCausingVolume");
    reveal_strlit("R1895");
    assert("R1895"@.len() == 5);
    lemma_display_form("R1895"@);
    reveal_strlit("R45");
    assert("R45"@.len() == 3);
    lemma_display_form("R45"@);
    reveal_strlit("Redzone");
    assert("Redzone"@.len() == 7);
    lemma_display_form("Redzone"@);
}

proof fn lemma_display_names_34()
    ensures
        display_form("Rony"@),
        display_form("S12K"@),
        display_form("S1897"@),
{
    reveal_strlit("DroppedItemGroup");
    reveal_strlit("Jerrycan");
    reveal_strlit("JerrycanFire");
    reveal_strlit("Lava");
    reveal_strlit("None");
    reveal_strlit("RedZoneBombingField");
    reveal_strlit("TslDestructibleSurfaceManager");
    reveal_strlit("TslPainCausingVolume");
    reveal_strlit("Lava");
    reveal_strlit("None");
    reveal_strlit("Rony");
    assert("Rony"@[0] != "Lava"@[0]);
    assert("Rony"@[0] != "None"@[0]);
    assert("Rony"@.len() == 4);
    lemma_display_form("Rony"@);
    reveal_strlit("S12K");
    assert("S12K"@[0] != "Lava"@[0]);
    assert("S12K"@[0] != "None"@[0]);
    assert("S12K"@.len() == 4);
    lemma_display_form("S12K"@);
    reveal_strlit("S1897");
    assert("S1897"@.len() == 5);
    lemma_display_form("S1897"@);
}

proof fn lemma_display_names_35()
    ensures
        display_form("S686"@),
        display_form("SCAR-L"@),
        display_form("SKS"@),
{
    reveal_strlit("DroppedItemGroup");
    reveal_strlit("Jerrycan");
    reveal_strlit("JerrycanFire");
    reveal_strlit("Lava");
    reveal_strlit("None");
    reveal_strlit("RedZoneBombingField");
    reveal_strlit("TslDestructibleSurfaceManager");
    reveal_strlit("TslPainCausingVolume");
    reveal_strlit("Lava");
    reveal_strlit("None");
    reveal_strlit("S686");
    assert("S686"@[0] != "Lava"@[0]);
    assert("S686"@[0] != "None"@[0]);
    assert("S686"@.len() == 4);
    lemma_display_form("S686"@);
    reveal_strlit("SCAR-L");
    assert("SCAR-L"@.len() == 6);
    lemma_display_form("SCAR-L"@);
    reveal_strlit("SKS");
    assert("SKS"@.len() == 3);
    lemma_display_form("SKS"@);
}

proof fn lemma_display_names_36()
    ensures
        display_form("SLR"@),
        display_form("Sandstorm"@),
        display_form("Sawed-off"@),
{
    reveal_strlit("DroppedItemGroup");
    reveal_strlit("Jerrycan");
    reveal_strlit("JerrycanFire");
    reveal_strlit("Lava");
    reveal_strlit("None");
    reveal_strlit("RedZoneBombingField");
    reveal_strlit("TslDestructibleSurfaceManager");
    reveal_strlit("TslPainCausingVolume");
    reveal_strlit("SLR");
    assert("SLR"@.len() == 3);
    lemma_display_form("SLR"@);
    reveal_strlit("Sandstorm");
    assert("Sandstorm"@.len() == 9);
    lemma_display_form("Sandstorm"@);
    reveal_strlit("Sawed-off");
    assert("Sawed-off"@.len() == 9);
    lemma_display_form("Sawed-off"@);
}

proof fn lemma_display_names_37()
    ensures
        display_form("Scooter"@),
        display_form("Sickle"@),
        display_form("Sickle Projectile"@),
{
    reveal_strlit("DroppedItemGroup");
    reveal_strlit("Jerrycan");
    reveal_strlit("JerrycanFire");
    reveal_strlit("Lava");
    reveal_strlit("None");
    reveal_strlit("RedZoneBombingField");
    reveal_strlit("TslDestructibleSurfaceManager");
    reveal_strlit("TslPainCausingVolume");
    reveal_strlit("Scooter");
    assert("Scooter"@.len() == 7);
    lemma_display_form("Scooter"@);
    reveal_strlit("Sickle");
    assert("Sickle"@.len() == 6);
    lemma_display_form("Sickle"@);
    reveal_strlit("Sickle Projectile");
    assert("Sickle Projectile"@.len() == 17);
    lemma_display_form("Sickle Projectile"@);
}

proof fn lemma_display_names_38()
    ensures
        display_form("Skorpion"@),
        display_form("Snowbike"@),
        display_form("Snowmobile"@),
{
    reveal_strlit("DroppedItemGroup");
    reveal_strlit("Jerrycan");
    reveal_strlit("JerrycanFire");
    reveal_strlit("Lava");
    reveal_strlit("None");
    reveal_strlit("RedZoneBombingField");
    reveal_strlit("TslDestructibleSurfaceManager");
    reveal_strlit("TslPainCausingVolume");
    reveal_strlit("Jerrycan");
    reveal_strlit("Skorpion");
    assert("Skorpion"@[0] != "Jerrycan"@[0]);
    assert("Skorpion"@.len() == 8);
    lemma_display_form("Skorpion"@);
    reveal_strlit("Snowbike");
    assert("Snowbike"@[0] != "Jerrycan"@[0]);
    assert("Snowbike"@.len() == 8);
    lemma_display_form("Snowbike"@);
    reveal_strlit("Snowmobile");
    assert("Snowmobile"@.len() == 10);
    lemma_display_form("Snowmobile"@);
}

proof fn lemma_display_names_39()
    ensures
        display_form("Spike Trap"@),
        display_form("Sticky Bomb"@),
        display_form("Tommy Gun"@),
{
    reveal_strlit("DroppedItemGroup");
    reveal_strlit("Jerrycan");
    reveal_strlit("JerrycanFire");
    reveal_strlit("Lava");
    reveal_strlit("None");
    reveal_strlit("RedZoneBombingField");
    reveal_strlit("TslDestructibleSurfaceManager");
    reveal_strlit("TslPainCausingVolume");
    reveal_strlit("Spike Trap");
    assert("Spike Trap"@.len() == 10);
    lemma_display_form("Spike Trap"@);
    reveal_strlit("Sticky Bomb");
    assert("Sticky Bomb"@.len() == 11);
    lemma_display_form("Sticky Bomb"@);
    reveal_strlit("Tommy Gun");
    assert("Tommy Gun"@.len() == 9);
    lemma_display_form("Tommy Gun"@);
}

proof fn lemma_display_names_40()
    ensures
        display_form("Train"@),
        display_form("Tukshai"@),
        display_form("UAZ (armored)"@),
{
    reveal_strlit("DroppedItemGroup");
    reveal_strlit("Jerrycan");
    reveal_strlit("JerrycanFire");
    reveal_strlit("Lava");
    reveal_strlit("None");
    reveal_strlit("RedZoneBombingField");
    reveal_strlit("TslDestructibleSurfaceManager");
    reveal_strlit("TslPainCausingVolume");
    reveal_strlit("Train");
    assert("Train"@.len() == 5);
    lemma_display_form("Train"@);
    reveal_strlit("Tukshai");
    assert("Tukshai"@.len() == 7);
    lemma_display_form("Tukshai"@);
    reveal_strlit("UAZ (armored)");
    assert("UAZ (armored)"@.len() == 13);
    lemma_display_form("UAZ (armored)"@);
}

proof fn lemma_display_names_41()
    ensures
        display_form("UAZ (hard top)"@),
        display_form("UAZ (open top)"@),
        display_form("UAZ (soft top)"@),
{
    reveal_strlit("DroppedItemGroup");
    reveal_strlit("Jerrycan");
    reveal_strlit("JerrycanFire");
    reveal_strlit("Lava");
    reveal_strlit("None");
    reveal_strlit("RedZoneBombingField");
    reveal_strlit("TslDestructibleSurfaceManager");
    reveal_strlit("TslPainCausingVolume");
    reveal_strlit("UAZ (hard top)");
    assert("UAZ (hard top)"@.len() == 14);
    lemma_display_form("UAZ (hard top)"@);
    reveal_strlit("UAZ (open top)");
    assert("UAZ (open top)"@.len() == 14);
    lemma_display_form("UAZ (open top)"@);
    reveal_strlit("UAZ (soft top)");
    assert("UAZ (soft top)"@.len() == 14);
    lemma_display_form("UAZ (soft top)"@);
}

proof fn lemma_display_names_42()
    ensures
        display_form("UMP9"@),
        display_form("VSS"@),
        display_form("Van"@),
{
    reveal_strlit("DroppedItemGroup");
    reveal_strlit("Jerrycan");
    reveal_strlit("JerrycanFire");
    reveal_strlit("Lava");
    reveal_strlit("None");
    reveal_strlit("RedZoneBombingField");
    reveal_strlit("TslDestructibleSurfaceManager");
    reveal_strlit("TslPainCausingVolume");
    reveal_strlit("Lava");
    reveal_strlit("None");
    reveal_strlit("UMP9");
    assert("UMP9"@[0] != "Lava"@[0]);
    assert("UMP9"@[0] != "None"@[0]);
    assert("UMP9"@.len() == 4);
    lemma_display_form("UMP9"@);
    reveal_strlit("VSS");
    assert("VSS"@.len() == 3);
    lemma_display_form("VSS"@);
    reveal_strlit("Van");
    assert("Van"@.len() == 3);
    lemma_display_form("Van"@);
}

proof fn lemma_display_names_43()
    ensures
        display_form("Vector"@),
        display_form("Win94"@),
        display_form("Zima"@),
{
    reveal_strlit("DroppedItemGroup");
    reveal_strlit("Jerrycan");
    reveal_strlit("JerrycanFire");
    reveal_strlit("Lava");
    reveal_strlit("None");
    reveal_strlit("RedZoneBombingField");
    reveal_strlit("TslDestructibleSurfaceManager");
    reveal_strlit("TslPainCausingVolume");
    reveal_strlit("Lava");
    reveal_strlit("None");
    reveal_strlit("Vector");
    assert("Vector"@.len() == 6);
    lemma_display_form("Vector"@);
    reveal_strlit("Win94");
    assert("Win94"@.len() == 5);
    lemma_display_form("Win94"@);
    reveal_strlit("Zima");
    assert("Zima"@[0] != "Lava"@[0]);
    assert("Zima"@[0] != "None"@[0]);
    assert("Zima"@.len() == 4);
    lemma_display_form("Zima"@);
}

proof fn lemma_display_names_44()
    ensures
        display_form("Unknown"@),
{
    reveal_strlit("DroppedItemGroup");
    reveal_strlit("Jerrycan");
    reveal_strlit("JerrycanFire");
    reveal_strlit("Lava");
    reveal_strlit("None");
    reveal_strlit("RedZoneBombingField");
    reveal_strlit("TslDestructibleSurfaceManager");
    reveal_strlit("TslPainCausingVolume");
    reveal_strlit("Unknown");
    assert("Unknown"@.len() == 7);
    lemma_display_form("Unknown"@);
}

/// Every display name of the table, and "Unknown", is in display form.
pub proof fn lemma_table_names_settled(v: Seq<char>)
    ensures
        friendly_spec(v) matches Some(d) ==> display_form(d),
        display_form("Unknown"@),
{
    lemma_display_names_0();
    lemma_display_names_1();
    lemma_display_names_2();
    lemma_display_names_3();
    lemma_display_names_4();
    lemma_display_names_5();
    lemma_display_names_6();
    lemma_display_names_7();
    lemma_display_names_8();
    lemma_display_names_9();
    lemma_display_names_10();
    lemma_display_names_11();
    lemma_display_names_12();
    lemma_display_names_13();
    lemma_display_names_14();
    lemma_display_names_15();
    lemma_display_names_16();
    lemma_display_names_17();
    lemma_display_names_18();
    lemma_display_names_19();
    lemma_display_names_20();
    lemma_display_names_21();
    lemma_display_names_22();
    lemma_display_names_23();
    lemma_display_names_24();
    lemma_display_names_25();
    lemma_display_names_26();
    lemma_display_names_27();
    lemma_display_names_28();
    lemma_display_names_29();
    lemma_display_names_30();
    lemma_display_names_31();
    lemma_display_names_32();
    lemma_display_names_33();
    lemma_display_names_34();
    lemma_display_names_35();
    lemma_display_names_36();
    lemma_display_names_37();
    lemma_display_names_38();
    lemma_display_names_39();
    lemma_display_names_40();
    lemma_display_names_41();
    lemma_display_names_42();
    lemma_display_names_43();
    lemma_display_names_44();
}

} // verus!
