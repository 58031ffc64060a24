//! The device capability registry: the closed set of supported hardware
//! variants, each with its hardware identifier pairs, optional lighting-
//! matrix geometry and display name, plus detection of variants from
//! enumerated host input devices.

use vstd::prelude::*;

use crate::proc_bus_input_devices::{BusInputDevice, BusInputDeviceView};
use crate::strutil::{contains_seq, str_contains};
use crate::PolychromaticError;

verus! {

/// A supported keyboard hardware variant.
#[derive(Debug, Clone, Copy, PartialEq, Eq, Structural)]
pub enum Keyboard {
    RazerBlackWidowUltimate2012,
    RazerBlackWidowStealthEdition,
    RazerAnansi,
    RazerDeathstalkerEssential,
    RazerBlackWidowUltimate2013,
    RazerBlackWidowStealth,
    RazerBlackWidowTournamentEdition2014,
    RazerDeathstalkerExpert,
    RazerBlackWidowChroma,
    RazerDeathStalkerChroma,
    RazerBlackWidowChromaTournamentEdition,
    RazerBlackWidowChromaOverwatch,
    RazerBlackWidowUltimate2016,
    RazerBlackWidowXChroma,
    RazerBlackWidowXUltimate,
    RazerBlackWidowXChromaTournamentEdition,
    RazerOrnataChroma,
    RazerOrnata,
    RazerBlackWidowChromaV2,
    RazerHuntsmanElite,
    RazerHuntsman,
    RazerBlackWidowElite,
    RazerCynosaChroma,
    RazerCynosaChromaPro,
    RazerBlackWidowLite,
    RazerBlackWidowEssential,
    RazerCynosaLite,
    RazerBlackWidow2019,
    RazerHuntsmanTournamentEdition,
    RazerBlackWidowV3,
    RazerHuntsmanMini,
    RazerBlackWidowV3MiniHyperspeedWired,
    RazerBlackWidowV3ProWired,
    RazerBlackWidowV3ProWireless,
    RazerOrnataV2,
    RazerCynosaV2,
    RazerHuntsmanV2Analog,
    RazerHuntsmanMiniJP,
    RazerBook13_2020,
    RazerHuntsmanV2Tenkeyless,
    RazerHuntsmanV2,
    RazerBlackWidowV3MiniHyperspeedWireless,
    RazerHuntsmanMiniAnalog,
    RazerBlackWidowV4,
    RazerBlackWidowV4Pro,
    RazerDeathStalkerV2ProWireless,
    RazerDeathStalkerV2ProWired,
    RazerBlackWidowV4X,
    RazerDeathStalkerV2,
    RazerDeathStalkerV2ProTKLWireless,
    RazerDeathStalkerV2ProTKLWired,
    RazerOrnataV3,
    RazerOrnataV3X,
    RazerOrnataV3Tenkeyless,
    RazerBlackWidowV3Tenkeyless,
}

/// A supported device; keyboards are the only family with lighting matrices.
#[derive(Debug, Clone, Copy, PartialEq, Eq, Structural)]
pub enum Device {
    Keyboard(Keyboard),
}

impl Keyboard {
    /// The display name of the variant, as the effect file carries it.
    pub open spec fn spec_display_name(self) -> Seq<char> {
        match self {
            Keyboard::RazerBlackWidowUltimate2012 => "Razer BlackWidow Ultimate 2012"@,
            Keyboard::RazerBlackWidowStealthEdition => "Razer BlackWidow Stealth Edition"@,
            Keyboard::RazerAnansi => "Razer Anansi"@,
            Keyboard::RazerDeathstalkerEssential => "Razer Deathstalker (Essential)"@,
            Keyboard::RazerBlackWidowUltimate2013 => "Razer BlackWidow Ultimate 2013"@,
            Keyboard::RazerBlackWidowStealth => "Razer BlackWidow Stealth"@,
            Keyboard::RazerBlackWidowTournamentEdition2014 => "Razer BlackWidow Tournament Edition 2014"@,
            Keyboard::RazerDeathstalkerExpert => "Razer Deathstalker Expert"@,
            Keyboard::RazerBlackWidowChroma => "Razer BlackWidow Chroma"@,
            Keyboard::RazerDeathStalkerChroma => "Razer DeathStalker Chroma"@,
            Keyboard::RazerBlackWidowChromaTournamentEdition => "Razer BlackWidow Chroma Tournament Edition"@,
            Keyboard::RazerBlackWidowChromaOverwatch => "Razer BlackWidow Chroma (Overwatch)"@,
            Keyboard::RazerBlackWidowUltimate2016 => "Razer BlackWidow Ultimate 2016"@,
            Keyboard::RazerBlackWidowXChroma => "Razer BlackWidow X Chroma"@,
            Keyboard::RazerBlackWidowXUltimate => "Razer BlackWidow X Ultimate"@,
            Keyboard::RazerBlackWidowXChromaTournamentEdition => "Razer BlackWidow X Chroma Tournament Edition"@,
            Keyboard::RazerOrnataChroma => "Razer Ornata Chroma"@,
            Keyboard::RazerOrnata => "Razer Ornata"@,
            Keyboard::RazerBlackWidowChromaV2 => "Razer BlackWidow Chroma V2"@,
            Keyboard::RazerHuntsmanElite => "Razer Huntsman Elite"@,
            Keyboard::RazerHuntsman => "Razer Huntsman"@,
            Keyboard::RazerBlackWidowElite => "Razer BlackWidow Elite"@,
            Keyboard::RazerCynosaChroma => "Razer Cynosa Chroma"@,
            Keyboard::RazerCynosaChromaPro => "Razer Cynosa Chroma Pro"@,
            Keyboard::RazerBlackWidowLite => "Razer BlackWidow Lite"@,
            Keyboard::RazerBlackWidowEssential => "Razer BlackWidow Essential"@,
            Keyboard::RazerCynosaLite => "Razer Cynosa Lite"@,
            Keyboard::RazerBlackWidow2019 => "Razer BlackWidow 2019"@,
            Keyboard::RazerHuntsmanTournamentEdition => "Razer Huntsman Tournament Edition"@,
            Keyboard::RazerBlackWidowV3 => "Razer BlackWidow V3"@,
            Keyboard::RazerHuntsmanMini => "Razer Huntsman Mini"@,
            Keyboard::RazerBlackWidowV3MiniHyperspeedWired => "Razer BlackWidow V3 Mini Hyperspeed (Wired)"@,
            Keyboard::RazerBlackWidowV3ProWired => "Razer BlackWidow V3 Pro (Wired)"@,
            Keyboard::RazerBlackWidowV3ProWireless => "Razer BlackWidow V3 Pro (Wireless)"@,
            Keyboard::RazerOrnataV2 => "Razer Ornata V2"@,
            Keyboard::RazerCynosaV2 => "Razer Cynosa V2"@,
            Keyboard::RazerHuntsmanV2Analog => "Razer Huntsman V2 Analog"@,
            Keyboard::RazerHuntsmanMiniJP => "Razer Huntsman Mini (JP)"@,
            Keyboard::RazerBook13_2020 => "Razer Book 13 (2020)"@,
            Keyboard::RazerHuntsmanV2Tenkeyless => "Razer Huntsman V2 Tenkeyless"@,
            Keyboard::RazerHuntsmanV2 => "Razer Huntsman V2"@,
            Keyboard::RazerBlackWidowV3MiniHyperspeedWireless => "Razer BlackWidow V3 Mini Hyperspeed (Wireless)"@,
            Keyboard::RazerHuntsmanMiniAnalog => "Razer Huntsman Mini Analog"@,
            Keyboard::RazerBlackWidowV4 => "Razer BlackWidow V4"@,
            Keyboard::RazerBlackWidowV4Pro => "Razer BlackWidow V4 Pro"@,
            Keyboard::RazerDeathStalkerV2ProWireless => "Razer DeathStalker V2 Pro (Wireless)"@,
            Keyboard::RazerDeathStalkerV2ProWired => "Razer DeathStalker V2 Pro (Wired)"@,
            Keyboard::RazerBlackWidowV4X => "Razer BlackWidow V4 X"@,
            Keyboard::RazerDeathStalkerV2 => "Razer DeathStalker V2"@,
            Keyboard::RazerDeathStalkerV2ProTKLWireless => "Razer DeathStalker V2 Pro TKL (Wireless)"@,
            Keyboard::RazerDeathStalkerV2ProTKLWired => "Razer DeathStalker V2 Pro TKL (Wired)"@,
            Keyboard::RazerOrnataV3 => "Razer Ornata V3"@,
            Keyboard::RazerOrnataV3X => "Razer Ornata V3 X"@,
            Keyboard::RazerOrnataV3Tenkeyless => "Razer Ornata V3 Tenkeyless"@,
            Keyboard::RazerBlackWidowV3Tenkeyless => "Razer BlackWidow V3 Tenkeyless"@,
        }
    }

    /// The (vendor, product) identifier pairs claimed by the variant.
    pub open spec fn spec_device_id(self) -> Seq<(u16, u16)> {
        match self {
            Keyboard::RazerBlackWidowUltimate2012 => seq![(0x1532u16, 0x010Du16)],
            Keyboard::RazerBlackWidowStealthEdition => seq![(0x1532u16, 0x010Eu16)],
            Keyboard::RazerAnansi => seq![(0x1532u16, 0x010Fu16)],
            Keyboard::RazerDeathstalkerEssential => seq![(0x1532u16, 0x0118u16)],
            Keyboard::RazerBlackWidowUltimate2013 => seq![(0x1532u16, 0x011Au16)],
            Keyboard::RazerBlackWidowStealth => seq![(0x1532u16, 0x011Bu16)],
            Keyboard::RazerBlackWidowTournamentEdition2014 => seq![(0x1532u16, 0x011Cu16)],
            Keyboard::RazerDeathstalkerExpert => seq![(0x1532u16, 0x0202u16)],
            Keyboard::RazerBlackWidowChroma => seq![(0x1532u16, 0x0203u16)],
            Keyboard::RazerDeathStalkerChroma => seq![(0x1532u16, 0x0204u16)],
            Keyboard::RazerBlackWidowChromaTournamentEdition => seq![(0x1532u16, 0x0209u16)],
            Keyboard::RazerBlackWidowChromaOverwatch => seq![(0x1532u16, 0x0211u16)],
            Keyboard::RazerBlackWidowUltimate2016 => seq![(0x1532u16, 0x0214u16)],
            Keyboard::RazerBlackWidowXChroma => seq![(0x1532u16, 0x0216u16)],
            Keyboard::RazerBlackWidowXUltimate => seq![(0x1532u16, 0x0217u16)],
            Keyboard::RazerBlackWidowXChromaTournamentEdition => seq![(0x1532u16, 0x021Au16)],
            Keyboard::RazerOrnataChroma => seq![(0x1532u16, 0x021Eu16)],
            Keyboard::RazerOrnata => seq![(0x1532u16, 0x021Fu16)],
            Keyboard::RazerBlackWidowChromaV2 => seq![(0x1532u16, 0x0221u16)],
            Keyboard::RazerHuntsmanElite => seq![(0x1532u16, 0x0226u16)],
            Keyboard::RazerHuntsman => seq![(0x1532u16, 0x0227u16)],
            Keyboard::RazerBlackWidowElite => seq![(0x1532u16, 0x0228u16)],
            Keyboard::RazerCynosaChroma => seq![(0x1532u16, 0x022Au16)],
            Keyboard::RazerCynosaChromaPro => seq![(0x1532u16, 0x022Cu16)],
            Keyboard::RazerBlackWidowLite => seq![(0x1532u16, 0x0235u16)],
            Keyboard::RazerBlackWidowEssential => seq![(0x1532u16, 0x0237u16)],
            Keyboard::RazerCynosaLite => seq![(0x1532u16, 0x023Fu16)],
            Keyboard::RazerBlackWidow2019 => seq![(0x1532u16, 0x0241u16)],
            Keyboard::RazerHuntsmanTournamentEdition => seq![(0x1532u16, 0x0243u16)],
            Keyboard::RazerBlackWidowV3 => seq![(0x1532u16, 0x024Eu16)],
            Keyboard::RazerHuntsmanMini => seq![(0x1532u16, 0x0257u16)],
            Keyboard::RazerBlackWidowV3MiniHyperspeedWired => seq![(0x1532u16, 0x0258u16)],
            Keyboard::RazerBlackWidowV3ProWired => seq![(0x1532u16, 0x025Au16)],
            Keyboard::RazerBlackWidowV3ProWireless => seq![(0x1532u16, 0x025Cu16)],
            Keyboard::RazerOrnataV2 => seq![(0x1532u16, 0x025Du16)],
            Keyboard::RazerCynosaV2 => seq![(0x1532u16, 0x025Eu16)],
            Keyboard::RazerHuntsmanV2Analog => seq![(0x1532u16, 0x0266u16)],
            Keyboard::RazerHuntsmanMiniJP => seq![(0x1532u16, 0x0269u16)],
            Keyboard::RazerBook13_2020 => seq![(0x1532u16, 0x026Au16)],
            Keyboard::RazerHuntsmanV2Tenkeyless => seq![(0x1532u16, 0x026Bu16)],
            Keyboard::RazerHuntsmanV2 => seq![(0x1532u16, 0x026Cu16)],
            Keyboard::RazerBlackWidowV3MiniHyperspeedWireless => seq![(0x1532u16, 0x0271u16)],
            Keyboard::RazerHuntsmanMiniAnalog => seq![(0x1532u16, 0x0282u16)],
            Keyboard::RazerBlackWidowV4 => seq![(0x1532u16, 0x0287u16)],
            Keyboard::RazerBlackWidowV4Pro => seq![(0x1532u16, 0x028Du16)],
            Keyboard::RazerDeathStalkerV2ProWireless => seq![(0x1532u16, 0x0290u16)],
            Keyboard::RazerDeathStalkerV2ProWired => seq![(0x1532u16, 0x0292u16)],
            Keyboard::RazerBlackWidowV4X => seq![(0x1532u16, 0x0293u16)],
            Keyboard::RazerDeathStalkerV2 => seq![(0x1532u16, 0x0295u16)],
            Keyboard::RazerDeathStalkerV2ProTKLWireless => seq![(0x1532u16, 0x0296u16)],
            Keyboard::RazerDeathStalkerV2ProTKLWired => seq![(0x1532u16, 0x0298u16)],
            Keyboard::RazerOrnataV3 => seq![(0x1532u16, 0x02A1u16)],
            Keyboard::RazerOrnataV3X => seq![(0x1532u16, 0x02A2u16), (0x1532u16, 0x0294u16)],
            Keyboard::RazerOrnataV3Tenkeyless => seq![(0x1532u16, 0x02A3u16)],
            Keyboard::RazerBlackWidowV3Tenkeyless => seq![(0x1532u16, 0x0A24u16)],
        }
    }

    /// The lighting-matrix geometry (columns, rows) of the variant, if any.
    pub open spec fn spec_matrix(self) -> Option<(u32, u32)> {
        match self {
            Keyboard::RazerBlackWidowUltimate2012 => None,
            Keyboard::RazerBlackWidowStealthEdition => None,
            Keyboard::RazerAnansi => None,
            Keyboard::RazerDeathstalkerEssential => None,
            Keyboard::RazerBlackWidowUltimate2013 => None,
            Keyboard::RazerBlackWidowStealth => None,
            Keyboard::RazerBlackWidowTournamentEdition2014 => None,
            Keyboard::RazerDeathstalkerExpert => None,
            Keyboard::RazerBlackWidowChroma => Some((22u32, 6u32)),
            Keyboard::RazerDeathStalkerChroma => Some((6u32, 1u32)),
            Keyboard::RazerBlackWidowChromaTournamentEdition => Some((22u32, 6u32)),
            Keyboard::RazerBlackWidowChromaOverwatch => Some((22u32, 6u32)),
            Keyboard::RazerBlackWidowUltimate2016 => Some((22u32, 6u32)),
            Keyboard::RazerBlackWidowXChroma => Some((22u32, 6u32)),
            Keyboard::RazerBlackWidowXUltimate => Some((22u32, 6u32)),
            Keyboard::RazerBlackWidowXChromaTournamentEdition => Some((22u32, 6u32)),
            Keyboard::RazerOrnataChroma => Some((22u32, 6u32)),
            Keyboard::RazerOrnata => Some((22u32, 6u32)),
            Keyboard::RazerBlackWidowChromaV2 => Some((22u32, 6u32)),
            Keyboard::RazerHuntsmanElite => Some((22u32, 9u32)),
            Keyboard::RazerHuntsman => Some((22u32, 6u32)),
            Keyboard::RazerBlackWidowElite => Some((22u32, 6u32)),
            Keyboard::RazerCynosaChroma => Some((22u32, 6u32)),
            Keyboard::RazerCynosaChromaPro => Some((22u32, 6u32)),
            Keyboard::RazerBlackWidowLite => None,
            Keyboard::RazerBlackWidowEssential => Some((22u32, 6u32)),
            Keyboard::RazerCynosaLite => None,
            Keyboard::RazerBlackWidow2019 => Some((22u32, 6u32)),
            Keyboard::RazerHuntsmanTournamentEdition => Some((18u32, 6u32)),
            Keyboard::RazerBlackWidowV3 => Some((22u32, 6u32)),
            Keyboard::RazerHuntsmanMini => Some((15u32, 5u32)),
            Keyboard::RazerBlackWidowV3MiniHyperspeedWired => Some((16u32, 5u32)),
            Keyboard::RazerBlackWidowV3ProWired => Some((22u32, 6u32)),
            Keyboard::RazerBlackWidowV3ProWireless => Some((22u32, 6u32)),
            Keyboard::RazerOrnataV2 => Some((22u32, 6u32)),
            Keyboard::RazerCynosaV2 => Some((22u32, 6u32)),
            Keyboard::RazerHuntsmanV2Analog => Some((22u32, 8u32)),
            Keyboard::RazerHuntsmanMiniJP => Some((15u32, 5u32)),
            Keyboard::RazerBook13_2020 => None,
            Keyboard::RazerHuntsmanV2Tenkeyless => Some((18u32, 6u32)),
            Keyboard::RazerHuntsmanV2 => Some((22u32, 6u32)),
            Keyboard::RazerBlackWidowV3MiniHyperspeedWireless => Some((16u32, 5u32)),
            Keyboard::RazerHuntsmanMiniAnalog => Some((15u32, 5u32)),
            Keyboard::RazerBlackWidowV4 => Some((23u32, 8u32)),
            Keyboard::RazerBlackWidowV4Pro => Some((23u32, 8u32)),
            Keyboard::RazerDeathStalkerV2ProWireless => Some((22u32, 6u32)),
            Keyboard::RazerDeathStalkerV2ProWired => Some((22u32, 6u32)),
            Keyboard::RazerBlackWidowV4X => Some((22u32, 6u32)),
            Keyboard::RazerDeathStalkerV2 => Some((22u32, 6u32)),
            Keyboard::RazerDeathStalkerV2ProTKLWireless => Some((17u32, 6u32)),
            Keyboard::RazerDeathStalkerV2ProTKLWired => Some((17u32, 6u32)),
            Keyboard::RazerOrnataV3 => Some((10u32, 1u32)),
            Keyboard::RazerOrnataV3X => Some((1u32, 1u32)),
            Keyboard::RazerOrnataV3Tenkeyless => Some((8u32, 1u32)),
            Keyboard::RazerBlackWidowV3Tenkeyless => Some((18u32, 6u32)),
        }
    }

    pub fn display_name(&self) -> (s: String)
        ensures
            s@ == self.spec_display_name(),
    {
        let n: &str = match self {
            Keyboard::RazerBlackWidowUltimate2012 => "Razer BlackWidow Ultimate 2012",
            Keyboard::RazerBlackWidowStealthEdition => "Razer BlackWidow Stealth Edition",
            Keyboard::RazerAnansi => "Razer Anansi",
            Keyboard::RazerDeathstalkerEssential => "Razer Deathstalker (Essential)",
            Keyboard::RazerBlackWidowUltimate2013 => "Razer BlackWidow Ultimate 2013",
            Keyboard::RazerBlackWidowStealth => "Razer BlackWidow Stealth",
            Keyboard::RazerBlackWidowTournamentEdition2014 => "Razer BlackWidow Tournament Edition 2014",
            Keyboard::RazerDeathstalkerExpert => "Razer Deathstalker Expert",
            Keyboard::RazerBlackWidowChroma => "Razer BlackWidow Chroma",
            Keyboard::RazerDeathStalkerChroma => "Razer DeathStalker Chroma",
            Keyboard::RazerBlackWidowChromaTournamentEdition => "Razer BlackWidow Chroma Tournament Edition",
            Keyboard::RazerBlackWidowChromaOverwatch => "Razer BlackWidow Chroma (Overwatch)",
            Keyboard::RazerBlackWidowUltimate2016 => "Razer BlackWidow Ultimate 2016",
            Keyboard::RazerBlackWidowXChroma => "Razer BlackWidow X Chroma",
            Keyboard::RazerBlackWidowXUltimate => "Razer BlackWidow X Ultimate",
            Keyboard::RazerBlackWidowXChromaTournamentEdition => "Razer BlackWidow X Chroma Tournament Edition",
            Keyboard::RazerOrnataChroma => "Razer Ornata Chroma",
            Keyboard::RazerOrnata => "Razer Ornata",
            Keyboard::RazerBlackWidowChromaV2 => "Razer BlackWidow Chroma V2",
            Keyboard::RazerHuntsmanElite => "Razer Huntsman Elite",
            Keyboard::RazerHuntsman => "Razer Huntsman",
            Keyboard::RazerBlackWidowElite => "Razer BlackWidow Elite",
            Keyboard::RazerCynosaChroma => "Razer Cynosa Chroma",
            Keyboard::RazerCynosaChromaPro => "Razer Cynosa Chroma Pro",
            Keyboard::RazerBlackWidowLite => "Razer BlackWidow Lite",
            Keyboard::RazerBlackWidowEssential => "Razer BlackWidow Essential",
            Keyboard::RazerCynosaLite => "Razer Cynosa Lite",
            Keyboard::RazerBlackWidow2019 => "Razer BlackWidow 2019",
            Keyboard::RazerHuntsmanTournamentEdition => "Razer Huntsman Tournament Edition",
            Keyboard::RazerBlackWidowV3 => "Razer BlackWidow V3",
            Keyboard::RazerHuntsmanMini => "Razer Huntsman Mini",
            Keyboard::RazerBlackWidowV3MiniHyperspeedWired => "Razer BlackWidow V3 Mini Hyperspeed (Wired)",
            Keyboard::RazerBlackWidowV3ProWired => "Razer BlackWidow V3 Pro (Wired)",
            Keyboard::RazerBlackWidowV3ProWireless => "Razer BlackWidow V3 Pro (Wireless)",
            Keyboard::RazerOrnataV2 => "Razer Ornata V2",
            Keyboard::RazerCynosaV2 => "Razer Cynosa V2",
            Keyboard::RazerHuntsmanV2Analog => "Razer Huntsman V2 Analog",
            Keyboard::RazerHuntsmanMiniJP => "Razer Huntsman Mini (JP)",
            Keyboard::RazerBook13_2020 => "Razer Book 13 (2020)",
            Keyboard::RazerHuntsmanV2Tenkeyless => "Razer Huntsman V2 Tenkeyless",
            Keyboard::RazerHuntsmanV2 => "Razer Huntsman V2",
            Keyboard::RazerBlackWidowV3MiniHyperspeedWireless => "Razer BlackWidow V3 Mini Hyperspeed (Wireless)",
            Keyboard::RazerHuntsmanMiniAnalog => "Razer Huntsman Mini Analog",
            Keyboard::RazerBlackWidowV4 => "Razer BlackWidow V4",
            Keyboard::RazerBlackWidowV4Pro => "Razer BlackWidow V4 Pro",
            Keyboard::RazerDeathStalkerV2ProWireless => "Razer DeathStalker V2 Pro (Wireless)",
            Keyboard::RazerDeathStalkerV2ProWired => "Razer DeathStalker V2 Pro (Wired)",
            Keyboard::RazerBlackWidowV4X => "Razer BlackWidow V4 X",
            Keyboard::RazerDeathStalkerV2 => "Razer DeathStalker V2",
            Keyboard::RazerDeathStalkerV2ProTKLWireless => "Razer DeathStalker V2 Pro TKL (Wireless)",
            Keyboard::RazerDeathStalkerV2ProTKLWired => "Razer DeathStalker V2 Pro TKL (Wired)",
            Keyboard::RazerOrnataV3 => "Razer Ornata V3",
            Keyboard::RazerOrnataV3X => "Razer Ornata V3 X",
            Keyboard::RazerOrnataV3Tenkeyless => "Razer Ornata V3 Tenkeyless",
            Keyboard::RazerBlackWidowV3Tenkeyless => "Razer BlackWidow V3 Tenkeyless",
        };
        n.to_owned()
    }

    pub fn device_id(&self) -> (r: Vec<(u16, u16)>)
        ensures
            r@ == self.spec_device_id(),
    {
        match self {
            Keyboard::RazerBlackWidowUltimate2012 => pair_vec1(0x1532, 0x010D),
            Keyboard::RazerBlackWidowStealthEdition => pair_vec1(0x1532, 0x010E),
            Keyboard::RazerAnansi => pair_vec1(0x1532, 0x010F),
            Keyboard::RazerDeathstalkerEssential => pair_vec1(0x1532, 0x0118),
            Keyboard::RazerBlackWidowUltimate2013 => pair_vec1(0x1532, 0x011A),
            Keyboard::RazerBlackWidowStealth => pair_vec1(0x1532, 0x011B),
            Keyboard::RazerBlackWidowTournamentEdition2014 => pair_vec1(0x1532, 0x011C),
            Keyboard::RazerDeathstalkerExpert => pair_vec1(0x1532, 0x0202),
            Keyboard::RazerBlackWidowChroma => pair_vec1(0x1532, 0x0203),
            Keyboard::RazerDeathStalkerChroma => pair_vec1(0x1532, 0x0204),
            Keyboard::RazerBlackWidowChromaTournamentEdition => pair_vec1(0x1532, 0x0209),
            Keyboard::RazerBlackWidowChromaOverwatch => pair_vec1(0x1532, 0x0211),
            Keyboard::RazerBlackWidowUltimate2016 => pair_vec1(0x1532, 0x0214),
            Keyboard::RazerBlackWidowXChroma => pair_vec1(0x1532, 0x0216),
            Keyboard::RazerBlackWidowXUltimate => pair_vec1(0x1532, 0x0217),
            Keyboard::RazerBlackWidowXChromaTournamentEdition => pair_vec1(0x1532, 0x021A),
            Keyboard::RazerOrnataChroma => pair_vec1(0x1532, 0x021E),
            Keyboard::RazerOrnata => pair_vec1(0x1532, 0x021F),
            Keyboard::RazerBlackWidowChromaV2 => pair_vec1(0x1532, 0x0221),
            Keyboard::RazerHuntsmanElite => pair_vec1(0x1532, 0x0226),
            Keyboard::RazerHuntsman => pair_vec1(0x1532, 0x0227),
            Keyboard::RazerBlackWidowElite => pair_vec1(0x1532, 0x0228),
            Keyboard::RazerCynosaChroma => pair_vec1(0x1532, 0x022A),
            Keyboard::RazerCynosaChromaPro => pair_vec1(0x1532, 0x022C),
            Keyboard::RazerBlackWidowLite => pair_vec1(0x1532, 0x0235),
            Keyboard::RazerBlackWidowEssential => pair_vec1(0x1532, 0x0237),
            Keyboard::RazerCynosaLite => pair_vec1(0x1532, 0x023F),
            Keyboard::RazerBlackWidow2019 => pair_vec1(0x1532, 0x0241),
            Keyboard::RazerHuntsmanTournamentEdition => pair_vec1(0x1532, 0x0243),
            Keyboard::RazerBlackWidowV3 => pair_vec1(0x1532, 0x024E),
            Keyboard::RazerHuntsmanMini => pair_vec1(0x1532, 0x0257),
            Keyboard::RazerBlackWidowV3MiniHyperspeedWired => pair_vec1(0x1532, 0x0258),
            Keyboard::RazerBlackWidowV3ProWired => pair_vec1(0x1532, 0x025A),
            Keyboard::RazerBlackWidowV3ProWireless => pair_vec1(0x1532, 0x025C),
            Keyboard::RazerOrnataV2 => pair_vec1(0x1532, 0x025D),
            Keyboard::RazerCynosaV2 => pair_vec1(0x1532, 0x025E),
            Keyboard::RazerHuntsmanV2Analog => pair_vec1(0x1532, 0x0266),
            Keyboard::RazerHuntsmanMiniJP => pair_vec1(0x1532, 0x0269),
            Keyboard::RazerBook13_2020 => pair_vec1(0x1532, 0x026A),
            Keyboard::RazerHuntsmanV2Tenkeyless => pair_vec1(0x1532, 0x026B),
            Keyboard::RazerHuntsmanV2 => pair_vec1(0x1532, 0x026C),
            Keyboard::RazerBlackWidowV3MiniHyperspeedWireless => pair_vec1(0x1532, 0x0271),
            Keyboard::RazerHuntsmanMiniAnalog => pair_vec1(0x1532, 0x0282),
            Keyboard::RazerBlackWidowV4 => pair_vec1(0x1532, 0x0287),
            Keyboard::RazerBlackWidowV4Pro => pair_vec1(0x1532, 0x028D),
            Keyboard::RazerDeathStalkerV2ProWireless => pair_vec1(0x1532, 0x0290),
            Keyboard::RazerDeathStalkerV2ProWired => pair_vec1(0x1532, 0x0292),
            Keyboard::RazerBlackWidowV4X => pair_vec1(0x1532, 0x0293),
            Keyboard::RazerDeathStalkerV2 => pair_vec1(0x1532, 0x0295),
            Keyboard::RazerDeathStalkerV2ProTKLWireless => pair_vec1(0x1532, 0x0296),
            Keyboard::RazerDeathStalkerV2ProTKLWired => pair_vec1(0x1532, 0x0298),
            Keyboard::RazerOrnataV3 => pair_vec1(0x1532, 0x02A1),
            Keyboard::RazerOrnataV3X => pair_vec2(0x1532, 0x02A2, 0x1532, 0x0294),
            Keyboard::RazerOrnataV3Tenkeyless => pair_vec1(0x1532, 0x02A3),
            Keyboard::RazerBlackWidowV3Tenkeyless => pair_vec1(0x1532, 0x0A24),
        }
    }

    pub fn matrix(&self) -> (m: Option<(u32, u32)>)
        ensures
            m == self.spec_matrix(),
    {
        match self {
            Keyboard::RazerBlackWidowUltimate2012 => None,
            Keyboard::RazerBlackWidowStealthEdition => None,
            Keyboard::RazerAnansi => None,
            Keyboard::RazerDeathstalkerEssential => None,
            Keyboard::RazerBlackWidowUltimate2013 => None,
            Keyboard::RazerBlackWidowStealth => None,
            Keyboard::RazerBlackWidowTournamentEdition2014 => None,
            Keyboard::RazerDeathstalkerExpert => None,
            Keyboard::RazerBlackWidowChroma => Some((22, 6)),
            Keyboard::RazerDeathStalkerChroma => Some((6, 1)),
            Keyboard::RazerBlackWidowChromaTournamentEdition => Some((22, 6)),
            Keyboard::RazerBlackWidowChromaOverwatch => Some((22, 6)),
            Keyboard::RazerBlackWidowUltimate2016 => Some((22, 6)),
            Keyboard::RazerBlackWidowXChroma => Some((22, 6)),
            Keyboard::RazerBlackWidowXUltimate => Some((22, 6)),
            Keyboard::RazerBlackWidowXChromaTournamentEdition => Some((22, 6)),
            Keyboard::RazerOrnataChroma => Some((22, 6)),
            Keyboard::RazerOrnata => Some((22, 6)),
            Keyboard::RazerBlackWidowChromaV2 => Some((22, 6)),
            Keyboard::RazerHuntsmanElite => Some((22, 9)),
            Keyboard::RazerHuntsman => Some((22, 6)),
            Keyboard::RazerBlackWidowElite => Some((22, 6)),
            Keyboard::RazerCynosaChroma => Some((22, 6)),
            Keyboard::RazerCynosaChromaPro => Some((22, 6)),
            Keyboard::RazerBlackWidowLite => None,
            Keyboard::RazerBlackWidowEssential => Some((22, 6)),
            Keyboard::RazerCynosaLite => None,
            Keyboard::RazerBlackWidow2019 => Some((22, 6)),
            Keyboard::RazerHuntsmanTournamentEdition => Some((18, 6)),
            Keyboard::RazerBlackWidowV3 => Some((22, 6)),
            Keyboard::RazerHuntsmanMini => Some((15, 5)),
            Keyboard::RazerBlackWidowV3MiniHyperspeedWired => Some((16, 5)),
            Keyboard::RazerBlackWidowV3ProWired => Some((22, 6)),
            Keyboard::RazerBlackWidowV3ProWireless => Some((22, 6)),
            Keyboard::RazerOrnataV2 => Some((22, 6)),
            Keyboard::RazerCynosaV2 => Some((22, 6)),
            Keyboard::RazerHuntsmanV2Analog => Some((22, 8)),
            Keyboard::RazerHuntsmanMiniJP => Some((15, 5)),
            Keyboard::RazerBook13_2020 => None,
            Keyboard::RazerHuntsmanV2Tenkeyless => Some((18, 6)),
            Keyboard::RazerHuntsmanV2 => Some((22, 6)),
            Keyboard::RazerBlackWidowV3MiniHyperspeedWireless => Some((16, 5)),
            Keyboard::RazerHuntsmanMiniAnalog => Some((15, 5)),
            Keyboard::RazerBlackWidowV4 => Some((23, 8)),
            Keyboard::RazerBlackWidowV4Pro => Some((23, 8)),
            Keyboard::RazerDeathStalkerV2ProWireless => Some((22, 6)),
            Keyboard::RazerDeathStalkerV2ProWired => Some((22, 6)),
            Keyboard::RazerBlackWidowV4X => Some((22, 6)),
            Keyboard::RazerDeathStalkerV2 => Some((22, 6)),
            Keyboard::RazerDeathStalkerV2ProTKLWireless => Some((17, 6)),
            Keyboard::RazerDeathStalkerV2ProTKLWired => Some((17, 6)),
            Keyboard::RazerOrnataV3 => Some((10, 1)),
            Keyboard::RazerOrnataV3X => Some((1, 1)),
            Keyboard::RazerOrnataV3Tenkeyless => Some((8, 1)),
            Keyboard::RazerBlackWidowV3Tenkeyless => Some((18, 6)),
        }
    }
}

impl Device {
    /// The display name of the device, as the effect file carries it.
    pub open spec fn spec_display_name(self) -> Seq<char> {
        match self {
            Device::Keyboard(kb) => kb.spec_display_name(),
        }
    }

    /// The device-icon tag of the device family.
    pub open spec fn spec_icon(self) -> Seq<char> {
        match self {
            Device::Keyboard(_) => "keyboard"@,
        }
    }

    /// The lighting-matrix geometry (columns, rows) of the device, if any.
    pub open spec fn spec_matrix(self) -> Option<(u32, u32)> {
        match self {
            Device::Keyboard(kb) => kb.spec_matrix(),
        }
    }

    pub fn display_name(&self) -> (s: String)
        ensures
            s@ == self.spec_display_name(),
    {
        match self {
            Device::Keyboard(kb) => kb.display_name(),
        }
    }

    pub fn icon(&self) -> (s: &'static str)
        ensures
            s@ == self.spec_icon(),
    {
        match self {
            Device::Keyboard(_) => "keyboard",
        }
    }

    pub fn matrix(&self) -> (m: Option<(u32, u32)>)
        ensures
            m == self.spec_matrix(),
    {
        match self {
            Device::Keyboard(kb) => kb.matrix(),
        }
    }
}

/// Every supported variant, in declaration order.
pub open spec fn all_keyboards() -> Seq<Keyboard> {
    seq![
        Keyboard::RazerBlackWidowUltimate2012,
        Keyboard::RazerBlackWidowStealthEdition,
        Keyboard::RazerAnansi,
        Keyboard::RazerDeathstalkerEssential,
        Keyboard::RazerBlackWidowUltimate2013,
        Keyboard::RazerBlackWidowStealth,
        Keyboard::RazerBlackWidowTournamentEdition2014,
        Keyboard::RazerDeathstalkerExpert,
        Keyboard::RazerBlackWidowChroma,
        Keyboard::RazerDeathStalkerChroma,
        Keyboard::RazerBlackWidowChromaTournamentEdition,
        Keyboard::RazerBlackWidowChromaOverwatch,
        Keyboard::RazerBlackWidowUltimate2016,
        Keyboard::RazerBlackWidowXChroma,
        Keyboard::RazerBlackWidowXUltimate,
        Keyboard::RazerBlackWidowXChromaTournamentEdition,
        Keyboard::RazerOrnataChroma,
        Keyboard::RazerOrnata,
        Keyboard::RazerBlackWidowChromaV2,
        Keyboard::RazerHuntsmanElite,
        Keyboard::RazerHuntsman,
        Keyboard::RazerBlackWidowElite,
        Keyboard::RazerCynosaChroma,
        Keyboard::RazerCynosaChromaPro,
        Keyboard::RazerBlackWidowLite,
        Keyboard::RazerBlackWidowEssential,
        Keyboard::RazerCynosaLite,
        Keyboard::RazerBlackWidow2019,
        Keyboard::RazerHuntsmanTournamentEdition,
        Keyboard::RazerBlackWidowV3,
        Keyboard::RazerHuntsmanMini,
        Keyboard::RazerBlackWidowV3MiniHyperspeedWired,
        Keyboard::RazerBlackWidowV3ProWired,
        Keyboard::RazerBlackWidowV3ProWireless,
        Keyboard::RazerOrnataV2,
        Keyboard::RazerCynosaV2,
        Keyboard::RazerHuntsmanV2Analog,
        Keyboard::RazerHuntsmanMiniJP,
        Keyboard::RazerBook13_2020,
        Keyboard::RazerHuntsmanV2Tenkeyless,
        Keyboard::RazerHuntsmanV2,
        Keyboard::RazerBlackWidowV3MiniHyperspeedWireless,
        Keyboard::RazerHuntsmanMiniAnalog,
        Keyboard::RazerBlackWidowV4,
        Keyboard::RazerBlackWidowV4Pro,
        Keyboard::RazerDeathStalkerV2ProWireless,
        Keyboard::RazerDeathStalkerV2ProWired,
        Keyboard::RazerBlackWidowV4X,
        Keyboard::RazerDeathStalkerV2,
        Keyboard::RazerDeathStalkerV2ProTKLWireless,
        Keyboard::RazerDeathStalkerV2ProTKLWired,
        Keyboard::RazerOrnataV3,
        Keyboard::RazerOrnataV3X,
        Keyboard::RazerOrnataV3Tenkeyless,
        Keyboard::RazerBlackWidowV3Tenkeyless,
    ]
}

/// Every supported variant, in declaration order.
#[verifier::rlimit(50)]
pub fn all_keyboards_exec() -> (r: Vec<Keyboard>)
    ensures
        r@ == all_keyboards(),
{
    let mut v: Vec<Keyboard> = Vec::new();
    v.push(Keyboard::RazerBlackWidowUltimate2012);
    v.push(Keyboard::RazerBlackWidowStealthEdition);
    v.push(Keyboard::RazerAnansi);
    v.push(Keyboard::RazerDeathstalkerEssential);
    v.push(Keyboard::RazerBlackWidowUltimate2013);
    v.push(Keyboard::RazerBlackWidowStealth);
    v.push(Keyboard::RazerBlackWidowTournamentEdition2014);
    v.push(Keyboard::RazerDeathstalkerExpert);
    v.push(Keyboard::RazerBlackWidowChroma);
    v.push(Keyboard::RazerDeathStalkerChroma);
    v.push(Keyboard::RazerBlackWidowChromaTournamentEdition);
    v.push(Keyboard::RazerBlackWidowChromaOverwatch);
    v.push(Keyboard::RazerBlackWidowUltimate2016);
    v.push(Keyboard::RazerBlackWidowXChroma);
    v.push(Keyboard::RazerBlackWidowXUltimate);
    v.push(Keyboard::RazerBlackWidowXChromaTournamentEdition);
    v.push(Keyboard::RazerOrnataChroma);
    v.push(Keyboard::RazerOrnata);
    v.push(Keyboard::RazerBlackWidowChromaV2);
    v.push(Keyboard::RazerHuntsmanElite);
    v.push(Keyboard::RazerHuntsman);
    v.push(Keyboard::RazerBlackWidowElite);
    v.push(Keyboard::RazerCynosaChroma);
    v.push(Keyboard::RazerCynosaChromaPro);
    v.push(Keyboard::RazerBlackWidowLite);
    v.push(Keyboard::RazerBlackWidowEssential);
    v.push(Keyboard::RazerCynosaLite);
    v.push(Keyboard::RazerBlackWidow2019);
    v.push(Keyboard::RazerHuntsmanTournamentEdition);
    v.push(Keyboard::RazerBlackWidowV3);
    v.push(Keyboard::RazerHuntsmanMini);
    v.push(Keyboard::RazerBlackWidowV3MiniHyperspeedWired);
    v.push(Keyboard::RazerBlackWidowV3ProWired);
    v.push(Keyboard::RazerBlackWidowV3ProWireless);
    v.push(Keyboard::RazerOrnataV2);
    v.push(Keyboard::RazerCynosaV2);
    v.push(Keyboard::RazerHuntsmanV2Analog);
    v.push(Keyboard::RazerHuntsmanMiniJP);
    v.push(Keyboard::RazerBook13_2020);
    v.push(Keyboard::RazerHuntsmanV2Tenkeyless);
    v.push(Keyboard::RazerHuntsmanV2);
    v.push(Keyboard::RazerBlackWidowV3MiniHyperspeedWireless);
    v.push(Keyboard::RazerHuntsmanMiniAnalog);
    v.push(Keyboard::RazerBlackWidowV4);
    v.push(Keyboard::RazerBlackWidowV4Pro);
    v.push(Keyboard::RazerDeathStalkerV2ProWireless);
    v.push(Keyboard::RazerDeathStalkerV2ProWired);
    v.push(Keyboard::RazerBlackWidowV4X);
    v.push(Keyboard::RazerDeathStalkerV2);
    v.push(Keyboard::RazerDeathStalkerV2ProTKLWireless);
    v.push(Keyboard::RazerDeathStalkerV2ProTKLWired);
    v.push(Keyboard::RazerOrnataV3);
    v.push(Keyboard::RazerOrnataV3X);
    v.push(Keyboard::RazerOrnataV3Tenkeyless);
    v.push(Keyboard::RazerBlackWidowV3Tenkeyless);
    proof {
        assert(v@ =~= all_keyboards());
    }
    v
}

/// The variant, if any, that claims a given (vendor, product) identifier
/// pair: the registry inverted. That this is a function of the pair is the
/// registry uniqueness invariant; see [`lemma_device_id_unique`].
pub open spec fn variant_by_id(vendor: u16, product: u16) -> Option<Keyboard> {
    if vendor != 0x1532 {
        None
    }
    else if product == 0x010D { Some(Keyboard::RazerBlackWidowUltimate2012) }
    else if product == 0x010E { Some(Keyboard::RazerBlackWidowStealthEdition) }
    else if product == 0x010F { Some(Keyboard::RazerAnansi) }
    else if product == 0x0118 { Some(Keyboard::RazerDeathstalkerEssential) }
    else if product == 0x011A { Some(Keyboard::RazerBlackWidowUltimate2013) }
    else if product == 0x011B { Some(Keyboard::RazerBlackWidowStealth) }
    else if product == 0x011C { Some(Keyboard::RazerBlackWidowTournamentEdition2014) }
    else if product == 0x0202 { Some(Keyboard::RazerDeathstalkerExpert) }
    else if product == 0x0203 { Some(Keyboard::RazerBlackWidowChroma) }
    else if product == 0x0204 { Some(Keyboard::RazerDeathStalkerChroma) }
    else if product == 0x0209 { Some(Keyboard::RazerBlackWidowChromaTournamentEdition) }
    else if product == 0x0211 { Some(Keyboard::RazerBlackWidowChromaOverwatch) }
    else if product == 0x0214 { Some(Keyboard::RazerBlackWidowUltimate2016) }
    else if product == 0x0216 { Some(Keyboard::RazerBlackWidowXChroma) }
    else if product == 0x0217 { Some(Keyboard::RazerBlackWidowXUltimate) }
    else if product == 0x021A { Some(Keyboard::RazerBlackWidowXChromaTournamentEdition) }
    else if product == 0x021E { Some(Keyboard::RazerOrnataChroma) }
    else if product == 0x021F { Some(Keyboard::RazerOrnata) }
    else if product == 0x0221 { Some(Keyboard::RazerBlackWidowChromaV2) }
    else if product == 0x0226 { Some(Keyboard::RazerHuntsmanElite) }
    else if product == 0x0227 { Some(Keyboard::RazerHuntsman) }
    else if product == 0x0228 { Some(Keyboard::RazerBlackWidowElite) }
    else if product == 0x022A { Some(Keyboard::RazerCynosaChroma) }
    else if product == 0x022C { Some(Keyboard::RazerCynosaChromaPro) }
    else if product == 0x0235 { Some(Keyboard::RazerBlackWidowLite) }
    else if product == 0x0237 { Some(Keyboard::RazerBlackWidowEssential) }
    else if product == 0x023F { Some(Keyboard::RazerCynosaLite) }
    else if product == 0x0241 { Some(Keyboard::RazerBlackWidow2019) }
    else if product == 0x0243 { Some(Keyboard::RazerHuntsmanTournamentEdition) }
    else if product == 0x024E { Some(Keyboard::RazerBlackWidowV3) }
    else if product == 0x0257 { Some(Keyboard::RazerHuntsmanMini) }
    else if product == 0x0258 { Some(Keyboard::RazerBlackWidowV3MiniHyperspeedWired) }
    else if product == 0x025A { Some(Keyboard::RazerBlackWidowV3ProWired) }
    else if product == 0x025C { Some(Keyboard::RazerBlackWidowV3ProWireless) }
    else if product == 0x025D { Some(Keyboard::RazerOrnataV2) }
    else if product == 0x025E { Some(Keyboard::RazerCynosaV2) }
    else if product == 0x0266 { Some(Keyboard::RazerHuntsmanV2Analog) }
    else if product == 0x0269 { Some(Keyboard::RazerHuntsmanMiniJP) }
    else if product == 0x026A { Some(Keyboard::RazerBook13_2020) }
    else if product == 0x026B { Some(Keyboard::RazerHuntsmanV2Tenkeyless) }
    else if product == 0x026C { Some(Keyboard::RazerHuntsmanV2) }
    else if product == 0x0271 { Some(Keyboard::RazerBlackWidowV3MiniHyperspeedWireless) }
    else if product == 0x0282 { Some(Keyboard::RazerHuntsmanMiniAnalog) }
    else if product == 0x0287 { Some(Keyboard::RazerBlackWidowV4) }
    else if product == 0x028D { Some(Keyboard::RazerBlackWidowV4Pro) }
    else if product == 0x0290 { Some(Keyboard::RazerDeathStalkerV2ProWireless) }
    else if product == 0x0292 { Some(Keyboard::RazerDeathStalkerV2ProWired) }
    else if product == 0x0293 { Some(Keyboard::RazerBlackWidowV4X) }
    else if product == 0x0295 { Some(Keyboard::RazerDeathStalkerV2) }
    else if product == 0x0296 { Some(Keyboard::RazerDeathStalkerV2ProTKLWireless) }
    else if product == 0x0298 { Some(Keyboard::RazerDeathStalkerV2ProTKLWired) }
    else if product == 0x02A1 { Some(Keyboard::RazerOrnataV3) }
    else if product == 0x02A2 { Some(Keyboard::RazerOrnataV3X) }
    else if product == 0x0294 { Some(Keyboard::RazerOrnataV3X) }
    else if product == 0x02A3 { Some(Keyboard::RazerOrnataV3Tenkeyless) }
    else if product == 0x0A24 { Some(Keyboard::RazerBlackWidowV3Tenkeyless) }
    else { None }
}


/// Every lighting-matrix geometry the registry declares is small: at most 23
/// columns and 9 rows, and never zero-area.
pub proof fn lemma_matrix_geometry_bounds(d: Device)
    ensures
        d.spec_matrix() matches Some(wh) ==> 1 <= wh.0 <= 23 && 1 <= wh.1 <= 9,
{
}

/// A one-pair identifier list.
fn pair_vec1(a: u16, b: u16) -> (v: Vec<(u16, u16)>)
    ensures
        v@ == seq![(a, b)],
{
    let mut v: Vec<(u16, u16)> = Vec::new();
    v.push((a, b));
    proof {
        assert(v@ =~= seq![(a, b)]);
    }
    v
}

/// A two-pair identifier list.
fn pair_vec2(a: u16, b: u16, c: u16, d: u16) -> (v: Vec<(u16, u16)>)
    ensures
        v@ == seq![(a, b), (c, d)],
{
    let mut v: Vec<(u16, u16)> = Vec::new();
    v.push((a, b));
    v.push((c, d));
    proof {
        assert(v@ =~= seq![(a, b), (c, d)]);
    }
    v
}

/// Law: no two variants claim the same (vendor, product) identifier pair.
pub proof fn lemma_device_id_unique(k1: Keyboard, k2: Keyboard, vendor: u16, product: u16)
    requires
        k1.spec_device_id().contains((vendor, product)),
        k2.spec_device_id().contains((vendor, product)),
    ensures
        k1 == k2,
{
    lemma_device_id_inverse(k1, vendor, product);
    lemma_device_id_inverse(k2, vendor, product);
}

/// A variant claims a pair exactly when the inverted registry maps the pair
/// back to it.
pub proof fn lemma_device_id_inverse(kb: Keyboard, vendor: u16, product: u16)
    requires
        kb.spec_device_id().contains((vendor, product)),
    ensures
        variant_by_id(vendor, product) == Some(kb),
{
}

/// The variants a single enumerated record resolves to: nothing unless the
/// record's name carries the vendor marker, otherwise every variant claiming
/// the record's (vendor, product) pair, in declaration order.
pub open spec fn spec_record_keyboards(rec: BusInputDeviceView) -> Seq<Keyboard> {
    if contains_seq(rec.name, "Razer"@) {
        all_keyboards().filter(
            |kb: Keyboard| kb.spec_device_id().contains((rec.id.vendor, rec.id.product)),
        )
    } else {
        Seq::empty()
    }
}

/// The variants a record list resolves to, in enumeration order, then
/// declaration order for ties.
pub open spec fn spec_detect(recs: Seq<BusInputDeviceView>) -> Seq<Keyboard>
    decreases recs.len(),
{
    if recs.len() == 0 {
        Seq::empty()
    } else {
        spec_record_keyboards(recs[0]) + spec_detect(recs.skip(1))
    }
}

proof fn lemma_detect_push(recs: Seq<BusInputDeviceView>, rec: BusInputDeviceView)
    ensures
        spec_detect(recs.push(rec)) == spec_detect(recs) + spec_record_keyboards(rec),
    decreases recs.len(),
{
    let p = recs.push(rec);
    assert(p[0] == if recs.len() == 0 { rec } else { recs[0] });
    if recs.len() == 0 {
        assert(recs =~= Seq::<BusInputDeviceView>::empty());
        assert(p.skip(1) =~= Seq::<BusInputDeviceView>::empty());
        assert(spec_detect(Seq::<BusInputDeviceView>::empty()) == Seq::<Keyboard>::empty());
        assert(spec_detect(p) == spec_record_keyboards(rec)
            + spec_detect(Seq::<BusInputDeviceView>::empty()));
        assert(spec_detect(p) =~= spec_detect(recs) + spec_record_keyboards(rec));
    } else {
        assert(p.skip(1) =~= recs.skip(1).push(rec));
        lemma_detect_push(recs.skip(1), rec);
        assert(spec_detect(p) == spec_record_keyboards(recs[0])
            + (spec_detect(recs.skip(1)) + spec_record_keyboards(rec)));
        assert(spec_detect(recs) == spec_record_keyboards(recs[0]) + spec_detect(recs.skip(1)));
        assert(spec_detect(p) =~= spec_detect(recs) + spec_record_keyboards(rec));
    }
}

/// Whether a variant claims the given identifier pair.
fn keyboard_matches(kb: &Keyboard, vendor: u16, product: u16) -> (r: bool)
    ensures
        r == kb.spec_device_id().contains((vendor, product)),
{
    let ids = kb.device_id();
    let mut i: usize = 0;
    while i < ids.len()
        invariant
            ids@ == kb.spec_device_id(),
            i <= ids@.len(),
            forall|k: int| 0 <= k < i ==> ids@[k] != (vendor, product),
        decreases ids@.len() - i,
    {
        if ids[i].0 == vendor && ids[i].1 == product {
            return true;
        }
        i += 1;
    }
    false
}

/// The variants one record resolves to.
fn record_keyboards(rec: &BusInputDevice) -> (r: Vec<Keyboard>)
    ensures
        r@ == spec_record_keyboards(rec@),
{
    let mut out: Vec<Keyboard> = Vec::new();
    if !str_contains(rec.name.as_str(), "Razer") {
        return out;
    }
    let all = all_keyboards_exec();
    let ghost pred = |kb: Keyboard| kb.spec_device_id().contains((rec@.id.vendor, rec@.id.product));
    let mut i: usize = 0;
    while i < all.len()
        invariant
            all@ == all_keyboards(),
            i <= all@.len(),
            pred == (|kb: Keyboard| kb.spec_device_id().contains((rec@.id.vendor, rec@.id.product))),
            out@ == all@.take(i as int).filter(pred),
        decreases all@.len() - i,
    {
        proof {
            reveal(Seq::filter);
            assert(all@.take(i + 1).drop_last() =~= all@.take(i as int));
            assert(all@.take(i + 1).last() == all@[i as int]);
        }
        if keyboard_matches(&all[i], rec.id.vendor, rec.id.product) {
            out.push(all[i]);
        }
        i += 1;
    }
    proof {
        assert(all@.take(all@.len() as int) =~= all@);
    }
    out
}

impl Keyboard {
    /// Resolves enumerated host input devices to the supported variants, in
    /// enumeration order, then declaration order for ties. An empty result is
    /// a valid outcome.
    pub fn detect(records: &Vec<BusInputDevice>) -> (r: Vec<Keyboard>)
        ensures
            r@ == spec_detect(records@.map_values(|d: BusInputDevice| d@)),
    {
        let ghost rviews = records@.map_values(|d: BusInputDevice| d@);
        let mut out: Vec<Keyboard> = Vec::new();
        let mut i: usize = 0;
        while i < records.len()
            invariant
                rviews == records@.map_values(|d: BusInputDevice| d@),
                i <= records@.len(),
                out@ == spec_detect(rviews.take(i as int)),
            decreases records@.len() - i,
        {
            let mut found = record_keyboards(&records[i]);
            proof {
                lemma_detect_push(rviews.take(i as int), rviews[i as int]);
                assert(rviews.take(i + 1) =~= rviews.take(i as int).push(rviews[i as int]));
            }
            out.append(&mut found);
            i += 1;
        }
        proof {
            assert(rviews.take(records@.len() as int) =~= rviews);
        }
        out
    }

    /// Returns the first detected supported keyboard, or the device-not-found
    /// error when detection matches nothing.
    pub fn detect_one(records: &Vec<BusInputDevice>) -> (r: Result<Keyboard, PolychromaticError>)
        ensures
            ({
                let found = spec_detect(records@.map_values(|d: BusInputDevice| d@));
                if found.len() > 0 {
                    r == Ok::<Keyboard, PolychromaticError>(found[0])
                } else {
                    r == Err::<Keyboard, PolychromaticError>(PolychromaticError::NoRazerDevice)
                }
            }),
    {
        let found = Self::detect(records);
        if found.len() > 0 {
            Ok(found[0])
        } else {
            Err(PolychromaticError::NoRazerDevice)
        }
    }
}

/// The position of a variant in the declaration order.
pub open spec fn keyboard_index(kb: Keyboard) -> int {
    match kb {
        Keyboard::RazerBlackWidowUltimate2012 => 0,
        Keyboard::RazerBlackWidowStealthEdition => 1,
        Keyboard::RazerAnansi => 2,
        Keyboard::RazerDeathstalkerEssential => 3,
        Keyboard::RazerBlackWidowUltimate2013 => 4,
        Keyboard::RazerBlackWidowStealth => 5,
        Keyboard::RazerBlackWidowTournamentEdition2014 => 6,
        Keyboard::RazerDeathstalkerExpert => 7,
        Keyboard::RazerBlackWidowChroma => 8,
        Keyboard::RazerDeathStalkerChroma => 9,
        Keyboard::RazerBlackWidowChromaTournamentEdition => 10,
        Keyboard::RazerBlackWidowChromaOverwatch => 11,
        Keyboard::RazerBlackWidowUltimate2016 => 12,
        Keyboard::RazerBlackWidowXChroma => 13,
        Keyboard::RazerBlackWidowXUltimate => 14,
        Keyboard::RazerBlackWidowXChromaTournamentEdition => 15,
        Keyboard::RazerOrnataChroma => 16,
        Keyboard::RazerOrnata => 17,
        Keyboard::RazerBlackWidowChromaV2 => 18,
        Keyboard::RazerHuntsmanElite => 19,
        Keyboard::RazerHuntsman => 20,
        Keyboard::RazerBlackWidowElite => 21,
        Keyboard::RazerCynosaChroma => 22,
        Keyboard::RazerCynosaChromaPro => 23,
        Keyboard::RazerBlackWidowLite => 24,
        Keyboard::RazerBlackWidowEssential => 25,
        Keyboard::RazerCynosaLite => 26,
        Keyboard::RazerBlackWidow2019 => 27,
        Keyboard::RazerHuntsmanTournamentEdition => 28,
        Keyboard::RazerBlackWidowV3 => 29,
        Keyboard::RazerHuntsmanMini => 30,
        Keyboard::RazerBlackWidowV3MiniHyperspeedWired => 31,
        Keyboard::RazerBlackWidowV3ProWired => 32,
        Keyboard::RazerBlackWidowV3ProWireless => 33,
        Keyboard::RazerOrnataV2 => 34,
        Keyboard::RazerCynosaV2 => 35,
        Keyboard::RazerHuntsmanV2Analog => 36,
        Keyboard::RazerHuntsmanMiniJP => 37,
        Keyboard::RazerBook13_2020 => 38,
        Keyboard::RazerHuntsmanV2Tenkeyless => 39,
        Keyboard::RazerHuntsmanV2 => 40,
        Keyboard::RazerBlackWidowV3MiniHyperspeedWireless => 41,
        Keyboard::RazerHuntsmanMiniAnalog => 42,
        Keyboard::RazerBlackWidowV4 => 43,
        Keyboard::RazerBlackWidowV4Pro => 44,
        Keyboard::RazerDeathStalkerV2ProWireless => 45,
        Keyboard::RazerDeathStalkerV2ProWired => 46,
        Keyboard::RazerBlackWidowV4X => 47,
        Keyboard::RazerDeathStalkerV2 => 48,
        Keyboard::RazerDeathStalkerV2ProTKLWireless => 49,
        Keyboard::RazerDeathStalkerV2ProTKLWired => 50,
        Keyboard::RazerOrnataV3 => 51,
        Keyboard::RazerOrnataV3X => 52,
        Keyboard::RazerOrnataV3Tenkeyless => 53,
        Keyboard::RazerBlackWidowV3Tenkeyless => 54,
    }
}

/// Every variant stands in the declaration-order list, at its index.
pub proof fn lemma_all_keyboards_complete(kb: Keyboard)
    ensures
        all_keyboards().contains(kb),
        0 <= keyboard_index(kb) < all_keyboards().len(),
        all_keyboards()[keyboard_index(kb)] == kb,
{
    match kb {
        Keyboard::RazerBlackWidowUltimate2012 => {
            assert(all_keyboards()[0] == kb);
        },
        Keyboard::RazerBlackWidowStealthEdition => {
            assert(all_keyboards()[1] == kb);
        },
        Keyboard::RazerAnansi => {
            assert(all_keyboards()[2] == kb);
        },
        Keyboard::RazerDeathstalkerEssential => {
            assert(all_keyboards()[3] == kb);
        },
        Keyboard::RazerBlackWidowUltimate2013 => {
            assert(all_keyboards()[4] == kb);
        },
        Keyboard::RazerBlackWidowStealth => {
            assert(all_keyboards()[5] == kb);
        },
        Keyboard::RazerBlackWidowTournamentEdition2014 => {
            assert(all_keyboards()[6] == kb);
        },
        Keyboard::RazerDeathstalkerExpert => {
            assert(all_keyboards()[7] == kb);
        },
        Keyboard::RazerBlackWidowChroma => {
            assert(all_keyboards()[8] == kb);
        },
        Keyboard::RazerDeathStalkerChroma => {
            assert(all_keyboards()[9] == kb);
        },
        Keyboard::RazerBlackWidowChromaTournamentEdition => {
            assert(all_keyboards()[10] == kb);
        },
        Keyboard::RazerBlackWidowChromaOverwatch => {
            assert(all_keyboards()[11] == kb);
        },
        Keyboard::RazerBlackWidowUltimate2016 => {
            assert(all_keyboards()[12] == kb);
        },
        Keyboard::RazerBlackWidowXChroma => {
            assert(all_keyboards()[13] == kb);
        },
        Keyboard::RazerBlackWidowXUltimate => {
            assert(all_keyboards()[14] == kb);
        },
        Keyboard::RazerBlackWidowXChromaTournamentEdition => {
            assert(all_keyboards()[15] == kb);
        },
        Keyboard::RazerOrnataChroma => {
            assert(all_keyboards()[16] == kb);
        },
        Keyboard::RazerOrnata => {
            assert(all_keyboards()[17] == kb);
        },
        Keyboard::RazerBlackWidowChromaV2 => {
            assert(all_keyboards()[18] == kb);
        },
        Keyboard::RazerHuntsmanElite => {
            assert(all_keyboards()[19] == kb);
        },
        Keyboard::RazerHuntsman => {
            assert(all_keyboards()[20] == kb);
        },
        Keyboard::RazerBlackWidowElite => {
            assert(all_keyboards()[21] == kb);
        },
        Keyboard::RazerCynosaChroma => {
            assert(all_keyboards()[22] == kb);
        },
        Keyboard::RazerCynosaChromaPro => {
            assert(all_keyboards()[23] == kb);
        },
        Keyboard::RazerBlackWidowLite => {
            assert(all_keyboards()[24] == kb);
        },
        Keyboard::RazerBlackWidowEssential => {
            assert(all_keyboards()[25] == kb);
        },
        Keyboard::RazerCynosaLite => {
            assert(all_keyboards()[26] == kb);
        },
        Keyboard::RazerBlackWidow2019 => {
            assert(all_keyboards()[27] == kb);
        },
        Keyboard::RazerHuntsmanTournamentEdition => {
            assert(all_keyboards()[28] == kb);
        },
        Keyboard::RazerBlackWidowV3 => {
            assert(all_keyboards()[29] == kb);
        },
        Keyboard::RazerHuntsmanMini => {
            assert(all_keyboards()[30] == kb);
        },
        Keyboard::RazerBlackWidowV3MiniHyperspeedWired => {
            assert(all_keyboards()[31] == kb);
        },
        Keyboard::RazerBlackWidowV3ProWired => {
            assert(all_keyboards()[32] == kb);
        },
        Keyboard::RazerBlackWidowV3ProWireless => {
            assert(all_keyboards()[33] == kb);
        },
        Keyboard::RazerOrnataV2 => {
            assert(all_keyboards()[34] == kb);
        },
        Keyboard::RazerCynosaV2 => {
            assert(all_keyboards()[35] == kb);
        },
        Keyboard::RazerHuntsmanV2Analog => {
            assert(all_keyboards()[36] == kb);
        },
        Keyboard::RazerHuntsmanMiniJP => {
            assert(all_keyboards()[37] == kb);
        },
        Keyboard::RazerBook13_2020 => {
            assert(all_keyboards()[38] == kb);
        },
        Keyboard::RazerHuntsmanV2Tenkeyless => {
            assert(all_keyboards()[39] == kb);
        },
        Keyboard::RazerHuntsmanV2 => {
            assert(all_keyboards()[40] == kb);
        },
        Keyboard::RazerBlackWidowV3MiniHyperspeedWireless => {
            assert(all_keyboards()[41] == kb);
        },
        Keyboard::RazerHuntsmanMiniAnalog => {
            assert(all_keyboards()[42] == kb);
        },
        Keyboard::RazerBlackWidowV4 => {
            assert(all_keyboards()[43] == kb);
        },
        Keyboard::RazerBlackWidowV4Pro => {
            assert(all_keyboards()[44] == kb);
        },
        Keyboard::RazerDeathStalkerV2ProWireless => {
            assert(all_keyboards()[45] == kb);
        },
        Keyboard::RazerDeathStalkerV2ProWired => {
            assert(all_keyboards()[46] == kb);
        },
        Keyboard::RazerBlackWidowV4X => {
            assert(all_keyboards()[47] == kb);
        },
        Keyboard::RazerDeathStalkerV2 => {
            assert(all_keyboards()[48] == kb);
        },
        Keyboard::RazerDeathStalkerV2ProTKLWireless => {
            assert(all_keyboards()[49] == kb);
        },
        Keyboard::RazerDeathStalkerV2ProTKLWired => {
            assert(all_keyboards()[50] == kb);
        },
        Keyboard::RazerOrnataV3 => {
            assert(all_keyboards()[51] == kb);
        },
        Keyboard::RazerOrnataV3X => {
            assert(all_keyboards()[52] == kb);
        },
        Keyboard::RazerOrnataV3Tenkeyless => {
            assert(all_keyboards()[53] == kb);
        },
        Keyboard::RazerBlackWidowV3Tenkeyless => {
            assert(all_keyboards()[54] == kb);
        },
    }
}

/// The declaration-order list names each variant exactly once.
pub proof fn lemma_all_keyboards_no_duplicates()
    ensures
        all_keyboards().no_duplicates(),
{
    assert forall|i: int, j: int|
        0 <= i < all_keyboards().len() && 0 <= j < all_keyboards().len() && i != j
        implies all_keyboards()[i] != all_keyboards()[j] by {
        lemma_keyboard_index_of_position(i);
        lemma_keyboard_index_of_position(j);
    }
}

proof fn lemma_keyboard_index_of_position(i: int)
    requires
        0 <= i < all_keyboards().len(),
    ensures
        keyboard_index(all_keyboards()[i]) == i,
{
    lemma_all_keyboards_complete(all_keyboards()[i]);
}

/// Nothing in a sequence satisfies the predicate, so its filtering is empty.
proof fn lemma_filter_none(s: Seq<Keyboard>, pred: spec_fn(Keyboard) -> bool)
    requires
        forall|i: int| 0 <= i < s.len() ==> !pred(s[i]),
    ensures
        s.filter(pred) == Seq::<Keyboard>::empty(),
    decreases s.len(),
{
    reveal(Seq::filter);
    if s.len() > 0 {
        lemma_filter_none(s.drop_last(), pred);
    }
}

/// Filtering a duplicate-free sequence with a predicate that only its member
/// `kb` satisfies yields exactly `kb`.
proof fn lemma_filter_singleton(s: Seq<Keyboard>, pred: spec_fn(Keyboard) -> bool, kb: Keyboard)
    requires
        s.no_duplicates(),
        s.contains(kb),
        pred(kb),
        forall|e: Keyboard| #[trigger] pred(e) ==> e == kb,
    ensures
        s.filter(pred) == seq![kb],
    decreases s.len(),
{
    reveal(Seq::filter);
    if s.last() == kb {
        assert(forall|i: int| 0 <= i < s.drop_last().len() ==> s.drop_last()[i] != kb);
        assert(forall|i: int| 0 <= i < s.drop_last().len() ==> !pred(s.drop_last()[i]));
        lemma_filter_none(s.drop_last(), pred);
        assert(s.filter(pred) =~= seq![kb]);
    } else {
        assert(!pred(s.last()));
        let i = choose|i: int| 0 <= i < s.len() && s[i] == kb;
        assert(s.drop_last()[i] == kb);
        assert(s.drop_last().contains(kb));
        assert(s.drop_last().no_duplicates());
        lemma_filter_singleton(s.drop_last(), pred, kb);
    }
}

/// Law: an enumeration holding exactly one record whose name carries the
/// vendor marker and whose (vendor, product) pair a known variant claims
/// detects exactly that one variant.
pub proof fn lemma_detect_single_record(recs: Seq<BusInputDeviceView>, kb: Keyboard)
    requires
        recs.len() == 1,
        contains_seq(recs[0].name, "Razer"@),
        kb.spec_device_id().contains((recs[0].id.vendor, recs[0].id.product)),
    ensures
        spec_detect(recs) == seq![kb],
{
    let pred = |e: Keyboard| e.spec_device_id().contains((recs[0].id.vendor, recs[0].id.product));
    assert forall|e: Keyboard| #[trigger] pred(e) implies e == kb by {
        lemma_device_id_unique(e, kb, recs[0].id.vendor, recs[0].id.product);
    }
    lemma_all_keyboards_complete(kb);
    lemma_all_keyboards_no_duplicates();
    lemma_filter_singleton(all_keyboards(), pred, kb);
    assert(spec_record_keyboards(recs[0]) == seq![kb]);
    assert(recs.skip(1) =~= Seq::<BusInputDeviceView>::empty());
    assert(spec_detect(recs.skip(1)) == Seq::<Keyboard>::empty());
    assert(spec_detect(recs) =~= seq![kb]);
}

} // verus!
