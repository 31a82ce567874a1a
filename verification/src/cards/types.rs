//! Card identities, targets, and what playing a card reports.
use vstd::prelude::*;
use crate::board::types::{Square, PieceType, coord_chars};
use crate::text::{str_eq, string_of};

verus! {

#[derive(Debug, Clone, Copy, PartialEq, Eq, Hash, Structural)]
pub enum CardId {
    DeadlyZone,
    TimeBoost,
    RussianRoulette,
    Journey,
    Fog,
    CrazyKnight,
    BeastWork,
    FuriousMason,
    CatchTheKnightThief,
    BeastOfBurden,
    Bestification,
    HermitArchitect,
    Pyromaniac,
    Cannon,
    Sniper,
    Trash,
    PushBack,
    Battlefield,
    Garbage,
    Annihilation,
    VeteranKnight,
    VeteranRook,
    VeteranBishop,
    Frog,
    WheelOfFortune,
    Ninja,
    Traitor,
    Breakthrough,
    DesperateRescue,
}

/// The code by which clients and decks name a card.
pub open spec fn card_code(c: CardId) -> Seq<char> {
    match c {
        CardId::DeadlyZone => "0"@,
        CardId::TimeBoost => "1"@,
        CardId::RussianRoulette => "2"@,
        CardId::Journey => "3"@,
        CardId::Fog => "4"@,
        CardId::CrazyKnight => "5"@,
        CardId::BeastWork => "6"@,
        CardId::FuriousMason => "7"@,
        CardId::CatchTheKnightThief => "8"@,
        CardId::BeastOfBurden => "9"@,
        CardId::Bestification => "10"@,
        CardId::HermitArchitect => "11"@,
        CardId::Pyromaniac => "12"@,
        CardId::Cannon => "13"@,
        CardId::Sniper => "14"@,
        CardId::Trash => "15"@,
        CardId::PushBack => "16"@,
        CardId::Battlefield => "17"@,
        CardId::Garbage => "18"@,
        CardId::Annihilation => "19"@,
        CardId::VeteranKnight => "20"@,
        CardId::VeteranRook => "21"@,
        CardId::VeteranBishop => "22"@,
        CardId::Frog => "23"@,
        CardId::WheelOfFortune => "24"@,
        CardId::Ninja => "27"@,
        CardId::Traitor => "28"@,
        CardId::Breakthrough => "29"@,
        CardId::DesperateRescue => "30"@,
    }
}

/// The card that a code names.
pub open spec fn card_of_code(t: Seq<char>) -> Option<CardId> {
    if t == "0"@ {
        Some(CardId::DeadlyZone)
    } else if t == "1"@ {
        Some(CardId::TimeBoost)
    } else if t == "2"@ {
        Some(CardId::RussianRoulette)
    } else if t == "3"@ {
        Some(CardId::Journey)
    } else if t == "4"@ {
        Some(CardId::Fog)
    } else if t == "5"@ {
        Some(CardId::CrazyKnight)
    } else if t == "6"@ {
        Some(CardId::BeastWork)
    } else if t == "7"@ {
        Some(CardId::FuriousMason)
    } else if t == "8"@ {
        Some(CardId::CatchTheKnightThief)
    } else if t == "9"@ {
        Some(CardId::BeastOfBurden)
    } else if t == "10"@ {
        Some(CardId::Bestification)
    } else if t == "11"@ {
        Some(CardId::HermitArchitect)
    } else if t == "12"@ {
        Some(CardId::Pyromaniac)
    } else if t == "13"@ {
        Some(CardId::Cannon)
    } else if t == "14"@ {
        Some(CardId::Sniper)
    } else if t == "15"@ {
        Some(CardId::Trash)
    } else if t == "16"@ {
        Some(CardId::PushBack)
    } else if t == "17"@ {
        Some(CardId::Battlefield)
    } else if t == "18"@ {
        Some(CardId::Garbage)
    } else if t == "19"@ {
        Some(CardId::Annihilation)
    } else if t == "20"@ {
        Some(CardId::VeteranKnight)
    } else if t == "21"@ {
        Some(CardId::VeteranRook)
    } else if t == "22"@ {
        Some(CardId::VeteranBishop)
    } else if t == "23"@ {
        Some(CardId::Frog)
    } else if t == "24"@ {
        Some(CardId::WheelOfFortune)
    } else if t == "27"@ {
        Some(CardId::Ninja)
    } else if t == "28"@ {
        Some(CardId::Traitor)
    } else if t == "29"@ {
        Some(CardId::Breakthrough)
    } else if t == "30"@ {
        Some(CardId::DesperateRescue)
    } else {
        None
    }
}

impl CardId {
    pub fn as_str(self) -> (r: &'static str)
        ensures
            r@ == card_code(self),
    {
        match self {
            CardId::DeadlyZone => "0",
            CardId::TimeBoost => "1",
            CardId::RussianRoulette => "2",
            CardId::Journey => "3",
            CardId::Fog => "4",
            CardId::CrazyKnight => "5",
            CardId::BeastWork => "6",
            CardId::FuriousMason => "7",
            CardId::CatchTheKnightThief => "8",
            CardId::BeastOfBurden => "9",
            CardId::Bestification => "10",
            CardId::HermitArchitect => "11",
            CardId::Pyromaniac => "12",
            CardId::Cannon => "13",
            CardId::Sniper => "14",
            CardId::Trash => "15",
            CardId::PushBack => "16",
            CardId::Battlefield => "17",
            CardId::Garbage => "18",
            CardId::Annihilation => "19",
            CardId::VeteranKnight => "20",
            CardId::VeteranRook => "21",
            CardId::VeteranBishop => "22",
            CardId::Frog => "23",
            CardId::WheelOfFortune => "24",
            CardId::Ninja => "27",
            CardId::Traitor => "28",
            CardId::Breakthrough => "29",
            CardId::DesperateRescue => "30",
        }
    }

    pub fn from_str(s: &str) -> (r: Option<CardId>)
        ensures
            r == card_of_code(s@),
    {
        if str_eq(s, "0") {
            Some(CardId::DeadlyZone)
        } else if str_eq(s, "1") {
            Some(CardId::TimeBoost)
        } else if str_eq(s, "2") {
            Some(CardId::RussianRoulette)
        } else if str_eq(s, "3") {
            Some(CardId::Journey)
        } else if str_eq(s, "4") {
            Some(CardId::Fog)
        } else if str_eq(s, "5") {
            Some(CardId::CrazyKnight)
        } else if str_eq(s, "6") {
            Some(CardId::BeastWork)
        } else if str_eq(s, "7") {
            Some(CardId::FuriousMason)
        } else if str_eq(s, "8") {
            Some(CardId::CatchTheKnightThief)
        } else if str_eq(s, "9") {
            Some(CardId::BeastOfBurden)
        } else if str_eq(s, "10") {
            Some(CardId::Bestification)
        } else if str_eq(s, "11") {
            Some(CardId::HermitArchitect)
        } else if str_eq(s, "12") {
            Some(CardId::Pyromaniac)
        } else if str_eq(s, "13") {
            Some(CardId::Cannon)
        } else if str_eq(s, "14") {
            Some(CardId::Sniper)
        } else if str_eq(s, "15") {
            Some(CardId::Trash)
        } else if str_eq(s, "16") {
            Some(CardId::PushBack)
        } else if str_eq(s, "17") {
            Some(CardId::Battlefield)
        } else if str_eq(s, "18") {
            Some(CardId::Garbage)
        } else if str_eq(s, "19") {
            Some(CardId::Annihilation)
        } else if str_eq(s, "20") {
            Some(CardId::VeteranKnight)
        } else if str_eq(s, "21") {
            Some(CardId::VeteranRook)
        } else if str_eq(s, "22") {
            Some(CardId::VeteranBishop)
        } else if str_eq(s, "23") {
            Some(CardId::Frog)
        } else if str_eq(s, "24") {
            Some(CardId::WheelOfFortune)
        } else if str_eq(s, "27") {
            Some(CardId::Ninja)
        } else if str_eq(s, "28") {
            Some(CardId::Traitor)
        } else if str_eq(s, "29") {
            Some(CardId::Breakthrough)
        } else if str_eq(s, "30") {
            Some(CardId::DesperateRescue)
        } else {
            None
        }
    }
}

/// A code names a card exactly when it is that card's code: `CardId::from_str`
/// reads back the card from what `CardId::as_str` gives for it, and gives a
/// card only for that card's code, so no two cards share a code.
pub proof fn law_card_codes(t: Seq<char>, c: CardId)
    ensures
        card_of_code(card_code(c)) == Some(c),
        card_of_code(t) == Some(c) <==> card_code(c) == t,
{
    lemma_code_roundtrip(c);
}

/// Reading back the code of a card gives the card.
pub proof fn lemma_code_roundtrip(c: CardId)
    ensures
        card_of_code(card_code(c)) == Some(c),
{
    reveal_strlit("0");
    reveal_strlit("1");
    reveal_strlit("2");
    reveal_strlit("3");
    reveal_strlit("4");
    reveal_strlit("5");
    reveal_strlit("6");
    reveal_strlit("7");
    reveal_strlit("8");
    reveal_strlit("9");
    reveal_strlit("10");
    reveal_strlit("11");
    reveal_strlit("12");
    reveal_strlit("13");
    reveal_strlit("14");
    reveal_strlit("15");
    reveal_strlit("16");
    reveal_strlit("17");
    reveal_strlit("18");
    reveal_strlit("19");
    reveal_strlit("20");
    reveal_strlit("21");
    reveal_strlit("22");
    reveal_strlit("23");
    reveal_strlit("24");
    reveal_strlit("27");
    reveal_strlit("28");
    reveal_strlit("29");
    reveal_strlit("30");
    assert("0"@ =~= seq!['0']);
    assert("1"@ =~= seq!['1']);
    assert("2"@ =~= seq!['2']);
    assert("3"@ =~= seq!['3']);
    assert("4"@ =~= seq!['4']);
    assert("5"@ =~= seq!['5']);
    assert("6"@ =~= seq!['6']);
    assert("7"@ =~= seq!['7']);
    assert("8"@ =~= seq!['8']);
    assert("9"@ =~= seq!['9']);
    assert("10"@ =~= seq!['1', '0']);
    assert("11"@ =~= seq!['1', '1']);
    assert("12"@ =~= seq!['1', '2']);
    assert("13"@ =~= seq!['1', '3']);
    assert("14"@ =~= seq!['1', '4']);
    assert("15"@ =~= seq!['1', '5']);
    assert("16"@ =~= seq!['1', '6']);
    assert("17"@ =~= seq!['1', '7']);
    assert("18"@ =~= seq!['1', '8']);
    assert("19"@ =~= seq!['1', '9']);
    assert("20"@ =~= seq!['2', '0']);
    assert("21"@ =~= seq!['2', '1']);
    assert("22"@ =~= seq!['2', '2']);
    assert("23"@ =~= seq!['2', '3']);
    assert("24"@ =~= seq!['2', '4']);
    assert("27"@ =~= seq!['2', '7']);
    assert("28"@ =~= seq!['2', '8']);
    assert("29"@ =~= seq!['2', '9']);
    assert("30"@ =~= seq!['3', '0']);
    match c {
        CardId::DeadlyZone => {
        },
        CardId::TimeBoost => {
            assert("1"@[0] != "0"@[0]);
        },
        CardId::RussianRoulette => {
            assert("2"@[0] != "0"@[0]);
            assert("2"@[0] != "1"@[0]);
        },
        CardId::Journey => {
            assert("3"@[0] != "0"@[0]);
            assert("3"@[0] != "1"@[0]);
            assert("3"@[0] != "2"@[0]);
        },
        CardId::Fog => {
            assert("4"@[0] != "0"@[0]);
            assert("4"@[0] != "1"@[0]);
            assert("4"@[0] != "2"@[0]);
            assert("4"@[0] != "3"@[0]);
        },
        CardId::CrazyKnight => {
            assert("5"@[0] != "0"@[0]);
            assert("5"@[0] != "1"@[0]);
            assert("5"@[0] != "2"@[0]);
            assert("5"@[0] != "3"@[0]);
            assert("5"@[0] != "4"@[0]);
        },
        CardId::BeastWork => {
            assert("6"@[0] != "0"@[0]);
            assert("6"@[0] != "1"@[0]);
            assert("6"@[0] != "2"@[0]);
            assert("6"@[0] != "3"@[0]);
            assert("6"@[0] != "4"@[0]);
            assert("6"@[0] != "5"@[0]);
        },
        CardId::FuriousMason => {
            assert("7"@[0] != "0"@[0]);
            assert("7"@[0] != "1"@[0]);
            assert("7"@[0] != "2"@[0]);
            assert("7"@[0] != "3"@[0]);
            assert("7"@[0] != "4"@[0]);
            assert("7"@[0] != "5"@[0]);
            assert("7"@[0] != "6"@[0]);
        },
        CardId::CatchTheKnightThief => {
            assert("8"@[0] != "0"@[0]);
            assert("8"@[0] != "1"@[0]);
            assert("8"@[0] != "2"@[0]);
            assert("8"@[0] != "3"@[0]);
            assert("8"@[0] != "4"@[0]);
            assert("8"@[0] != "5"@[0]);
            assert("8"@[0] != "6"@[0]);
            assert("8"@[0] != "7"@[0]);
        },
        CardId::BeastOfBurden => {
            assert("9"@[0] != "0"@[0]);
            assert("9"@[0] != "1"@[0]);
            assert("9"@[0] != "2"@[0]);
            assert("9"@[0] != "3"@[0]);
            assert("9"@[0] != "4"@[0]);
            assert("9"@[0] != "5"@[0]);
            assert("9"@[0] != "6"@[0]);
            assert("9"@[0] != "7"@[0]);
            assert("9"@[0] != "8"@[0]);
        },
        CardId::Bestification => {
            assert("10"@.len() != "0"@.len());
            assert("10"@.len() != "1"@.len());
            assert("10"@.len() != "2"@.len());
            assert("10"@.len() != "3"@.len());
            assert("10"@.len() != "4"@.len());
            assert("10"@.len() != "5"@.len());
            assert("10"@.len() != "6"@.len());
            assert("10"@.len() != "7"@.len());
            assert("10"@.len() != "8"@.len());
            assert("10"@.len() != "9"@.len());
        },
        CardId::HermitArchitect => {
            assert("11"@.len() != "0"@.len());
            assert("11"@.len() != "1"@.len());
            assert("11"@.len() != "2"@.len());
            assert("11"@.len() != "3"@.len());
            assert("11"@.len() != "4"@.len());
            assert("11"@.len() != "5"@.len());
            assert("11"@.len() != "6"@.len());
            assert("11"@.len() != "7"@.len());
            assert("11"@.len() != "8"@.len());
            assert("11"@.len() != "9"@.len());
            assert("11"@[1] != "10"@[1]);
        },
        CardId::Pyromaniac => {
            assert("12"@.len() != "0"@.len());
            assert("12"@.len() != "1"@.len());
            assert("12"@.len() != "2"@.len());
            assert("12"@.len() != "3"@.len());
            assert("12"@.len() != "4"@.len());
            assert("12"@.len() != "5"@.len());
            assert("12"@.len() != "6"@.len());
            assert("12"@.len() != "7"@.len());
            assert("12"@.len() != "8"@.len());
            assert("12"@.len() != "9"@.len());
            assert("12"@[1] != "10"@[1]);
            assert("12"@[1] != "11"@[1]);
        },
        CardId::Cannon => {
            assert("13"@.len() != "0"@.len());
            assert("13"@.len() != "1"@.len());
            assert("13"@.len() != "2"@.len());
            assert("13"@.len() != "3"@.len());
            assert("13"@.len() != "4"@.len());
            assert("13"@.len() != "5"@.len());
            assert("13"@.len() != "6"@.len());
            assert("13"@.len() != "7"@.len());
            assert("13"@.len() != "8"@.len());
            assert("13"@.len() != "9"@.len());
            assert("13"@[1] != "10"@[1]);
            assert("13"@[1] != "11"@[1]);
            assert("13"@[1] != "12"@[1]);
        },
        CardId::Sniper => {
            assert("14"@.len() != "0"@.len());
            assert("14"@.len() != "1"@.len());
            assert("14"@.len() != "2"@.len());
            assert("14"@.len() != "3"@.len());
            assert("14"@.len() != "4"@.len());
            assert("14"@.len() != "5"@.len());
            assert("14"@.len() != "6"@.len());
            assert("14"@.len() != "7"@.len());
            assert("14"@.len() != "8"@.len());
            assert("14"@.len() != "9"@.len());
            assert("14"@[1] != "10"@[1]);
            assert("14"@[1] != "11"@[1]);
            assert("14"@[1] != "12"@[1]);
            assert("14"@[1] != "13"@[1]);
        },
        CardId::Trash => {
            assert("15"@.len() != "0"@.len());
            assert("15"@.len() != "1"@.len());
            assert("15"@.len() != "2"@.len());
            assert("15"@.len() != "3"@.len());
            assert("15"@.len() != "4"@.len());
            assert("15"@.len() != "5"@.len());
            assert("15"@.len() != "6"@.len());
            assert("15"@.len() != "7"@.len());
            assert("15"@.len() != "8"@.len());
            assert("15"@.len() != "9"@.len());
            assert("15"@[1] != "10"@[1]);
            assert("15"@[1] != "11"@[1]);
            assert("15"@[1] != "12"@[1]);
            assert("15"@[1] != "13"@[1]);
            assert("15"@[1] != "14"@[1]);
        },
        CardId::PushBack => {
            assert("16"@.len() != "0"@.len());
            assert("16"@.len() != "1"@.len());
            assert("16"@.len() != "2"@.len());
            assert("16"@.len() != "3"@.len());
            assert("16"@.len() != "4"@.len());
            assert("16"@.len() != "5"@.len());
            assert("16"@.len() != "6"@.len());
            assert("16"@.len() != "7"@.len());
            assert("16"@.len() != "8"@.len());
            assert("16"@.len() != "9"@.len());
            assert("16"@[1] != "10"@[1]);
            assert("16"@[1] != "11"@[1]);
            assert("16"@[1] != "12"@[1]);
            assert("16"@[1] != "13"@[1]);
            assert("16"@[1] != "14"@[1]);
            assert("16"@[1] != "15"@[1]);
        },
        CardId::Battlefield => {
            assert("17"@.len() != "0"@.len());
            assert("17"@.len() != "1"@.len());
            assert("17"@.len() != "2"@.len());
            assert("17"@.len() != "3"@.len());
            assert("17"@.len() != "4"@.len());
            assert("17"@.len() != "5"@.len());
            assert("17"@.len() != "6"@.len());
            assert("17"@.len() != "7"@.len());
            assert("17"@.len() != "8"@.len());
            assert("17"@.len() != "9"@.len());
            assert("17"@[1] != "10"@[1]);
            assert("17"@[1] != "11"@[1]);
            assert("17"@[1] != "12"@[1]);
            assert("17"@[1] != "13"@[1]);
            assert("17"@[1] != "14"@[1]);
            assert("17"@[1] != "15"@[1]);
            assert("17"@[1] != "16"@[1]);
        },
        CardId::Garbage => {
            assert("18"@.len() != "0"@.len());
            assert("18"@.len() != "1"@.len());
            assert("18"@.len() != "2"@.len());
            assert("18"@.len() != "3"@.len());
            assert("18"@.len() != "4"@.len());
            assert("18"@.len() != "5"@.len());
            assert("18"@.len() != "6"@.len());
            assert("18"@.len() != "7"@.len());
            assert("18"@.len() != "8"@.len());
            assert("18"@.len() != "9"@.len());
            assert("18"@[1] != "10"@[1]);
            assert("18"@[1] != "11"@[1]);
            assert("18"@[1] != "12"@[1]);
            assert("18"@[1] != "13"@[1]);
            assert("18"@[1] != "14"@[1]);
            assert("18"@[1] != "15"@[1]);
            assert("18"@[1] != "16"@[1]);
            assert("18"@[1] != "17"@[1]);
        },
        CardId::Annihilation => {
            assert("19"@.len() != "0"@.len());
            assert("19"@.len() != "1"@.len());
            assert("19"@.len() != "2"@.len());
            assert("19"@.len() != "3"@.len());
            assert("19"@.len() != "4"@.len());
            assert("19"@.len() != "5"@.len());
            assert("19"@.len() != "6"@.len());
            assert("19"@.len() != "7"@.len());
            assert("19"@.len() != "8"@.len());
            assert("19"@.len() != "9"@.len());
            assert("19"@[1] != "10"@[1]);
            assert("19"@[1] != "11"@[1]);
            assert("19"@[1] != "12"@[1]);
            assert("19"@[1] != "13"@[1]);
            assert("19"@[1] != "14"@[1]);
            assert("19"@[1] != "15"@[1]);
            assert("19"@[1] != "16"@[1]);
            assert("19"@[1] != "17"@[1]);
            assert("19"@[1] != "18"@[1]);
        },
        CardId::VeteranKnight => {
            assert("20"@.len() != "0"@.len());
            assert("20"@.len() != "1"@.len());
            assert("20"@.len() != "2"@.len());
            assert("20"@.len() != "3"@.len());
            assert("20"@.len() != "4"@.len());
            assert("20"@.len() != "5"@.len());
            assert("20"@.len() != "6"@.len());
            assert("20"@.len() != "7"@.len());
            assert("20"@.len() != "8"@.len());
            assert("20"@.len() != "9"@.len());
            assert("20"@[0] != "10"@[0]);
            assert("20"@[0] != "11"@[0]);
            assert("20"@[0] != "12"@[0]);
            assert("20"@[0] != "13"@[0]);
            assert("20"@[0] != "14"@[0]);
            assert("20"@[0] != "15"@[0]);
            assert("20"@[0] != "16"@[0]);
            assert("20"@[0] != "17"@[0]);
            assert("20"@[0] != "18"@[0]);
            assert("20"@[0] != "19"@[0]);
        },
        CardId::VeteranRook => {
            assert("21"@.len() != "0"@.len());
            assert("21"@.len() != "1"@.len());
            assert("21"@.len() != "2"@.len());
            assert("21"@.len() != "3"@.len());
            assert("21"@.len() != "4"@.len());
            assert("21"@.len() != "5"@.len());
            assert("21"@.len() != "6"@.len());
            assert("21"@.len() != "7"@.len());
            assert("21"@.len() != "8"@.len());
            assert("21"@.len() != "9"@.len());
            assert("21"@[0] != "10"@[0]);
            assert("21"@[0] != "11"@[0]);
            assert("21"@[0] != "12"@[0]);
            assert("21"@[0] != "13"@[0]);
            assert("21"@[0] != "14"@[0]);
            assert("21"@[0] != "15"@[0]);
            assert("21"@[0] != "16"@[0]);
            assert("21"@[0] != "17"@[0]);
            assert("21"@[0] != "18"@[0]);
            assert("21"@[0] != "19"@[0]);
            assert("21"@[1] != "20"@[1]);
        },
        CardId::VeteranBishop => {
            assert("22"@.len() != "0"@.len());
            assert("22"@.len() != "1"@.len());
            assert("22"@.len() != "2"@.len());
            assert("22"@.len() != "3"@.len());
            assert("22"@.len() != "4"@.len());
            assert("22"@.len() != "5"@.len());
            assert("22"@.len() != "6"@.len());
            assert("22"@.len() != "7"@.len());
            assert("22"@.len() != "8"@.len());
            assert("22"@.len() != "9"@.len());
            assert("22"@[0] != "10"@[0]);
            assert("22"@[0] != "11"@[0]);
            assert("22"@[0] != "12"@[0]);
            assert("22"@[0] != "13"@[0]);
            assert("22"@[0] != "14"@[0]);
            assert("22"@[0] != "15"@[0]);
            assert("22"@[0] != "16"@[0]);
            assert("22"@[0] != "17"@[0]);
            assert("22"@[0] != "18"@[0]);
            assert("22"@[0] != "19"@[0]);
            assert("22"@[1] != "20"@[1]);
            assert("22"@[1] != "21"@[1]);
        },
        CardId::Frog => {
            assert("23"@.len() != "0"@.len());
            assert("23"@.len() != "1"@.len());
            assert("23"@.len() != "2"@.len());
            assert("23"@.len() != "3"@.len());
            assert("23"@.len() != "4"@.len());
            assert("23"@.len() != "5"@.len());
            assert("23"@.len() != "6"@.len());
            assert("23"@.len() != "7"@.len());
            assert("23"@.len() != "8"@.len());
            assert("23"@.len() != "9"@.len());
            assert("23"@[0] != "10"@[0]);
            assert("23"@[0] != "11"@[0]);
            assert("23"@[0] != "12"@[0]);
            assert("23"@[0] != "13"@[0]);
            assert("23"@[0] != "14"@[0]);
            assert("23"@[0] != "15"@[0]);
            assert("23"@[0] != "16"@[0]);
            assert("23"@[0] != "17"@[0]);
            assert("23"@[0] != "18"@[0]);
            assert("23"@[0] != "19"@[0]);
            assert("23"@[1] != "20"@[1]);
            assert("23"@[1] != "21"@[1]);
            assert("23"@[1] != "22"@[1]);
        },
        CardId::WheelOfFortune => {
            assert("24"@.len() != "0"@.len());
            assert("24"@.len() != "1"@.len());
            assert("24"@.len() != "2"@.len());
            assert("24"@.len() != "3"@.len());
            assert("24"@.len() != "4"@.len());
            assert("24"@.len() != "5"@.len());
            assert("24"@.len() != "6"@.len());
            assert("24"@.len() != "7"@.len());
            assert("24"@.len() != "8"@.len());
            assert("24"@.len() != "9"@.len());
            assert("24"@[0] != "10"@[0]);
            assert("24"@[0] != "11"@[0]);
            assert("24"@[0] != "12"@[0]);
            assert("24"@[0] != "13"@[0]);
            assert("24"@[0] != "14"@[0]);
            assert("24"@[0] != "15"@[0]);
            assert("24"@[0] != "16"@[0]);
            assert("24"@[0] != "17"@[0]);
            assert("24"@[0] != "18"@[0]);
            assert("24"@[0] != "19"@[0]);
            assert("24"@[1] != "20"@[1]);
            assert("24"@[1] != "21"@[1]);
            assert("24"@[1] != "22"@[1]);
            assert("24"@[1] != "23"@[1]);
        },
        CardId::Ninja => {
            assert("27"@.len() != "0"@.len());
            assert("27"@.len() != "1"@.len());
            assert("27"@.len() != "2"@.len());
            assert("27"@.len() != "3"@.len());
            assert("27"@.len() != "4"@.len());
            assert("27"@.len() != "5"@.len());
            assert("27"@.len() != "6"@.len());
            assert("27"@.len() != "7"@.len());
            assert("27"@.len() != "8"@.len());
            assert("27"@.len() != "9"@.len());
            assert("27"@[0] != "10"@[0]);
            assert("27"@[0] != "11"@[0]);
            assert("27"@[0] != "12"@[0]);
            assert("27"@[0] != "13"@[0]);
            assert("27"@[0] != "14"@[0]);
            assert("27"@[0] != "15"@[0]);
            assert("27"@[0] != "16"@[0]);
            assert("27"@[0] != "17"@[0]);
            assert("27"@[0] != "18"@[0]);
            assert("27"@[0] != "19"@[0]);
            assert("27"@[1] != "20"@[1]);
            assert("27"@[1] != "21"@[1]);
            assert("27"@[1] != "22"@[1]);
            assert("27"@[1] != "23"@[1]);
            assert("27"@[1] != "24"@[1]);
        },
        CardId::Traitor => {
            assert("28"@.len() != "0"@.len());
            assert("28"@.len() != "1"@.len());
            assert("28"@.len() != "2"@.len());
            assert("28"@.len() != "3"@.len());
            assert("28"@.len() != "4"@.len());
            assert("28"@.len() != "5"@.len());
            assert("28"@.len() != "6"@.len());
            assert("28"@.len() != "7"@.len());
            assert("28"@.len() != "8"@.len());
            assert("28"@.len() != "9"@.len());
            assert("28"@[0] != "10"@[0]);
            assert("28"@[0] != "11"@[0]);
            assert("28"@[0] != "12"@[0]);
            assert("28"@[0] != "13"@[0]);
            assert("28"@[0] != "14"@[0]);
            assert("28"@[0] != "15"@[0]);
            assert("28"@[0] != "16"@[0]);
            assert("28"@[0] != "17"@[0]);
            assert("28"@[0] != "18"@[0]);
            assert("28"@[0] != "19"@[0]);
            assert("28"@[1] != "20"@[1]);
            assert("28"@[1] != "21"@[1]);
            assert("28"@[1] != "22"@[1]);
            assert("28"@[1] != "23"@[1]);
            assert("28"@[1] != "24"@[1]);
            assert("28"@[1] != "27"@[1]);
        },
        CardId::Breakthrough => {
            assert("29"@.len() != "0"@.len());
            assert("29"@.len() != "1"@.len());
            assert("29"@.len() != "2"@.len());
            assert("29"@.len() != "3"@.len());
            assert("29"@.len() != "4"@.len());
            assert("29"@.len() != "5"@.len());
            assert("29"@.len() != "6"@.len());
            assert("29"@.len() != "7"@.len());
            assert("29"@.len() != "8"@.len());
            assert("29"@.len() != "9"@.len());
            assert("29"@[0] != "10"@[0]);
            assert("29"@[0] != "11"@[0]);
            assert("29"@[0] != "12"@[0]);
            assert("29"@[0] != "13"@[0]);
            assert("29"@[0] != "14"@[0]);
            assert("29"@[0] != "15"@[0]);
            assert("29"@[0] != "16"@[0]);
            assert("29"@[0] != "17"@[0]);
            assert("29"@[0] != "18"@[0]);
            assert("29"@[0] != "19"@[0]);
            assert("29"@[1] != "20"@[1]);
            assert("29"@[1] != "21"@[1]);
            assert("29"@[1] != "22"@[1]);
            assert("29"@[1] != "23"@[1]);
            assert("29"@[1] != "24"@[1]);
            assert("29"@[1] != "27"@[1]);
            assert("29"@[1] != "28"@[1]);
        },
        CardId::DesperateRescue => {
            assert("30"@.len() != "0"@.len());
            assert("30"@.len() != "1"@.len());
            assert("30"@.len() != "2"@.len());
            assert("30"@.len() != "3"@.len());
            assert("30"@.len() != "4"@.len());
            assert("30"@.len() != "5"@.len());
            assert("30"@.len() != "6"@.len());
            assert("30"@.len() != "7"@.len());
            assert("30"@.len() != "8"@.len());
            assert("30"@.len() != "9"@.len());
            assert("30"@[0] != "10"@[0]);
            assert("30"@[0] != "11"@[0]);
            assert("30"@[0] != "12"@[0]);
            assert("30"@[0] != "13"@[0]);
            assert("30"@[0] != "14"@[0]);
            assert("30"@[0] != "15"@[0]);
            assert("30"@[0] != "16"@[0]);
            assert("30"@[0] != "17"@[0]);
            assert("30"@[0] != "18"@[0]);
            assert("30"@[0] != "19"@[0]);
            assert("30"@[0] != "20"@[0]);
            assert("30"@[0] != "21"@[0]);
            assert("30"@[0] != "22"@[0]);
            assert("30"@[0] != "23"@[0]);
            assert("30"@[0] != "24"@[0]);
            assert("30"@[0] != "27"@[0]);
            assert("30"@[0] != "28"@[0]);
            assert("30"@[0] != "29"@[0]);
        },
    }
}

#[derive(Debug, Clone, Copy, PartialEq, Eq, Structural)]
pub enum CardTarget {
    NoTarget,
    Square(Square),
    OwnPieceType(PieceType),
    EnemyPieceType(PieceType),
    PieceType(PieceType),
}

#[derive(Debug, Clone, PartialEq, Eq)]
pub struct EffectMarker {
    pub kind: String,
    pub square: String,
}

#[derive(Debug, Clone)]
pub struct CardResult {
    pub message_id: String,
    pub effects: Vec<EffectMarker>,
}

pub struct CardResultView {
    pub message_id: Seq<char>,
    pub effects: Seq<(Seq<char>, Seq<char>)>,
}

impl View for CardResult {
    type V = CardResultView;

    open spec fn view(&self) -> CardResultView {
        CardResultView {
            message_id: self.message_id@,
            effects: self.effects@.map_values(|e: EffectMarker| (e.kind@, e.square@)),
        }
    }
}

/// A result with a message and no effect markers.
pub open spec fn plain(message: Seq<char>) -> CardResultView {
    CardResultView { message_id: message, effects: Seq::empty() }
}

/// The result with one more marker of `kind` on `sq`.
pub open spec fn mark(r: CardResultView, kind: Seq<char>, sq: Square) -> CardResultView {
    CardResultView { effects: r.effects.push((kind, coord_chars(sq))), ..r }
}

/// The result with a marker of `kind` on each of `sqs`, in order.
pub open spec fn mark_all(r: CardResultView, kind: Seq<char>, sqs: Seq<Square>) -> CardResultView
    decreases sqs.len(),
{
    if sqs.len() == 0 {
        r
    } else {
        mark(mark_all(r, kind, sqs.drop_last()), kind, sqs.last())
    }
}

impl CardResult {
    pub fn new(message_id: String) -> (r: CardResult)
        ensures
            r@ == plain(message_id@),
    {
        let r = CardResult { message_id, effects: Vec::new() };
        assert(r@.effects =~= Seq::<(Seq<char>, Seq<char>)>::empty());
        r
    }

    pub fn with_effect(self, kind: &str, square: Square) -> (r: CardResult)
        requires
            square.file <= 158,
        ensures
            r@ == mark(self@, kind@, square),
    {
        let mut s = self;
        let ghost before = s@;
        let m = EffectMarker { kind: string_of(kind), square: square.to_coord() };
        s.effects.push(m);
        assert(s@.effects =~= before.effects.push((kind@, coord_chars(square))));
        s
    }

    pub fn with_effects(self, kind: &str, squares: Vec<Square>) -> (r: CardResult)
        requires
            forall|i: int| 0 <= i < squares@.len() ==> (#[trigger] squares@[i]).file <= 158,
        ensures
            r@ == mark_all(self@, kind@, squares@),
    {
        let mut s = self;
        let ghost start = s@;
        let mut i: usize = 0;
        while i < squares.len()
            invariant
                i <= squares@.len(),
                forall|j: int| 0 <= j < squares@.len() ==> (#[trigger] squares@[j]).file <= 158,
                s@ == mark_all(start, kind@, squares@.subrange(0, i as int)),
            decreases squares@.len() - i,
        {
            s = s.with_effect(kind, squares[i]);
            assert(squares@.subrange(0, i + 1).drop_last() =~= squares@.subrange(0, i as int));
            i = i + 1;
        }
        assert(squares@.subrange(0, squares@.len() as int) =~= squares@);
        s
    }
}

#[derive(Debug, Clone, Copy, PartialEq, Eq, Structural)]
pub enum PieceRequirement {
    Own(PieceType),
    Enemy(PieceType),
    AnyNonKing,
    OwnNonKing,
    FreeNonPawnSquare,
}

#[derive(Debug, Clone)]
pub struct CardDef {
    pub id: CardId,
    pub ends_turn: bool,
    pub playable_if: Vec<PieceRequirement>,
}

} // verus!
