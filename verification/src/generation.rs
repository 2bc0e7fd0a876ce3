//! The generations of the game and the two-letter codes the dex uses for them.

use crate::error::StratDexError;
use crate::chance::random_index;
use crate::text::str_eq;
use vstd::prelude::*;
use vstd::std_specs::convert::FromSpecImpl;
use vstd::std_specs::convert::TryFromSpecImpl;

verus! {

/// A generation of the game, newest first.
#[derive(Copy, Clone, Ord, PartialOrd, Eq, PartialEq, Debug)]
pub enum Generation {
    ScarletViolet,
    SwordShield,
    SunMoon,
    XY,
    BlackWhite,
    DiamondPearl,
    RubySapphire,
    GoldSilver,
    RedBlue,
}

/// The generation that a code stands for, if any.
///
/// The code `"ss"` is read as `ScarletViolet`, like `"sv"`: no code is read
/// as `SwordShield`.
pub open spec fn decoded(code: Seq<char>) -> Option<Generation> {
    if code == "sv"@ {
        Some(Generation::ScarletViolet)
    } else if code == "ss"@ {
        Some(Generation::ScarletViolet)
    } else if code == "sm"@ {
        Some(Generation::SunMoon)
    } else if code == "xy"@ {
        Some(Generation::XY)
    } else if code == "bw"@ {
        Some(Generation::BlackWhite)
    } else if code == "dp"@ {
        Some(Generation::DiamondPearl)
    } else if code == "rs"@ {
        Some(Generation::RubySapphire)
    } else if code == "gs"@ {
        Some(Generation::GoldSilver)
    } else if code == "rb"@ {
        Some(Generation::RedBlue)
    } else {
        None
    }
}

impl Generation {
    /// The code under which the dex knows this generation, as a literal.
    pub open spec fn spec_literal(self) -> &'static str {
        match self {
            Generation::ScarletViolet => "sv",
            Generation::SwordShield => "ss",
            Generation::SunMoon => "sm",
            Generation::XY => "xy",
            Generation::BlackWhite => "bw",
            Generation::DiamondPearl => "dp",
            Generation::RubySapphire => "rs",
            Generation::GoldSilver => "gs",
            Generation::RedBlue => "rb",
        }
    }

    /// The code under which the dex knows this generation.
    pub open spec fn spec_code(self) -> Seq<char> {
        self.spec_literal()@
    }

    /// The generation at a position counted from the newest, if there is
    /// one.
    pub open spec fn at(index: int) -> Option<Generation> {
        if index == 0 {
            Some(Generation::ScarletViolet)
        } else if index == 1 {
            Some(Generation::SwordShield)
        } else if index == 2 {
            Some(Generation::SunMoon)
        } else if index == 3 {
            Some(Generation::XY)
        } else if index == 4 {
            Some(Generation::BlackWhite)
        } else if index == 5 {
            Some(Generation::DiamondPearl)
        } else if index == 6 {
            Some(Generation::RubySapphire)
        } else if index == 7 {
            Some(Generation::GoldSilver)
        } else if index == 8 {
            Some(Generation::RedBlue)
        } else {
            None
        }
    }

    /// The code under which the dex knows this generation.
    pub fn code(self) -> (code: &'static str)
        ensures
            code == self.spec_literal(),
            code@ == self.spec_code(),
    {
        match self {
            Generation::ScarletViolet => "sv",
            Generation::SwordShield => "ss",
            Generation::SunMoon => "sm",
            Generation::XY => "xy",
            Generation::BlackWhite => "bw",
            Generation::DiamondPearl => "dp",
            Generation::RubySapphire => "rs",
            Generation::GoldSilver => "gs",
            Generation::RedBlue => "rb",
        }
    }

    /// Reads a code; a string that is no known code is refused.
    pub fn parse(code: &str) -> (generation: Result<Generation, StratDexError>)
        ensures
            match decoded(code@) {
                Some(g) => generation == Ok::<Generation, StratDexError>(g),
                None => generation == Err::<Generation, StratDexError>(
                    StratDexError::GenerationParseError,
                ),
            },
    {
        if str_eq(code, "sv") {
            Ok(Generation::ScarletViolet)
        } else if str_eq(code, "ss") {
            Ok(Generation::ScarletViolet)
        } else if str_eq(code, "sm") {
            Ok(Generation::SunMoon)
        } else if str_eq(code, "xy") {
            Ok(Generation::XY)
        } else if str_eq(code, "bw") {
            Ok(Generation::BlackWhite)
        } else if str_eq(code, "dp") {
            Ok(Generation::DiamondPearl)
        } else if str_eq(code, "rs") {
            Ok(Generation::RubySapphire)
        } else if str_eq(code, "gs") {
            Ok(Generation::GoldSilver)
        } else if str_eq(code, "rb") {
            Ok(Generation::RedBlue)
        } else {
            Err(StratDexError::GenerationParseError)
        }
    }

    /// The generation at a position counted from the newest, if there is one.
    pub fn from_index(index: usize) -> (generation: Option<Generation>)
        ensures
            generation == Generation::at(index as int),
    {
        match index {
            0 => Some(Generation::ScarletViolet),
            1 => Some(Generation::SwordShield),
            2 => Some(Generation::SunMoon),
            3 => Some(Generation::XY),
            4 => Some(Generation::BlackWhite),
            5 => Some(Generation::DiamondPearl),
            6 => Some(Generation::RubySapphire),
            7 => Some(Generation::GoldSilver),
            8 => Some(Generation::RedBlue),
            _ => None,
        }
    }
}

/// Any of the generations, drawn at random.
pub fn random_generation() -> (generation: Generation)
    ensures
        exists|index: int| 0 <= index < 9 && Generation::at(index) == Some(generation),
{
    let pick = random_index(9);
    assert(0 <= pick < 9);
    match Generation::from_index(pick) {
        Some(generation) => generation,
        None => Generation::ScarletViolet,
    }
}

impl<'a> TryFrom<&'a str> for Generation {
    type Error = StratDexError;

    fn try_from(value: &'a str) -> (generation: Result<Generation, StratDexError>) {
        Generation::parse(value)
    }
}

impl<'a> TryFromSpecImpl<&'a str> for Generation {
    open spec fn obeys_try_from_spec() -> bool {
        true
    }

    open spec fn try_from_spec(value: &'a str) -> Result<Generation, StratDexError> {
        match decoded(value@) {
            Some(g) => Ok(g),
            None => Err(StratDexError::GenerationParseError),
        }
    }
}

impl From<Generation> for &'static str {
    fn from(value: Generation) -> (code: &'static str) {
        value.code()
    }
}

impl FromSpecImpl<Generation> for &'static str {
    open spec fn obeys_from_spec() -> bool {
        true
    }

    open spec fn from_spec(value: Generation) -> &'static str {
        value.spec_literal()
    }
}

/// Every generation but `SwordShield` is read back from its own code.
pub proof fn lemma_code_round_trip(generation: Generation)
    requires
        generation != Generation::SwordShield,
    ensures
        decoded(generation.spec_code()) == Some(generation),
{
    reveal_codes();
}

/// The code of `SwordShield` is read back as `ScarletViolet`.
pub proof fn lemma_sword_shield_collapses()
    ensures
        decoded(Generation::SwordShield.spec_code()) == Some(Generation::ScarletViolet),
{
    reveal_codes();
}

/// A string is read as a generation exactly if it is one of the nine codes.
pub proof fn lemma_decoded_iff_code(code: Seq<char>)
    ensures
        decoded(code) is Some <==> exists|g: Generation| g.spec_code() == code,
{
    reveal_codes();
    if decoded(code) is Some {
        let g = decoded(code)->0;
        if code == "ss"@ {
            assert(Generation::SwordShield.spec_code() == code);
        } else {
            assert(g.spec_code() == code);
        }
    }
}

proof fn reveal_codes()
    ensures
        "sv"@ == seq!['s', 'v'],
        "ss"@ == seq!['s', 's'],
        "sm"@ == seq!['s', 'm'],
        "xy"@ == seq!['x', 'y'],
        "bw"@ == seq!['b', 'w'],
        "dp"@ == seq!['d', 'p'],
        "rs"@ == seq!['r', 's'],
        "gs"@ == seq!['g', 's'],
        "rb"@ == seq!['r', 'b'],
{
    reveal_strlit("sv");
    reveal_strlit("ss");
    reveal_strlit("sm");
    reveal_strlit("xy");
    reveal_strlit("bw");
    reveal_strlit("dp");
    reveal_strlit("rs");
    reveal_strlit("gs");
    reveal_strlit("rb");
    assert("sv"@ =~= seq!['s', 'v']);
    assert("ss"@ =~= seq!['s', 's']);
    assert("sm"@ =~= seq!['s', 'm']);
    assert("xy"@ =~= seq!['x', 'y']);
    assert("bw"@ =~= seq!['b', 'w']);
    assert("dp"@ =~= seq!['d', 'p']);
    assert("rs"@ =~= seq!['r', 's']);
    assert("gs"@ =~= seq!['g', 's']);
    assert("rb"@ =~= seq!['r', 'b']);
}

} // verus!
