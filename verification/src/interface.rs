use vstd::prelude::*;
use crate::text::str_equals;

verus! {

/// Credentials sent to log in.
pub struct LoginParams {
    pub email: String,
    pub password: String,
}

/// What the server answers to a successful login.
#[derive(Clone)]
pub struct LoginResponse {
    pub token: String,
    pub pid: String,
    pub name: String,
    pub is_verified: bool,
}

/// The profile of the logged-in user.
pub struct CurrentResponse {
    pub pid: String,
    pub name: String,
    pub email: String,
}

/// Data of a new account.
pub struct RegisterParams {
    pub email: String,
    pub password: String,
    pub password_confirm: String,
    pub name: String,
}

/// An e-mail verification token.
pub struct VerifyParams {
    pub token: String,
}

/// A request to reset a forgotten password.
pub struct ForgotParams {
    pub email: String,
}

/// A password reset with its token.
pub struct ResetParams {
    pub token: String,
    pub password: String,
}

/// A measure to be created. The weight in grams is held as the bit pattern of
/// its IEEE-754 double (`f64::to_bits`), so that it passes through unchanged.
pub struct MeasureCreate {
    pub name: String,
    pub name_plural: String,
    pub grams_bits: u64,
}

/// A stored measure. `grams_bits` is the bit pattern of its weight in grams.
#[derive(Clone)]
pub struct Measure {
    pub id: i32,
    pub name: String,
    pub name_plural: String,
    pub grams_bits: u64,
}

/// The unit in which a lifted weight is entered.
#[derive(Debug, Clone, Copy, PartialEq, Eq, Structural)]
pub enum InputWeightType {
    Lbs,
    Kgs,
}

/// A name that is not the name of any weight unit.
#[derive(Debug, Clone, Copy, PartialEq, Eq, Structural)]
pub struct UnknownWeightType;

/// The exact milligrams in one unit: a pound is 453.592 g, a kilogram 1000 g.
pub open spec fn spec_milligrams_per_unit(t: InputWeightType) -> nat {
    match t {
        InputWeightType::Lbs => 453592,
        InputWeightType::Kgs => 1000000,
    }
}

/// The unit that a variant name denotes: the names are `Lbs` and `Kgs`, case sensitive.
pub open spec fn spec_parse_weight_type(s: Seq<char>) -> Option<InputWeightType> {
    if s == seq!['L', 'b', 's'] {
        Some(InputWeightType::Lbs)
    } else if s == seq!['K', 'g', 's'] {
        Some(InputWeightType::Kgs)
    } else {
        None
    }
}

impl InputWeightType {
    /// Reads a unit from its variant name; any other text is refused.
    pub fn parse_name(s: &str) -> (r: Result<InputWeightType, UnknownWeightType>)
        ensures
            r is Ok <==> spec_parse_weight_type(s@) is Some,
            r matches Ok(t) ==> spec_parse_weight_type(s@) == Some(t),
    {
        proof {
            reveal_strlit("Lbs");
            reveal_strlit("Kgs");
            assert("Lbs"@ =~= seq!['L', 'b', 's']);
            assert("Kgs"@ =~= seq!['K', 'g', 's']);
        }
        if str_equals(s, "Lbs") {
            Ok(InputWeightType::Lbs)
        } else if str_equals(s, "Kgs") {
            Ok(InputWeightType::Kgs)
        } else {
            Err(UnknownWeightType)
        }
    }

    /// Milligrams in one unit of this kind.
    pub fn milligrams_per_unit(&self) -> (r: u32)
        ensures
            r == spec_milligrams_per_unit(*self),
    {
        match self {
            InputWeightType::Lbs => 453592,
            InputWeightType::Kgs => 1000000,
        }
    }
}

impl std::str::FromStr for InputWeightType {
    type Err = UnknownWeightType;

    fn from_str(s: &str) -> (r: Result<InputWeightType, UnknownWeightType>)
        ensures
            r is Ok <==> spec_parse_weight_type(s@) is Some,
            r matches Ok(t) ==> spec_parse_weight_type(s@) == Some(t),
    {
        InputWeightType::parse_name(s)
    }
}

} // verus!
