//! Random strings over a named character space.
use crate::error::TeraRandError;
use crate::range::bound_or;
use crate::rng::{alphanumeric_string, standard_string};
use vstd::prelude::*;

verus! {

pub use crate::rng::is_alphanumeric;

/// The length of a random string when none is asked for.
pub const DEFAULT_STRING_LENGTH: usize = 8;

/// The characters a random string is drawn from.
#[derive(Debug, Clone, Copy, PartialEq, Eq)]
pub enum CharacterSpace {
    /// ASCII letters and digits, `[A-Za-z0-9]`.
    Alphanumeric,
    /// Any Unicode scalar value.
    Standard,
}

/// The space a name stands for: `"alphanumeric"` or `"standard"`.
pub open spec fn space_named(name: Seq<char>) -> Option<CharacterSpace> {
    if name == "alphanumeric"@ {
        Some(CharacterSpace::Alphanumeric)
    } else if name == "standard"@ {
        Some(CharacterSpace::Standard)
    } else {
        None
    }
}

impl CharacterSpace {
    /// The space a name stands for; any other name is an unsupported `space`.
    pub fn from_name(name: &str) -> (r: Result<CharacterSpace, TeraRandError>)
        ensures
            r is Ok <==> space_named(name@) is Some,
            r matches Ok(space) ==> space_named(name@) == Some(space),
            r matches Err(e) ==> e matches TeraRandError::UnsupportedArgument {
                parameter,
                argument,
            } && parameter@ == "space"@ && argument@ == name@,
    {
        let given: String = name.to_owned();
        if given == "alphanumeric".to_owned() {
            Ok(CharacterSpace::Alphanumeric)
        } else if given == "standard".to_owned() {
            Ok(CharacterSpace::Standard)
        } else {
            Err(TeraRandError::UnsupportedArgument { parameter: "space", argument: given })
        }
    }
}

/// A random string of `length` characters (8 if not given) from the space
/// named by `space` (alphanumeric if not given).
pub fn random_string(length: Option<usize>, space: Option<&str>) -> (r: Result<String, TeraRandError>)
    requires
        bound_or(length, DEFAULT_STRING_LENGTH) <= isize::MAX / 4,
    ensures
        r is Ok <==> (space matches Some(name) ==> space_named(name@) is Some),
        r matches Err(e) ==> space matches Some(name) && e matches TeraRandError::UnsupportedArgument {
            parameter,
            argument,
        } && parameter@ == "space"@ && argument@ == name@,
        r matches Ok(s) ==> s@.len() == bound_or(length, DEFAULT_STRING_LENGTH),
        r matches Ok(s) ==> (space matches Some(name) ==> space_named(name@) == Some(
            CharacterSpace::Alphanumeric,
        )) ==> forall|i: int| 0 <= i < s@.len() ==> is_alphanumeric(#[trigger] s@[i]),
{
    let length: usize = match length {
        Some(l) => l,
        None => DEFAULT_STRING_LENGTH,
    };
    let space = match space {
        Some(name) => match CharacterSpace::from_name(name) {
            Ok(s) => s,
            Err(e) => return Err(e),
        },
        None => CharacterSpace::Alphanumeric,
    };
    match space {
        CharacterSpace::Alphanumeric => Ok(alphanumeric_string(length)),
        CharacterSpace::Standard => Ok(standard_string(length)),
    }
}

} // verus!
