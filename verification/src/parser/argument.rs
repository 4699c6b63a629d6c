//! The arguments that a command declares and the values read for them.

use vstd::prelude::*;

verus! {

/// What `str::parse::<u32>` makes of a text: the number, or nothing where it
/// reports an error.
pub uninterp spec fn parsed_u32(text: Seq<char>) -> Option<u32>;

/// What `str::parse::<i32>` makes of a text: the number, or nothing where it
/// reports an error.
pub uninterp spec fn parsed_i32(text: Seq<char>) -> Option<i32>;

/// What `str::parse::<bool>` makes of a text: `true` of "true", `false` of
/// "false", nothing of any other text.
pub open spec fn parsed_bool(text: Seq<char>) -> Option<bool> {
    if text == "true"@ {
        Some(true)
    } else if text == "false"@ {
        Some(false)
    } else {
        None
    }
}

/// Calls `str::parse::<u32>`. The contract only names the outcome.
#[verifier::external_body]
fn parse_u32(text: &str) -> (n: Option<u32>)
    ensures
        n == parsed_u32(text@),
{
    match text.parse::<u32>() {
        Ok(v) => Some(v),
        Err(_) => None,
    }
}

/// Calls `str::parse::<i32>`. The contract only names the outcome.
#[verifier::external_body]
fn parse_i32(text: &str) -> (n: Option<i32>)
    ensures
        n == parsed_i32(text@),
{
    match text.parse::<i32>() {
        Ok(v) => Some(v),
        Err(_) => None,
    }
}

/// Calls `str::parse::<bool>`, which accepts exactly the two texts "true"
/// and "false".
#[verifier::external_body]
fn parse_bool(text: &str) -> (b: Option<bool>)
    ensures
        b == parsed_bool(text@),
{
    match text.parse::<bool>() {
        Ok(v) => Some(v),
        Err(_) => None,
    }
}

/// Why a word could not be read as the value of an argument.
#[derive(Clone, Copy, Debug, PartialEq, Eq)]
pub enum ParseError {
    /// The word is not an unsigned number that fits 32 bits.
    UInt,
    /// The word is not a signed number that fits 32 bits.
    Int,
    /// The word is neither "true" nor "false".
    Bool,
}

/// The name of an argument and how many words it takes; zero stands for all
/// the words that are left.
#[derive(Clone, Debug, PartialEq, Eq)]
pub struct ArgumentMetadata {
    pub label: String,
    pub size: u32,
}

/// An argument that a command declares, by the kind of value it takes.
#[derive(Clone, Debug, PartialEq, Eq)]
pub enum Argument {
    String(ArgumentMetadata),
    UInt(ArgumentMetadata),
    Int(ArgumentMetadata),
    Bool(ArgumentMetadata),
}

impl Argument {
    /// The metadata, whatever the kind.
    pub open spec fn metadata(self) -> ArgumentMetadata {
        match self {
            Argument::String(d) => d,
            Argument::UInt(d) => d,
            Argument::Int(d) => d,
            Argument::Bool(d) => d,
        }
    }

    /// The argument's name.
    pub fn label(self) -> (l: String)
        ensures
            l == self.metadata().label,
    {
        match self {
            Argument::String(d) => d.label,
            Argument::UInt(d) => d.label,
            Argument::Int(d) => d.label,
            Argument::Bool(d) => d.label,
        }
    }

    /// The number of words the argument takes, read without giving the
    /// argument up.
    pub fn width(&self) -> (s: u32)
        ensures
            s == self.metadata().size,
    {
        match self {
            Argument::String(d) => d.size,
            Argument::UInt(d) => d.size,
            Argument::Int(d) => d.size,
            Argument::Bool(d) => d.size,
        }
    }

    /// The number of words the argument takes; zero for all that are left.
    pub fn size(self) -> (s: u32)
        ensures
            s == self.metadata().size,
    {
        match self {
            Argument::String(d) => d.size,
            Argument::UInt(d) => d.size,
            Argument::Int(d) => d.size,
            Argument::Bool(d) => d.size,
        }
    }
}

/// The value read for an argument.
#[derive(Clone, Debug, PartialEq, Eq)]
pub enum ArgumentWithData {
    String(String),
    UInt(u32),
    Int(i32),
    Bool(bool),
}

impl ArgumentWithData {
    /// The value of an unsigned argument, given what parsing made of its
    /// word.
    pub fn from_uint(parsed: Option<u32>) -> (r: Result<ArgumentWithData, ParseError>)
        ensures
            r == match parsed {
                Some(v) => Ok::<ArgumentWithData, ParseError>(ArgumentWithData::UInt(v)),
                None => Err::<ArgumentWithData, ParseError>(ParseError::UInt),
            },
    {
        match parsed {
            Some(v) => Ok(ArgumentWithData::UInt(v)),
            None => Err(ParseError::UInt),
        }
    }

    /// The value of a signed argument, given what parsing made of its word.
    pub fn from_int(parsed: Option<i32>) -> (r: Result<ArgumentWithData, ParseError>)
        ensures
            r == match parsed {
                Some(v) => Ok::<ArgumentWithData, ParseError>(ArgumentWithData::Int(v)),
                None => Err::<ArgumentWithData, ParseError>(ParseError::Int),
            },
    {
        match parsed {
            Some(v) => Ok(ArgumentWithData::Int(v)),
            None => Err(ParseError::Int),
        }
    }

    /// The value of a truth argument, given what parsing made of its word.
    pub fn from_bool(parsed: Option<bool>) -> (r: Result<ArgumentWithData, ParseError>)
        ensures
            r == match parsed {
                Some(v) => Ok::<ArgumentWithData, ParseError>(ArgumentWithData::Bool(v)),
                None => Err::<ArgumentWithData, ParseError>(ParseError::Bool),
            },
    {
        match parsed {
            Some(v) => Ok(ArgumentWithData::Bool(v)),
            None => Err(ParseError::Bool),
        }
    }

    /// What reading `val` for `arg` gives: the text itself for a string
    /// argument, otherwise the parsed value, or the error of the kind where
    /// the text does not parse.
    pub open spec fn read(arg: Argument, val: String) -> Result<ArgumentWithData, ParseError> {
        match arg {
            Argument::String(_) => Ok(ArgumentWithData::String(val)),
            Argument::UInt(_) => match parsed_u32(val@) {
                Some(v) => Ok(ArgumentWithData::UInt(v)),
                None => Err(ParseError::UInt),
            },
            Argument::Int(_) => match parsed_i32(val@) {
                Some(v) => Ok(ArgumentWithData::Int(v)),
                None => Err(ParseError::Int),
            },
            Argument::Bool(_) => match parsed_bool(val@) {
                Some(v) => Ok(ArgumentWithData::Bool(v)),
                None => Err(ParseError::Bool),
            },
        }
    }

    /// Reads `val` as the value of `arg`.
    pub fn new(arg: &Argument, val: String) -> (r: Result<ArgumentWithData, ParseError>)
        ensures
            r == ArgumentWithData::read(*arg, val),
    {
        match arg {
            Argument::String(_) => Ok(ArgumentWithData::String(val)),
            Argument::UInt(_) => ArgumentWithData::from_uint(parse_u32(val.as_str())),
            Argument::Int(_) => ArgumentWithData::from_int(parse_i32(val.as_str())),
            Argument::Bool(_) => ArgumentWithData::from_bool(parse_bool(val.as_str())),
        }
    }

    /// The text, if this is the value of a string argument.
    pub fn string(&self) -> (s: Option<String>)
        ensures
            s == match *self {
                ArgumentWithData::String(d) => Some(d),
                _ => None,
            },
    {
        match self {
            ArgumentWithData::String(d) => Some(d.clone()),
            _ => None,
        }
    }

    /// The number, if this is the value of an unsigned argument.
    pub fn uint(&self) -> (n: Option<u32>)
        ensures
            n == match *self {
                ArgumentWithData::UInt(d) => Some(d),
                _ => None,
            },
    {
        match self {
            ArgumentWithData::UInt(d) => Some(*d),
            _ => None,
        }
    }

    /// The number, if this is the value of a signed argument.
    pub fn sint(&self) -> (n: Option<i32>)
        ensures
            n == match *self {
                ArgumentWithData::Int(d) => Some(d),
                _ => None,
            },
    {
        match self {
            ArgumentWithData::Int(d) => Some(*d),
            _ => None,
        }
    }

    /// The truth value, if this is the value of a truth argument.
    pub fn bool(&self) -> (b: Option<bool>)
        ensures
            b == match *self {
                ArgumentWithData::Bool(d) => Some(d),
                _ => None,
            },
    {
        match self {
            ArgumentWithData::Bool(d) => Some(*d),
            _ => None,
        }
    }
}

} // verus!
