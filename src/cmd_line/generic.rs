use vstd::prelude::*;
use vstd::string::StringExecFns;

verus! {

/// An error during parsing.
///
/// Not all parsers are able to catch all errors, and some errors may not apply to some parsers
/// at all.
#[derive(Debug)]
pub enum ParsingError {
    /// An overall failure to parse the arguments.
    ParsingFailed,
    /// Parsing the value of an option failed, with the description of the parser's error.
    ValueParsingFailed { arg_name: String, error: String },
    /// An option that no argument was added for.
    UnknownOption { arg_name: String },
    /// An option that takes a value came without one.
    MissingValue { arg_name: String },
    /// A value that belongs to no option.
    UnknownValue,
}

/// The human readable form of `e`.
pub open spec fn parsing_error_text(e: ParsingError) -> Seq<char> {
    match e {
        ParsingError::ParsingFailed => "could not parse arguments"@,
        ParsingError::ValueParsingFailed { arg_name, error } =>
            "could not parse value for option argument "@ + arg_name@ + ": "@ + error@,
        ParsingError::UnknownOption { arg_name } =>
            "found unknown option argument "@ + arg_name@,
        ParsingError::MissingValue { arg_name } =>
            "no value for option argument "@ + arg_name@,
        ParsingError::UnknownValue =>
            "found unknown value which is not an option argument or expected value for one"@,
    }
}

impl ParsingError {
    /// The human readable form of the error.
    pub fn to_string(&self) -> (r: String)
        ensures
            r@ == parsing_error_text(*self),
    {
        match self {
            ParsingError::ParsingFailed => String::from_str("could not parse arguments"),
            ParsingError::ValueParsingFailed { arg_name, error } => {
                let mut s = String::from_str("could not parse value for option argument ");
                s.append(arg_name.as_str());
                s.append(": ");
                s.append(error.as_str());
                s
            },
            ParsingError::UnknownOption { arg_name } => {
                let mut s = String::from_str("found unknown option argument ");
                s.append(arg_name.as_str());
                s
            },
            ParsingError::MissingValue { arg_name } => {
                let mut s = String::from_str("no value for option argument ");
                s.append(arg_name.as_str());
                s
            },
            ParsingError::UnknownValue => String::from_str(
                "found unknown value which is not an option argument or expected value for one",
            ),
        }
    }
}

} // verus!
