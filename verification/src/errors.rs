//! The errors the bot answers with: each carries the text shown to the user.

use vstd::prelude::*;

verus! {

/// User input that could not be understood.
pub struct ParseError {
    pub message: String,
}

impl ParseError {
    pub fn new(message: &str) -> (e: ParseError)
        ensures
            e.message@ == message@,
    {
        ParseError { message: message.to_owned() }
    }
}

/// A request that breaks one of the game's rules.
pub struct ValidationError {
    pub message: String,
}

impl ValidationError {
    pub fn new(message: &str) -> (e: ValidationError)
        ensures
            e.message@ == message@,
    {
        ValidationError { message: message.to_owned() }
    }

    pub fn from_string(message: String) -> (e: ValidationError)
        ensures
            e.message@ == message@,
    {
        ValidationError { message }
    }
}

} // verus!
