//! Answers that a chat command can be bound to.
use vstd::prelude::*;

verus! {

/// Produces the answer to a command from its options.
pub trait CommandHandler {
    /// The answer to a command with these options.
    spec fn answer(&self, options: Seq<Seq<char>>) -> Seq<char>;

    fn run(&self, options: &Vec<String>) -> (r: String)
        ensures
            r@ == self.answer(options@.map_values(|o: String| o@)),
    ;
}

/// Always answers with the same message.
#[derive(Debug, Clone, PartialEq, Eq)]
pub struct StaticStringCommandHandler {
    pub message: String,
}

impl StaticStringCommandHandler {
    pub fn new(message: &str) -> (r: Self)
        ensures
            r.message@ == message@,
    {
        StaticStringCommandHandler { message: message.to_owned() }
    }
}

impl CommandHandler for StaticStringCommandHandler {
    open spec fn answer(&self, options: Seq<Seq<char>>) -> Seq<char> {
        self.message@
    }

    fn run(&self, options: &Vec<String>) -> (r: String) {
        self.message.clone()
    }
}

/// Answers with its message; the options are not yet put into it.
#[derive(Debug, Clone, PartialEq, Eq)]
pub struct StringInterpolationCommandHandler {
    pub message: String,
}

impl StringInterpolationCommandHandler {
    pub fn new(message: &str) -> (r: Self)
        ensures
            r.message@ == message@,
    {
        StringInterpolationCommandHandler { message: message.to_owned() }
    }
}

impl CommandHandler for StringInterpolationCommandHandler {
    open spec fn answer(&self, options: Seq<Seq<char>>) -> Seq<char> {
        self.message@
    }

    fn run(&self, options: &Vec<String>) -> (r: String) {
        self.message.clone()
    }
}

} // verus!
