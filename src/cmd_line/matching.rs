//! Which added argument a command line token names.
//!
//! A token is what a command line lexer hands out: a short option (`-f`), a long option
//! (`--foo`), or a plain value. Arguments are tried in the order they were added; the first
//! whose short or long names hold the token's name takes it.
use super::generic::ParsingError;
use vstd::prelude::*;

verus! {

/// The names under which an argument can be given.
pub struct ArgNames {
    pub short: Vec<char>,
    pub long: Vec<String>,
}

/// One token of a command line.
#[derive(Debug)]
pub enum Token {
    Short(char),
    Long(String),
    Value(String),
}

/// The text of a token: the option's name without dashes, or the value.
pub open spec fn token_text(token: Token) -> Seq<char> {
    match token {
        Token::Short(c) => seq![c],
        Token::Long(s) => s@,
        Token::Value(s) => s@,
    }
}

/// Whether an argument with these names takes the token.
pub open spec fn names_match(short: Seq<char>, long: Seq<Seq<char>>, token: Token) -> bool {
    match token {
        Token::Short(c) => short.contains(c),
        Token::Long(s) => long.contains(s@),
        Token::Value(_) => false,
    }
}

/// Whether the argument `names` takes the token.
pub open spec fn arg_matches(names: ArgNames, token: Token) -> bool {
    names_match(names.short@, names.long.deep_view(), token)
}

/// Relies on `char`'s `ToString`: the string of exactly that one character.
#[verifier::external_body]
fn char_to_string(c: char) -> (r: String)
    ensures
        r@ == seq![c],
{
    c.to_string()
}

/// The names under which an argument is looked up where options come as named parameters:
/// its long names in order, then its short names.
pub open spec fn lookup_names(names: ArgNames) -> Seq<Seq<char>> {
    names.long.deep_view() + names.short@.map_values(|c: char| seq![c])
}

impl ArgNames {
    /// The names to look the argument up under, in order: long names first, then short ones.
    pub fn lookup_order(&self) -> (r: Vec<String>)
        ensures
            r.deep_view() == lookup_names(*self),
    {
        let mut out: Vec<String> = Vec::new();
        let mut i: usize = 0;
        while i < self.long.len()
            invariant
                i <= self.long@.len(),
                out@.len() == i,
                forall|k: int| 0 <= k < i ==> (#[trigger] out@[k])@ == self.long@[k]@,
            decreases self.long.len() - i,
        {
            out.push(self.long[i].clone());
            i = i + 1;
        }
        let ghost n = self.long@.len() as int;
        let mut j: usize = 0;
        while j < self.short.len()
            invariant
                n == self.long@.len(),
                j <= self.short@.len(),
                out@.len() == n + j,
                forall|k: int| 0 <= k < n ==> (#[trigger] out@[k])@ == self.long@[k]@,
                forall|k: int| 0 <= k < j ==> (#[trigger] out@[n + k])@ == seq![self.short@[k]],
            decreases self.short.len() - j,
        {
            out.push(char_to_string(self.short[j]));
            j = j + 1;
            assert(forall|k: int| 0 <= k < j ==> (#[trigger] out@[n + k])@ == seq![self.short@[k]]);
        }
        assert forall|k: int| 0 <= k < out@.len() implies #[trigger] out.deep_view()[k] == lookup_names(*self)[k] by {
            if k >= n {
                assert(out@[n + (k - n)] == out@[k]);
            }
        }
        assert(out.deep_view() =~= lookup_names(*self));
        out
    }

    /// The name by which the token gives this argument, if it does.
    pub fn match_arg(&self, token: &Token) -> (r: Option<String>)
        ensures
            r is Some <==> arg_matches(*self, *token),
            r is Some ==> r->0@ == token_text(*token),
    {
        match token {
            Token::Short(c) => {
                let mut i: usize = 0;
                while i < self.short.len()
                    invariant
                        *token == Token::Short(*c),
                        i <= self.short@.len(),
                        forall|j: int| 0 <= j < i ==> self.short@[j] != *c,
                    decreases self.short.len() - i,
                {
                    if self.short[i] == *c {
                        assert(self.short@[i as int] == *c);
                        assert(self.short@.contains(*c));
                        return Some(char_to_string(*c));
                    }
                    i = i + 1;
                }
                None
            },
            Token::Long(s) => {
                let mut i: usize = 0;
                while i < self.long.len()
                    invariant
                        *token == Token::Long(*s),
                        i <= self.long@.len(),
                        forall|j: int| 0 <= j < i ==> self.long.deep_view()[j] != s@,
                    decreases self.long.len() - i,
                {
                    if self.long[i] == *s {
                        assert(self.long.deep_view()[i as int] == s@);
                        assert(self.long.deep_view().contains(s@));
                        return Some(s.clone());
                    }
                    i = i + 1;
                }
                None
            },
            Token::Value(_) => None,
        }
    }
}

/// The first argument of `args` that takes `token`, with the name the token gives it;
/// [`ParsingError::UnknownOption`] for an option that none takes, and
/// [`ParsingError::UnknownValue`] for a value.
pub fn find_arg(args: &Vec<ArgNames>, token: &Token) -> (r: Result<(usize, String), ParsingError>)
    ensures
        (exists|i: int| 0 <= i < args@.len() && arg_matches(#[trigger] args@[i], *token)) <==> r is Ok,
        r is Ok ==> {
            let (i, name) = r->Ok_0;
            &&& i < args@.len()
            &&& arg_matches(args@[i as int], *token)
            &&& forall|j: int| 0 <= j < i ==> !arg_matches(#[trigger] args@[j], *token)
            &&& name@ == token_text(*token)
        },
        r is Err ==> match *token {
            Token::Value(_) => r->Err_0 matches ParsingError::UnknownValue,
            _ => r->Err_0 matches ParsingError::UnknownOption { arg_name }
                && arg_name@ == token_text(*token),
        },
{
    let mut i: usize = 0;
    while i < args.len()
        invariant
            i <= args@.len(),
            forall|j: int| 0 <= j < i ==> !arg_matches(#[trigger] args@[j], *token),
        decreases args.len() - i,
    {
        match args[i].match_arg(token) {
            Some(name) => return Ok((i, name)),
            None => {},
        }
        i = i + 1;
    }
    match token {
        Token::Short(c) => Err(ParsingError::UnknownOption { arg_name: char_to_string(*c) }),
        Token::Long(s) => Err(ParsingError::UnknownOption { arg_name: s.clone() }),
        Token::Value(_) => Err(ParsingError::UnknownValue),
    }
}

} // verus!
