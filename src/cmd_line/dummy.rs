use super::generic::ParsingError;
use super::shared::ArgId;
use vstd::prelude::*;

verus! {

/// Parser which will always have no values for arguments.
pub struct DummyParser {
    num_args: usize,
}

impl DummyParser {
    /// How many arguments were added so far.
    pub closed spec fn arg_count(&self) -> nat {
        self.num_args as nat
    }

    pub fn new() -> (r: Self)
        ensures
            r.arg_count() == 0,
    {
        DummyParser { num_args: 0 }
    }

    /// Add a boolean flag; its id is the number of arguments added before it.
    pub fn add_flag(&mut self, short: &[char], long: &[&str]) -> (r: ArgId<bool>)
        requires
            old(self).arg_count() < usize::MAX,
        ensures
            r.index() == old(self).arg_count(),
            final(self).arg_count() == old(self).arg_count() + 1,
    {
        let id = self.num_args;
        self.num_args = self.num_args + 1;
        ArgId::new(id)
    }

    /// Add an option whose value would be parsed with `T`'s own parser.
    pub fn add_option<T, E>(&mut self, short: &[char], long: &[&str]) -> (r: ArgId<T>)
        requires
            old(self).arg_count() < usize::MAX,
        ensures
            r.index() == old(self).arg_count(),
            final(self).arg_count() == old(self).arg_count() + 1,
    {
        let id = self.num_args;
        self.num_args = self.num_args + 1;
        ArgId::new(id)
    }

    /// Add an option whose value would be parsed with `parse`.
    pub fn add_option_with<T, E, F: Fn(&str) -> Result<T, E>>(
        &mut self,
        short: &[char],
        long: &[&str],
        parse: F,
    ) -> (r: ArgId<T>)
        requires
            old(self).arg_count() < usize::MAX,
        ensures
            r.index() == old(self).arg_count(),
            final(self).arg_count() == old(self).arg_count() + 1,
    {
        let id = self.num_args;
        self.num_args = self.num_args + 1;
        ArgId::new(id)
    }

    /// Parse nothing: the result holds no value for any argument.
    pub fn parse(&self) -> (r: Result<DummyParsed, ParsingError>)
        ensures
            r is Ok,
    {
        Ok(DummyParsed {})
    }
}

impl Default for DummyParser {
    fn default() -> (r: Self)
        ensures
            r.arg_count() == 0,
    {
        Self::new()
    }
}

/// Parsed arguments which will always have no values.
pub struct DummyParsed {}

impl DummyParsed {
    pub fn new() -> (r: Self) {
        DummyParsed {}
    }

    /// The value of an argument: never any.
    pub fn get<'a, T>(&'a self, arg: &ArgId<T>) -> (r: Option<&'a T>)
        ensures
            r is None,
    {
        None
    }
}

impl Default for DummyParsed {
    fn default() -> (r: Self) {
        Self::new()
    }
}

} // verus!
