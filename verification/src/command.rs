//! The table kinds and the options a run is started with.

use vstd::prelude::*;

verus! {

/// The table whose rows are extracted.
#[derive(Clone, Copy, Debug, PartialEq, Eq, Structural)]
pub enum Commands {
    LangLinks,
    Category,
    CategoryLinks,
    Page,
    Iwlinks,
}

/// What a run is given: the dump to read, where to write, which table.
#[derive(Clone, Debug)]
pub struct Opts {
    pub input_file: String,
    pub output_file: Option<String>,
    pub commands: Option<Commands>,
}

impl Commands {
    /// The number of values a tuple of this table must hold.
    pub open spec fn arity(self) -> nat {
        match self {
            Commands::LangLinks => 3,
            Commands::Iwlinks => 3,
            Commands::Category => 5,
            Commands::CategoryLinks => 4,
            Commands::Page => 5,
        }
    }

    /// The number of values a tuple of this table must hold.
    pub fn columns(self) -> (n: usize)
        ensures
            n == self.arity(),
    {
        match self {
            Commands::LangLinks => 3,
            Commands::Iwlinks => 3,
            Commands::Category => 5,
            Commands::CategoryLinks => 4,
            Commands::Page => 5,
        }
    }
}

} // verus!
