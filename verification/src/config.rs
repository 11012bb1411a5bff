//! What the helper keeps between runs.

use vstd::prelude::*;

verus! {

/// The settings of the helper.
#[derive(Debug, Eq, PartialEq)]
pub struct Config {
    demo: String,
}

impl View for Config {
    type V = Seq<char>;

    /// The one setting, as a sequence of characters.
    closed spec fn view(&self) -> Seq<char> {
        self.demo@
    }
}

impl Config {
    /// Settings with `demo` as the one setting.
    pub fn new(demo: String) -> (config: Config)
        ensures
            config@ == demo@,
    {
        Config { demo }
    }

    /// The one setting.
    pub fn demo(&self) -> (demo: &str)
        ensures
            demo@ == self@,
    {
        self.demo.as_str()
    }
}

impl Clone for Config {
    fn clone(&self) -> (copy: Config)
        ensures
            copy@ == self@,
    {
        Config { demo: self.demo.clone() }
    }
}

impl Default for Config {
    /// The settings of a first run: the one setting is empty.
    fn default() -> (config: Config)
        ensures
            config@ == Seq::<char>::empty(),
    {
        Config { demo: String::new() }
    }
}

} // verus!
