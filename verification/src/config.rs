//! Settings the server is started with.

use vstd::prelude::*;

verus! {

/// What the server needs to know before it starts: the display theme and
/// the connection string of the store.
#[derive(Debug)]
pub struct Config {
    pub theme: String,
    pub db_url: String,
}

impl Default for Config {
    /// Both settings empty.
    fn default() -> (config: Self)
        ensures
            config.theme@ == Seq::<char>::empty(),
            config.db_url@ == Seq::<char>::empty(),
    {
        Config { theme: String::new(), db_url: String::new() }
    }
}

} // verus!
