//! What the server is started with, worked out before anything is opened.

use crate::config::Config;
use crate::paths::{path_text, pushed, static_root, template_glob, text_or_empty};
use std::path::PathBuf;
use vstd::prelude::*;

verus! {

/// The address the server listens at: the loopback address.
pub const LISTEN_ADDRESS: [u8; 4] = [127, 0, 0, 1];

/// The port the server listens at.
pub const LISTEN_PORT: u16 = 3000;

/// What the steps of the startup are given, in the order in which they
/// run: the store is opened with `db_url`, the pending migrations are
/// applied, the templates are compiled from `template_glob`, and the
/// server is bound to `address` and `port` and serves the static assets
/// from `static_root`.
#[derive(Debug)]
pub struct Startup {
    pub db_url: String,
    pub template_glob: String,
    pub static_root: String,
    pub address: [u8; 4],
    pub port: u16,
}

/// Works out what the server is started with from the root directory and
/// the configuration.
pub fn plan(dir: &PathBuf, config: Config) -> (startup: Startup)
    ensures
        startup.db_url@ == config.db_url@,
        startup.template_glob@ == text_or_empty(path_text(pushed(*dir, "templates/**/*"@))),
        startup.static_root@ == text_or_empty(path_text(pushed(*dir, "static"@))),
        startup.address@ == seq![127u8, 0u8, 0u8, 1u8],
        startup.port == 3000,
{
    let startup = Startup {
        db_url: config.db_url,
        template_glob: template_glob(dir),
        static_root: static_root(dir),
        address: LISTEN_ADDRESS,
        port: LISTEN_PORT,
    };
    assert(startup.address@ =~= seq![127u8, 0u8, 0u8, 1u8]);
    startup
}

} // verus!
