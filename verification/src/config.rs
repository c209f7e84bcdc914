//! The configuration of the application.

use vstd::prelude::*;

verus! {

/// The gateway used when none is configured.
pub const DEFAULT_ARWEAVE_GATEWAY: &'static str = "https://arweave.net";

/// The bundler used when none is configured.
pub const DEFAULT_BUNDLR_URL: &'static str = "https://node1.bundlr.network";

/// Where documents are anchored.
#[derive(Debug)]
pub struct AppConfig {
    pub arweave_gateway: String,
    pub bundlr_url: String,
}

impl Clone for AppConfig {
    fn clone(&self) -> (r: Self)
        ensures
            r == *self,
    {
        AppConfig { arweave_gateway: self.arweave_gateway.clone(), bundlr_url: self.bundlr_url.clone() }
    }
}

impl Default for AppConfig {
    fn default() -> (c: Self)
        ensures
            c.arweave_gateway@ == DEFAULT_ARWEAVE_GATEWAY@,
            c.bundlr_url@ == DEFAULT_BUNDLR_URL@,
    {
        AppConfig { arweave_gateway: DEFAULT_ARWEAVE_GATEWAY.to_owned(), bundlr_url: DEFAULT_BUNDLR_URL.to_owned() }
    }
}

impl AppConfig {
    /// The components of the configuration file, under the configuration
    /// directory or under `.` without one.
    pub fn path(config_dir: Option<String>) -> (path: Vec<String>)
        ensures
            path.deep_view() == seq![
                match config_dir {
                    Some(d) => d@,
                    None => "."@,
                },
                "tidbit"@,
                "config.toml"@,
            ],
    {
        let mut p: Vec<String> = Vec::new();
        match config_dir {
            Some(d) => p.push(d),
            None => p.push(".".to_owned()),
        }
        p.push("tidbit".to_owned());
        p.push("config.toml".to_owned());
        assert(p.deep_view() =~= seq![
            match config_dir {
                Some(d) => d@,
                None => "."@,
            },
            "tidbit"@,
            "config.toml"@,
        ]);
        p
    }

    /// The configuration that was read, or the default one where no file
    /// exists.
    pub fn load_or_default(stored: Option<AppConfig>) -> (c: Self)
        ensures
            match stored {
                Some(s) => c == s,
                None => c.arweave_gateway@ == DEFAULT_ARWEAVE_GATEWAY@ && c.bundlr_url@ == DEFAULT_BUNDLR_URL@,
            },
    {
        match stored {
            Some(s) => s,
            None => AppConfig::default(),
        }
    }
}

} // verus!
