//! Where zocli keeps its configuration.
use vstd::prelude::*;
use crate::error::ZocliError;
use crate::install::{join_path, path_join};

verus! {

/// The configuration directory: `ZOCLI_CONFIG_DIR` when set (`override_dir`), else `zocli`
/// under the platform's configuration directory (`base`); an error when neither is known.
pub fn config_dir(override_dir: Option<String>, base: Option<&str>) -> (r: Result<String, ZocliError>)
    ensures
        match override_dir {
            Some(d) => r matches Ok(p) && p@ == d@,
            None => match base {
                Some(b) => r matches Ok(p) && p@ == path_join(b@, "zocli"@),
                None => r matches Err(ZocliError::Config(m)) && m@
                    == "Could not resolve config directory"@,
            },
        },
{
    match override_dir {
        Some(d) => Ok(d),
        None => match base {
            Some(b) => Ok(join_path(b, "zocli")),
            None => Err(ZocliError::Config(String::from_str("Could not resolve config directory"))),
        },
    }
}

/// The accounts file in the configuration directory.
pub fn accounts_path(config_dir: &str) -> (r: String)
    ensures
        r@ == path_join(config_dir@, "accounts.toml"@),
{
    join_path(config_dir, "accounts.toml")
}

/// The credentials file in the configuration directory.
pub fn credentials_path(config_dir: &str) -> (r: String)
    ensures
        r@ == path_join(config_dir@, "credentials.toml"@),
{
    join_path(config_dir, "credentials.toml")
}

} // verus!
