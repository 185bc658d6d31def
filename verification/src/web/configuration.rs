//! Settings of the web service.
use vstd::prelude::*;

verus! {

/// Settings of the web service, read from `config.yaml` and the environment.
pub struct Settings {
    pub app_port: u16,
    pub database_url: String,
}

} // verus!
