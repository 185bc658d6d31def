//! Settings of the monitor.
use vstd::prelude::*;

verus! {

/// Settings of the monitor, read from `config.yaml` and the environment.
pub struct Settings {
    pub database_url: String,
    pub kiwi_api_key: String,
    pub monitored_period_length_days: u16,
    pub hours_between_scans: i64,
    pub minutes_between_cron_jobs: u64,
    pub db_new_routes_channel: String,
}

} // verus!
