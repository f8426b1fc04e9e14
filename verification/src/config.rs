//! Runtime configuration of the pipeline. The surrounding process reads the
//! raw values from its environment and hands them over as plain values.
use vstd::prelude::*;

verus! {

/// The settings the pipeline runs under.
#[derive(Debug)]
pub struct Config {
    pub database_url: String,
    pub package_id: String,
    pub remote_store_url: String,
    pub start_checkpoint: u64,
    pub concurrency: usize,
    pub listen_addr: String,
    pub liquidation_transfer_service_url: String,
}

impl Config {
    /// Assembles a configuration from its raw values.
    pub fn load(
        database_url: String,
        package_id: String,
        remote_store_url: String,
        start_checkpoint: u64,
        concurrency: usize,
        listen_addr: String,
        liquidation_transfer_service_url: String,
    ) -> (r: Config)
        ensures
            r.database_url@ == database_url@,
            r.package_id@ == package_id@,
            r.remote_store_url@ == remote_store_url@,
            r.start_checkpoint == start_checkpoint,
            r.concurrency == concurrency,
            r.listen_addr@ == listen_addr@,
            r.liquidation_transfer_service_url@ == liquidation_transfer_service_url@,
    {
        Config {
            database_url,
            package_id,
            remote_store_url,
            start_checkpoint,
            concurrency,
            listen_addr,
            liquidation_transfer_service_url,
        }
    }
}

} // verus!
