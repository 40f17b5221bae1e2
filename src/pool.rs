//! Connection settings of the time-series store and of the message broker.
use vstd::prelude::*;

verus! {

/// Where the time-series store's connections go.
pub struct InfluxConnectionManager {
    pub urls: Vec<String>,
    pub database: String,
}

impl InfluxConnectionManager {
    /// Settings for one host and one database.
    pub fn new(host: String, database: String) -> (r: InfluxConnectionManager)
        ensures
            r.urls@ == seq![host],
            r.database == database,
    {
        let mut urls: Vec<String> = Vec::new();
        urls.push(host);
        InfluxConnectionManager { urls, database }
    }
}

/// Where the message broker's producer connections go.
pub struct KafkaConnectionManager {
    pub urls: Vec<String>,
}

impl KafkaConnectionManager {
    /// Settings for the given broker hosts.
    pub fn new(urls: Vec<String>) -> (r: KafkaConnectionManager)
        ensures
            r.urls == urls,
    {
        KafkaConnectionManager { urls }
    }
}

} // verus!
