//! Node configuration of a NEAR node: the network section of the JSON
//! config file with its defaults, the limits and features of the contract
//! runtime, and the label schemas under which network metrics are recorded.

pub mod config_json;
pub mod duration;
pub mod metrics;
pub mod vm;
