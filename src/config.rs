use vstd::prelude::*;

verus! {

/// Where the relational store lives and how to log into it.
#[derive(Clone, Debug)]
pub struct SQLConfig {
    pub host: String,
    pub user: String,
    pub pw: String,
    pub db: String,
}

/// Process configuration: the chat platform's credentials and the store's.
#[derive(Clone, Debug)]
pub struct Config {
    pub token: String,
    pub application_id: u64,
    pub mysql: SQLConfig,
}

} // verus!
