//! The configuration records the service is started with. Reading them from
//! disk is the surrounding program's part; the records themselves are plain
//! data.

use vstd::prelude::*;

verus! {

#[derive(Debug, Clone)]
pub struct Server {
    pub hostname: String,
    pub port: String,
    pub key: String,
    pub threads: usize,
}

#[derive(Debug, Clone)]
pub struct TagifyData {
    pub path: String,
    pub google_storage_enable: bool,
    pub google_key_json: String,
    pub key_file: String,
    pub project_number: String,
}

#[derive(Debug, Clone)]
pub struct LetsEncrypt {
    pub port: String,
    pub path: String,
    pub domain: String,
    pub email: String,
    pub timeout: u64,
    pub activate: bool,
}

} // verus!
