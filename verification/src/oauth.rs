//! The credential locations of the object-storage token refresher. The
//! refresher itself talks to the network on a timer and lives with the
//! surrounding program.

use vstd::prelude::*;

verus! {

pub struct Oauth {
    pub cred_file: String,
    pub key_file: String,
}

impl Oauth {
    pub fn new(cred_file: &str, key_file: &str) -> (r: Oauth)
        ensures
            r.cred_file@ == cred_file@,
            r.key_file@ == key_file@,
    {
        Oauth { cred_file: cred_file.to_owned(), key_file: key_file.to_owned() }
    }
}

} // verus!
