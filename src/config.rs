use vstd::prelude::*;

verus! {

/// Where the device is and which account to watch it with.
#[derive(Debug)]
pub struct Config {
    pub endpoint: String,
    pub username: String,
    pub password: String,
}

} // verus!
