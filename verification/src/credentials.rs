//! Wireless credentials: a required network name and an optional pre-shared
//! key. Only the pre-shared-key path is implemented by the sequencer, so
//! validation rejects credentials without a key instead of guessing at an
//! open-network join.

use vstd::prelude::*;

use crate::errors::BringupError;

verus! {

/// Credentials for associating with a named network.
#[derive(Clone, PartialEq, Eq, Debug)]
pub struct WifiCredentials {
    /// The network name; required, non-empty.
    pub ssid: String,
    /// The pre-shared key; `None` denotes an open network.
    pub key: Option<String>,
}

impl WifiCredentials {
    /// The name is non-empty and a key is present: the only shape the
    /// association sequencer supports.
    pub open spec fn valid(self) -> bool {
        &&& self.ssid@.len() > 0
        &&& self.key is Some
    }

    /// Check the credentials before any hardware is touched. An empty name
    /// is reported first; credentials without a key are rejected because
    /// open networks are unsupported.
    pub fn validate(&self) -> (r: Result<(), BringupError>)
        ensures
            r is Ok <==> self.valid(),
            r matches Err(e) ==> e == (if self.ssid@.len() == 0 {
                BringupError::EmptySsid
            } else {
                BringupError::OpenNetworkUnsupported
            }),
    {
        if self.ssid.as_str().is_empty() {
            Err(BringupError::EmptySsid)
        } else if self.key.is_none() {
            Err(BringupError::OpenNetworkUnsupported)
        } else {
            Ok(())
        }
    }
}

} // verus!
