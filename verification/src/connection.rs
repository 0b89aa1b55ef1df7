//! The data a backend connection is made from: the cloud identifier and the
//! API key, and the authorization header value they yield. Opening the
//! transport and pooling the clients happens outside the library.

use vstd::prelude::*;

verus! {

/// The credentials one backend client is built with.
pub struct ElasticConnectionManager {
    pub cloud_id: String,
    pub api_key: String,
}

impl ElasticConnectionManager {
    /// Packs the credentials.
    pub fn new(cloud_id: String, api_key: String) -> (r: ElasticConnectionManager)
        ensures
            r.cloud_id@ == cloud_id@,
            r.api_key@ == api_key@,
    {
        ElasticConnectionManager { cloud_id, api_key }
    }

    /// The authorization header value: the `ApiKey` scheme followed by the
    /// key itself.
    pub fn api_key_header_value(&self) -> (r: String)
        ensures
            r@ == "ApiKey "@ + self.api_key@,
    {
        let mut r = String::from_str("ApiKey ");
        r.append(self.api_key.as_str());
        r
    }
}

} // verus!
