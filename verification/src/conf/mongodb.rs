//! The address of the metadata store.

use vstd::prelude::*;
use vstd::string::StringExecFns;
use super::MongoDBConfig;

verus! {

impl MongoDBConfig {
    /// The connection string of the store: scheme, credentials, host and
    /// the write options, in that order.
    pub open spec fn spec_uri(&self) -> Seq<char> {
        "mongodb+srv://"@ + self.username@ + ":"@ + self.password@ + "@"@ + self.host@
            + "/?retryWrites=true&w=majority"@
    }

    /// The connection string of the store.
    pub fn uri(&self) -> (uri: String)
        ensures
            uri@ == self.spec_uri(),
    {
        let mut uri = String::from_str("mongodb+srv://");
        uri.append(self.username.as_str());
        uri.append(":");
        uri.append(self.password.as_str());
        uri.append("@");
        uri.append(self.host.as_str());
        uri.append("/?retryWrites=true&w=majority");
        uri
    }
}

} // verus!
