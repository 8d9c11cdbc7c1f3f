//! The charger's own HTTP interface: its status endpoint and its key-setting endpoint.
use vstd::prelude::*;
use vstd::string::*;

use crate::text::concat3;

verus! {

/// The address of a charger in the local network.
pub struct DirectHttpChargerConnection {
    host: String,
}

/// The base URL of the charger at `host`.
pub open spec fn base_url_of(host: Seq<char>) -> Seq<char> {
    "http://"@ + host + "/"@
}

impl View for DirectHttpChargerConnection {
    type V = Seq<char>;

    /// The host name or address.
    closed spec fn view(&self) -> Seq<char> {
        self.host@
    }
}

impl DirectHttpChargerConnection {
    pub fn new(host: String) -> (r: DirectHttpChargerConnection)
        ensures
            r@ == host@,
    {
        DirectHttpChargerConnection { host }
    }

    /// `http://<host>/`.
    pub fn base_url(&self) -> (r: String)
        ensures
            r@ == base_url_of(self@),
    {
        concat3("http://", self.host.as_str(), "/")
    }

    /// Where the status document is read: `http://<host>/status`.
    pub fn status_url(&self) -> (r: String)
        ensures
            r@ == base_url_of(self@) + "status"@,
    {
        let mut u = self.base_url();
        u.append("status");
        u
    }

    /// Where keys are set: `http://<host>/mqtt`.
    pub fn set_key_url(&self) -> (r: String)
        ensures
            r@ == base_url_of(self@) + "mqtt"@,
    {
        let mut u = self.base_url();
        u.append("mqtt");
        u
    }
}

/// The value of the `payload` query parameter that sets `key` to `value`: `<key>=<value>`.
pub fn set_key_payload(key: &str, value: &str) -> (r: String)
    ensures
        r@ == key@ + "="@ + value@,
{
    concat3(key, "=", value)
}

} // verus!
