//! One remote service endpoint as the orchestration driver sees it: a
//! human-readable name, a base address, and an optional inspection port.

use vstd::prelude::*;

verus! {

/// The abstract value of an [`Instance`]: its three fields as plain values.
pub struct InstanceView {
    pub peer_name: Seq<char>,
    pub url: Seq<char>,
    pub inspection_service_port: Option<u32>,
}

/// A remote endpoint. Immutable after construction and cloneable: logically
/// a value, not a singleton. The base address is kept as its textual form;
/// the caller that owns the network stack parses it when it opens a
/// connection.
#[derive(Clone)]
pub struct Instance {
    peer_name: String,
    url: String,
    inspection_service_port: Option<u32>,
}

impl View for Instance {
    type V = InstanceView;

    closed spec fn view(&self) -> InstanceView {
        InstanceView {
            peer_name: self.peer_name@,
            url: self.url@,
            inspection_service_port: self.inspection_service_port,
        }
    }
}

impl Instance {
    pub fn new(peer_name: String, url: String, inspection_service_port: Option<u32>) -> (r:
        Instance)
        ensures
            r@.peer_name == peer_name@,
            r@.url == url@,
            r@.inspection_service_port == inspection_service_port,
    {
        Instance { peer_name, url, inspection_service_port }
    }

    pub fn peer_name(&self) -> (r: &String)
        ensures
            r@ == self@.peer_name,
    {
        &self.peer_name
    }

    /// The base address, cloned for the caller.
    pub fn api_url(&self) -> (r: String)
        ensures
            r@ == self@.url,
    {
        self.url.clone()
    }

    pub fn inspection_service_port(&self) -> (r: Option<u32>)
        ensures
            r == self@.inspection_service_port,
    {
        self.inspection_service_port
    }

    /// The endpoint's display form, `name(url)`, used in diagnostics.
    pub fn display_string(&self) -> (r: String)
        ensures
            r@ == self@.peer_name + "("@ + self@.url + ")"@,
    {
        let mut s = self.peer_name.clone();
        s.append("(");
        s.append(self.url.as_str());
        s.append(")");
        s
    }
}

} // verus!
