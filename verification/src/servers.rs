//! The records that the panel hands out, and the envelopes it wraps them in.

use vstd::prelude::*;

verus! {

/// One hosted server, as the panel lists it.
#[derive(Debug)]
pub struct ServerInfo {
    pub id: u32,
    pub identifier: String,
    pub uuid: String,
    pub name: String,
}

/// The envelope around one listed server.
#[derive(Debug)]
pub struct ServerObject {
    pub attributes: ServerInfo,
}

/// The answer to a listing: one envelope for each server.
#[derive(Debug)]
pub struct WebResponse {
    pub data: Vec<ServerObject>,
}

/// The power state of one server, such as `running` or `stopped`.
#[derive(Debug)]
pub struct CurrentState {
    pub current_state: String,
}

/// The envelope around a server's power state.
#[derive(Debug)]
pub struct Attributes {
    pub attributes: CurrentState,
}

/// What a [`ServerInfo`] says, as plain values.
pub struct ServerRecord {
    pub id: u32,
    pub identifier: Seq<char>,
    pub uuid: Seq<char>,
    pub name: Seq<char>,
}

impl View for ServerInfo {
    type V = ServerRecord;

    open spec fn view(&self) -> ServerRecord {
        ServerRecord {
            id: self.id,
            identifier: self.identifier@,
            uuid: self.uuid@,
            name: self.name@,
        }
    }
}

impl View for ServerObject {
    type V = ServerRecord;

    open spec fn view(&self) -> ServerRecord {
        self.attributes@
    }
}

impl View for WebResponse {
    type V = Seq<ServerRecord>;

    open spec fn view(&self) -> Seq<ServerRecord> {
        self.data@.map_values(|object: ServerObject| object@)
    }
}

impl View for CurrentState {
    type V = Seq<char>;

    open spec fn view(&self) -> Seq<char> {
        self.current_state@
    }
}

impl View for Attributes {
    type V = Seq<char>;

    open spec fn view(&self) -> Seq<char> {
        self.attributes@
    }
}

/// What a list of servers says, record by record.
pub open spec fn server_records(servers: Seq<ServerInfo>) -> Seq<ServerRecord> {
    servers.map_values(|server: ServerInfo| server@)
}

impl Clone for ServerInfo {
    fn clone(&self) -> (copy: Self)
        ensures
            copy == *self,
    {
        ServerInfo {
            id: self.id,
            identifier: self.identifier.clone(),
            uuid: self.uuid.clone(),
            name: self.name.clone(),
        }
    }
}

impl WebResponse {
    /// Takes the servers out of their envelopes, in the order of the listing.
    pub fn into_servers(self) -> (servers: Vec<ServerInfo>)
        ensures
            server_records(servers@) == self@,
    {
        let mut servers: Vec<ServerInfo> = Vec::new();
        let ghost data = self.data@;
        for object in it: self.data.into_iter()
            invariant
                it.seq() == data,
                servers@.len() == it.index(),
                forall|j: int| 0 <= j < servers@.len() ==> (#[trigger] servers@[j])@ == data[j]@,
        {
            servers.push(object.attributes);
        }
        servers
    }
}

impl Attributes {
    /// Takes the power state out of its envelope.
    pub fn into_state(self) -> (state: String)
        ensures
            state@ == self@,
    {
        self.attributes.current_state
    }
}

} // verus!
