use vstd::prelude::*;

use std::collections::HashMap;

use tokio::net::TcpStream;

verus! {

broadcast use vstd::std_specs::hash::group_hash_axioms;

/// tokio's `TcpStream`, carried as an opaque value.
#[verifier::external_type_specification]
#[verifier::external_body]
pub struct ExTcpStream(TcpStream);

/// A client connection that waits for its tunnel, with what it sent first.
pub struct Client {
    pub initial_request: String,
    pub stream: TcpStream,
}

/// The client connections that wait for a tunnel, by id.
pub struct ClientList {
    id_counter: u32,
    client_map: HashMap<u32, Client>,
}

/// The next id after `id`, wrapping at the top of the range.
pub open spec fn next_id(id: u32) -> u32 {
    if id == u32::MAX {
        0
    } else {
        (id + 1) as u32
    }
}

/// A released client is the one that was registered under its id, and its id is free again.
pub proof fn law_release_after_register(clients: Map<u32, Client>, id: u32, client: Client)
    ensures
        clients.insert(id, client).contains_key(id),
        clients.insert(id, client)[id] == client,
        !clients.insert(id, client).remove(id).contains_key(id),
        clients.insert(id, client).remove(id) == clients.remove(id),
{
    assert(clients.insert(id, client).remove(id) =~= clients.remove(id));
}

impl ClientList {
    /// The waiting clients, by id.
    pub closed spec fn clients(&self) -> Map<u32, Client> {
        self.client_map@
    }

    /// The id that the next call of `issue_client_id` hands out.
    pub closed spec fn next_client_id(&self) -> u32 {
        self.id_counter
    }

    /// An empty list that hands out ids from 0.
    pub fn new() -> (out: Self)
        ensures
            out.clients() == Map::<u32, Client>::empty(),
            out.next_client_id() == 0,
    {
        ClientList { id_counter: 0, client_map: HashMap::new() }
    }

    /// Hands out the next id; ids wrap around after `u32::MAX`.
    pub fn issue_client_id(&mut self) -> (out: u32)
        ensures
            out == old(self).next_client_id(),
            final(self).next_client_id() == next_id(out),
            final(self).clients() == old(self).clients(),
    {
        let issued_id = self.id_counter;
        self.id_counter = self.id_counter.wrapping_add(1);
        issued_id
    }

    /// Keeps `stream` and its first request under `client_id`, replacing what was there.
    pub fn register(&mut self, client_id: u32, stream: TcpStream, initial_request: String) -> (out: u32)
        ensures
            out == client_id,
            final(self).clients() == old(self).clients().insert(
                client_id,
                Client { initial_request, stream },
            ),
            final(self).next_client_id() == old(self).next_client_id(),
    {
        self.client_map.insert(client_id, Client { initial_request, stream });
        client_id
    }

    /// Whether a client waits under `id`.
    pub fn is_registered(&self, id: u32) -> (out: bool)
        ensures
            out == self.clients().contains_key(id),
    {
        self.client_map.contains_key(&id)
    }

    /// Takes the client waiting under `id` out of the list.
    pub fn release(&mut self, id: u32) -> (out: Option<Client>)
        ensures
            out == (if old(self).clients().contains_key(id) {
                Some(old(self).clients()[id])
            } else {
                None
            }),
            final(self).clients() == old(self).clients().remove(id),
            final(self).next_client_id() == old(self).next_client_id(),
    {
        self.client_map.remove(&id)
    }
}

} // verus!
