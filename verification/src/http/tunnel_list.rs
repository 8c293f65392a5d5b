use vstd::prelude::*;

use std::collections::HashMap;

use tokio::net::TcpStream;

use super::host_list::ResolvedHost;
use super::ClientAuthorizeUser;

verus! {

broadcast use vstd::std_specs::hash::group_hash_axioms;

/// A hostname that was registered for a tunnel's forwarding.
pub struct RequestedProxy {
    pub resolved_host: ResolvedHost,
}

/// A connected tunnel: its connection and the credentials its clients must present.
pub struct Tunnel {
    pub stream: TcpStream,
    pub client_authorization: Option<ClientAuthorizeUser>,
}

/// The connected tunnels, by id.
pub struct TunnelList {
    tunnel_map: HashMap<u32, Tunnel>,
}

/// How many random ids a tunnel id is drawn from before the lowest free one is taken.
pub const ID_DRAWS: u32 = 64;

/// rand's `random::<u32>()`: a number drawn from the thread's generator; nothing is claimed of
/// which number comes.
#[verifier::external_body]
fn random_u32() -> u32 {
    rand::random::<u32>()
}

impl TunnelList {
    /// The connected tunnels, by id.
    pub closed spec fn tunnels(&self) -> Map<u32, Tunnel> {
        self.tunnel_map@
    }

    /// An empty list.
    pub fn new() -> (out: Self)
        ensures
            out.tunnels() == Map::<u32, Tunnel>::empty(),
    {
        TunnelList { tunnel_map: HashMap::new() }
    }

    /// A fresh id for a connecting tunnel: drawn at random, drawn again while it is taken (up to
    /// `ID_DRAWS` draws), then the lowest free id. It is the id of no connected tunnel, unless
    /// every id is taken.
    pub fn issue_tunnel_id(&self) -> (out: u32)
        ensures
            !self.tunnels().contains_key(out) || forall|id: u32| #[trigger] self.tunnels().contains_key(id),
    {
        let mut draws: u32 = 0;
        while draws < ID_DRAWS
            invariant
                draws <= ID_DRAWS,
            decreases ID_DRAWS - draws,
        {
            let id = random_u32();
            if !self.tunnel_map.contains_key(&id) {
                return id;
            }
            draws = draws + 1;
        }
        let mut id: u32 = 0;
        loop
            invariant
                forall|k: u32| k < id ==> #[trigger] self.tunnels().contains_key(k),
            decreases u32::MAX - id,
        {
            if !self.tunnel_map.contains_key(&id) {
                return id;
            }
            if id == u32::MAX {
                assert forall|k: u32| #[trigger] self.tunnels().contains_key(k) by {
                    if k < id {
                    }
                }
                return id;
            }
            id = id + 1;
        }
    }

    /// Keeps the connection of tunnel `tunnel_id` and the credentials its clients must present,
    /// replacing what was kept under that id; the proxies it asked for are not kept.
    pub fn register(
        &mut self,
        tunnel_id: u32,
        stream: TcpStream,
        requested_proxies: Vec<RequestedProxy>,
        client_authorization: Option<ClientAuthorizeUser>,
    )
        ensures
            final(self).tunnels() == old(self).tunnels().insert(
                tunnel_id,
                Tunnel { stream, client_authorization },
            ),
    {
        self.tunnel_map.insert(tunnel_id, Tunnel { stream, client_authorization });
    }

    /// Whether a tunnel is connected under `id`.
    pub fn is_registered(&self, id: u32) -> (out: bool)
        ensures
            out == self.tunnels().contains_key(id),
    {
        self.tunnel_map.contains_key(&id)
    }

    /// Forgets the tunnel connected under `id`, if any.
    pub fn remove_tunnel(&mut self, id: u32)
        ensures
            final(self).tunnels() == old(self).tunnels().remove(id),
    {
        self.tunnel_map.remove(&id);
    }

    /// Takes the tunnel connected under `id` out of the list.
    pub fn take_by_id(&mut self, id: u32) -> (out: Option<Tunnel>)
        ensures
            out == (if old(self).tunnels().contains_key(id) {
                Some(old(self).tunnels()[id])
            } else {
                None
            }),
            final(self).tunnels() == old(self).tunnels().remove(id),
    {
        self.tunnel_map.remove(&id)
    }

    /// Puts a tunnel taken out with `take_by_id` back under `id`.
    pub fn restore(&mut self, id: u32, tunnel: Tunnel)
        ensures
            final(self).tunnels() == old(self).tunnels().insert(id, tunnel),
    {
        self.tunnel_map.insert(id, tunnel);
    }
}

/// A tunnel that connects after another one was kept is issued an id other than the first's: an
/// id issued by a list that keeps `first` differs from `first` (the list holds fewer than every
/// id).
pub proof fn law_next_tunnel_gets_another_id(tunnels: Map<u32, Tunnel>, first: u32, second: u32)
    requires
        tunnels.contains_key(first),
        !tunnels.contains_key(second) || forall|id: u32| #[trigger] tunnels.contains_key(id),
        exists|id: u32| !#[trigger] tunnels.contains_key(id),
    ensures
        second != first,
{
}

} // verus!
