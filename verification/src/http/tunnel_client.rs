use vstd::prelude::*;

use std::collections::HashMap;

use crate::common::strings::{decimal, decimal_string};

use super::messages::{Proxy, ResolvedLink, ServerMessage, TunnelMessage};
use super::host_list::opt_view;
use super::HttpTunnelConfig;

verus! {

broadcast use vstd::std_specs::hash::group_hash_axioms;

/// What a running HTTP tunnel knows: the id the server gave it and, by host id, the local
/// address that each of its hosts forwards to.
pub struct TunnelClientState {
    tunnel_id: u32,
    forwards: HashMap<u32, String>,
}

/// What the tunnel does after a message from the server.
pub enum ClientAction {
    /// The server accepted the tunnel; the state now holds its id and forwards.
    Configured,
    /// Tell the server that the link for `client_id` cannot be made.
    DenyLink { message: TunnelMessage },
    /// Connect to the server and to `forward_address`, then accept the link with `accept`.
    OpenLink { forward_address: String, accept: TunnelMessage },
    /// The server turned the tunnel away for `reason`; nothing else changes.
    Denied { reason: String },
}

/// What the tunnel does after a failed read from the server.
#[derive(Debug, Clone, Copy, PartialEq, Eq)]
pub enum ReadFailureAction {
    /// Stop, and report success.
    Finish,
    /// Stop, and report that the server closed the connection.
    Fail,
    /// Skip the message and wait for the next one.
    Skip,
}

/// `forwards` with each link's host id mapped to its forward address, later links winning.
pub open spec fn with_links(forwards: Map<u32, String>, links: Seq<ResolvedLink>) -> Map<
    u32,
    String,
>
    decreases links.len(),
{
    if links.len() == 0 {
        forwards
    } else {
        with_links(forwards, links.drop_last()).insert(
            links.last().host_id,
            links.last().forward_address,
        )
    }
}

/// Once an accepted tunnel's links are taken in, the host id of a link that no later link
/// repeats forwards to that link's address.
pub proof fn law_last_link_wins(forwards: Map<u32, String>, links: Seq<ResolvedLink>, i: int)
    requires
        0 <= i < links.len(),
        forall|j: int| i < j < links.len() ==> (#[trigger] links[j]).host_id != links[i].host_id,
    ensures
        with_links(forwards, links).contains_key(links[i].host_id),
        with_links(forwards, links)[links[i].host_id] == links[i].forward_address,
    decreases links.len(),
{
    if i < links.len() - 1 {
        assert(links[links.len() - 1].host_id != links[i].host_id);
        assert forall|j: int| i < j < links.drop_last().len() implies (
        #[trigger] links.drop_last()[j]).host_id != links.drop_last()[i].host_id by {
            assert(links.drop_last()[j] == links[j]);
        }
        law_last_link_wins(forwards, links.drop_last(), i);
    }
}

/// Taking in an accepted tunnel's links leaves the forward of every host id that no link
/// names as it was.
pub proof fn law_unlinked_host_keeps_forward(
    forwards: Map<u32, String>,
    links: Seq<ResolvedLink>,
    host_id: u32,
)
    requires
        forall|j: int| 0 <= j < links.len() ==> (#[trigger] links[j]).host_id != host_id,
    ensures
        with_links(forwards, links).contains_key(host_id) == forwards.contains_key(host_id),
        forwards.contains_key(host_id) ==> with_links(forwards, links)[host_id] == forwards[host_id],
    decreases links.len(),
{
    if links.len() > 0 {
        assert(links[links.len() - 1].host_id != host_id);
        assert forall|j: int| 0 <= j < links.drop_last().len() implies (
        #[trigger] links.drop_last()[j]).host_id != host_id by {
            assert(links.drop_last()[j] == links[j]);
        }
        law_unlinked_host_keeps_forward(forwards, links.drop_last(), host_id);
    }
}

/// The reason given when a link asks for a host id that the tunnel does not know.
pub open spec fn unknown_host_reason(host_id: u32) -> Seq<char> {
    "Host ID not defined for tunnel: "@ + decimal(host_id as nat)
}

/// The reason given when the local address of a link cannot be reached.
pub open spec fn unreachable_forward_reason(forward_address: Seq<char>) -> Seq<char> {
    "Could not connect to forward from "@ + forward_address
}

/// The message that asks the server for a tunnel with the proxies, the tunnel key and the
/// client credentials of `config`.
pub fn connect_request(config: &HttpTunnelConfig) -> (out: TunnelMessage)
    ensures
        out matches TunnelMessage::Connect { proxies, tunnel_auth_key, client_authorization }
            && opt_view(tunnel_auth_key) == opt_view(config.tunnel_auth_key)
            && client_authorization == config.client_authorization
            && proxies.len() == config.proxies.len() && forall|i: int|
            0 <= i < proxies.len() ==> {
                &&& (#[trigger] proxies@[i]).forward_address@
                    == config.proxies@[i].forward_address@
                &&& match (proxies@[i].desired_name, config.proxies@[i].desired_name) {
                    (Some(a), Some(b)) => a@ == b@,
                    (None, None) => true,
                    _ => false,
                }
            },
{
    let mut proxies: Vec<Proxy> = Vec::new();
    let mut i: usize = 0;
    while i < config.proxies.len()
        invariant
            i <= config.proxies.len(),
            proxies.len() == i,
            forall|j: int|
                0 <= j < i ==> {
                    &&& (#[trigger] proxies@[j]).forward_address@
                        == config.proxies@[j].forward_address@
                    &&& match (proxies@[j].desired_name, config.proxies@[j].desired_name) {
                        (Some(a), Some(b)) => a@ == b@,
                        (None, None) => true,
                        _ => false,
                    }
                },
        decreases config.proxies.len() - i,
    {
        let desired_name = match &config.proxies[i].desired_name {
            Some(name) => Some(name.clone()),
            None => None,
        };
        proxies.push(
            Proxy { desired_name, forward_address: config.proxies[i].forward_address.clone() },
        );
        i = i + 1;
    }
    let tunnel_auth_key = match &config.tunnel_auth_key {
        Some(key) => Some(key.clone()),
        None => None,
    };
    let client_authorization = match &config.client_authorization {
        Some(user) => Some(user.clone()),
        None => None,
    };
    TunnelMessage::Connect { proxies, tunnel_auth_key, client_authorization }
}

/// What to do when reading from the server failed: a closed connection ends the tunnel, with
/// success when the user asked it to close; any other failure skips the message.
pub fn on_read_failure(connection_closed: bool, closing_gracefully: bool) -> (out:
    ReadFailureAction)
    ensures
        out == (if connection_closed {
            if closing_gracefully {
                ReadFailureAction::Finish
            } else {
                ReadFailureAction::Fail
            }
        } else {
            ReadFailureAction::Skip
        }),
{
    if connection_closed {
        if closing_gracefully {
            ReadFailureAction::Finish
        } else {
            ReadFailureAction::Fail
        }
    } else {
        ReadFailureAction::Skip
    }
}

/// The denial sent when the local address of a link cannot be reached.
pub fn forward_unreachable(client_id: u32, tunnel_id: u32, forward_address: &String) -> (out:
    TunnelMessage)
    ensures
        out matches TunnelMessage::ClientLinkDeny { tunnel_id: t, client_id: c, reason } && t
            == tunnel_id && c == client_id && reason@ == unreachable_forward_reason(
            forward_address@,
        ),
{
    let mut reason = "Could not connect to forward from ".to_string();
    reason.append(forward_address.as_str());
    TunnelMessage::ClientLinkDeny { tunnel_id, client_id, reason }
}

impl TunnelClientState {
    /// The id the tunnel announces itself with.
    pub closed spec fn tunnel_id(&self) -> u32 {
        self.tunnel_id
    }

    /// Where each host id forwards to.
    pub closed spec fn forwards(&self) -> Map<u32, String> {
        self.forwards@
    }

    /// A tunnel that announces itself as `tunnel_id` and forwards nothing yet.
    pub fn new(tunnel_id: u32) -> (out: Self)
        ensures
            out.tunnel_id() == tunnel_id,
            out.forwards() == Map::<u32, String>::empty(),
    {
        TunnelClientState { tunnel_id, forwards: HashMap::new() }
    }

    /// The message that tells the server that this tunnel goes away.
    pub fn disconnect_request(&self) -> (out: TunnelMessage)
        ensures
            out == (TunnelMessage::Disconnect { tunnel_id: self.tunnel_id() }),
    {
        TunnelMessage::Disconnect { tunnel_id: self.tunnel_id }
    }

    /// Decides what to do with a message from the server: an accepted tunnel takes its id and
    /// its links' forwards; a denied one reports the reason; a link request is opened towards the
    /// forward of its host, or denied when the host id is unknown.
    pub fn handle_server_message(&mut self, message: ServerMessage) -> (out: ClientAction)
        ensures
            match message {
                ServerMessage::TunnelAccept { tunnel_id, resolved_links } => {
                    &&& out matches ClientAction::Configured
                    &&& final(self).tunnel_id() == tunnel_id
                    &&& final(self).forwards() == with_links(old(self).forwards(), resolved_links@)
                },
                ServerMessage::TunnelDeny { reason } => {
                    &&& out == (ClientAction::Denied { reason })
                    &&& final(self).tunnel_id() == old(self).tunnel_id()
                    &&& final(self).forwards() == old(self).forwards()
                },
                ServerMessage::ClientLinkRequest { client_id, host_id } => {
                    &&& final(self).tunnel_id() == old(self).tunnel_id()
                    &&& final(self).forwards() == old(self).forwards()
                    &&& if old(self).forwards().contains_key(host_id) {
                        out matches ClientAction::OpenLink { forward_address, accept }
                            && forward_address@ == old(self).forwards()[host_id]@ && accept == (
                        TunnelMessage::ClientLinkAccept {
                            tunnel_id: old(self).tunnel_id(),
                            client_id,
                        })
                    } else {
                        out matches ClientAction::DenyLink {
                            message: TunnelMessage::ClientLinkDeny { tunnel_id, client_id: c, reason },
                        } && tunnel_id == old(self).tunnel_id() && c == client_id && reason@
                            == unknown_host_reason(host_id)
                    }
                },
            },
    {
        match message {
            ServerMessage::TunnelAccept { tunnel_id, resolved_links } => {
                let ghost all_links = resolved_links@;
                let ghost start = self.forwards@;
                let mut links = resolved_links;
                let total: usize = links.len();
                let mut done: usize = 0;
                proof {
                    assert(all_links.take(0) =~= Seq::<ResolvedLink>::empty());
                    assert(all_links.skip(0) =~= all_links);
                }
                while links.len() > 0
                    invariant
                        done + links@.len() == all_links.len(),
                        all_links.len() == total,
                        links@ == all_links.skip(done as int),
                        self.forwards@ == with_links(start, all_links.take(done as int)),
                    decreases links@.len(),
                {
                    let link = links.remove(0);
                    proof {
                        assert(link == all_links[done as int]);
                        assert(all_links.take(done + 1).drop_last() =~= all_links.take(done as int));
                        assert(links@ =~= all_links.skip(done + 1));
                    }
                    self.forwards.insert(link.host_id, link.forward_address);
                    done = done + 1;
                }
                proof {
                    assert(all_links.take(done as int) =~= all_links);
                }
                self.tunnel_id = tunnel_id;
                ClientAction::Configured
            },
            ServerMessage::TunnelDeny { reason } => ClientAction::Denied { reason },
            ServerMessage::ClientLinkRequest { client_id, host_id } => {
                match self.forwards.get(&host_id) {
                    Some(address) => ClientAction::OpenLink {
                        forward_address: address.clone(),
                        accept: TunnelMessage::ClientLinkAccept {
                            tunnel_id: self.tunnel_id,
                            client_id,
                        },
                    },
                    None => {
                        let mut reason = "Host ID not defined for tunnel: ".to_string();
                        reason.append(decimal_string(host_id as usize).as_str());
                        ClientAction::DenyLink {
                            message: TunnelMessage::ClientLinkDeny {
                                tunnel_id: self.tunnel_id,
                                client_id,
                                reason,
                            },
                        }
                    },
                }
            },
        }
    }
}

} // verus!
