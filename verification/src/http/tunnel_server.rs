use vstd::prelude::*;

use crate::common::strings::{chars_of, replace, replace_all, string_of};

use super::client_list::{Client, ClientList};
use super::host_list::{
    following_host_id, is_random_hostname, opt_view, preferred_hostname, HostList,
    RegisteredHost, ResolvedHost,
};
use super::messages::{Proxy, ResolvedLink};
use super::tunnel_list::RequestedProxy;

verus! {

/// Whether a registration in `hosts` may pick `hostname` for the preferred name `preferred`.
pub open spec fn acceptable_hostname(
    hosts: Map<Seq<char>, RegisteredHost>,
    template: Seq<char>,
    preferred: Option<Seq<char>>,
    hostname: Seq<char>,
) -> bool {
    match preferred_hostname(hosts, template, preferred) {
        Some(h) => hostname == h,
        None => is_random_hostname(template, hostname) && !hosts.contains_key(hostname),
    }
}

/// The hosts and the last id after registering `names` one after the other for `tunnel_id`,
/// starting from `hosts` and `last`, where registration `i` returned `given[i]` (hostname and
/// id); `None` when `given` is not what those registrations can return.
pub open spec fn after_registrations(
    hosts: Map<Seq<char>, RegisteredHost>,
    last: u32,
    template: Seq<char>,
    tunnel_id: u32,
    names: Seq<Option<Seq<char>>>,
    given: Seq<(Seq<char>, u32)>,
) -> Option<(Map<Seq<char>, RegisteredHost>, u32)>
    decreases names.len(),
{
    if names.len() == 0 {
        if given.len() == 0 {
            Some((hosts, last))
        } else {
            None
        }
    } else if given.len() != names.len() {
        None
    } else {
        match after_registrations(
            hosts,
            last,
            template,
            tunnel_id,
            names.drop_last(),
            given.drop_last(),
        ) {
            Some((before, before_last)) => {
                let (hostname, id) = given.last();
                if id == following_host_id(before_last) && acceptable_hostname(
                    before,
                    template,
                    names.last(),
                    hostname,
                ) {
                    Some((before.insert(hostname, RegisteredHost { tunnel_id, host_id: id }), id))
                } else {
                    None
                }
            },
            None => None,
        }
    }
}

/// Every hostname handed out while a tunnel's proxies are registered is registered to that
/// tunnel afterwards.
pub proof fn law_registered_hosts_belong_to_tunnel(
    hosts: Map<Seq<char>, RegisteredHost>,
    last: u32,
    template: Seq<char>,
    tunnel_id: u32,
    names: Seq<Option<Seq<char>>>,
    given: Seq<(Seq<char>, u32)>,
    i: int,
)
    requires
        after_registrations(hosts, last, template, tunnel_id, names, given) is Some,
        0 <= i < given.len(),
    ensures
        ({
            let after = after_registrations(hosts, last, template, tunnel_id, names, given)->Some_0.0;
            after.contains_key(given[i].0) && after[given[i].0].tunnel_id == tunnel_id
        }),
    decreases names.len(),
{
    if i < given.len() - 1 {
        law_registered_hosts_belong_to_tunnel(
            hosts,
            last,
            template,
            tunnel_id,
            names.drop_last(),
            given.drop_last(),
            i,
        );
        assert(given.drop_last()[i] == given[i]);
    }
}

/// Registering a tunnel's proxies leaves every hostname that was not handed out registered as
/// it was.
pub proof fn law_registration_keeps_other_hosts(
    hosts: Map<Seq<char>, RegisteredHost>,
    last: u32,
    template: Seq<char>,
    tunnel_id: u32,
    names: Seq<Option<Seq<char>>>,
    given: Seq<(Seq<char>, u32)>,
    hostname: Seq<char>,
)
    requires
        after_registrations(hosts, last, template, tunnel_id, names, given) is Some,
        forall|j: int| 0 <= j < given.len() ==> (#[trigger] given[j]).0 != hostname,
    ensures
        ({
            let after = after_registrations(hosts, last, template, tunnel_id, names, given)->Some_0.0;
            &&& after.contains_key(hostname) == hosts.contains_key(hostname)
            &&& hosts.contains_key(hostname) ==> after[hostname] == hosts[hostname]
        }),
    decreases names.len(),
{
    if names.len() > 0 {
        assert forall|j: int| 0 <= j < given.drop_last().len() implies (
        #[trigger] given.drop_last()[j]).0 != hostname by {
            assert(given.drop_last()[j] == given[j]);
        }
        law_registration_keeps_other_hosts(
            hosts,
            last,
            template,
            tunnel_id,
            names.drop_last(),
            given.drop_last(),
            hostname,
        );
        assert(given[given.len() - 1].0 != hostname);
    }
}

/// The preferred names of `proxies`.
pub open spec fn preferred_names(proxies: Seq<Proxy>) -> Seq<Option<Seq<char>>> {
    proxies.map_values(|p: Proxy| opt_view(p.desired_name))
}

/// The hostname and id of each link.
pub open spec fn link_hosts(links: Seq<ResolvedLink>) -> Seq<(Seq<char>, u32)> {
    links.map_values(|l: ResolvedLink| (l.hostname@, l.host_id))
}

/// Registers a hostname for each proxy of a connecting tunnel, in order, and returns the links
/// to announce to the tunnel and the proxies to keep with it. It stops at the first proxy for
/// which no hostname can be found (its preferred name gives none and every five-letter word is
/// taken), so then fewer links come back than there are proxies.
pub fn resolve_proxies(hosts: &mut HostList, tunnel_id: u32, proxies: &Vec<Proxy>) -> (out: (
    Vec<ResolvedLink>,
    Vec<RequestedProxy>,
))
    ensures
        final(hosts).template() == old(hosts).template(),
        out.0.len() <= proxies.len(),
        out.1.len() == out.0.len(),
        forall|i: int|
            0 <= i < out.0.len() ==> {
                &&& (#[trigger] out.0@[i]).forward_address@ == proxies@[i].forward_address@
                &&& out.1@[i].resolved_host.hostname@ == out.0@[i].hostname@
                &&& out.1@[i].resolved_host.host_id == out.0@[i].host_id
            },
        after_registrations(
            old(hosts).hosts(),
            old(hosts).last_id(),
            old(hosts).template(),
            tunnel_id,
            preferred_names(proxies@).take(out.0.len() as int),
            link_hosts(out.0@),
        ) == Some((final(hosts).hosts(), final(hosts).last_id())),
        out.0.len() < proxies.len() ==> !final(hosts).can_register(
            preferred_names(proxies@)[out.0.len() as int],
        ),
{
    let ghost start = (old(hosts).hosts(), old(hosts).last_id());
    let ghost template = old(hosts).template();
    let ghost names = preferred_names(proxies@);
    let mut links: Vec<ResolvedLink> = Vec::new();
    let mut requested: Vec<RequestedProxy> = Vec::new();
    let mut i: usize = 0;
    proof {
        assert(names.take(0) =~= Seq::<Option<Seq<char>>>::empty());
        assert(link_hosts(links@) =~= Seq::<(Seq<char>, u32)>::empty());
    }
    while i < proxies.len()
        invariant
            i <= proxies.len(),
            names == preferred_names(proxies@),
            start == (old(hosts).hosts(), old(hosts).last_id()),
            template == old(hosts).template(),
            hosts.template() == template,
            links.len() == i,
            requested.len() == i,
            forall|j: int|
                0 <= j < i ==> {
                    &&& (#[trigger] links@[j]).forward_address@ == proxies@[j].forward_address@
                    &&& requested@[j].resolved_host.hostname@ == links@[j].hostname@
                    &&& requested@[j].resolved_host.host_id == links@[j].host_id
                },
            after_registrations(
                start.0,
                start.1,
                template,
                tunnel_id,
                names.take(i as int),
                link_hosts(links@),
            ) == Some((hosts.hosts(), hosts.last_id())),
        decreases proxies.len() - i,
    {
        let preferred = match &proxies[i].desired_name {
            Some(name) => Some(name.clone()),
            None => None,
        };
        let ghost before = (hosts.hosts(), hosts.last_id());
        let ghost old_links = links@;
        assert(opt_view(preferred) == names[i as int]);
        let resolved: ResolvedHost = match hosts.try_register(tunnel_id, preferred) {
            Some(resolved) => resolved,
            None => {
                return (links, requested);
            },
        };
        let link = ResolvedLink {
            forward_address: proxies[i].forward_address.clone(),
            hostname: resolved.hostname.clone(),
            host_id: resolved.host_id,
        };
        links.push(link);
        requested.push(RequestedProxy { resolved_host: resolved });
        proof {
            assert(names.take(i + 1).drop_last() =~= names.take(i as int));
            assert(names.take(i + 1).last() == names[i as int]);
            assert(link_hosts(links@).drop_last() =~= link_hosts(old_links));
            assert(link_hosts(links@).last() == (link.hostname@, link.host_id));
            assert(acceptable_hostname(before.0, template, names[i as int], link.hostname@));
        }
        i = i + 1;
    }
    (links, requested)
}

/// The waiting client that a tunnel's link answer is for: none when the tunnel is not
/// registered or no client waits under `client_id`; else the client, taken out of the list.
pub fn take_linked_client(tunnel_registered: bool, clients: &mut ClientList, client_id: u32) -> (out:
    Option<Client>)
    ensures
        final(clients).next_client_id() == old(clients).next_client_id(),
        !tunnel_registered ==> out is None && final(clients).clients() == old(clients).clients(),
        tunnel_registered ==> out == (if old(clients).clients().contains_key(client_id) {
            Some(old(clients).clients()[client_id])
        } else {
            None
        }) && final(clients).clients() == old(clients).clients().remove(client_id),
{
    if !tunnel_registered {
        return None;
    }
    if !clients.is_registered(client_id) {
        proof {
            assert(old(clients).clients().remove(client_id) =~= old(clients).clients());
        }
        return None;
    }
    clients.release(client_id)
}

/// Whether a service that requires `required` lets a tunnel that gave `given` register:
/// always when no key is required, else when the key given (the empty key when none is) is the
/// required one.
pub open spec fn accepts_key(required: Option<String>, given: Option<String>) -> bool {
    match required {
        None => true,
        Some(key) => match given {
            Some(g) => g@ == key@,
            None => key@.len() == 0,
        },
    }
}

/// Whether a connecting tunnel may register.
pub fn tunnel_key_accepted(required: &Option<String>, given: &Option<String>) -> (out: bool)
    ensures
        out == accepts_key(*required, *given),
{
    match required {
        None => true,
        Some(key) => {
            let given_key = match given {
                Some(g) => g.clone(),
                None => String::new(),
            };
            proof {
                if key@.len() == 0 {
                    assert(key@ =~= Seq::<char>::empty());
                }
            }
            given_key == *key
        },
    }
}

/// The public URL of a registered hostname: the service's URL template with every
/// "{hostname}" replaced by it.
pub fn link_url(url_template: &String, hostname: &String) -> (out: String)
    ensures
        out@ == replace_all(url_template@, "{hostname}"@, hostname@),
{
    let placeholder = chars_of("{hostname}");
    proof {
        reveal_strlit("{hostname}");
    }
    let url = replace(&chars_of(url_template.as_str()), &placeholder, &chars_of(hostname.as_str()));
    string_of(url.as_slice())
}

/// The reason a connecting tunnel is turned away with, if it is: "Invalid auth key provided"
/// when its key is not accepted, none when it may register.
pub fn tunnel_deny_reason(required: &Option<String>, given: &Option<String>) -> (out: Option<String>)
    ensures
        out is None <==> accepts_key(*required, *given),
        out matches Some(reason) ==> reason@ == "Invalid auth key provided"@,
{
    if tunnel_key_accepted(required, given) {
        None
    } else {
        Some("Invalid auth key provided".to_string())
    }
}

} // verus!
