use tunnelize::http::client_list::ClientList;
use tunnelize::http::host_list::HostList;
use tunnelize::http::messages::Proxy;
use tunnelize::http::tunnel_list::TunnelList;
use tunnelize::http::tunnel_server::{
    link_url, resolve_proxies, take_linked_client, tunnel_deny_reason, tunnel_key_accepted,
};

fn proxy(name: Option<&str>, address: &str) -> Proxy {
    Proxy { desired_name: name.map(|n| n.to_string()), forward_address: address.to_string() }
}

#[test]
fn each_proxy_gets_a_host_in_order() {
    let mut hosts = HostList::new("{dynamic}.t.io".to_string());
    let proxies = vec![proxy(Some("web"), "127.0.0.1:8000"), proxy(Some("api"), "127.0.0.1:9000")];
    let (links, requested) = resolve_proxies(&mut hosts, 5, &proxies);
    assert_eq!(links.len(), 2);
    assert_eq!(links[0].hostname, "web.t.io");
    assert_eq!(links[0].forward_address, "127.0.0.1:8000");
    assert_eq!(links[0].host_id, 1);
    assert_eq!(links[1].hostname, "api.t.io");
    assert_eq!(links[1].forward_address, "127.0.0.1:9000");
    assert_eq!(links[1].host_id, 2);
    assert_eq!(requested[1].resolved_host.hostname, "api.t.io");
    assert_eq!(requested[1].resolved_host.host_id, 2);
    let host = hosts.find_host(&"api.t.io".to_string()).unwrap();
    assert_eq!((host.tunnel_id, host.host_id), (5, 2));
}

#[test]
fn a_name_taken_earlier_in_the_same_connect_is_not_reused() {
    let mut hosts = HostList::new("{dynamic}".to_string());
    let proxies = vec![proxy(Some("same"), "a:1"), proxy(Some("same"), "b:2")];
    let (links, _) = resolve_proxies(&mut hosts, 1, &proxies);
    assert_eq!(links[0].hostname, "same");
    assert_ne!(links[1].hostname, "same");
    assert_eq!(links[1].hostname.len(), 5);
}

#[test]
fn no_proxies_register_nothing() {
    let mut hosts = HostList::new("{dynamic}".to_string());
    let (links, requested) = resolve_proxies(&mut hosts, 1, &Vec::new());
    assert!(links.is_empty() && requested.is_empty());
    assert_eq!(hosts.register(1, Some("x".to_string())).host_id, 1);
}

#[test]
fn tunnel_key_is_checked_only_when_required() {
    assert!(tunnel_key_accepted(&None, &None));
    assert!(tunnel_key_accepted(&None, &Some("anything".to_string())));
    let key = Some("secret".to_string());
    assert!(tunnel_key_accepted(&key, &Some("secret".to_string())));
    assert!(!tunnel_key_accepted(&key, &Some("Secret".to_string())));
    assert!(!tunnel_key_accepted(&key, &None));
    assert!(tunnel_key_accepted(&Some(String::new()), &None));
}

#[test]
fn link_url_fills_every_hostname_placeholder() {
    assert_eq!(
        link_url(&"http://{hostname}:3457".to_string(), &"t-web.localhost".to_string()),
        "http://t-web.localhost:3457"
    );
    assert_eq!(link_url(&"{hostname}/{hostname}".to_string(), &"h".to_string()), "h/h");
    assert_eq!(link_url(&"static".to_string(), &"h".to_string()), "static");
}

#[test]
fn link_answer_without_waiting_client_takes_nothing() {
    let mut clients = ClientList::new();
    let id = clients.issue_client_id();
    assert!(take_linked_client(false, &mut clients, id).is_none());
    assert!(take_linked_client(true, &mut clients, id).is_none());
    assert!(!clients.is_registered(id));
    assert_eq!(clients.issue_client_id(), id + 1);
}

#[test]
fn client_ids_count_up_from_zero() {
    let mut clients = ClientList::new();
    assert_eq!(clients.issue_client_id(), 0);
    assert_eq!(clients.issue_client_id(), 1);
    assert!(!clients.is_registered(0));
    assert!(clients.release(0).is_none());
    assert_eq!(clients.issue_client_id(), 2);
}

#[test]
fn empty_tunnel_list_knows_no_tunnel() {
    let mut tunnels = TunnelList::new();
    let id = tunnels.issue_tunnel_id();
    assert!(!tunnels.is_registered(id));
    assert!(tunnels.take_by_id(id).is_none());
    tunnels.remove_tunnel(id);
    assert!(!tunnels.is_registered(id));
}

#[test]
fn tunnel_with_a_wrong_key_is_denied_with_a_reason() {
    let required = Some("secret".to_string());
    assert_eq!(
        tunnel_deny_reason(&required, &Some("guess".to_string())),
        Some("Invalid auth key provided".to_string())
    );
    assert_eq!(
        tunnel_deny_reason(&required, &None),
        Some("Invalid auth key provided".to_string())
    );
    assert_eq!(tunnel_deny_reason(&required, &Some("secret".to_string())), None);
    assert_eq!(tunnel_deny_reason(&None, &None), None);
}
