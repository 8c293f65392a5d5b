use tunnelize::http::host_list::HostList;

fn is_random_host(hostname: &str, prefix: &str, suffix: &str) -> bool {
    hostname.len() == prefix.len() + 5 + suffix.len()
        && hostname.starts_with(prefix)
        && hostname.ends_with(suffix)
        && hostname[prefix.len()..prefix.len() + 5].chars().all(|c| c.is_ascii_lowercase())
}

#[test]
fn preferred_name_fills_the_template() {
    let mut hosts = HostList::new("t-{dynamic}.localhost".to_string());
    let resolved = hosts.register(7, Some("shop".to_string()));
    assert_eq!(resolved.hostname, "t-shop.localhost");
    assert_eq!(resolved.host_id, 1);
    let found = hosts.find_host(&"t-shop.localhost".to_string()).unwrap();
    assert_eq!(found.tunnel_id, 7);
    assert_eq!(found.host_id, 1);
}

#[test]
fn host_ids_count_up_from_one() {
    let mut hosts = HostList::new("{dynamic}.example".to_string());
    let a = hosts.register(1, Some("a".to_string()));
    let b = hosts.register(1, Some("b".to_string()));
    let c = hosts.register(2, None);
    assert_eq!((a.host_id, b.host_id, c.host_id), (1, 2, 3));
}

#[test]
fn missing_or_empty_name_gets_five_random_letters() {
    let mut hosts = HostList::new("t-{dynamic}.localhost".to_string());
    let none = hosts.register(1, None);
    assert!(is_random_host(&none.hostname, "t-", ".localhost"), "{}", none.hostname);
    let empty = hosts.register(1, Some(String::new()));
    assert!(is_random_host(&empty.hostname, "t-", ".localhost"), "{}", empty.hostname);
}

#[test]
fn taken_name_falls_back_to_random_letters() {
    let mut hosts = HostList::new("{dynamic}.dev".to_string());
    let first = hosts.register(1, Some("api".to_string()));
    let second = hosts.register(2, Some("api".to_string()));
    assert_eq!(first.hostname, "api.dev");
    assert_ne!(second.hostname, "api.dev");
    assert!(is_random_host(&second.hostname, "", ".dev"), "{}", second.hostname);
    assert_eq!(hosts.find_host(&"api.dev".to_string()).unwrap().tunnel_id, 1);
}

#[test]
fn every_placeholder_is_filled() {
    let mut hosts = HostList::new("{dynamic}-{dynamic}".to_string());
    assert_eq!(hosts.register(3, Some("x".to_string())).hostname, "x-x");
}

#[test]
fn unknown_hostname_is_not_found() {
    let hosts = HostList::new("{dynamic}".to_string());
    assert!(hosts.find_host(&"nothing".to_string()).is_none());
}

#[test]
fn unregistering_a_tunnel_removes_only_its_hosts() {
    let mut hosts = HostList::new("{dynamic}.io".to_string());
    hosts.register(1, Some("a".to_string()));
    hosts.register(2, Some("b".to_string()));
    hosts.register(1, Some("c".to_string()));
    hosts.unregister_by_tunnel(1);
    assert!(hosts.find_host(&"a.io".to_string()).is_none());
    assert!(hosts.find_host(&"c.io".to_string()).is_none());
    let kept = hosts.find_host(&"b.io".to_string()).unwrap();
    assert_eq!((kept.tunnel_id, kept.host_id), (2, 2));
    let again = hosts.register(3, Some("a".to_string()));
    assert_eq!(again.hostname, "a.io");
    assert_eq!(again.host_id, 4);
}

#[test]
fn random_hostnames_are_never_handed_out_twice() {
    let mut hosts = HostList::new("{dynamic}.localhost".to_string());
    let mut seen = std::collections::HashSet::new();
    for tunnel_id in 0..500 {
        let resolved = hosts.register(tunnel_id, None);
        assert!(is_random_host(&resolved.hostname, "", ".localhost"));
        assert!(seen.insert(resolved.hostname.clone()));
        assert_eq!(hosts.find_host(&resolved.hostname).map(|h| h.tunnel_id), Some(tunnel_id));
    }
}

#[test]
fn registration_without_a_free_hostname_changes_nothing() {
    let mut hosts = HostList::new("fixed.localhost".to_string());
    let first = hosts.try_register(1, None).unwrap();
    assert_eq!(first.hostname, "fixed.localhost");
    assert_eq!(first.host_id, 1);
    assert!(hosts.try_register(2, None).is_none());
    assert!(hosts.try_register(2, Some("other".to_string())).is_none());
    assert_eq!(hosts.find_host(&"fixed.localhost".to_string()).map(|h| h.tunnel_id), Some(1));
}
