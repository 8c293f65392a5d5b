use vstd::prelude::*;

pub mod client_list;
pub mod client_resolver;
pub mod host_list;
pub mod http_handler;
pub mod http_server;
pub mod messages;
pub mod tunnel_client;
pub mod tunnel_list;
pub mod tunnel_server;

verus! {

/// Whether `c` holds the settings that `HttpServerConfig::default` gives.
pub open spec fn is_default_server_config(c: HttpServerConfig) -> bool {
    &&& c.client_port == 3457
    &&& c.max_client_input_wait == 10
    &&& c.tunnel_auth_key is None
    &&& c.tunnel_url_template@ == "http://{hostname}:3457"@
    &&& c.host_template@ == "t-{name}.localhost"@
    &&& c.allow_custom_hostnames
}

/// Whether `c` holds the settings that `HttpTunnelConfig::default` gives: one proxy that
/// forwards to "0.0.0.0:8000" under the name "8000".
pub open spec fn is_default_tunnel_config(c: HttpTunnelConfig) -> bool {
    &&& c.proxies@.len() == 1
    &&& c.proxies@[0].desired_name matches Some(n) && n@ == "8000"@
    &&& c.proxies@[0].forward_address@ == "0.0.0.0:8000"@
    &&& c.tunnel_auth_key is None
    &&& c.client_authorization is None
}

/// Settings of the HTTP service on the server side.
#[derive(Debug)]
pub struct HttpServerConfig {
    pub client_port: u16,
    pub max_client_input_wait: u16,
    pub tunnel_auth_key: Option<String>,
    pub host_template: String,
    pub tunnel_url_template: String,
    pub allow_custom_hostnames: bool,
}

impl Clone for HttpServerConfig {
    fn clone(&self) -> (out: Self)
        ensures
            out == *self,
    {
        HttpServerConfig {
            client_port: self.client_port,
            max_client_input_wait: self.max_client_input_wait,
            tunnel_auth_key: match &self.tunnel_auth_key {
                Some(key) => Some(key.clone()),
                None => None,
            },
            host_template: self.host_template.clone(),
            tunnel_url_template: self.tunnel_url_template.clone(),
            allow_custom_hostnames: self.allow_custom_hostnames,
        }
    }
}

impl Default for HttpServerConfig {
    fn default() -> (out: Self)
        ensures
            is_default_server_config(out),
    {
        HttpServerConfig {
            client_port: 3457,
            max_client_input_wait: 10,
            tunnel_auth_key: None,
            tunnel_url_template: "http://{hostname}:3457".to_owned(),
            host_template: "t-{name}.localhost".to_owned(),
            allow_custom_hostnames: true,
        }
    }
}

/// Settings of an HTTP tunnel on the client side.
#[derive(Debug)]
pub struct HttpTunnelConfig {
    pub proxies: Vec<TunnelProxy>,
    pub tunnel_auth_key: Option<String>,
    pub client_authorization: Option<ClientAuthorizeUser>,
}

impl Default for HttpTunnelConfig {
    fn default() -> (out: Self)
        ensures
            is_default_tunnel_config(out),
    {
        let mut proxies = Vec::new();
        proxies.push(
            TunnelProxy {
                desired_name: Some("8000".to_owned()),
                forward_address: "0.0.0.0:8000".to_owned(),
            },
        );
        Self { proxies, tunnel_auth_key: None, client_authorization: None }
    }
}

/// A local address that a tunnel forwards to, with the name it would like to be reached by.
#[derive(Debug)]
pub struct TunnelProxy {
    pub desired_name: Option<String>,
    pub forward_address: String,
}

/// Basic credentials that clients of a tunnel must present.
#[derive(Debug)]
pub struct ClientAuthorizeUser {
    pub realm: Option<String>,
    pub username: String,
    pub password: String,
}

impl Clone for ClientAuthorizeUser {
    fn clone(&self) -> (out: Self)
        ensures
            out == *self,
    {
        ClientAuthorizeUser {
            realm: match &self.realm {
                Some(realm) => Some(realm.clone()),
                None => None,
            },
            username: self.username.clone(),
            password: self.password.clone(),
        }
    }
}

} // verus!
