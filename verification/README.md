# tunnelize

A self-hosted tunnel server and client for HTTP traffic, with the decisions it makes
verified by Verus.

- `src/` is the verified library: configuration defaults and validation, the validation
  framework and its field rules, hostname registration for tunnels, the waiting-client list,
  HTTP request parsing and responses, message framing, the decisions of the HTTP service, of
  the hub and of the tunnel client, the tunnel configuration set up from what a server
  offers, and the small rules of the connection layer.
- `app/` is the program around it: command line, logging, configuration files, and the
  network loops of the server and the tunnel client, which hand the library plain values.
- `tests/` exercises the library.
