//! Connection configurations and the builder that derives a
//! protocol-ready transport descriptor from them.  Two backend flavors
//! exist: a directly addressed server, and a managed multi-tenant
//! endpoint that multiplexes graphs by credential rather than by path.
use vstd::prelude::*;

use crate::strfmt::{dec_digits, push_u64_digits};

verus! {

use vstd::string::StringExecFns;

/// The wire-serialization encodings the protocol speaks.
#[derive(Debug, Clone, Copy, PartialEq, Eq, Structural)]
pub enum GraphSonVersion {
    V2,
    V3,
}

/// A username/password pair attached to the transport.
#[derive(Debug, Clone, PartialEq, Eq)]
pub struct Credentials {
    pub username: String,
    pub password: String,
}

/// The derived, protocol-ready transport descriptor.  Produced once
/// per connect attempt; everything downstream reads only this.
#[derive(Debug, Clone)]
pub struct ConnectionOptions {
    pub host: String,
    pub port: u16,
    pub ssl: bool,
    pub path: String,
    pub credentials: Option<Credentials>,
    pub serializer: GraphSonVersion,
    pub deserializer: GraphSonVersion,
}

/// The mathematical shape of a transport descriptor.
pub struct OptionsView {
    pub host: Seq<char>,
    pub port: int,
    pub ssl: bool,
    pub path: Seq<char>,
    pub credentials: Option<(Seq<char>, Seq<char>)>,
    pub serializer: GraphSonVersion,
    pub deserializer: GraphSonVersion,
}

impl View for ConnectionOptions {
    type V = OptionsView;

    open spec fn view(&self) -> OptionsView {
        OptionsView {
            host: self.host@,
            port: self.port as int,
            ssl: self.ssl,
            path: self.path@,
            credentials: match self.credentials {
                Option::Some(c) => Option::Some((c.username@, c.password@)),
                Option::None => Option::None,
            },
            serializer: self.serializer,
            deserializer: self.deserializer,
        }
    }
}

/// The WebSocket URL a descriptor dials:
/// `{scheme}://{host}:{port}{path}` with scheme `wss` under TLS and
/// `ws` otherwise.
pub open spec fn spec_websocket_url(o: OptionsView) -> Seq<char> {
    (if o.ssl {
        "wss"@
    } else {
        "ws"@
    }) + "://"@ + o.host + ":"@ + dec_digits(o.port) + o.path
}

impl ConnectionOptions {
    pub fn websocket_url(&self) -> (r: String)
        ensures
            r@ == spec_websocket_url(self@),
    {
        let mut s = if self.ssl {
            String::from_str("wss")
        } else {
            String::from_str("ws")
        };
        s.append("://");
        s.append(self.host.as_str());
        s.append(":");
        push_u64_digits(&mut s, self.port as u64);
        s.append(self.path.as_str());
        proof {
            assert(s@ =~= spec_websocket_url(self@));
        }
        s
    }
}

/// A user-supplied connection configuration: exactly two backend
/// kinds.  `name` is for display only and never affects protocol
/// behavior.
#[derive(Debug, Clone, PartialEq, Eq)]
pub enum ConnectionConfig {
    /// A directly addressed graph server.
    Standard {
        name: String,
        host: String,
        port: u16,
        username: Option<String>,
        password: Option<String>,
        use_ssl: bool,
    },
    /// A managed multi-tenant endpoint; `database` and `container`
    /// select the logical graph and `key` is the master credential.
    Cosmos { name: String, endpoint: String, database: String, container: String, key: String },
}

impl ConnectionConfig {
    pub open spec fn spec_name(self) -> Seq<char> {
        match self {
            ConnectionConfig::Standard { name, .. } => name@,
            ConnectionConfig::Cosmos { name, .. } => name@,
        }
    }

    /// `host:port` for a standard server,
    /// `endpoint/database/container` for a managed endpoint.
    pub open spec fn spec_display_info(self) -> Seq<char> {
        match self {
            ConnectionConfig::Standard { host, port, .. } => host@ + ":"@ + dec_digits(
                port as int,
            ),
            ConnectionConfig::Cosmos { endpoint, database, container, .. } => endpoint@ + "/"@
                + database@ + "/"@ + container@,
        }
    }

    /// The transport descriptor this configuration derives:
    /// - a standard server passes host and port through, keeps the
    ///   default `/gremlin` path and current encoding, attaches
    ///   credentials only when both halves are present, and picks the
    ///   scheme from `use_ssl`;
    /// - a managed endpoint is fully pinned: port 443, TLS, path `/`,
    ///   version-2 encoding both ways, and a synthesized username
    ///   `/dbs/{database}/colls/{container}` paired with `key`.
    pub open spec fn spec_options(self) -> OptionsView {
        match self {
            ConnectionConfig::Standard { host, port, username, password, use_ssl, .. } => OptionsView {
                host: host@,
                port: port as int,
                ssl: use_ssl,
                path: "/gremlin"@,
                credentials: match (username, password) {
                    (Option::Some(u), Option::Some(p)) => Option::Some((u@, p@)),
                    _ => Option::None,
                },
                serializer: GraphSonVersion::V3,
                deserializer: GraphSonVersion::V3,
            },
            ConnectionConfig::Cosmos { endpoint, database, container, key, .. } => OptionsView {
                host: endpoint@,
                port: 443,
                ssl: true,
                path: "/"@,
                credentials: Option::Some(
                    ("/dbs/"@ + database@ + "/colls/"@ + container@, key@),
                ),
                serializer: GraphSonVersion::V2,
                deserializer: GraphSonVersion::V2,
            },
        }
    }

    /// The display name of the configuration.
    pub fn name(&self) -> (r: &str)
        ensures
            r@ == self.spec_name(),
    {
        match self {
            ConnectionConfig::Standard { name, .. } => name.as_str(),
            ConnectionConfig::Cosmos { name, .. } => name.as_str(),
        }
    }

    /// Pure string formatting for display and logging; no validation.
    pub fn display_info(&self) -> (r: String)
        ensures
            r@ == self.spec_display_info(),
    {
        match self {
            ConnectionConfig::Standard { host, port, .. } => {
                let mut s = host.clone();
                s.append(":");
                push_u64_digits(&mut s, *port as u64);
                proof {
                    assert(s@ =~= self.spec_display_info());
                }
                s
            },
            ConnectionConfig::Cosmos { endpoint, database, container, .. } => {
                let mut s = endpoint.clone();
                s.append("/");
                s.append(database.as_str());
                s.append("/");
                s.append(container.as_str());
                proof {
                    assert(s@ =~= self.spec_display_info());
                }
                s
            },
        }
    }

    /// Derives the transport descriptor.  No field is validated today,
    /// so every configuration builds; the `Result` stands in the
    /// signature so that validation can arrive without an interface
    /// change.
    pub fn to_connection_options(&self) -> (r: Result<ConnectionOptions, String>)
        ensures
            r is Ok,
            r->Ok_0@ == self.spec_options(),
    {
        match self {
            ConnectionConfig::Standard { host, port, username, password, use_ssl, .. } => {
                let credentials = match (username, password) {
                    (Option::Some(u), Option::Some(p)) => Option::Some(
                        Credentials { username: u.clone(), password: p.clone() },
                    ),
                    _ => Option::None,
                };
                Result::Ok(
                    ConnectionOptions {
                        host: host.clone(),
                        port: *port,
                        ssl: *use_ssl,
                        path: String::from_str("/gremlin"),
                        credentials,
                        serializer: GraphSonVersion::V3,
                        deserializer: GraphSonVersion::V3,
                    },
                )
            },
            ConnectionConfig::Cosmos { endpoint, database, container, key, .. } => {
                let mut username = String::from_str("/dbs/");
                username.append(database.as_str());
                username.append("/colls/");
                username.append(container.as_str());
                proof {
                    assert(username@ =~= "/dbs/"@ + database@ + "/colls/"@ + container@);
                }
                Result::Ok(
                    ConnectionOptions {
                        host: endpoint.clone(),
                        port: 443,
                        ssl: true,
                        path: String::from_str("/"),
                        credentials: Option::Some(
                            Credentials { username, password: key.clone() },
                        ),
                        serializer: GraphSonVersion::V2,
                        deserializer: GraphSonVersion::V2,
                    },
                )
            },
        }
    }
}

} // verus!
