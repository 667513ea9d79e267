//! The single-slot session state: at most one live client and the
//! configuration it was opened with.  The surrounding application owns
//! the lock; the decisions here are pure and verified.
use vstd::prelude::*;

use crate::config::ConnectionConfig;
use crate::strfmt::push_char;

verus! {

use vstd::string::StringExecFns;

/// The failures an operation on the session or a query can surface.
/// Each is a local, recoverable condition, reported as a message and
/// never retried here.
#[derive(Debug, PartialEq, Eq)]
pub enum ClientError {
    /// An operation that needs an active client found none installed.
    NotConnected,
    /// The transport could not establish a session; the field is the
    /// underlying description.
    ConnectionFailure(String),
    /// The protocol call that runs a query failed.
    QueryExecution(String),
    /// A single item of the result stream failed to decode; the whole
    /// collection is abandoned.
    ResultDecoding(String),
}

impl ClientError {
    pub open spec fn spec_message(self) -> Seq<char> {
        match self {
            ClientError::NotConnected => "Not connected to a database"@,
            ClientError::ConnectionFailure(e) => "Connection failed: "@ + e@,
            ClientError::QueryExecution(e) => "Query execution failed: "@ + e@,
            ClientError::ResultDecoding(e) => "Error reading result: "@ + e@,
        }
    }

    /// The descriptive message handed to the caller.
    pub fn message(&self) -> (r: String)
        ensures
            r@ == self.spec_message(),
    {
        match self {
            ClientError::NotConnected => String::from_str("Not connected to a database"),
            ClientError::ConnectionFailure(e) => {
                let mut s = String::from_str("Connection failed: ");
                s.append(e.as_str());
                s
            },
            ClientError::QueryExecution(e) => {
                let mut s = String::from_str("Query execution failed: ");
                s.append(e.as_str());
                s
            },
            ClientError::ResultDecoding(e) => {
                let mut s = String::from_str("Error reading result: ");
                s.append(e.as_str());
                s
            },
        }
    }
}

/// The exclusive single-slot holder of `(client, config)`.  `C` is the
/// transport client the application installs; nothing here touches it
/// beyond holding and handing out the reference.
pub struct ConnectionState<C> {
    pub client: Option<C>,
    pub config: Option<ConnectionConfig>,
}

impl<C> Default for ConnectionState<C> {
    /// The empty slot: no client, no configuration.
    fn default() -> (r: Self)
        ensures
            r.client is None,
            r.config is None,
    {
        ConnectionState { client: Option::None, config: Option::None }
    }
}

impl<C> ConnectionState<C> {
    /// Replaces the slot with a freshly opened client and the
    /// configuration it came from.
    pub fn install(&mut self, client: C, config: ConnectionConfig)
        ensures
            final(self).client == Option::Some(client),
            final(self).config == Option::Some(config),
    {
        self.client = Option::Some(client);
        self.config = Option::Some(config);
    }

    /// Clears the slot.  With no client installed nothing changes and
    /// the not-connected error is reported.
    pub fn disconnect(&mut self) -> (r: Result<(), ClientError>)
        ensures
            r is Ok <==> old(self).client is Some,
            r is Ok ==> final(self).client is None && final(self).config is None,
            r is Err ==> *final(self) == *old(self) && r->Err_0 == ClientError::NotConnected,
    {
        if self.client.is_none() {
            return Result::Err(ClientError::NotConnected);
        }
        self.client = Option::None;
        self.config = Option::None;
        Result::Ok(())
    }

    /// The configuration of the active connection, if any.
    pub fn current_config(&self) -> (r: &Option<ConnectionConfig>)
        ensures
            r == &self.config,
    {
        &self.config
    }

    /// The active client, or the not-connected error when none is
    /// installed.  This is the only gate to the transport: a caller
    /// that receives the error has made no transport call.
    pub fn active_client(&self) -> (r: Result<&C, ClientError>)
        ensures
            r is Ok <==> self.client is Some,
            r matches Result::Ok(c) ==> self.client == Option::Some(*c),
            r matches Result::Err(e) ==> e == ClientError::NotConnected,
    {
        match &self.client {
            Option::Some(c) => Result::Ok(c),
            Option::None => Result::Err(ClientError::NotConnected),
        }
    }
}

} // verus!
