use vstd::prelude::*;

use crate::credential::{encodings, Certificate, Identity, IdentityView};
use crate::error::Error;
use crate::handshake::{
    client_config, resolves, server_config, settle, HandshakeError, HandshakeStep, SessionConfig,
    TlsStream,
};

verus! {

/// Starts client handshakes. It holds no state, so one builder can serve
/// any number of independent connections.
#[derive(Debug)]
pub struct ClientBuilder(());

impl ClientBuilder {
    /// A client builder; nothing can make this fail.
    pub fn new() -> (r: Result<ClientBuilder, Error>)
        ensures
            r is Ok,
    {
        Ok(ClientBuilder(()))
    }

    /// The session the engine is to set up for a handshake with `domain`.
    pub fn configure(&self, domain: &str) -> (r: SessionConfig)
        ensures
            r@ == client_config(domain@),
    {
        SessionConfig::client(domain)
    }

    /// The first handshake attempt with `domain` over `stream`, given what
    /// the engine reported of it on the session that `configure` describes.
    pub fn handshake<S>(&mut self, domain: &str, stream: S, step: HandshakeStep) -> (r: Result<
        TlsStream<S>,
        HandshakeError<S>,
    >)
        ensures
            *final(self) == *old(self),
            resolves(r, client_config(domain@), stream, step),
    {
        settle(self.configure(domain), stream, step)
    }
}

/// Starts server handshakes with one identity and chain, kept for the
/// builder's whole life so that it can serve repeated connections.
#[derive(Debug)]
pub struct ServerBuilder {
    identity: Identity,
    chain: Vec<Certificate>,
}

impl ServerBuilder {
    pub closed spec fn spec_identity(&self) -> IdentityView {
        self.identity@
    }

    pub closed spec fn spec_chain(&self) -> Seq<Seq<u8>> {
        encodings(self.chain@)
    }

    /// A server builder that presents `identity` followed by `chain`.
    pub fn new(identity: Identity, chain: Vec<Certificate>) -> (r: Result<ServerBuilder, Error>)
        ensures
            r is Ok,
            r->Ok_0.spec_identity() == identity@,
            r->Ok_0.spec_chain() == encodings(chain@),
    {
        Ok(ServerBuilder { identity, chain })
    }

    /// The session the engine is to set up for each incoming connection.
    pub fn configure(&self) -> (r: SessionConfig)
        ensures
            r@ == server_config(self.spec_identity(), self.spec_chain()),
    {
        SessionConfig::server(&self.identity, &self.chain)
    }

    /// The first handshake attempt over `stream`, given what the engine
    /// reported of it on the session that `configure` describes.
    pub fn handshake<S>(&mut self, stream: S, step: HandshakeStep) -> (r: Result<
        TlsStream<S>,
        HandshakeError<S>,
    >)
        ensures
            final(self).spec_identity() == old(self).spec_identity(),
            final(self).spec_chain() == old(self).spec_chain(),
            resolves(r, server_config(old(self).spec_identity(), old(self).spec_chain()), stream, step),
    {
        settle(self.configure(), stream, step)
    }
}

} // verus!
