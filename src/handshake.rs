use vstd::prelude::*;

use crate::credential::{duplicate_all, encodings, Certificate, Identity, IdentityView};
use crate::error::Error;

verus! {

/// Which side of the connection a session plays.
#[derive(PartialEq, Eq, Structural, Clone, Copy, Debug)]
pub enum Role {
    Client,
    Server,
}

/// How the engine session is set up before its first handshake attempt.
#[derive(Debug)]
pub struct SessionConfig {
    role: Role,
    peer_domain: Option<String>,
    identity: Option<Identity>,
    chain: Vec<Certificate>,
}

/// What a session configuration is, as values.
pub struct SessionConfigView {
    pub role: Role,
    pub peer_domain: Option<Seq<char>>,
    pub identity: Option<IdentityView>,
    pub chain: Seq<Seq<u8>>,
}

impl View for SessionConfig {
    type V = SessionConfigView;

    closed spec fn view(&self) -> SessionConfigView {
        SessionConfigView {
            role: self.role,
            peer_domain: match &self.peer_domain {
                Some(d) => Some(d@),
                None => None,
            },
            identity: match &self.identity {
                Some(i) => Some(i@),
                None => None,
            },
            chain: encodings(self.chain@),
        }
    }
}

/// A client session that verifies the peer's certificate against `domain`.
pub open spec fn client_config(domain: Seq<char>) -> SessionConfigView {
    SessionConfigView {
        role: Role::Client,
        peer_domain: Some(domain),
        identity: None,
        chain: Seq::empty(),
    }
}

/// A server session that presents `identity` followed by `chain`.
pub open spec fn server_config(identity: IdentityView, chain: Seq<Seq<u8>>) -> SessionConfigView {
    SessionConfigView { role: Role::Server, peer_domain: None, identity: Some(identity), chain }
}

impl SessionConfig {
    /// A client session that verifies the peer against `domain`.
    pub fn client(domain: &str) -> (r: SessionConfig)
        ensures
            r@ == client_config(domain@),
    {
        let r = SessionConfig {
            role: Role::Client,
            peer_domain: Some(domain.to_owned()),
            identity: None,
            chain: Vec::new(),
        };
        assert(r@.chain =~= Seq::<Seq<u8>>::empty());
        r
    }

    /// A server session that presents `identity` followed by `chain`.
    pub fn server(identity: &Identity, chain: &Vec<Certificate>) -> (r: SessionConfig)
        ensures
            r@ == server_config(identity@, encodings(chain@)),
    {
        SessionConfig {
            role: Role::Server,
            peer_domain: None,
            identity: Some(identity.duplicate()),
            chain: duplicate_all(chain),
        }
    }

    /// The side this session plays.
    pub fn role(&self) -> (r: Role)
        ensures
            r == self@.role,
    {
        self.role
    }

    /// The name the peer's certificate is verified against, for a client.
    pub fn peer_domain(&self) -> (r: Option<&str>)
        ensures
            r is Some <==> self@.peer_domain is Some,
            r is Some ==> r->Some_0@ == self@.peer_domain->Some_0,
    {
        match &self.peer_domain {
            Some(d) => Some(d.as_str()),
            None => None,
        }
    }

    /// The identity presented to the peer, for a server.
    pub fn identity(&self) -> (r: Option<&Identity>)
        ensures
            r is Some <==> self@.identity is Some,
            r is Some ==> r->Some_0@ == self@.identity->Some_0,
    {
        match &self.identity {
            Some(i) => Some(i),
            None => None,
        }
    }

    /// The certificates presented after the identity's own.
    pub fn chain(&self) -> (r: &Vec<Certificate>)
        ensures
            encodings(r@) == self@.chain,
    {
        &self.chain
    }
}

/// What the engine reported after one attempt to advance a handshake.
#[derive(Debug)]
pub enum HandshakeStep {
    /// Negotiation finished and the peer was verified.
    Complete,
    /// The transport could not supply or accept bytes right now.
    WouldBlock,
    /// A protocol violation, a verification failure or an engine fault.
    Failed(Error),
}

/// A handshake that did not complete: suspended, or failed for good.
#[derive(Debug)]
pub enum HandshakeError<S> {
    Interrupted(MidHandshakeTlsStream<S>),
    Failure(Error),
}

/// A suspended handshake. It owns the transport and the session, and can
/// only be resumed, by `handshake`.
#[derive(Debug)]
pub struct MidHandshakeTlsStream<S> {
    config: SessionConfig,
    stream: S,
}

/// An established secure channel over the transport `S`.
#[derive(Debug)]
pub struct TlsStream<S> {
    config: SessionConfig,
    stream: S,
}

impl<S> MidHandshakeTlsStream<S> {
    pub closed spec fn spec_config(&self) -> SessionConfigView {
        self.config@
    }

    pub closed spec fn spec_stream(&self) -> S {
        self.stream
    }

    /// The underlying transport, for inspection.
    pub fn get_ref(&self) -> (r: &S)
        ensures
            *r == self.spec_stream(),
    {
        &self.stream
    }

    /// The underlying transport, for inspection or adjustment.
    pub fn get_mut(&mut self) -> (r: &mut S)
        ensures
            *r == old(self).spec_stream(),
            final(self).spec_stream() == *final(r),
            final(self).spec_config() == old(self).spec_config(),
    {
        &mut self.stream
    }

    /// The configuration of the suspended session.
    pub fn config(&self) -> (r: &SessionConfig)
        ensures
            r@ == self.spec_config(),
    {
        &self.config
    }

    /// Resumes the handshake, given what the engine reported of the next
    /// attempt on this session.
    pub fn handshake(self, step: HandshakeStep) -> (r: Result<TlsStream<S>, HandshakeError<S>>)
        ensures
            resolves(r, self.spec_config(), self.spec_stream(), step),
    {
        settle(self.config, self.stream, step)
    }
}

impl<S> TlsStream<S> {
    pub closed spec fn spec_config(&self) -> SessionConfigView {
        self.config@
    }

    pub closed spec fn spec_stream(&self) -> S {
        self.stream
    }

    /// The underlying transport.
    pub fn get_ref(&self) -> (r: &S)
        ensures
            *r == self.spec_stream(),
    {
        &self.stream
    }

    /// The underlying transport, mutably.
    pub fn get_mut(&mut self) -> (r: &mut S)
        ensures
            *r == old(self).spec_stream(),
            final(self).spec_stream() == *final(r),
            final(self).spec_config() == old(self).spec_config(),
    {
        &mut self.stream
    }

    /// The configuration of the established session.
    pub fn config(&self) -> (r: &SessionConfig)
        ensures
            r@ == self.spec_config(),
    {
        &self.config
    }

    /// The number of bytes already decrypted and not yet handed to the
    /// caller, given the engine's answer to that query on this session: a
    /// count is passed on, and a failure of the query comes back as it is.
    pub fn buffered_read_size(&self, report: Result<usize, Error>) -> (r: Result<usize, Error>)
        ensures
            r == report,
    {
        match report {
            Ok(n) => Ok(n),
            Err(e) => Err(e),
        }
    }
}

/// `r` is what one handshake attempt on a session set up as `config` over
/// `stream` gives when the engine reports `step`: an established stream, a
/// suspended handshake that holds the same session and transport, or the
/// engine's error, unchanged.
pub open spec fn resolves<S>(
    r: Result<TlsStream<S>, HandshakeError<S>>,
    config: SessionConfigView,
    stream: S,
    step: HandshakeStep,
) -> bool {
    match step {
        HandshakeStep::Complete => {
            &&& r is Ok
            &&& r->Ok_0.spec_config() == config
            &&& r->Ok_0.spec_stream() == stream
        },
        HandshakeStep::WouldBlock => {
            &&& r is Err
            &&& r->Err_0 is Interrupted
            &&& r->Err_0->Interrupted_0.spec_config() == config
            &&& r->Err_0->Interrupted_0.spec_stream() == stream
        },
        HandshakeStep::Failed(e) => r == Err::<TlsStream<S>, HandshakeError<S>>(
            HandshakeError::Failure(e),
        ),
    }
}

/// Turns the engine's report of one attempt into the attempt's result.
pub fn settle<S>(config: SessionConfig, stream: S, step: HandshakeStep) -> (r: Result<
    TlsStream<S>,
    HandshakeError<S>,
>)
    ensures
        resolves(r, config@, stream, step),
{
    match step {
        HandshakeStep::Complete => Ok(TlsStream { config, stream }),
        HandshakeStep::WouldBlock => Err(
            HandshakeError::Interrupted(MidHandshakeTlsStream { config, stream }),
        ),
        HandshakeStep::Failed(e) => Err(HandshakeError::Failure(e)),
    }
}

/// The suspended handshake inside an interrupted attempt's result.
pub open spec fn suspended<S>(r: Result<TlsStream<S>, HandshakeError<S>>) -> MidHandshakeTlsStream<S> {
    r->Err_0->Interrupted_0
}

/// `r` is what resuming the suspended handshake in `prev` gives when the
/// engine reports `step`.
pub open spec fn resumes<S>(
    prev: Result<TlsStream<S>, HandshakeError<S>>,
    r: Result<TlsStream<S>, HandshakeError<S>>,
    step: HandshakeStep,
) -> bool {
    resolves(r, suspended(prev).spec_config(), suspended(prev).spec_stream(), step)
}

/// An attempt that the transport never holds up completes at once: the
/// established stream runs the session as configured, over the transport
/// that was handed in.
pub proof fn lemma_unblocked_attempt_completes<S>(
    r: Result<TlsStream<S>, HandshakeError<S>>,
    config: SessionConfigView,
    stream: S,
)
    requires
        resolves(r, config, stream, HandshakeStep::Complete),
    ensures
        r is Ok,
        r->Ok_0.spec_config() == config,
        r->Ok_0.spec_stream() == stream,
{
}

/// After an interruption the transport is held by the suspended handshake,
/// and by nothing else that the attempt returned; the session waits there
/// unchanged.
pub proof fn lemma_interrupted_attempt_holds_transport<S>(
    r: Result<TlsStream<S>, HandshakeError<S>>,
    config: SessionConfigView,
    stream: S,
)
    requires
        resolves(r, config, stream, HandshakeStep::WouldBlock),
    ensures
        r is Err,
        r->Err_0 is Interrupted,
        suspended(r).spec_stream() == stream,
        suspended(r).spec_config() == config,
{
}

/// Interruptions are transparent: a first attempt and any number of
/// resumptions, all held up by the transport but the last, end exactly as a
/// single attempt with the last outcome would, on the same session and the
/// same transport.
pub proof fn lemma_interruptions_are_transparent<S>(
    config: SessionConfigView,
    stream: S,
    attempts: Seq<Result<TlsStream<S>, HandshakeError<S>>>,
    last: HandshakeStep,
)
    requires
        attempts.len() >= 2,
        resolves(attempts[0], config, stream, HandshakeStep::WouldBlock),
        forall|i: int|
            0 < i < attempts.len() - 1 ==> resumes(
                attempts[i - 1],
                #[trigger] attempts[i],
                HandshakeStep::WouldBlock,
            ),
        resumes(attempts[attempts.len() - 2], attempts[attempts.len() - 1], last),
    ensures
        resolves(attempts[attempts.len() - 1], config, stream, last),
{
    lemma_suspensions_keep_session(config, stream, attempts, attempts.len() - 2);
}

proof fn lemma_suspensions_keep_session<S>(
    config: SessionConfigView,
    stream: S,
    attempts: Seq<Result<TlsStream<S>, HandshakeError<S>>>,
    k: int,
)
    requires
        0 <= k < attempts.len() - 1,
        resolves(attempts[0], config, stream, HandshakeStep::WouldBlock),
        forall|i: int|
            0 < i < attempts.len() - 1 ==> resumes(
                attempts[i - 1],
                #[trigger] attempts[i],
                HandshakeStep::WouldBlock,
            ),
    ensures
        suspended(attempts[k]).spec_config() == config,
        suspended(attempts[k]).spec_stream() == stream,
    decreases k,
{
    if k > 0 {
        lemma_suspensions_keep_session(config, stream, attempts, k - 1);
        assert(resumes(attempts[k - 1], attempts[k], HandshakeStep::WouldBlock));
    }
}

} // verus!
