//! The upload exchange as a state machine.
//!
//! An exchange asks for one thing at a time: to connect, to send a frame, to receive
//! a number of bytes, to read the model file. Whoever drives it does what is asked
//! and reports how that went; the exchange then says what comes next. It never goes
//! back and never tries anything twice: the first thing that goes wrong ends it.

use vstd::prelude::*;
use vstd::string::*;
use crate::order::{ByteOrder, length_prefix, prefix_value, encode_length, decode_length};
use crate::text::{request_payload, reply_text, agreement, build_request, read_reply, is_agreement};
use crate::trust::{Anchor, TrustAnchorSet, TrustLoadError, loaded};

verus! {

/// The port that the server listens on.
pub const PORT: u16 = 8080;

/// The name that the server's certificate must be made out to, whatever address the
/// server is reached at.
pub const SERVER_NAME: &'static str = "as-http.angel-sunset.app";

/// A version of TLS.
#[derive(Clone, Copy, Debug, PartialEq, Eq, Structural)]
pub enum TlsVersion {
    Tls12,
    Tls13,
}

/// What can end an upload unsuccessfully.
#[derive(Clone, Copy, Debug, PartialEq, Eq, Structural)]
pub enum UploadError {
    /// The bundle of certificate authorities is broken or empty.
    TrustLoad,
    /// The host stands for no address.
    AddressResolution,
    /// No connection to the address.
    Connect,
    /// The server could not prove that it is the one expected, or no common ground
    /// for TLS was found.
    TlsHandshake,
    /// A frame was cut short, in either direction, or the reply was longer than allowed.
    Io,
    /// The model file could not be read. The server had agreed by then.
    FileAccess,
}

/// Why no secure channel came about.
#[derive(Clone, Copy, Debug, PartialEq, Eq, Structural)]
pub enum ConnectFault {
    AddressResolution,
    Connect,
    TlsHandshake,
}

/// The error that a failure to connect ends in.
pub open spec fn fault_error(fault: ConnectFault) -> UploadError {
    match fault {
        ConnectFault::AddressResolution => UploadError::AddressResolution,
        ConnectFault::Connect => UploadError::Connect,
        ConnectFault::TlsHandshake => UploadError::TlsHandshake,
    }
}

/// How an upload ended.
#[derive(Clone, Debug, PartialEq, Eq)]
pub enum UploadOutcome {
    /// The server agreed and has been sent the model.
    Sent,
    /// The server did not agree; this is its reply.
    Denied(String),
    Failed(UploadError),
}

/// An [`UploadOutcome`] in specifications.
pub enum OutcomeView {
    Sent,
    Denied(Seq<char>),
    Failed(UploadError),
}

impl View for UploadOutcome {
    type V = OutcomeView;

    open spec fn view(&self) -> OutcomeView {
        match self {
            UploadOutcome::Sent => OutcomeView::Sent,
            UploadOutcome::Denied(reason) => OutcomeView::Denied(reason@),
            UploadOutcome::Failed(error) => OutcomeView::Failed(*error),
        }
    }
}

impl UploadOutcome {
    /// A second copy of the outcome.
    pub fn duplicate(&self) -> (copy: UploadOutcome)
        ensures
            copy@ == self@,
    {
        match self {
            UploadOutcome::Sent => UploadOutcome::Sent,
            UploadOutcome::Denied(reason) => UploadOutcome::Denied(reason.clone()),
            UploadOutcome::Failed(error) => UploadOutcome::Failed(*error),
        }
    }
}

/// Where to connect and whom to expect there.
#[derive(Clone, Debug, PartialEq, Eq)]
pub struct ConnectionTarget {
    /// The address to reach, as the caller gave it.
    pub host: String,
    pub port: u16,
    /// The name to check the server's certificate against.
    pub server_name: String,
    /// The one version of TLS to offer.
    pub tls: TlsVersion,
}

/// A [`ConnectionTarget`] in specifications.
pub struct TargetView {
    pub host: Seq<char>,
    pub port: u16,
    pub server_name: Seq<char>,
    pub tls: TlsVersion,
}

impl View for ConnectionTarget {
    type V = TargetView;

    open spec fn view(&self) -> TargetView {
        TargetView {
            host: self.host@,
            port: self.port,
            server_name: self.server_name@,
            tls: self.tls,
        }
    }
}

/// The target for `host`: the fixed port, the fixed name, TLS 1.2 and nothing else.
pub open spec fn target_for(host: Seq<char>) -> TargetView {
    TargetView { host, port: PORT, server_name: SERVER_NAME@, tls: TlsVersion::Tls12 }
}

/// What an exchange asks its driver to do next.
#[derive(Debug)]
pub enum Action {
    /// Open a TLS connection to `target`, trusting `anchors` alone and showing no
    /// certificate of one's own.
    Connect { target: ConnectionTarget, anchors: TrustAnchorSet },
    /// Write `prefix`, then `payload`, both in full.
    SendFrame { prefix: Vec<u8>, payload: Vec<u8> },
    /// Read exactly `count` bytes.
    Receive { count: usize },
    /// Read the whole file at `path`.
    ReadFile { path: String },
    /// Nothing is left to do.
    Finish { outcome: UploadOutcome },
}

/// An [`Action`] in specifications.
pub enum ActionView {
    Connect { target: TargetView, anchors: Seq<Anchor> },
    SendFrame { prefix: Seq<u8>, payload: Seq<u8> },
    Receive { count: usize },
    ReadFile { path: Seq<char> },
    Finish { outcome: OutcomeView },
}

impl View for Action {
    type V = ActionView;

    open spec fn view(&self) -> ActionView {
        match self {
            Action::Connect { target, anchors } => ActionView::Connect {
                target: target@,
                anchors: anchors@,
            },
            Action::SendFrame { prefix, payload } => ActionView::SendFrame {
                prefix: prefix@,
                payload: payload@,
            },
            Action::Receive { count } => ActionView::Receive { count: *count },
            Action::ReadFile { path } => ActionView::ReadFile { path: path@ },
            Action::Finish { outcome } => ActionView::Finish { outcome: outcome@ },
        }
    }
}

/// How the last action went.
#[derive(Clone, Debug, PartialEq, Eq)]
pub enum Event {
    /// The connection stands.
    Connected,
    /// No connection, for this reason.
    Refused(ConnectFault),
    /// The frame went out whole.
    Written,
    /// These bytes came in.
    Received(Vec<u8>),
    /// The file holds these bytes.
    FileRead(Vec<u8>),
    /// The action failed.
    Failed,
}

/// An [`Event`] in specifications.
pub enum EventView {
    Connected,
    Refused(ConnectFault),
    Written,
    Received(Seq<u8>),
    FileRead(Seq<u8>),
    Failed,
}

impl View for Event {
    type V = EventView;

    open spec fn view(&self) -> EventView {
        match self {
            Event::Connected => EventView::Connected,
            Event::Refused(fault) => EventView::Refused(*fault),
            Event::Written => EventView::Written,
            Event::Received(bytes) => EventView::Received(bytes@),
            Event::FileRead(bytes) => EventView::FileRead(bytes@),
            Event::Failed => EventView::Failed,
        }
    }
}

/// How far an exchange has come.
#[derive(Clone, Debug, PartialEq, Eq)]
pub enum Phase {
    /// The connection is being opened.
    Connecting,
    /// The request is on its way out.
    Requesting,
    /// The reply is awaited: first its length, then, once `expecting` is known, that
    /// many bytes.
    AwaitingAuthorization { expecting: Option<usize> },
    /// The server has agreed. The file is being read and then, once `loaded`, sent.
    Uploading { loaded: bool },
    Done(UploadOutcome),
}

/// A [`Phase`] in specifications.
pub enum PhaseView {
    Connecting,
    Requesting,
    AwaitingAuthorization { expecting: Option<usize> },
    Uploading { loaded: bool },
    Done(OutcomeView),
}

impl View for Phase {
    type V = PhaseView;

    open spec fn view(&self) -> PhaseView {
        match self {
            Phase::Connecting => PhaseView::Connecting,
            Phase::Requesting => PhaseView::Requesting,
            Phase::AwaitingAuthorization { expecting } => PhaseView::AwaitingAuthorization {
                expecting: *expecting,
            },
            Phase::Uploading { loaded } => PhaseView::Uploading { loaded: *loaded },
            Phase::Done(outcome) => PhaseView::Done(outcome@),
        }
    }
}

/// One upload under way.
#[derive(Clone, Debug, PartialEq, Eq)]
pub struct Exchange {
    pub phase: Phase,
    /// The byte order of every length on this connection.
    pub order: ByteOrder,
    /// The longest reply that is taken from the server.
    pub reply_limit: u64,
    pub file_path: String,
    pub auth_token: String,
}

/// An [`Exchange`] in specifications.
pub struct ExchangeView {
    pub phase: PhaseView,
    pub order: ByteOrder,
    pub reply_limit: u64,
    pub file_path: Seq<char>,
    pub auth_token: Seq<char>,
}

impl View for Exchange {
    type V = ExchangeView;

    open spec fn view(&self) -> ExchangeView {
        ExchangeView {
            phase: self.phase@,
            order: self.order,
            reply_limit: self.reply_limit,
            file_path: self.file_path@,
            auth_token: self.auth_token@,
        }
    }
}

/// The exchange `state` in another phase.
pub open spec fn moved(state: ExchangeView, phase: PhaseView) -> ExchangeView {
    ExchangeView { phase, ..state }
}

/// The exchange `state` brought to its end.
pub open spec fn ended(state: ExchangeView, outcome: OutcomeView) -> (ExchangeView, ActionView) {
    (moved(state, PhaseView::Done(outcome)), ActionView::Finish { outcome })
}

/// The frame that carries `payload`, as the action that sends it.
pub open spec fn sending(order: ByteOrder, payload: Seq<u8>) -> ActionView {
    ActionView::SendFrame { prefix: length_prefix(order, payload.len() as u64), payload }
}

/// Whether an exchange in `state` takes a reply of the length that `header` announces.
pub open spec fn admits(state: ExchangeView, header: Seq<u8>) -> bool {
    &&& header.len() == 8
    &&& prefix_value(state.order, header) <= state.reply_limit
    &&& prefix_value(state.order, header) <= usize::MAX
}

/// The rules of the exchange: where `state` goes on `event`, and what is to be done
/// next.
///
/// An event that does not answer the pending action counts as that action having
/// failed.
pub open spec fn after(state: ExchangeView, event: EventView) -> (ExchangeView, ActionView) {
    match state.phase {
        PhaseView::Connecting => match event {
            EventView::Connected => (
                moved(state, PhaseView::Requesting),
                sending(state.order, request_payload(state.auth_token)),
            ),
            EventView::Refused(fault) => ended(state, OutcomeView::Failed(fault_error(fault))),
            _ => ended(state, OutcomeView::Failed(UploadError::Connect)),
        },
        PhaseView::Requesting => match event {
            EventView::Written => (
                moved(state, PhaseView::AwaitingAuthorization { expecting: None }),
                ActionView::Receive { count: 8 },
            ),
            _ => ended(state, OutcomeView::Failed(UploadError::Io)),
        },
        PhaseView::AwaitingAuthorization { expecting: None } => match event {
            EventView::Received(header) if admits(state, header) => {
                let count = prefix_value(state.order, header) as usize;
                (
                    moved(state, PhaseView::AwaitingAuthorization { expecting: Some(count) }),
                    ActionView::Receive { count },
                )
            },
            _ => ended(state, OutcomeView::Failed(UploadError::Io)),
        },
        PhaseView::AwaitingAuthorization { expecting: Some(count) } => match event {
            EventView::Received(reply) if reply.len() == count => {
                if reply_text(reply) == agreement() {
                    (
                        moved(state, PhaseView::Uploading { loaded: false }),
                        ActionView::ReadFile { path: state.file_path },
                    )
                } else {
                    ended(state, OutcomeView::Denied(reply_text(reply)))
                }
            },
            _ => ended(state, OutcomeView::Failed(UploadError::Io)),
        },
        PhaseView::Uploading { loaded: false } => match event {
            EventView::FileRead(model) => (
                moved(state, PhaseView::Uploading { loaded: true }),
                sending(state.order, model),
            ),
            _ => ended(state, OutcomeView::Failed(UploadError::FileAccess)),
        },
        PhaseView::Uploading { loaded: true } => match event {
            EventView::Written => ended(state, OutcomeView::Sent),
            _ => ended(state, OutcomeView::Failed(UploadError::Io)),
        },
        PhaseView::Done(outcome) => ended(state, outcome),
    }
}

/// A load of trust anchors, as specifications see it.
pub open spec fn trust_view(trust: Result<TrustAnchorSet, TrustLoadError>) -> Result<
    Seq<Anchor>,
    TrustLoadError,
> {
    match trust {
        Ok(anchors) => Ok(anchors@),
        Err(error) => Err(error),
    }
}

/// How an exchange starts, given what loading the trust anchors came to: with the
/// order to connect, or at its end already where there is nothing to trust.
pub open spec fn opening(
    trust: Result<Seq<Anchor>, TrustLoadError>,
    host: Seq<char>,
    file_path: Seq<char>,
    auth_token: Seq<char>,
    order: ByteOrder,
    reply_limit: u64,
) -> (ExchangeView, ActionView) {
    let state = ExchangeView {
        phase: PhaseView::Connecting,
        order,
        reply_limit,
        file_path,
        auth_token,
    };
    match trust {
        Ok(anchors) => (state, ActionView::Connect { target: target_for(host), anchors }),
        Err(_) => ended(state, OutcomeView::Failed(UploadError::TrustLoad)),
    }
}

/// The error that a failure to connect ends in.
pub fn classify(fault: ConnectFault) -> (error: UploadError)
    ensures
        error == fault_error(fault),
{
    match fault {
        ConnectFault::AddressResolution => UploadError::AddressResolution,
        ConnectFault::Connect => UploadError::Connect,
        ConnectFault::TlsHandshake => UploadError::TlsHandshake,
    }
}

impl Exchange {
    /// Starts an upload of the file at `file_path` to `host`.
    ///
    /// The trust anchors are read from `bundle` first. Lengths on the connection are
    /// written and read in `order`, and a reply that announces more than
    /// `reply_limit` bytes is not waited for.
    pub fn begin(
        bundle: &[u8],
        host: &str,
        file_path: &str,
        auth_token: &str,
        order: ByteOrder,
        reply_limit: u64,
    ) -> (start: (Exchange, Action))
        ensures
            (start.0@, start.1@) == opening(
                loaded(bundle@),
                host@,
                file_path@,
                auth_token@,
                order,
                reply_limit,
            ),
    {
        let trust = TrustAnchorSet::load(bundle);
        Exchange::begin_with(trust, host, file_path, auth_token, order, reply_limit)
    }

    /// Starts an upload with trust anchors that were loaded beforehand, or failed to.
    pub fn begin_with(
        trust: Result<TrustAnchorSet, TrustLoadError>,
        host: &str,
        file_path: &str,
        auth_token: &str,
        order: ByteOrder,
        reply_limit: u64,
    ) -> (start: (Exchange, Action))
        ensures
            (start.0@, start.1@) == opening(
                trust_view(trust),
                host@,
                file_path@,
                auth_token@,
                order,
                reply_limit,
            ),
    {
        let mut exchange = Exchange {
            phase: Phase::Connecting,
            order,
            reply_limit,
            file_path: String::from_str(file_path),
            auth_token: String::from_str(auth_token),
        };
        match trust {
            Ok(anchors) => {
                let target = ConnectionTarget {
                    host: String::from_str(host),
                    port: PORT,
                    server_name: String::from_str(SERVER_NAME),
                    tls: TlsVersion::Tls12,
                };
                (exchange, Action::Connect { target, anchors })
            },
            Err(_) => {
                exchange.phase = Phase::Done(UploadOutcome::Failed(UploadError::TrustLoad));
                (exchange, Action::Finish { outcome: UploadOutcome::Failed(UploadError::TrustLoad) })
            },
        }
    }

    /// Takes in how the pending action went and says what to do next.
    pub fn step(&mut self, event: Event) -> (action: Action)
        ensures
            (final(self)@, action@) == after(old(self)@, event@),
    {
        let (phase, action) = self.decide(event);
        self.phase = phase;
        action
    }

    /// The outcome, once the exchange has ended.
    pub fn outcome(&self) -> (outcome: Option<UploadOutcome>)
        ensures
            match self@.phase {
                PhaseView::Done(o) => outcome matches Some(found) && found@ == o,
                _ => outcome is None,
            },
    {
        match &self.phase {
            Phase::Done(outcome) => Some(outcome.duplicate()),
            _ => None,
        }
    }

    fn decide(&self, event: Event) -> (next: (Phase, Action))
        ensures
            (moved(self@, next.0@), next.1@) == after(self@, event@),
    {
        match &self.phase {
            Phase::Connecting => match event {
                Event::Connected => {
                    let payload = build_request(self.auth_token.as_str());
                    (Phase::Requesting, frame_action(self.order, payload))
                },
                Event::Refused(fault) => finish(UploadOutcome::Failed(classify(fault))),
                _ => finish(UploadOutcome::Failed(UploadError::Connect)),
            },
            Phase::Requesting => match event {
                Event::Written => (
                    Phase::AwaitingAuthorization { expecting: None },
                    Action::Receive { count: 8 },
                ),
                _ => finish(UploadOutcome::Failed(UploadError::Io)),
            },
            Phase::AwaitingAuthorization { expecting: None } => match event {
                Event::Received(header) => {
                    match decode_length(self.order, header.as_slice()) {
                        Some(length) => {
                            if length <= self.reply_limit && length <= usize::MAX as u64 {
                                let count: usize = length as usize;
                                (
                                    Phase::AwaitingAuthorization { expecting: Some(count) },
                                    Action::Receive { count },
                                )
                            } else {
                                finish(UploadOutcome::Failed(UploadError::Io))
                            }
                        },
                        None => finish(UploadOutcome::Failed(UploadError::Io)),
                    }
                },
                _ => finish(UploadOutcome::Failed(UploadError::Io)),
            },
            Phase::AwaitingAuthorization { expecting: Some(count) } => match event {
                Event::Received(reply) => {
                    if reply.len() == *count {
                        let text = read_reply(reply.as_slice());
                        if is_agreement(&text) {
                            (
                                Phase::Uploading { loaded: false },
                                Action::ReadFile { path: self.file_path.clone() },
                            )
                        } else {
                            finish(UploadOutcome::Denied(text))
                        }
                    } else {
                        finish(UploadOutcome::Failed(UploadError::Io))
                    }
                },
                _ => finish(UploadOutcome::Failed(UploadError::Io)),
            },
            Phase::Uploading { loaded: false } => match event {
                Event::FileRead(model) => (
                    Phase::Uploading { loaded: true },
                    frame_action(self.order, model),
                ),
                _ => finish(UploadOutcome::Failed(UploadError::FileAccess)),
            },
            Phase::Uploading { loaded: true } => match event {
                Event::Written => finish(UploadOutcome::Sent),
                _ => finish(UploadOutcome::Failed(UploadError::Io)),
            },
            Phase::Done(outcome) => finish(outcome.duplicate()),
        }
    }
}

fn finish(outcome: UploadOutcome) -> (end: (Phase, Action))
    ensures
        end.0@ == PhaseView::Done(outcome@),
        end.1@ == (ActionView::Finish { outcome: outcome@ }),
{
    let copy = outcome.duplicate();
    (Phase::Done(outcome), Action::Finish { outcome: copy })
}

fn frame_action(order: ByteOrder, payload: Vec<u8>) -> (action: Action)
    ensures
        action@ == sending(order, payload@),
{
    let prefix = encode_length(order, payload.len() as u64);
    Action::SendFrame { prefix, payload }
}

} // verus!
