//! The exchange between a registration attempt and whoever does its outside
//! work: the attempt asks for an [`Action`], the outcome comes back as an
//! [`Event`].

use crate::coordinates::{Coordinates, CoordinatesView};
use crate::error::{RegistrationError, RegistrationErrorView};
use crate::types::{
    AgentLabels, ConnectionType, Credentials, CredentialsView, PairingResponse,
    PairingResponseView, ProxyPullData, ProxyPullDataView, ServerCertificate,
    ServerCertificateView, StatusResponse, StatusResponseView, TrustedConnection,
    TrustedConnectionView,
};
use vstd::prelude::*;

verus! {

/// What came of the action that was pending.
#[derive(Debug, PartialEq, Eq)]
pub enum Event {
    /// A key pair and a signing request were generated.
    CsrCreated { csr: String, private_key: String },
    /// The server's live certificate was fetched and read.
    Certificate { certificate: ServerCertificate },
    /// The operator answered the certificate question with this line.
    Answer { line: String },
    /// The operator entered this password.
    Password { password: String },
    /// The receiver answered the pairing request.
    Paired { pairing_response: PairingResponse },
    /// The receiver answered a status query.
    Status { status_response: StatusResponse },
    /// The action was carried out and has nothing to hand back.
    Completed,
    /// The action could not be carried out.
    Failed { cause: String },
}

/// What an [`Event`] value stands for.
pub enum EventView {
    CsrCreated { csr: Seq<char>, private_key: Seq<char> },
    Certificate { certificate: ServerCertificateView },
    Answer { line: Seq<char> },
    Password { password: Seq<char> },
    Paired { pairing_response: PairingResponseView },
    Status { status_response: StatusResponseView },
    Completed,
    Failed { cause: Seq<char> },
}

impl View for Event {
    type V = EventView;

    open spec fn view(&self) -> EventView {
        match self {
            Event::CsrCreated { csr, private_key } => EventView::CsrCreated {
                csr: csr@,
                private_key: private_key@,
            },
            Event::Certificate { certificate } => EventView::Certificate {
                certificate: certificate@,
            },
            Event::Answer { line } => EventView::Answer { line: line@ },
            Event::Password { password } => EventView::Password { password: password@ },
            Event::Paired { pairing_response } => EventView::Paired {
                pairing_response: pairing_response@,
            },
            Event::Status { status_response } => EventView::Status {
                status_response: status_response@,
            },
            Event::Completed => EventView::Completed,
            Event::Failed { cause } => EventView::Failed { cause: cause@ },
        }
    }
}

/// The outside work a registration attempt asks for next.
#[derive(Debug, PartialEq, Eq)]
pub enum Action {
    /// Generate a key pair and a signing request for this identifier.
    /// Answered by [`Event::CsrCreated`].
    MakeCsr { id: String },
    /// Show this notice to the operator. Answered by [`Event::Completed`].
    Warn { text: String },
    /// Fetch the server's live certificate over an unauthenticated channel.
    /// Answered by [`Event::Certificate`].
    FetchCertificate { server: String, port: u16 },
    /// Show this text to the operator and read one line. Answered by
    /// [`Event::Answer`].
    ConfirmCertificate { prompt: String },
    /// Show this text to the operator and read a password without echo.
    /// Answered by [`Event::Password`].
    AskPassword { prompt: String },
    /// Exchange the signing request for signed certificates. Answered by
    /// [`Event::Paired`].
    Pair { url: String, trusted_root: Option<String>, csr: String, credentials: Credentials },
    /// Register under an explicit host name. Answered by
    /// [`Event::Completed`].
    RegisterWithHostName {
        url: String,
        root_cert: String,
        credentials: Credentials,
        uuid: u128,
        host_name: String,
    },
    /// Register with agent labels. Answered by [`Event::Completed`].
    RegisterWithAgentLabels {
        url: String,
        root_cert: String,
        credentials: Credentials,
        uuid: u128,
        agent_labels: AgentLabels,
    },
    /// Ask the receiver where the registration stands. Answered by
    /// [`Event::Status`].
    QueryStatus { url: String, connection: TrustedConnection },
    /// Show this text and let this many seconds pass. Answered by
    /// [`Event::Completed`].
    Wait { seconds: u64, text: String },
    /// Enter the connection into the registry and save the registry.
    /// Answered by [`Event::Completed`].
    Persist {
        connection_type: ConnectionType,
        coordinates: Coordinates,
        connection: TrustedConnection,
    },
    /// Write this record out as one line. Answered by [`Event::Completed`].
    Emit { record: ProxyPullData },
    /// The attempt succeeded; show this message, if any. Nothing follows.
    Finish { message: Option<String> },
    /// The attempt failed. Nothing follows.
    Abort { error: RegistrationError },
}

/// What an [`Action`] value stands for.
pub enum ActionView {
    MakeCsr { id: Seq<char> },
    Warn { text: Seq<char> },
    FetchCertificate { server: Seq<char>, port: u16 },
    ConfirmCertificate { prompt: Seq<char> },
    AskPassword { prompt: Seq<char> },
    Pair {
        url: Seq<char>,
        trusted_root: Option<Seq<char>>,
        csr: Seq<char>,
        credentials: CredentialsView,
    },
    RegisterWithHostName {
        url: Seq<char>,
        root_cert: Seq<char>,
        credentials: CredentialsView,
        uuid: u128,
        host_name: Seq<char>,
    },
    RegisterWithAgentLabels {
        url: Seq<char>,
        root_cert: Seq<char>,
        credentials: CredentialsView,
        uuid: u128,
        agent_labels: Map<String, String>,
    },
    QueryStatus { url: Seq<char>, connection: TrustedConnectionView },
    Wait { seconds: u64, text: Seq<char> },
    Persist {
        connection_type: ConnectionType,
        coordinates: CoordinatesView,
        connection: TrustedConnectionView,
    },
    Emit { record: ProxyPullDataView },
    Finish { message: Option<Seq<char>> },
    Abort { error: RegistrationErrorView },
}

impl View for Action {
    type V = ActionView;

    open spec fn view(&self) -> ActionView {
        match self {
            Action::MakeCsr { id } => ActionView::MakeCsr { id: id@ },
            Action::Warn { text } => ActionView::Warn { text: text@ },
            Action::FetchCertificate { server, port } => ActionView::FetchCertificate {
                server: server@,
                port: *port,
            },
            Action::ConfirmCertificate { prompt } => ActionView::ConfirmCertificate {
                prompt: prompt@,
            },
            Action::AskPassword { prompt } => ActionView::AskPassword { prompt: prompt@ },
            Action::Pair { url, trusted_root, csr, credentials } => ActionView::Pair {
                url: url@,
                trusted_root: trusted_root.deep_view(),
                csr: csr@,
                credentials: credentials@,
            },
            Action::RegisterWithHostName {
                url,
                root_cert,
                credentials,
                uuid,
                host_name,
            } => ActionView::RegisterWithHostName {
                url: url@,
                root_cert: root_cert@,
                credentials: credentials@,
                uuid: *uuid,
                host_name: host_name@,
            },
            Action::RegisterWithAgentLabels {
                url,
                root_cert,
                credentials,
                uuid,
                agent_labels,
            } => ActionView::RegisterWithAgentLabels {
                url: url@,
                root_cert: root_cert@,
                credentials: credentials@,
                uuid: *uuid,
                agent_labels: agent_labels@,
            },
            Action::QueryStatus { url, connection } => ActionView::QueryStatus {
                url: url@,
                connection: connection@,
            },
            Action::Wait { seconds, text } => ActionView::Wait { seconds: *seconds, text: text@ },
            Action::Persist { connection_type, coordinates, connection } => ActionView::Persist {
                connection_type: *connection_type,
                coordinates: coordinates@,
                connection: connection@,
            },
            Action::Emit { record } => ActionView::Emit { record: record@ },
            Action::Finish { message } => ActionView::Finish { message: message.deep_view() },
            Action::Abort { error } => ActionView::Abort { error: error@ },
        }
    }
}

impl ActionView {
    /// Whether the action ends the attempt.
    pub open spec fn is_final(self) -> bool {
        self is Finish || self is Abort
    }

    /// Whether the action serves to put the certificate question to the
    /// operator: fetching the certificate to show, or showing it and asking.
    pub open spec fn asks_about_certificate(self) -> bool {
        self is FetchCertificate || self is ConfirmCertificate
    }

    /// Whether the action asks the operator for anything.
    pub open spec fn prompts(self) -> bool {
        self.asks_about_certificate() || self is AskPassword
    }

    /// Whether the action is part of polling for approval.
    pub open spec fn polls(self) -> bool {
        self is QueryStatus || self is Wait
    }
}

impl Action {
    /// Whether the action ends the attempt.
    pub fn is_final(&self) -> (last: bool)
        ensures
            last == self@.is_final(),
    {
        match self {
            Action::Finish { .. } => true,
            Action::Abort { .. } => true,
            _ => false,
        }
    }
}

} // verus!
