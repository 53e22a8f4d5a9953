//! The records a registration attempt reads and produces.

use crate::coordinates::{Coordinates, CoordinatesView};
use std::collections::HashMap;
use vstd::prelude::*;

verus! {

/// Labels an agent supplies so that the receiver can name the host itself.
pub type AgentLabels = HashMap<String, String>;

/// The version this controller reports about itself.
pub const VERSION: &'static str = "0.1.0";

/// User name and password, used once, for the pairing request.
#[derive(Debug, PartialEq, Eq)]
pub struct Credentials {
    pub username: String,
    pub password: String,
}

/// What a [`Credentials`] value stands for.
pub struct CredentialsView {
    pub username: Seq<char>,
    pub password: Seq<char>,
}

impl View for Credentials {
    type V = CredentialsView;

    open spec fn view(&self) -> CredentialsView {
        CredentialsView { username: self.username@, password: self.password@ }
    }
}

impl Clone for Credentials {
    fn clone(&self) -> (copy: Self)
        ensures
            copy == *self,
    {
        Credentials { username: self.username.clone(), password: self.password.clone() }
    }
}

/// How the remote side wants an approved connection to operate. The receiver
/// alone decides this.
#[derive(Debug, Clone, Copy, PartialEq, Eq)]
pub enum ConnectionType {
    Push,
    Pull,
}

/// Where the receiver stands with a submitted registration.
#[derive(Debug, Clone, Copy, PartialEq, Eq)]
pub enum HostStatus {
    New,
    Pending,
    Declined,
    Ready,
    Discoverable,
}

/// Transport options, handed on to whoever performs the requests.
#[derive(Debug, Clone, Copy, PartialEq, Eq)]
pub struct ClientConfig {
    pub use_proxy: bool,
    pub validate_api_cert: bool,
}

/// What the caller configures for one registration attempt.
#[derive(Debug, PartialEq, Eq)]
pub struct RegistrationConnectionConfig {
    pub coordinates: Coordinates,
    pub username: String,
    pub password: Option<String>,
    pub root_certificate: Option<String>,
    pub trust_server_cert: bool,
    pub client_config: ClientConfig,
}

/// What a [`RegistrationConnectionConfig`] value stands for.
pub struct RegistrationConnectionConfigView {
    pub coordinates: CoordinatesView,
    pub username: Seq<char>,
    pub password: Option<Seq<char>>,
    pub root_certificate: Option<Seq<char>>,
    pub trust_server_cert: bool,
    pub client_config: ClientConfig,
}

impl View for RegistrationConnectionConfig {
    type V = RegistrationConnectionConfigView;

    open spec fn view(&self) -> RegistrationConnectionConfigView {
        RegistrationConnectionConfigView {
            coordinates: self.coordinates@,
            username: self.username@,
            password: self.password.deep_view(),
            root_certificate: self.root_certificate.deep_view(),
            trust_server_cert: self.trust_server_cert,
            client_config: self.client_config,
        }
    }
}

impl Clone for RegistrationConnectionConfig {
    fn clone(&self) -> (copy: Self)
        ensures
            copy == *self,
    {
        RegistrationConnectionConfig {
            coordinates: self.coordinates.clone(),
            username: self.username.clone(),
            password: clone_optional(&self.password),
            root_certificate: clone_optional(&self.root_certificate),
            trust_server_cert: self.trust_server_cert,
            client_config: self.client_config,
        }
    }
}

/// A copy of an optional text.
pub fn clone_optional(text: &Option<String>) -> (copy: Option<String>)
    ensures
        copy == *text,
{
    match text {
        Some(text) => Some(text.clone()),
        None => None,
    }
}

/// Configuration for registering under an explicit host name.
#[derive(Debug, PartialEq, Eq)]
pub struct RegistrationConfigHostName {
    pub connection_config: RegistrationConnectionConfig,
    pub host_name: String,
}

/// Configuration for registering with agent labels.
#[derive(Debug, PartialEq, Eq)]
pub struct RegistrationConfigAgentLabels {
    pub connection_config: RegistrationConnectionConfig,
    pub agent_labels: AgentLabels,
}

/// The certificates the receiver hands back for a signing request.
#[derive(Debug, PartialEq, Eq)]
pub struct PairingResponse {
    pub root_cert: String,
    pub client_cert: String,
}

/// What a [`PairingResponse`] value stands for.
pub struct PairingResponseView {
    pub root_cert: Seq<char>,
    pub client_cert: Seq<char>,
}

impl View for PairingResponse {
    type V = PairingResponseView;

    open spec fn view(&self) -> PairingResponseView {
        PairingResponseView { root_cert: self.root_cert@, client_cert: self.client_cert@ }
    }
}

/// The outcome of a successful pairing exchange: the identity generated for
/// this attempt together with the certificates the receiver issued for it.
#[derive(Debug, PartialEq, Eq)]
pub struct PairingResult {
    pub uuid: u128,
    pub private_key: String,
    pub pairing_response: PairingResponse,
}

/// What a [`PairingResult`] value stands for.
pub struct PairingResultView {
    pub uuid: u128,
    pub private_key: Seq<char>,
    pub pairing_response: PairingResponseView,
}

impl View for PairingResult {
    type V = PairingResultView;

    open spec fn view(&self) -> PairingResultView {
        PairingResultView {
            uuid: self.uuid,
            private_key: self.private_key@,
            pairing_response: self.pairing_response@,
        }
    }
}

/// The durable record of an established trust relationship.
#[derive(Debug, PartialEq, Eq)]
pub struct TrustedConnection {
    pub uuid: u128,
    pub private_key: String,
    pub certificate: String,
    pub root_cert: String,
}

/// What a [`TrustedConnection`] value stands for.
pub struct TrustedConnectionView {
    pub uuid: u128,
    pub private_key: Seq<char>,
    pub certificate: Seq<char>,
    pub root_cert: Seq<char>,
}

impl View for TrustedConnection {
    type V = TrustedConnectionView;

    open spec fn view(&self) -> TrustedConnectionView {
        TrustedConnectionView {
            uuid: self.uuid,
            private_key: self.private_key@,
            certificate: self.certificate@,
            root_cert: self.root_cert@,
        }
    }
}

impl Clone for TrustedConnection {
    fn clone(&self) -> (copy: Self)
        ensures
            copy == *self,
    {
        TrustedConnection {
            uuid: self.uuid,
            private_key: self.private_key.clone(),
            certificate: self.certificate.clone(),
            root_cert: self.root_cert.clone(),
        }
    }
}

impl PairingResultView {
    /// The trust record a pairing result turns into: identifier and private
    /// key as generated, certificates as issued.
    pub open spec fn connection(self) -> TrustedConnectionView {
        TrustedConnectionView {
            uuid: self.uuid,
            private_key: self.private_key,
            certificate: self.pairing_response.client_cert,
            root_cert: self.pairing_response.root_cert,
        }
    }
}

impl PairingResult {
    /// Turns the pairing result into the trust record to persist or emit.
    pub fn into_connection(self) -> (connection: TrustedConnection)
        ensures
            connection@ == self@.connection(),
    {
        TrustedConnection {
            uuid: self.uuid,
            private_key: self.private_key,
            certificate: self.pairing_response.client_cert,
            root_cert: self.pairing_response.root_cert,
        }
    }
}

/// What the receiver answers to a status query.
#[derive(Debug, PartialEq, Eq)]
pub struct StatusResponse {
    pub hostname: Option<String>,
    pub status: Option<HostStatus>,
    pub connection_type: Option<ConnectionType>,
    pub message: Option<String>,
}

/// What a [`StatusResponse`] value stands for.
pub struct StatusResponseView {
    pub hostname: Option<Seq<char>>,
    pub status: Option<HostStatus>,
    pub connection_type: Option<ConnectionType>,
    pub message: Option<Seq<char>>,
}

impl View for StatusResponse {
    type V = StatusResponseView;

    open spec fn view(&self) -> StatusResponseView {
        StatusResponseView {
            hostname: self.hostname.deep_view(),
            status: self.status,
            connection_type: self.connection_type,
            message: self.message.deep_view(),
        }
    }
}

/// The record a proxy registration hands back in place of persisting it.
#[derive(Debug, PartialEq, Eq)]
pub struct ProxyPullData {
    pub agent_controller_version: String,
    pub connection: TrustedConnection,
}

/// What a [`ProxyPullData`] value stands for.
pub struct ProxyPullDataView {
    pub agent_controller_version: Seq<char>,
    pub connection: TrustedConnectionView,
}

impl View for ProxyPullData {
    type V = ProxyPullDataView;

    open spec fn view(&self) -> ProxyPullDataView {
        ProxyPullDataView {
            agent_controller_version: self.agent_controller_version@,
            connection: self.connection@,
        }
    }
}

/// A server certificate as fetched for the operator to judge.
#[derive(Debug, PartialEq, Eq)]
pub struct ServerCertificate {
    pub pem: String,
    pub issuers: Vec<String>,
    pub subjects: Vec<String>,
    pub not_before: String,
    pub not_after: String,
}

/// What a [`ServerCertificate`] value stands for.
pub struct ServerCertificateView {
    pub pem: Seq<char>,
    pub issuers: Seq<Seq<char>>,
    pub subjects: Seq<Seq<char>>,
    pub not_before: Seq<char>,
    pub not_after: Seq<char>,
}

impl View for ServerCertificate {
    type V = ServerCertificateView;

    open spec fn view(&self) -> ServerCertificateView {
        ServerCertificateView {
            pem: self.pem@,
            issuers: self.issuers.deep_view(),
            subjects: self.subjects.deep_view(),
            not_before: self.not_before@,
            not_after: self.not_after@,
        }
    }
}

} // verus!
