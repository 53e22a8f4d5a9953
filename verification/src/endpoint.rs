//! The two ways of submitting a registration: under an explicit host name, or
//! with agent labels from which the receiver names the host.

use crate::coordinates::{Coordinates, CoordinatesView};
use crate::error::{RegistrationError, RegistrationErrorView};
use crate::protocol::{Action, ActionView};
use crate::types::{
    AgentLabels, Credentials, CredentialsView, PairingResult, PairingResultView,
    RegistrationConnectionConfig, RegistrationConnectionConfigView,
};
use vstd::prelude::*;

verus! {

/// Registers under the host name the caller supplies.
#[derive(Debug, PartialEq, Eq)]
pub struct HostNameRegistration {
    pub host_name: String,
}

/// Registers with the labels the caller supplies.
#[derive(Debug, PartialEq, Eq)]
pub struct AgentLabelsRegistration {
    pub agent_labels: AgentLabels,
}

/// The way a registration is submitted.
#[derive(Debug, PartialEq, Eq)]
pub enum RegistrationEndpointCall {
    HostName(HostNameRegistration),
    AgentLabels(AgentLabelsRegistration),
}

/// What a way of submitting a registration stands for.
pub enum EndpointView {
    HostName { host_name: Seq<char> },
    AgentLabels { agent_labels: Map<String, String> },
}

impl EndpointView {
    /// The registration request: it goes to the configured coordinates, is
    /// authenticated with the root certificate that pairing returned (not a
    /// pinned one), and carries the paired identifier and the payload.
    pub open spec fn request(
        self,
        config: RegistrationConnectionConfigView,
        credentials: CredentialsView,
        pairing_result: PairingResultView,
    ) -> ActionView {
        match self {
            EndpointView::HostName { host_name } => ActionView::RegisterWithHostName {
                url: config.coordinates.url(),
                root_cert: pairing_result.pairing_response.root_cert,
                credentials,
                uuid: pairing_result.uuid,
                host_name,
            },
            EndpointView::AgentLabels { agent_labels } => ActionView::RegisterWithAgentLabels {
                url: config.coordinates.url(),
                root_cert: pairing_result.pairing_response.root_cert,
                credentials,
                uuid: pairing_result.uuid,
                agent_labels,
            },
        }
    }

    /// The failure to report when the request fails: it names the variant
    /// and the coordinates.
    pub open spec fn failure(
        self,
        coordinates: CoordinatesView,
        cause: Seq<char>,
    ) -> RegistrationErrorView {
        match self {
            EndpointView::HostName { .. } => RegistrationErrorView::RegisteringHostName {
                coordinates,
                cause,
            },
            EndpointView::AgentLabels { .. } => RegistrationErrorView::RegisteringAgentLabels {
                coordinates,
                cause,
            },
        }
    }

    /// What the operator is told once the registration is complete.
    pub open spec fn completion(self) -> Seq<char> {
        match self {
            EndpointView::HostName { .. } => "Registration complete."@,
            EndpointView::AgentLabels {
                ..
            } => "Registration complete. It may take few minutes until the newly created host and its services are visible in the site."@,
        }
    }
}

impl View for HostNameRegistration {
    type V = EndpointView;

    open spec fn view(&self) -> EndpointView {
        EndpointView::HostName { host_name: self.host_name@ }
    }
}

impl View for AgentLabelsRegistration {
    type V = EndpointView;

    open spec fn view(&self) -> EndpointView {
        EndpointView::AgentLabels { agent_labels: self.agent_labels@ }
    }
}

impl View for RegistrationEndpointCall {
    type V = EndpointView;

    open spec fn view(&self) -> EndpointView {
        match self {
            RegistrationEndpointCall::HostName(by_name) => by_name@,
            RegistrationEndpointCall::AgentLabels(by_labels) => by_labels@,
        }
    }
}

impl HostNameRegistration {
    /// Builds the registration request for this host name.
    pub fn call(
        &self,
        config: &RegistrationConnectionConfig,
        credentials: &Credentials,
        pairing_result: &PairingResult,
    ) -> (request: Action)
        ensures
            request@ == self@.request(config@, credentials@, pairing_result@),
    {
        Action::RegisterWithHostName {
            url: config.coordinates.to_url(),
            root_cert: pairing_result.pairing_response.root_cert.clone(),
            credentials: credentials.clone(),
            uuid: pairing_result.uuid,
            host_name: self.host_name.clone(),
        }
    }

    /// The failure to report when the request fails.
    pub fn failure(&self, coordinates: &Coordinates, cause: String) -> (error: RegistrationError)
        ensures
            error@ == self@.failure(coordinates@, cause@),
    {
        RegistrationError::RegisteringHostName { coordinates: coordinates.clone(), cause }
    }
}

impl AgentLabelsRegistration {
    /// Builds the registration request for these labels.
    pub fn call(
        &self,
        config: &RegistrationConnectionConfig,
        credentials: &Credentials,
        pairing_result: &PairingResult,
    ) -> (request: Action)
        ensures
            request@ == self@.request(config@, credentials@, pairing_result@),
    {
        Action::RegisterWithAgentLabels {
            url: config.coordinates.to_url(),
            root_cert: pairing_result.pairing_response.root_cert.clone(),
            credentials: credentials.clone(),
            uuid: pairing_result.uuid,
            agent_labels: self.agent_labels.clone(),
        }
    }

    /// The failure to report when the request fails.
    pub fn failure(&self, coordinates: &Coordinates, cause: String) -> (error: RegistrationError)
        ensures
            error@ == self@.failure(coordinates@, cause@),
    {
        RegistrationError::RegisteringAgentLabels { coordinates: coordinates.clone(), cause }
    }
}

impl RegistrationEndpointCall {
    /// Builds the registration request of the chosen variant.
    pub fn call(
        &self,
        config: &RegistrationConnectionConfig,
        credentials: &Credentials,
        pairing_result: &PairingResult,
    ) -> (request: Action)
        ensures
            request@ == self@.request(config@, credentials@, pairing_result@),
    {
        match self {
            RegistrationEndpointCall::HostName(by_name) => by_name.call(
                config,
                credentials,
                pairing_result,
            ),
            RegistrationEndpointCall::AgentLabels(by_labels) => by_labels.call(
                config,
                credentials,
                pairing_result,
            ),
        }
    }

    /// The failure to report when the request fails.
    pub fn failure(&self, coordinates: &Coordinates, cause: String) -> (error: RegistrationError)
        ensures
            error@ == self@.failure(coordinates@, cause@),
    {
        match self {
            RegistrationEndpointCall::HostName(by_name) => by_name.failure(coordinates, cause),
            RegistrationEndpointCall::AgentLabels(by_labels) => by_labels.failure(
                coordinates,
                cause,
            ),
        }
    }

    /// What the operator is told once the registration is complete.
    pub fn completion(&self) -> (text: String)
        ensures
            text@ == self@.completion(),
    {
        match self {
            RegistrationEndpointCall::HostName(_) => String::from_str("Registration complete."),
            RegistrationEndpointCall::AgentLabels(_) => String::from_str(
                "Registration complete. It may take few minutes until the newly created host and its services are visible in the site.",
            ),
        }
    }
}

} // verus!
