//! A registration attempt from its first step to its last.

use crate::endpoint::{
    AgentLabelsRegistration, EndpointView, HostNameRegistration, RegistrationEndpointCall,
};
use crate::flow::{
    direct_model, direct_registration, proxy_model, proxy_registration, Stage, StageView,
};
use crate::identity::{hyphenated, instance_id_text, is_random_uuid, new_instance_id};
use crate::pairing::{PairingStage, PairingStageView};
use crate::protocol::{Action, ActionView, Event, EventView};
use crate::types::{
    RegistrationConfigAgentLabels, RegistrationConfigHostName, RegistrationConnectionConfig,
    RegistrationConnectionConfigView,
};
use vstd::prelude::*;

verus! {

/// Which flow an attempt follows, with the way it submits the registration.
#[derive(Debug, PartialEq, Eq)]
pub enum Flow {
    /// This agent registers itself and keeps the resulting connection.
    Direct(RegistrationEndpointCall),
    /// The registration is made on behalf of another party, always under a
    /// host name, and the trust record is handed back.
    Proxy(HostNameRegistration),
}

/// What a [`Flow`] value stands for.
pub enum FlowView {
    Direct { endpoint: EndpointView },
    Proxy { host_name: Seq<char> },
}

impl View for Flow {
    type V = FlowView;

    open spec fn view(&self) -> FlowView {
        match self {
            Flow::Direct(endpoint_call) => FlowView::Direct { endpoint: endpoint_call@ },
            Flow::Proxy(by_name) => FlowView::Proxy { host_name: by_name.host_name@ },
        }
    }
}

/// One registration attempt: its configuration, its flow, the identifier
/// generated for it, and how far it has come.
#[derive(Debug, PartialEq, Eq)]
pub struct Registration {
    pub config: RegistrationConnectionConfig,
    pub flow: Flow,
    pub uuid: u128,
    pub stage: Stage,
}

/// What a [`Registration`] value stands for.
pub struct RegistrationView {
    pub config: RegistrationConnectionConfigView,
    pub flow: FlowView,
    pub uuid: u128,
    pub stage: StageView,
}

impl View for Registration {
    type V = RegistrationView;

    open spec fn view(&self) -> RegistrationView {
        RegistrationView {
            config: self.config@,
            flow: self.flow@,
            uuid: self.uuid,
            stage: self.stage@,
        }
    }
}

/// The start of an attempt: nothing is gathered yet, and the first thing
/// asked for is a key pair and signing request for the attempt's identifier
/// in its hyphenated form.
pub open spec fn begin_model(
    config: RegistrationConnectionConfigView,
    flow: FlowView,
    uuid: u128,
) -> (RegistrationView, ActionView) {
    (
        RegistrationView {
            config,
            flow,
            uuid,
            stage: StageView::Pairing(PairingStageView::AwaitingCsr),
        },
        ActionView::MakeCsr { id: hyphenated(uuid) },
    )
}

/// One step of an attempt: the step of its flow. Configuration, flow and
/// identifier never change.
pub open spec fn advance_model(attempt: RegistrationView, event: EventView) -> (
    RegistrationView,
    ActionView,
) {
    let (stage, action) = match attempt.flow {
        FlowView::Direct { endpoint } => direct_model(
            attempt.config,
            endpoint,
            attempt.uuid,
            attempt.stage,
            event,
        ),
        FlowView::Proxy { host_name } => proxy_model(
            attempt.config,
            host_name,
            attempt.uuid,
            attempt.stage,
            event,
        ),
    };
    (
        RegistrationView { config: attempt.config, flow: attempt.flow, uuid: attempt.uuid, stage },
        action,
    )
}

impl Registration {
    /// Starts an attempt under a given identifier.
    pub fn begin(config: RegistrationConnectionConfig, flow: Flow, uuid: u128) -> (start: (
        Registration,
        Action,
    ))
        ensures
            (start.0@, start.1@) == begin_model(config@, flow@, uuid),
    {
        (
            Registration { config, flow, uuid, stage: Stage::Pairing(PairingStage::AwaitingCsr) },
            Action::MakeCsr { id: instance_id_text(uuid) },
        )
    }

    /// Takes the outcome of the pending action and says what to do next.
    pub fn advance(self, event: Event) -> (next: (Registration, Action))
        ensures
            (next.0@, next.1@) == advance_model(self@, event@),
    {
        let Registration { config, flow, uuid, stage } = self;
        let (stage, action) = match &flow {
            Flow::Direct(endpoint_call) => direct_registration(
                &config,
                endpoint_call,
                uuid,
                stage,
                event,
            ),
            Flow::Proxy(by_name) => proxy_registration(&config, by_name, uuid, stage, event),
        };
        (Registration { config, flow, uuid, stage }, action)
    }

    /// Whether the attempt is over, one way or the other.
    pub fn is_over(&self) -> (over: bool)
        ensures
            over == self@.stage.is_over(),
    {
        match &self.stage {
            Stage::Done => true,
            Stage::Failed => true,
            _ => false,
        }
    }

    /// Whether the attempt ended in success.
    pub fn succeeded(&self) -> (done: bool)
        ensures
            done == (self@.stage is Done),
    {
        match &self.stage {
            Stage::Done => true,
            _ => false,
        }
    }
}

/// Starts a direct registration under an explicit host name, with a fresh
/// random identifier.
pub fn register_host_name(config: &RegistrationConfigHostName) -> (start: (Registration, Action))
    ensures
        is_random_uuid(start.0.uuid),
        (start.0@, start.1@) == begin_model(
            config.connection_config@,
            FlowView::Direct { endpoint: EndpointView::HostName { host_name: config.host_name@ } },
            start.0.uuid,
        ),
{
    let by_name = HostNameRegistration { host_name: config.host_name.clone() };
    Registration::begin(
        config.connection_config.clone(),
        Flow::Direct(RegistrationEndpointCall::HostName(by_name)),
        new_instance_id(),
    )
}

/// Starts a direct registration with agent labels, with a fresh random
/// identifier.
pub fn register_agent_labels(config: &RegistrationConfigAgentLabels) -> (start: (
    Registration,
    Action,
))
    ensures
        is_random_uuid(start.0.uuid),
        (start.0@, start.1@) == begin_model(
            config.connection_config@,
            FlowView::Direct {
                endpoint: EndpointView::AgentLabels { agent_labels: config.agent_labels@ },
            },
            start.0.uuid,
        ),
{
    let by_labels = AgentLabelsRegistration { agent_labels: config.agent_labels.clone() };
    Registration::begin(
        config.connection_config.clone(),
        Flow::Direct(RegistrationEndpointCall::AgentLabels(by_labels)),
        new_instance_id(),
    )
}

/// Starts a proxy registration under an explicit host name, with a fresh
/// random identifier.
pub fn proxy_register(config: &RegistrationConfigHostName) -> (start: (Registration, Action))
    ensures
        is_random_uuid(start.0.uuid),
        (start.0@, start.1@) == begin_model(
            config.connection_config@,
            FlowView::Proxy { host_name: config.host_name@ },
            start.0.uuid,
        ),
{
    let by_name = HostNameRegistration { host_name: config.host_name.clone() };
    Registration::begin(config.connection_config.clone(), Flow::Proxy(by_name), new_instance_id())
}

} // verus!
