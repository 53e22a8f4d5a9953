//! The two registration flows, each as a state machine over the outcomes of
//! the outside work it asks for.
//!
//! The direct flow pairs, submits the registration, polls until the receiver
//! has decided, and has the connection persisted. The proxy flow pairs,
//! submits under a host name, and has the trust record emitted; it neither
//! polls nor persists.

use crate::endpoint::{EndpointView, HostNameRegistration, RegistrationEndpointCall};
use crate::error::{RegistrationError, RegistrationErrorView};
use crate::pairing::{
    prepare_model, prepare_registration, PairingStage, PairingStageView, Preparation,
    PreparationView,
};
use crate::polling::{
    approval_of, post_registration_conn_type, waiting_notice, waiting_text, Approval, ApprovalView,
    POLL_INTERVAL_SECONDS,
};
use crate::protocol::{Action, ActionView, Event, EventView};
use crate::types::{
    PairingResult, PairingResultView, ProxyPullData, ProxyPullDataView,
    RegistrationConnectionConfig, RegistrationConnectionConfigView, TrustedConnection,
    TrustedConnectionView, VERSION,
};
use vstd::prelude::*;

verus! {

/// How far a registration attempt has come.
#[derive(Debug, PartialEq, Eq)]
pub enum Stage {
    /// The pairing is being prepared or is under way.
    Pairing(PairingStage),
    /// The registration has been submitted.
    AwaitingRegistration { pairing_result: PairingResult },
    /// The receiver is being asked where the registration stands.
    AwaitingStatus { connection: TrustedConnection },
    /// The receiver was undecided; time is passing before the next query.
    AwaitingDelay { connection: TrustedConnection },
    /// The approved connection is being persisted.
    AwaitingSave,
    /// The trust record is being emitted.
    AwaitingEmit,
    /// The attempt succeeded.
    Done,
    /// The attempt failed.
    Failed,
}

/// What a [`Stage`] value stands for.
pub enum StageView {
    Pairing(PairingStageView),
    AwaitingRegistration { pairing_result: PairingResultView },
    AwaitingStatus { connection: TrustedConnectionView },
    AwaitingDelay { connection: TrustedConnectionView },
    AwaitingSave,
    AwaitingEmit,
    Done,
    Failed,
}

impl View for Stage {
    type V = StageView;

    open spec fn view(&self) -> StageView {
        match self {
            Stage::Pairing(stage) => StageView::Pairing(stage@),
            Stage::AwaitingRegistration { pairing_result } => StageView::AwaitingRegistration {
                pairing_result: pairing_result@,
            },
            Stage::AwaitingStatus { connection } => StageView::AwaitingStatus {
                connection: connection@,
            },
            Stage::AwaitingDelay { connection } => StageView::AwaitingDelay {
                connection: connection@,
            },
            Stage::AwaitingSave => StageView::AwaitingSave,
            Stage::AwaitingEmit => StageView::AwaitingEmit,
            Stage::Done => StageView::Done,
            Stage::Failed => StageView::Failed,
        }
    }
}

impl StageView {
    /// Whether the attempt is over, one way or the other.
    pub open spec fn is_over(self) -> bool {
        self is Done || self is Failed
    }
}

/// The end of an attempt that failed with `error`.
pub open spec fn failed_model(error: RegistrationErrorView) -> (StageView, ActionView) {
    (StageView::Failed, ActionView::Abort { error })
}

/// What an attempt does with an event that does not answer its pending
/// action: it fails. An attempt that is over stays as it is.
pub open spec fn unexpected_model(
    config: RegistrationConnectionConfigView,
    stage: StageView,
) -> (StageView, ActionView) {
    (
        if stage.is_over() {
            stage
        } else {
            StageView::Failed
        },
        ActionView::Abort {
            error: RegistrationErrorView::Unexpected { coordinates: config.coordinates },
        },
    )
}

/// What a flow makes of a step of the preparation: once paired, it submits
/// the registration in the chosen way.
pub open spec fn submit_model(
    config: RegistrationConnectionConfigView,
    endpoint: EndpointView,
    preparation: PreparationView,
) -> (StageView, ActionView) {
    match preparation {
        PreparationView::Pending { stage, action } => (StageView::Pairing(stage), action),
        PreparationView::Paired { credentials, pairing_result } => (
            StageView::AwaitingRegistration { pairing_result },
            endpoint.request(config, credentials, pairing_result),
        ),
        PreparationView::Failed { error } => failed_model(error),
    }
}

/// The status query for a connection.
pub open spec fn query_model(
    config: RegistrationConnectionConfigView,
    connection: TrustedConnectionView,
) -> (StageView, ActionView) {
    (
        StageView::AwaitingStatus { connection },
        ActionView::QueryStatus { url: config.coordinates.url(), connection },
    )
}

/// One step of the direct flow: pair, submit, then query the status until
/// the receiver has decided, waiting a fixed time after each undecided
/// answer; persist the approved connection; finish.
pub open spec fn direct_model(
    config: RegistrationConnectionConfigView,
    endpoint: EndpointView,
    uuid: u128,
    stage: StageView,
    event: EventView,
) -> (StageView, ActionView) {
    match stage {
        StageView::Pairing(pairing) => submit_model(
            config,
            endpoint,
            prepare_model(config, uuid, pairing, event),
        ),
        StageView::AwaitingRegistration { pairing_result } => match event {
            EventView::Completed => query_model(config, pairing_result.connection()),
            EventView::Failed { cause } => failed_model(
                endpoint.failure(config.coordinates, cause),
            ),
            _ => unexpected_model(config, stage),
        },
        StageView::AwaitingStatus { connection } => match event {
            EventView::Status { status_response } => match approval_of(status_response) {
                ApprovalView::Declined { message } => failed_model(
                    RegistrationErrorView::Declined { coordinates: config.coordinates, message },
                ),
                ApprovalView::Approved { connection_type } => (
                    StageView::AwaitingSave,
                    ActionView::Persist {
                        connection_type,
                        coordinates: config.coordinates,
                        connection,
                    },
                ),
                ApprovalView::Pending => (
                    StageView::AwaitingDelay { connection },
                    ActionView::Wait { seconds: POLL_INTERVAL_SECONDS, text: waiting_text() },
                ),
            },
            EventView::Failed { cause } => failed_model(
                RegistrationErrorView::Status { coordinates: config.coordinates, cause },
            ),
            _ => unexpected_model(config, stage),
        },
        StageView::AwaitingDelay { connection } => match event {
            EventView::Completed => query_model(config, connection),
            _ => unexpected_model(config, stage),
        },
        StageView::AwaitingSave => match event {
            EventView::Completed => (
                StageView::Done,
                ActionView::Finish { message: Some(endpoint.completion()) },
            ),
            EventView::Failed { cause } => failed_model(
                RegistrationErrorView::Saving { coordinates: config.coordinates, cause },
            ),
            _ => unexpected_model(config, stage),
        },
        _ => unexpected_model(config, stage),
    }
}

/// One step of the proxy flow: pair, submit under the host name, emit the
/// controller version with the trust record, finish.
pub open spec fn proxy_model(
    config: RegistrationConnectionConfigView,
    host_name: Seq<char>,
    uuid: u128,
    stage: StageView,
    event: EventView,
) -> (StageView, ActionView) {
    let endpoint = EndpointView::HostName { host_name };
    match stage {
        StageView::Pairing(pairing) => submit_model(
            config,
            endpoint,
            prepare_model(config, uuid, pairing, event),
        ),
        StageView::AwaitingRegistration { pairing_result } => match event {
            EventView::Completed => (
                StageView::AwaitingEmit,
                ActionView::Emit {
                    record: ProxyPullDataView {
                        agent_controller_version: VERSION@,
                        connection: pairing_result.connection(),
                    },
                },
            ),
            EventView::Failed { cause } => failed_model(
                endpoint.failure(config.coordinates, cause),
            ),
            _ => unexpected_model(config, stage),
        },
        StageView::AwaitingEmit => match event {
            EventView::Completed => (StageView::Done, ActionView::Finish { message: None }),
            EventView::Failed { cause } => failed_model(
                RegistrationErrorView::Emitting { coordinates: config.coordinates, cause },
            ),
            _ => unexpected_model(config, stage),
        },
        _ => unexpected_model(config, stage),
    }
}

/// Ends an attempt with `error`.
fn fail(error: RegistrationError) -> (next: (Stage, Action))
    ensures
        (next.0@, next.1@) == failed_model(error@),
{
    (Stage::Failed, Action::Abort { error })
}

/// Rejects an event that does not answer the pending action.
fn reject(config: &RegistrationConnectionConfig, stage: Stage) -> (next: (Stage, Action))
    ensures
        (next.0@, next.1@) == unexpected_model(config@, stage@),
{
    let next = match stage {
        Stage::Done => Stage::Done,
        _ => Stage::Failed,
    };
    (
        next,
        Action::Abort {
            error: RegistrationError::Unexpected { coordinates: config.coordinates.clone() },
        },
    )
}

/// Carries a step of the preparation over into a flow.
fn submit(
    config: &RegistrationConnectionConfig,
    endpoint_call: &RegistrationEndpointCall,
    preparation: Preparation,
) -> (next: (Stage, Action))
    ensures
        (next.0@, next.1@) == submit_model(config@, endpoint_call@, preparation@),
{
    match preparation {
        Preparation::Pending { stage, action } => (Stage::Pairing(stage), action),
        Preparation::Paired { credentials, pairing_result } => {
            let request = endpoint_call.call(config, &credentials, &pairing_result);
            (Stage::AwaitingRegistration { pairing_result }, request)
        },
        Preparation::Failed { error } => fail(error),
    }
}

/// Asks the receiver where the registration behind `connection` stands.
fn query(config: &RegistrationConnectionConfig, connection: TrustedConnection) -> (next: (
    Stage,
    Action,
))
    ensures
        (next.0@, next.1@) == query_model(config@, connection@),
{
    let action = Action::QueryStatus {
        url: config.coordinates.to_url(),
        connection: connection.clone(),
    };
    (Stage::AwaitingStatus { connection }, action)
}

/// Takes one step of the direct flow.
pub fn direct_registration(
    config: &RegistrationConnectionConfig,
    endpoint_call: &RegistrationEndpointCall,
    uuid: u128,
    stage: Stage,
    event: Event,
) -> (next: (Stage, Action))
    ensures
        (next.0@, next.1@) == direct_model(config@, endpoint_call@, uuid, stage@, event@),
{
    match stage {
        Stage::Pairing(pairing) => submit(
            config,
            endpoint_call,
            prepare_registration(config, uuid, pairing, event),
        ),
        Stage::AwaitingRegistration { pairing_result } => match event {
            Event::Completed => query(config, pairing_result.into_connection()),
            Event::Failed { cause } => fail(endpoint_call.failure(&config.coordinates, cause)),
            _ => reject(config, Stage::AwaitingRegistration { pairing_result }),
        },
        Stage::AwaitingStatus { connection } => match event {
            Event::Status { status_response } => match post_registration_conn_type(
                status_response,
            ) {
                Approval::Declined { message } => fail(
                    RegistrationError::Declined {
                        coordinates: config.coordinates.clone(),
                        message,
                    },
                ),
                Approval::Approved { connection_type } => (
                    Stage::AwaitingSave,
                    Action::Persist {
                        connection_type,
                        coordinates: config.coordinates.clone(),
                        connection,
                    },
                ),
                Approval::Pending => (
                    Stage::AwaitingDelay { connection },
                    Action::Wait { seconds: POLL_INTERVAL_SECONDS, text: waiting_notice() },
                ),
            },
            Event::Failed { cause } => fail(
                RegistrationError::Status { coordinates: config.coordinates.clone(), cause },
            ),
            _ => reject(config, Stage::AwaitingStatus { connection }),
        },
        Stage::AwaitingDelay { connection } => match event {
            Event::Completed => query(config, connection),
            _ => reject(config, Stage::AwaitingDelay { connection }),
        },
        Stage::AwaitingSave => match event {
            Event::Completed => (
                Stage::Done,
                Action::Finish { message: Some(endpoint_call.completion()) },
            ),
            Event::Failed { cause } => fail(
                RegistrationError::Saving { coordinates: config.coordinates.clone(), cause },
            ),
            _ => reject(config, Stage::AwaitingSave),
        },
        other => reject(config, other),
    }
}

/// Takes one step of the proxy flow.
pub fn proxy_registration(
    config: &RegistrationConnectionConfig,
    host_name: &HostNameRegistration,
    uuid: u128,
    stage: Stage,
    event: Event,
) -> (next: (Stage, Action))
    ensures
        (next.0@, next.1@) == proxy_model(
            config@,
            host_name.host_name@,
            uuid,
            stage@,
            event@,
        ),
{
    match stage {
        Stage::Pairing(pairing) => {
            let preparation = prepare_registration(config, uuid, pairing, event);
            match preparation {
                Preparation::Pending { stage, action } => (Stage::Pairing(stage), action),
                Preparation::Paired { credentials, pairing_result } => {
                    let request = host_name.call(config, &credentials, &pairing_result);
                    (Stage::AwaitingRegistration { pairing_result }, request)
                },
                Preparation::Failed { error } => fail(error),
            }
        },
        Stage::AwaitingRegistration { pairing_result } => match event {
            Event::Completed => (
                Stage::AwaitingEmit,
                Action::Emit {
                    record: ProxyPullData {
                        agent_controller_version: String::from_str(VERSION),
                        connection: pairing_result.into_connection(),
                    },
                },
            ),
            Event::Failed { cause } => fail(host_name.failure(&config.coordinates, cause)),
            _ => reject(config, Stage::AwaitingRegistration { pairing_result }),
        },
        Stage::AwaitingEmit => match event {
            Event::Completed => (Stage::Done, Action::Finish { message: None }),
            Event::Failed { cause } => fail(
                RegistrationError::Emitting { coordinates: config.coordinates.clone(), cause },
            ),
            _ => reject(config, Stage::AwaitingEmit),
        },
        other => reject(config, other),
    }
}

} // verus!
