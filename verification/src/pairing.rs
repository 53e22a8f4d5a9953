//! From a fresh identity to signed certificates: the steps that lead up to
//! the pairing exchange, and the exchange itself.

use crate::error::{RegistrationError, RegistrationErrorView};
use crate::protocol::{Action, ActionView, Event, EventView};
use crate::trust::{
    confirmation, confirmation_text, normalized, notice_text, password_text, precedence_notice,
    prompt_again, prompt_password, prompt_server_certificate, registration_server_cert, reply_of,
    retry_text, trust_policy, Reply, TrustPolicy,
};
use crate::types::{
    clone_optional, Credentials, CredentialsView, PairingResult, PairingResultView,
    RegistrationConnectionConfig, RegistrationConnectionConfigView,
};
use vstd::prelude::*;

verus! {

/// How far the preparation of a pairing has come. Each stage names the
/// outside work that is pending and holds what has been gathered so far.
#[derive(Debug, PartialEq, Eq)]
pub enum PairingStage {
    /// A key pair and signing request are being generated.
    AwaitingCsr,
    /// The operator is being told that the pinned certificate takes
    /// precedence over blind trust.
    AwaitingNotice { csr: String, private_key: String },
    /// The server's live certificate is being fetched.
    AwaitingCertificate { csr: String, private_key: String },
    /// The operator is deciding on the server's certificate.
    AwaitingAnswer { csr: String, private_key: String },
    /// The operator is entering the password.
    AwaitingPassword { csr: String, private_key: String },
    /// The pairing request is under way.
    AwaitingPairing { credentials: Credentials, private_key: String },
}

/// What a [`PairingStage`] value stands for.
pub enum PairingStageView {
    AwaitingCsr,
    AwaitingNotice { csr: Seq<char>, private_key: Seq<char> },
    AwaitingCertificate { csr: Seq<char>, private_key: Seq<char> },
    AwaitingAnswer { csr: Seq<char>, private_key: Seq<char> },
    AwaitingPassword { csr: Seq<char>, private_key: Seq<char> },
    AwaitingPairing { credentials: CredentialsView, private_key: Seq<char> },
}

impl View for PairingStage {
    type V = PairingStageView;

    open spec fn view(&self) -> PairingStageView {
        match self {
            PairingStage::AwaitingCsr => PairingStageView::AwaitingCsr,
            PairingStage::AwaitingNotice { csr, private_key } => PairingStageView::AwaitingNotice {
                csr: csr@,
                private_key: private_key@,
            },
            PairingStage::AwaitingCertificate {
                csr,
                private_key,
            } => PairingStageView::AwaitingCertificate { csr: csr@, private_key: private_key@ },
            PairingStage::AwaitingAnswer { csr, private_key } => PairingStageView::AwaitingAnswer {
                csr: csr@,
                private_key: private_key@,
            },
            PairingStage::AwaitingPassword {
                csr,
                private_key,
            } => PairingStageView::AwaitingPassword { csr: csr@, private_key: private_key@ },
            PairingStage::AwaitingPairing {
                credentials,
                private_key,
            } => PairingStageView::AwaitingPairing {
                credentials: credentials@,
                private_key: private_key@,
            },
        }
    }
}

/// Where the preparation stands after an event.
#[derive(Debug, PartialEq, Eq)]
pub enum Preparation {
    /// More outside work is needed.
    Pending { stage: PairingStage, action: Action },
    /// The pairing exchange succeeded.
    Paired { credentials: Credentials, pairing_result: PairingResult },
    /// The attempt is over.
    Failed { error: RegistrationError },
}

/// What a [`Preparation`] value stands for.
pub enum PreparationView {
    Pending { stage: PairingStageView, action: ActionView },
    Paired { credentials: CredentialsView, pairing_result: PairingResultView },
    Failed { error: RegistrationErrorView },
}

impl View for Preparation {
    type V = PreparationView;

    open spec fn view(&self) -> PreparationView {
        match self {
            Preparation::Pending { stage, action } => PreparationView::Pending {
                stage: stage@,
                action: action@,
            },
            Preparation::Paired { credentials, pairing_result } => PreparationView::Paired {
                credentials: credentials@,
                pairing_result: pairing_result@,
            },
            Preparation::Failed { error } => PreparationView::Failed { error: error@ },
        }
    }
}

/// The pairing request: it goes to the configured coordinates, carries the
/// configured root certificate (none unless one is pinned), the signing
/// request, and the configured user name with the resolved password.
pub open spec fn pairing_model(
    config: RegistrationConnectionConfigView,
    csr: Seq<char>,
    private_key: Seq<char>,
    password: Seq<char>,
) -> PreparationView {
    let credentials = CredentialsView { username: config.username, password };
    PreparationView::Pending {
        stage: PairingStageView::AwaitingPairing { credentials, private_key },
        action: ActionView::Pair {
            url: config.coordinates.url(),
            trusted_root: config.root_certificate,
            csr,
            credentials,
        },
    }
}

/// What follows once the question of trust is settled: a configured password
/// is used as it is, otherwise the operator is asked for one.
pub open spec fn trusted_model(
    config: RegistrationConnectionConfigView,
    csr: Seq<char>,
    private_key: Seq<char>,
) -> PreparationView {
    match config.password {
        Some(password) => pairing_model(config, csr, private_key, password),
        None => PreparationView::Pending {
            stage: PairingStageView::AwaitingPassword { csr, private_key },
            action: ActionView::AskPassword { prompt: password_text(config.username) },
        },
    }
}

/// What follows once the identity exists: the trust policy decides whether
/// the operator is told something, asked something, or neither.
pub open spec fn identified_model(
    config: RegistrationConnectionConfigView,
    csr: Seq<char>,
    private_key: Seq<char>,
) -> PreparationView {
    match trust_policy(config) {
        TrustPolicy::Pinned { notice } => if notice {
            PreparationView::Pending {
                stage: PairingStageView::AwaitingNotice { csr, private_key },
                action: ActionView::Warn { text: notice_text() },
            }
        } else {
            trusted_model(config, csr, private_key)
        },
        TrustPolicy::Blind => trusted_model(config, csr, private_key),
        TrustPolicy::Interactive => PreparationView::Pending {
            stage: PairingStageView::AwaitingCertificate { csr, private_key },
            action: ActionView::FetchCertificate {
                server: config.coordinates.server,
                port: config.coordinates.port,
            },
        },
    }
}

/// What the preparation makes of an event that does not answer the pending
/// action: the attempt fails.
pub open spec fn unexpected(config: RegistrationConnectionConfigView) -> PreparationView {
    PreparationView::Failed {
        error: RegistrationErrorView::Unexpected { coordinates: config.coordinates },
    }
}

/// One step of preparing a pairing: what the attempt does when `event`
/// arrives while it is in `stage`.
///
/// A failure of the pending work ends the attempt with the error of that
/// step, which names the configured coordinates and keeps the reported
/// cause. An answer of `n` to the certificate question ends it as untrusted;
/// an unclear answer repeats the question; any other answer goes on. An
/// event that does not answer the pending action ends the attempt.
pub open spec fn prepare_model(
    config: RegistrationConnectionConfigView,
    uuid: u128,
    stage: PairingStageView,
    event: EventView,
) -> PreparationView {
    match stage {
        PairingStageView::AwaitingCsr => match event {
            EventView::CsrCreated { csr, private_key } => identified_model(
                config,
                csr,
                private_key,
            ),
            EventView::Failed { cause } => PreparationView::Failed {
                error: RegistrationErrorView::CreatingCsr {
                    coordinates: config.coordinates,
                    cause,
                },
            },
            _ => unexpected(config),
        },
        PairingStageView::AwaitingNotice { csr, private_key } => match event {
            EventView::Completed => trusted_model(config, csr, private_key),
            _ => unexpected(config),
        },
        PairingStageView::AwaitingCertificate { csr, private_key } => match event {
            EventView::Certificate { certificate } => PreparationView::Pending {
                stage: PairingStageView::AwaitingAnswer { csr, private_key },
                action: ActionView::ConfirmCertificate {
                    prompt: confirmation_text(config.coordinates, certificate),
                },
            },
            EventView::Failed { cause } => PreparationView::Failed {
                error: RegistrationErrorView::ServerCertificate {
                    coordinates: config.coordinates,
                    cause,
                },
            },
            _ => unexpected(config),
        },
        PairingStageView::AwaitingAnswer { csr, private_key } => match event {
            EventView::Answer { line } => match reply_of(normalized(line)) {
                Reply::Accept => trusted_model(config, csr, private_key),
                Reply::Refuse => PreparationView::Failed {
                    error: RegistrationErrorView::Untrusted { coordinates: config.coordinates },
                },
                Reply::Unclear => PreparationView::Pending {
                    stage: PairingStageView::AwaitingAnswer { csr, private_key },
                    action: ActionView::ConfirmCertificate { prompt: retry_text() },
                },
            },
            EventView::Failed { cause } => PreparationView::Failed {
                error: RegistrationErrorView::ReadingAnswer {
                    coordinates: config.coordinates,
                    cause,
                },
            },
            _ => unexpected(config),
        },
        PairingStageView::AwaitingPassword { csr, private_key } => match event {
            EventView::Password { password } => pairing_model(config, csr, private_key, password),
            EventView::Failed { cause } => PreparationView::Failed {
                error: RegistrationErrorView::Password {
                    coordinates: config.coordinates,
                    cause,
                },
            },
            _ => unexpected(config),
        },
        PairingStageView::AwaitingPairing { credentials, private_key } => match event {
            EventView::Paired { pairing_response } => PreparationView::Paired {
                credentials,
                pairing_result: PairingResultView {
                    uuid,
                    private_key,
                    pairing_response,
                },
            },
            EventView::Failed { cause } => PreparationView::Failed {
                error: RegistrationErrorView::Pairing { coordinates: config.coordinates, cause },
            },
            _ => unexpected(config),
        },
    }
}

/// Turns away an event that does not answer the pending action.
fn reject(config: &RegistrationConnectionConfig) -> (next: Preparation)
    ensures
        next@ == unexpected(config@),
{
    Preparation::Failed {
        error: RegistrationError::Unexpected { coordinates: config.coordinates.clone() },
    }
}

/// Asks for the pairing exchange with the resolved password.
fn request_pairing(
    config: &RegistrationConnectionConfig,
    csr: String,
    private_key: String,
    password: String,
) -> (next: Preparation)
    ensures
        next@ == pairing_model(config@, csr@, private_key@, password@),
{
    let credentials = Credentials { username: config.username.clone(), password };
    let action = Action::Pair {
        url: config.coordinates.to_url(),
        trusted_root: clone_optional(&config.root_certificate),
        csr,
        credentials: credentials.clone(),
    };
    Preparation::Pending {
        stage: PairingStage::AwaitingPairing { credentials, private_key },
        action,
    }
}

/// Resolves the password once the question of trust is settled.
fn resolve_password(
    config: &RegistrationConnectionConfig,
    csr: String,
    private_key: String,
) -> (next: Preparation)
    ensures
        next@ == trusted_model(config@, csr@, private_key@),
{
    match &config.password {
        Some(password) => request_pairing(config, csr, private_key, password.clone()),
        None => Preparation::Pending {
            stage: PairingStage::AwaitingPassword { csr, private_key },
            action: Action::AskPassword { prompt: prompt_password(config.username.as_str()) },
        },
    }
}

/// Settles the question of trust once the identity exists.
fn establish_trust(
    config: &RegistrationConnectionConfig,
    csr: String,
    private_key: String,
) -> (next: Preparation)
    ensures
        next@ == identified_model(config@, csr@, private_key@),
{
    match registration_server_cert(config) {
        TrustPolicy::Pinned { notice } => {
            if notice {
                Preparation::Pending {
                    stage: PairingStage::AwaitingNotice { csr, private_key },
                    action: Action::Warn { text: precedence_notice() },
                }
            } else {
                resolve_password(config, csr, private_key)
            }
        },
        TrustPolicy::Blind => resolve_password(config, csr, private_key),
        TrustPolicy::Interactive => Preparation::Pending {
            stage: PairingStage::AwaitingCertificate { csr, private_key },
            action: Action::FetchCertificate {
                server: config.coordinates.server.clone(),
                port: config.coordinates.port,
            },
        },
    }
}

/// Takes one step of preparing a pairing for the attempt identified by
/// `uuid`: consumes the outcome of the pending work and says what is next.
pub fn prepare_registration(
    config: &RegistrationConnectionConfig,
    uuid: u128,
    stage: PairingStage,
    event: Event,
) -> (next: Preparation)
    ensures
        next@ == prepare_model(config@, uuid, stage@, event@),
{
    match stage {
        PairingStage::AwaitingCsr => match event {
            Event::CsrCreated { csr, private_key } => establish_trust(config, csr, private_key),
            Event::Failed { cause } => Preparation::Failed {
                error: RegistrationError::CreatingCsr {
                    coordinates: config.coordinates.clone(),
                    cause,
                },
            },
            _ => reject(config),
        },
        PairingStage::AwaitingNotice { csr, private_key } => match event {
            Event::Completed => resolve_password(config, csr, private_key),
            _ => reject(config),
        },
        PairingStage::AwaitingCertificate { csr, private_key } => match event {
            Event::Certificate { certificate } => Preparation::Pending {
                stage: PairingStage::AwaitingAnswer { csr, private_key },
                action: Action::ConfirmCertificate {
                    prompt: prompt_server_certificate(&config.coordinates, &certificate),
                },
            },
            Event::Failed { cause } => Preparation::Failed {
                error: RegistrationError::ServerCertificate {
                    coordinates: config.coordinates.clone(),
                    cause,
                },
            },
            _ => reject(config),
        },
        PairingStage::AwaitingAnswer { csr, private_key } => match event {
            Event::Answer { line } => match confirmation(line.as_str()) {
                Reply::Accept => resolve_password(config, csr, private_key),
                Reply::Refuse => Preparation::Failed {
                    error: RegistrationError::Untrusted { coordinates: config.coordinates.clone() },
                },
                Reply::Unclear => Preparation::Pending {
                    stage: PairingStage::AwaitingAnswer { csr, private_key },
                    action: Action::ConfirmCertificate { prompt: prompt_again() },
                },
            },
            Event::Failed { cause } => Preparation::Failed {
                error: RegistrationError::ReadingAnswer {
                    coordinates: config.coordinates.clone(),
                    cause,
                },
            },
            _ => reject(config),
        },
        PairingStage::AwaitingPassword { csr, private_key } => match event {
            Event::Password { password } => request_pairing(config, csr, private_key, password),
            Event::Failed { cause } => Preparation::Failed {
                error: RegistrationError::Password {
                    coordinates: config.coordinates.clone(),
                    cause,
                },
            },
            _ => reject(config),
        },
        PairingStage::AwaitingPairing { credentials, private_key } => match event {
            Event::Paired { pairing_response } => Preparation::Paired {
                credentials,
                pairing_result: PairingResult { uuid, private_key, pairing_response },
            },
            Event::Failed { cause } => Preparation::Failed {
                error: RegistrationError::Pairing {
                    coordinates: config.coordinates.clone(),
                    cause,
                },
            },
            _ => reject(config),
        },
    }
}

} // verus!
