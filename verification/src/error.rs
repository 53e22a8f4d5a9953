//! Why a registration attempt ended without success.
//!
//! Every failure says which step failed and against which coordinates; where
//! the step was outside work that went wrong, it also keeps the cause that
//! was reported for it.

use crate::coordinates::{Coordinates, CoordinatesView};
use vstd::prelude::*;

verus! {

/// The step at which an attempt failed, the coordinates it was headed for,
/// and what is known about the cause.
#[derive(Debug, PartialEq, Eq)]
pub enum RegistrationError {
    /// No key pair and signing request could be generated.
    CreatingCsr { coordinates: Coordinates, cause: String },
    /// The server certificate could not be fetched or read.
    ServerCertificate { coordinates: Coordinates, cause: String },
    /// The operator's answer could not be read.
    ReadingAnswer { coordinates: Coordinates, cause: String },
    /// The operator declined the server certificate.
    Untrusted { coordinates: Coordinates },
    /// No password could be obtained from the operator.
    Password { coordinates: Coordinates, cause: String },
    /// The pairing request failed.
    Pairing { coordinates: Coordinates, cause: String },
    /// Submitting the registration under a host name failed.
    RegisteringHostName { coordinates: Coordinates, cause: String },
    /// Submitting the registration with agent labels failed.
    RegisteringAgentLabels { coordinates: Coordinates, cause: String },
    /// A status query failed.
    Status { coordinates: Coordinates, cause: String },
    /// The receiver declined the registration, with this explanation if it
    /// gave one.
    Declined { coordinates: Coordinates, message: Option<String> },
    /// The connection could not be persisted.
    Saving { coordinates: Coordinates, cause: String },
    /// The proxy record could not be emitted.
    Emitting { coordinates: Coordinates, cause: String },
    /// The reported event does not answer the pending action.
    Unexpected { coordinates: Coordinates },
}

/// What a [`RegistrationError`] value stands for.
pub enum RegistrationErrorView {
    CreatingCsr { coordinates: CoordinatesView, cause: Seq<char> },
    ServerCertificate { coordinates: CoordinatesView, cause: Seq<char> },
    ReadingAnswer { coordinates: CoordinatesView, cause: Seq<char> },
    Untrusted { coordinates: CoordinatesView },
    Password { coordinates: CoordinatesView, cause: Seq<char> },
    Pairing { coordinates: CoordinatesView, cause: Seq<char> },
    RegisteringHostName { coordinates: CoordinatesView, cause: Seq<char> },
    RegisteringAgentLabels { coordinates: CoordinatesView, cause: Seq<char> },
    Status { coordinates: CoordinatesView, cause: Seq<char> },
    Declined { coordinates: CoordinatesView, message: Option<Seq<char>> },
    Saving { coordinates: CoordinatesView, cause: Seq<char> },
    Emitting { coordinates: CoordinatesView, cause: Seq<char> },
    Unexpected { coordinates: CoordinatesView },
}

impl View for RegistrationError {
    type V = RegistrationErrorView;

    open spec fn view(&self) -> RegistrationErrorView {
        match self {
            RegistrationError::CreatingCsr {
                coordinates,
                cause,
            } => RegistrationErrorView::CreatingCsr { coordinates: coordinates@, cause: cause@ },
            RegistrationError::ServerCertificate {
                coordinates,
                cause,
            } => RegistrationErrorView::ServerCertificate {
                coordinates: coordinates@,
                cause: cause@,
            },
            RegistrationError::ReadingAnswer {
                coordinates,
                cause,
            } => RegistrationErrorView::ReadingAnswer { coordinates: coordinates@, cause: cause@ },
            RegistrationError::Untrusted { coordinates } => RegistrationErrorView::Untrusted {
                coordinates: coordinates@,
            },
            RegistrationError::Password { coordinates, cause } => RegistrationErrorView::Password {
                coordinates: coordinates@,
                cause: cause@,
            },
            RegistrationError::Pairing { coordinates, cause } => RegistrationErrorView::Pairing {
                coordinates: coordinates@,
                cause: cause@,
            },
            RegistrationError::RegisteringHostName {
                coordinates,
                cause,
            } => RegistrationErrorView::RegisteringHostName {
                coordinates: coordinates@,
                cause: cause@,
            },
            RegistrationError::RegisteringAgentLabels {
                coordinates,
                cause,
            } => RegistrationErrorView::RegisteringAgentLabels {
                coordinates: coordinates@,
                cause: cause@,
            },
            RegistrationError::Status { coordinates, cause } => RegistrationErrorView::Status {
                coordinates: coordinates@,
                cause: cause@,
            },
            RegistrationError::Declined { coordinates, message } => RegistrationErrorView::Declined {
                coordinates: coordinates@,
                message: message.deep_view(),
            },
            RegistrationError::Saving { coordinates, cause } => RegistrationErrorView::Saving {
                coordinates: coordinates@,
                cause: cause@,
            },
            RegistrationError::Emitting { coordinates, cause } => RegistrationErrorView::Emitting {
                coordinates: coordinates@,
                cause: cause@,
            },
            RegistrationError::Unexpected { coordinates } => RegistrationErrorView::Unexpected {
                coordinates: coordinates@,
            },
        }
    }
}

impl RegistrationErrorView {
    /// The coordinates the failed attempt was headed for.
    pub open spec fn coordinates(self) -> CoordinatesView {
        match self {
            RegistrationErrorView::CreatingCsr { coordinates, .. } => coordinates,
            RegistrationErrorView::ServerCertificate { coordinates, .. } => coordinates,
            RegistrationErrorView::ReadingAnswer { coordinates, .. } => coordinates,
            RegistrationErrorView::Untrusted { coordinates } => coordinates,
            RegistrationErrorView::Password { coordinates, .. } => coordinates,
            RegistrationErrorView::Pairing { coordinates, .. } => coordinates,
            RegistrationErrorView::RegisteringHostName { coordinates, .. } => coordinates,
            RegistrationErrorView::RegisteringAgentLabels { coordinates, .. } => coordinates,
            RegistrationErrorView::Status { coordinates, .. } => coordinates,
            RegistrationErrorView::Declined { coordinates, .. } => coordinates,
            RegistrationErrorView::Saving { coordinates, .. } => coordinates,
            RegistrationErrorView::Emitting { coordinates, .. } => coordinates,
            RegistrationErrorView::Unexpected { coordinates } => coordinates,
        }
    }

    /// The words that name the failed step; the coordinates follow them.
    pub open spec fn step(self) -> Seq<char> {
        match self {
            RegistrationErrorView::CreatingCsr { .. } => "Error creating CSR for "@,
            RegistrationErrorView::ServerCertificate {
                ..
            } => "Error fetching server certificate of "@,
            RegistrationErrorView::ReadingAnswer {
                ..
            } => "Failed to read answer from standard input while registering at "@,
            RegistrationErrorView::Untrusted { .. } => "Cannot continue without trusting "@,
            RegistrationErrorView::Password { .. } => "Failed to obtain API password for "@,
            RegistrationErrorView::Pairing { .. } => "Error pairing with "@,
            RegistrationErrorView::RegisteringHostName {
                ..
            } => "Error registering with host name at "@,
            RegistrationErrorView::RegisteringAgentLabels {
                ..
            } => "Error registering with agent labels at "@,
            RegistrationErrorView::Status { .. } => "Error querying registration status at "@,
            RegistrationErrorView::Declined {
                ..
            } => "Registration declined by Checkmk instance at "@,
            RegistrationErrorView::Saving { .. } => "Error saving connection to "@,
            RegistrationErrorView::Emitting { .. } => "Error emitting connection to "@,
            RegistrationErrorView::Unexpected { .. } => "Unexpected event while registering at "@,
        }
    }

    /// The line that tells the operator what went wrong: the failed step,
    /// then the coordinates in their short form, then, where the receiver
    /// declined with an explanation, a colon and that explanation verbatim.
    pub open spec fn message(self) -> Seq<char> {
        let located = self.step() + self.coordinates().text();
        match self {
            RegistrationErrorView::Declined { message: Some(message), .. } => located + ": "@
                + message,
            _ => located,
        }
    }

    /// The cause reported by whoever did the outside work that failed. A
    /// refusal by the operator, a decline by the receiver and an unexpected
    /// event have none.
    pub open spec fn cause(self) -> Option<Seq<char>> {
        match self {
            RegistrationErrorView::CreatingCsr { cause, .. } => Some(cause),
            RegistrationErrorView::ServerCertificate { cause, .. } => Some(cause),
            RegistrationErrorView::ReadingAnswer { cause, .. } => Some(cause),
            RegistrationErrorView::Untrusted { .. } => None,
            RegistrationErrorView::Password { cause, .. } => Some(cause),
            RegistrationErrorView::Pairing { cause, .. } => Some(cause),
            RegistrationErrorView::RegisteringHostName { cause, .. } => Some(cause),
            RegistrationErrorView::RegisteringAgentLabels { cause, .. } => Some(cause),
            RegistrationErrorView::Status { cause, .. } => Some(cause),
            RegistrationErrorView::Declined { .. } => None,
            RegistrationErrorView::Saving { cause, .. } => Some(cause),
            RegistrationErrorView::Emitting { cause, .. } => Some(cause),
            RegistrationErrorView::Unexpected { .. } => None,
        }
    }
}

impl RegistrationError {
    /// The coordinates the failed attempt was headed for.
    pub fn coordinates(&self) -> (coordinates: &Coordinates)
        ensures
            coordinates@ == self@.coordinates(),
    {
        match self {
            RegistrationError::CreatingCsr { coordinates, .. } => coordinates,
            RegistrationError::ServerCertificate { coordinates, .. } => coordinates,
            RegistrationError::ReadingAnswer { coordinates, .. } => coordinates,
            RegistrationError::Untrusted { coordinates } => coordinates,
            RegistrationError::Password { coordinates, .. } => coordinates,
            RegistrationError::Pairing { coordinates, .. } => coordinates,
            RegistrationError::RegisteringHostName { coordinates, .. } => coordinates,
            RegistrationError::RegisteringAgentLabels { coordinates, .. } => coordinates,
            RegistrationError::Status { coordinates, .. } => coordinates,
            RegistrationError::Declined { coordinates, .. } => coordinates,
            RegistrationError::Saving { coordinates, .. } => coordinates,
            RegistrationError::Emitting { coordinates, .. } => coordinates,
            RegistrationError::Unexpected { coordinates } => coordinates,
        }
    }

    /// The words that name the failed step.
    fn step(&self) -> (words: &'static str)
        ensures
            words@ == self@.step(),
    {
        match self {
            RegistrationError::CreatingCsr { .. } => "Error creating CSR for ",
            RegistrationError::ServerCertificate { .. } => "Error fetching server certificate of ",
            RegistrationError::ReadingAnswer {
                ..
            } => "Failed to read answer from standard input while registering at ",
            RegistrationError::Untrusted { .. } => "Cannot continue without trusting ",
            RegistrationError::Password { .. } => "Failed to obtain API password for ",
            RegistrationError::Pairing { .. } => "Error pairing with ",
            RegistrationError::RegisteringHostName {
                ..
            } => "Error registering with host name at ",
            RegistrationError::RegisteringAgentLabels {
                ..
            } => "Error registering with agent labels at ",
            RegistrationError::Status { .. } => "Error querying registration status at ",
            RegistrationError::Declined { .. } => "Registration declined by Checkmk instance at ",
            RegistrationError::Saving { .. } => "Error saving connection to ",
            RegistrationError::Emitting { .. } => "Error emitting connection to ",
            RegistrationError::Unexpected { .. } => "Unexpected event while registering at ",
        }
    }

    /// The line that tells the operator what went wrong.
    pub fn message(&self) -> (text: String)
        ensures
            text@ == self@.message(),
    {
        let mut text = String::from_str(self.step());
        text.append(self.coordinates().to_string().as_str());
        match self {
            RegistrationError::Declined { message: Some(message), .. } => {
                text.append(": ");
                text.append(message.as_str());
            },
            _ => {},
        }
        text
    }

    /// The cause reported for the outside work that failed, if the failure
    /// has one.
    pub fn cause(&self) -> (cause: Option<String>)
        ensures
            cause.deep_view() == self@.cause(),
    {
        match self {
            RegistrationError::CreatingCsr { cause, .. } => Some(cause.clone()),
            RegistrationError::ServerCertificate { cause, .. } => Some(cause.clone()),
            RegistrationError::ReadingAnswer { cause, .. } => Some(cause.clone()),
            RegistrationError::Untrusted { .. } => None,
            RegistrationError::Password { cause, .. } => Some(cause.clone()),
            RegistrationError::Pairing { cause, .. } => Some(cause.clone()),
            RegistrationError::RegisteringHostName { cause, .. } => Some(cause.clone()),
            RegistrationError::RegisteringAgentLabels { cause, .. } => Some(cause.clone()),
            RegistrationError::Status { cause, .. } => Some(cause.clone()),
            RegistrationError::Declined { .. } => None,
            RegistrationError::Saving { cause, .. } => Some(cause.clone()),
            RegistrationError::Emitting { cause, .. } => Some(cause.clone()),
            RegistrationError::Unexpected { .. } => None,
        }
    }
}

} // verus!
