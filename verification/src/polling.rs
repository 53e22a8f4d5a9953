//! Reading the receiver's answer to a status query.

use crate::types::{ConnectionType, HostStatus, StatusResponse, StatusResponseView};
use vstd::prelude::*;

verus! {

/// Seconds to let pass before asking again while the receiver is undecided.
pub const POLL_INTERVAL_SECONDS: u64 = 20;

/// Where a submitted registration stands.
#[derive(Debug, PartialEq, Eq)]
pub enum Approval {
    /// Not decided yet: ask again later.
    Pending,
    /// Accepted, to operate in this way.
    Approved { connection_type: ConnectionType },
    /// Declined, with the receiver's explanation if it gave one.
    Declined { message: Option<String> },
}

/// What an [`Approval`] value stands for.
pub enum ApprovalView {
    Pending,
    Approved { connection_type: ConnectionType },
    Declined { message: Option<Seq<char>> },
}

impl View for Approval {
    type V = ApprovalView;

    open spec fn view(&self) -> ApprovalView {
        match self {
            Approval::Pending => ApprovalView::Pending,
            Approval::Approved { connection_type } => ApprovalView::Approved {
                connection_type: *connection_type,
            },
            Approval::Declined { message } => ApprovalView::Declined {
                message: message.deep_view(),
            },
        }
    }
}

/// What a status response means. A declined status is final whatever else
/// the response holds; otherwise a connection type means approval, and its
/// absence means the receiver has not decided.
pub open spec fn approval_of(response: StatusResponseView) -> ApprovalView {
    if response.status == Some(HostStatus::Declined) {
        ApprovalView::Declined { message: response.message }
    } else {
        match response.connection_type {
            Some(connection_type) => ApprovalView::Approved { connection_type },
            None => ApprovalView::Pending,
        }
    }
}

/// What the operator is shown while waiting for the receiver to decide.
pub open spec fn waiting_text() -> Seq<char> {
    "Waiting for registration to complete on Checkmk instance, sleeping 20 s"@
}

/// The text shown while waiting for the receiver to decide.
pub fn waiting_notice() -> (text: String)
    ensures
        text@ == waiting_text(),
{
    String::from_str("Waiting for registration to complete on Checkmk instance, sleeping 20 s")
}

/// Reads a status response: declined, approved with a connection type, or
/// still pending.
pub fn post_registration_conn_type(response: StatusResponse) -> (approval: Approval)
    ensures
        approval@ == approval_of(response@),
{
    match response.status {
        Some(HostStatus::Declined) => Approval::Declined { message: response.message },
        _ => match response.connection_type {
            Some(connection_type) => Approval::Approved { connection_type },
            None => Approval::Pending,
        },
    }
}

} // verus!
