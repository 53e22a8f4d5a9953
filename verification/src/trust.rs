//! Deciding how the server's certificate is validated, and what the operator
//! is shown and asked on the way.

use crate::coordinates::{Coordinates, CoordinatesView};
use crate::text::{join, joined};
use crate::types::{
    RegistrationConnectionConfig, RegistrationConnectionConfigView, ServerCertificate,
    ServerCertificateView,
};
use vstd::prelude::*;

verus! {

/// How the server's certificate is validated before any secret is sent.
#[derive(Debug, Clone, Copy, PartialEq, Eq)]
pub enum TrustPolicy {
    /// Verify against the root certificate from the configuration. `notice`
    /// is set when blind trust was asked for as well: the operator is owed a
    /// word that the certificate takes precedence.
    Pinned { notice: bool },
    /// Skip verification without asking.
    Blind,
    /// Show the live certificate to the operator and ask.
    Interactive,
}

/// The policy a configuration selects: a root certificate wins over blind
/// trust, blind trust over asking.
pub open spec fn trust_policy(config: RegistrationConnectionConfigView) -> TrustPolicy {
    match config.root_certificate {
        Some(_) => TrustPolicy::Pinned { notice: config.trust_server_cert },
        None => if config.trust_server_cert {
            TrustPolicy::Blind
        } else {
            TrustPolicy::Interactive
        },
    }
}

/// Selects the trust policy for a configuration. The certificate handed to the
/// pairing call is the configured one under every policy: none unless pinned.
pub fn registration_server_cert(config: &RegistrationConnectionConfig) -> (policy: TrustPolicy)
    ensures
        policy == trust_policy(config@),
{
    match &config.root_certificate {
        Some(_) => TrustPolicy::Pinned { notice: config.trust_server_cert },
        None => {
            if config.trust_server_cert {
                TrustPolicy::Blind
            } else {
                TrustPolicy::Interactive
            }
        },
    }
}

/// What the operator is told when a pinned certificate overrides blind trust.
pub open spec fn notice_text() -> Seq<char> {
    "Blind trust of server certificate enabled but a root certificate was given in the configuration and will be used to verify the server certificate."@
}

/// The notice owed to the operator when a pinned certificate overrides blind
/// trust.
pub fn precedence_notice() -> (text: String)
    ensures
        text@ == notice_text(),
{
    String::from_str(
        "Blind trust of server certificate enabled but a root certificate was given in the configuration and will be used to verify the server certificate.",
    )
}

/// The rendering of a server certificate: its PEM text, who issued it, whom
/// it was issued to, and its validity window.
pub open spec fn certificate_text(certificate: ServerCertificateView) -> Seq<char> {
    "PEM-encoded certificate:\n"@ + certificate.pem + "\nIssued by:\n\t"@ + joined(
        certificate.issuers,
        ", "@,
    ) + "\nIssued to:\n\t"@ + joined(certificate.subjects, ", "@) + "\nValidity:\n\tFrom "@
        + certificate.not_before + "\n\tTo   "@ + certificate.not_after + "\n"@
}

/// Renders a server certificate for the operator.
pub fn display_cert(certificate: &ServerCertificate) -> (text: String)
    ensures
        text@ == certificate_text(certificate@),
{
    let mut text = String::from_str("PEM-encoded certificate:\n");
    text.append(certificate.pem.as_str());
    text.append("\nIssued by:\n\t");
    text.append(join(&certificate.issuers, ", ").as_str());
    text.append("\nIssued to:\n\t");
    text.append(join(&certificate.subjects, ", ").as_str());
    text.append("\nValidity:\n\tFrom ");
    text.append(certificate.not_before.as_str());
    text.append("\n\tTo   ");
    text.append(certificate.not_after.as_str());
    text.append("\n");
    text
}

/// What the operator is shown when asked to confirm a server certificate:
/// where the registration is headed, the certificate, and the question.
pub open spec fn confirmation_text(
    coordinates: CoordinatesView,
    certificate: ServerCertificateView,
) -> Seq<char> {
    "Attempting to register at "@ + coordinates.text() + ". Server certificate details:\n\n"@
        + certificate_text(certificate)
        + "\nDo you want to establish this connection? [Y/n]\n> "@
}

/// Builds the text that asks the operator to confirm a server certificate.
pub fn prompt_server_certificate(
    coordinates: &Coordinates,
    certificate: &ServerCertificate,
) -> (text: String)
    ensures
        text@ == confirmation_text(coordinates@, certificate@),
{
    let mut text = String::from_str("Attempting to register at ");
    text.append(coordinates.to_string().as_str());
    text.append(". Server certificate details:\n\n");
    text.append(display_cert(certificate).as_str());
    text.append("\nDo you want to establish this connection? [Y/n]\n> ");
    text
}

/// What the operator is shown after an answer that is neither yes nor no.
pub open spec fn retry_text() -> Seq<char> {
    "Please answer 'y' or 'n'\n> "@
}

/// Builds the text that asks the operator to answer again.
pub fn prompt_again() -> (text: String)
    ensures
        text@ == retry_text(),
{
    String::from_str("Please answer 'y' or 'n'\n> ")
}

/// What the operator is shown when asked for the password of `user`.
pub open spec fn password_text(user: Seq<char>) -> Seq<char> {
    "\nPlease enter password for '"@ + user + "'\n> "@
}

/// Builds the text that asks the operator for a password.
pub fn prompt_password(user: &str) -> (text: String)
    ensures
        text@ == password_text(user@),
{
    let mut text = String::from_str("\nPlease enter password for '");
    text.append(user);
    text.append("'\n> ");
    text
}

/// What an operator's answer to the certificate question amounts to.
#[derive(Debug, Clone, Copy, PartialEq, Eq)]
pub enum Reply {
    Accept,
    Refuse,
    Unclear,
}

/// The lower-case form of a text as `str::to_lowercase` computes it.
pub uninterp spec fn lowercase_of(text: Seq<char>) -> Seq<char>;

/// A text without leading and trailing whitespace as `str::trim` computes it.
pub uninterp spec fn trimmed_of(text: Seq<char>) -> Seq<char>;

/// An answer as it is judged: lower-cased, then trimmed.
pub open spec fn normalized(answer: Seq<char>) -> Seq<char> {
    trimmed_of(lowercase_of(answer))
}

/// What a normalized answer amounts to: the single character `y`, or
/// nothing at all, accepts; the single character `n` refuses; anything else
/// is unclear.
pub open spec fn reply_of(normalized: Seq<char>) -> Reply {
    if normalized.len() == 0 || (normalized.len() == 1 && normalized[0] == 'y') {
        Reply::Accept
    } else if normalized.len() == 1 && normalized[0] == 'n' {
        Reply::Refuse
    } else {
        Reply::Unclear
    }
}

/// Lower-cases a text with `str::to_lowercase`.
///
/// Trusted: the result depends on the text alone. Which characters change,
/// and into what, is left to the standard library's Unicode tables.
#[verifier::external_body]
fn lowercase(text: &str) -> (lower: String)
    ensures
        lower@ == lowercase_of(text@),
{
    text.to_lowercase()
}

/// Strips leading and trailing whitespace with `str::trim`.
///
/// Trusted: the result depends on the text alone. What counts as whitespace
/// is left to the standard library's Unicode tables.
#[verifier::external_body]
fn trim(text: &str) -> (trimmed: &str)
    ensures
        trimmed@ == trimmed_of(text@),
{
    text.trim()
}

/// Judges an answer that is already lower-cased and trimmed.
pub fn interpret_reply(normalized: &str) -> (reply: Reply)
    ensures
        reply == reply_of(normalized@),
{
    let length = normalized.unicode_len();
    if length == 0 {
        Reply::Accept
    } else if length == 1 {
        let only = normalized.get_char(0);
        if only == 'y' {
            Reply::Accept
        } else if only == 'n' {
            Reply::Refuse
        } else {
            Reply::Unclear
        }
    } else {
        Reply::Unclear
    }
}

/// Judges the operator's answer to the certificate question as typed:
/// case and surrounding whitespace do not matter.
pub fn confirmation(answer: &str) -> (reply: Reply)
    ensures
        reply == reply_of(normalized(answer@)),
{
    let lower = lowercase(answer);
    interpret_reply(trim(lower.as_str()))
}

} // verus!
