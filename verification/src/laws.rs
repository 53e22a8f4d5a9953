//! What holds of every run of a registration attempt, whatever the outside
//! world answers.
//!
//! A run is a fresh attempt together with the events reported to it, in
//! order. Its trace is everything the attempt asks for: the opening action,
//! then one action per event, so that `trace[k]` is the action that
//! `events[k]` answers and `trace[k + 1]` is what the attempt asks for next.

use crate::attempt::{advance_model, begin_model, FlowView, RegistrationView};
use crate::coordinates::CoordinatesView;
use crate::endpoint::EndpointView;
use crate::error::RegistrationErrorView;
use crate::flow::StageView;
use crate::identity::hyphenated;
use crate::pairing::PairingStageView;
use crate::polling::{approval_of, waiting_text, ApprovalView, POLL_INTERVAL_SECONDS};
use crate::protocol::{ActionView, EventView};
use crate::trust::{normalized, notice_text, password_text, reply_of};
use crate::types::{
    ConnectionType, HostStatus, PairingResponseView, RegistrationConnectionConfigView,
    StatusResponseView, TrustedConnectionView, VERSION,
};
use vstd::prelude::*;

verus! {

/// The actions an attempt asks for, one per event, when the events arrive in
/// this order.
pub open spec fn actions(attempt: RegistrationView, events: Seq<EventView>) -> Seq<ActionView>
    decreases events.len(),
{
    if events.len() == 0 {
        Seq::empty()
    } else {
        let (next, action) = advance_model(attempt, events[0]);
        seq![action] + actions(next, events.drop_first())
    }
}

/// The attempt as it stands after these events.
pub open spec fn outcome(attempt: RegistrationView, events: Seq<EventView>) -> RegistrationView
    decreases events.len(),
{
    if events.len() == 0 {
        attempt
    } else {
        outcome(advance_model(attempt, events[0]).0, events.drop_first())
    }
}

/// Everything a fresh attempt asks for: its opening action, then one action
/// per event.
pub open spec fn trace(
    config: RegistrationConnectionConfigView,
    flow: FlowView,
    uuid: u128,
    events: Seq<EventView>,
) -> Seq<ActionView> {
    let (attempt, first) = begin_model(config, flow, uuid);
    seq![first] + actions(attempt, events)
}

/// Whether an action submits a registration.
pub open spec fn submits(action: ActionView) -> bool {
    action is RegisterWithHostName || action is RegisterWithAgentLabels
}

/// The trust record an action hands out, if it hands one out: to query the
/// status with, to persist, or to emit.
pub open spec fn record_of(action: ActionView) -> Option<TrustedConnectionView> {
    match action {
        ActionView::QueryStatus { connection, .. } => Some(connection),
        ActionView::Persist { connection, .. } => Some(connection),
        ActionView::Emit { record } => Some(record.connection),
        _ => None,
    }
}

/// Whether an action fails the attempt as untrusted.
pub open spec fn aborts_untrusted(action: ActionView) -> bool {
    action matches ActionView::Abort { error } && error is Untrusted
}

/// Whether an action turns an event away that answers nothing.
pub open spec fn turns_away(action: ActionView) -> bool {
    action matches ActionView::Abort { error } && error is Unexpected
}

/// Whether `action` is what an attempt of this flow is waiting on while it
/// is in `stage`: the outside work that stage names, or, once the attempt is
/// over, the action that ended it or turned a later event away.
pub open spec fn awaits(flow: FlowView, stage: StageView, action: ActionView) -> bool {
    match stage {
        StageView::Pairing(PairingStageView::AwaitingCsr) => action is MakeCsr,
        StageView::Pairing(PairingStageView::AwaitingNotice { .. }) => action is Warn,
        StageView::Pairing(PairingStageView::AwaitingCertificate { .. }) => {
            action is FetchCertificate
        },
        StageView::Pairing(PairingStageView::AwaitingAnswer { .. }) => action is ConfirmCertificate,
        StageView::Pairing(PairingStageView::AwaitingPassword { .. }) => action is AskPassword,
        StageView::Pairing(PairingStageView::AwaitingPairing { .. }) => action is Pair,
        StageView::AwaitingRegistration { .. } => match flow {
            FlowView::Direct { endpoint: EndpointView::AgentLabels { .. } } => {
                action is RegisterWithAgentLabels
            },
            _ => action is RegisterWithHostName,
        },
        StageView::AwaitingStatus { .. } => flow is Direct && action is QueryStatus,
        StageView::AwaitingDelay { .. } => flow is Direct && action is Wait,
        StageView::AwaitingSave => flow is Direct && action is Persist,
        StageView::AwaitingEmit => flow is Proxy && action is Emit,
        StageView::Done => action.is_final(),
        StageView::Failed => action is Abort,
    }
}

/// The failure that names the step `action` asked for, the coordinates, and
/// the cause reported for it. Showing a notice and letting time pass cannot
/// fail; a failure reported for them answers nothing.
pub open spec fn failure_of(
    action: ActionView,
    coordinates: CoordinatesView,
    cause: Seq<char>,
) -> RegistrationErrorView {
    match action {
        ActionView::MakeCsr { .. } => RegistrationErrorView::CreatingCsr { coordinates, cause },
        ActionView::FetchCertificate { .. } => RegistrationErrorView::ServerCertificate {
            coordinates,
            cause,
        },
        ActionView::ConfirmCertificate { .. } => RegistrationErrorView::ReadingAnswer {
            coordinates,
            cause,
        },
        ActionView::AskPassword { .. } => RegistrationErrorView::Password { coordinates, cause },
        ActionView::Pair { .. } => RegistrationErrorView::Pairing { coordinates, cause },
        ActionView::RegisterWithHostName { .. } => RegistrationErrorView::RegisteringHostName {
            coordinates,
            cause,
        },
        ActionView::RegisterWithAgentLabels {
            ..
        } => RegistrationErrorView::RegisteringAgentLabels { coordinates, cause },
        ActionView::QueryStatus { .. } => RegistrationErrorView::Status { coordinates, cause },
        ActionView::Persist { .. } => RegistrationErrorView::Saving { coordinates, cause },
        ActionView::Emit { .. } => RegistrationErrorView::Emitting { coordinates, cause },
        _ => RegistrationErrorView::Unexpected { coordinates },
    }
}

/// An attempt asks for exactly one action per event, and never changes its
/// configuration, flow or identifier.
pub proof fn law_one_action_per_event(attempt: RegistrationView, events: Seq<EventView>)
    ensures
        actions(attempt, events).len() == events.len(),
        outcome(attempt, events).config == attempt.config,
        outcome(attempt, events).flow == attempt.flow,
        outcome(attempt, events).uuid == attempt.uuid,
    decreases events.len(),
{
    if events.len() > 0 {
        law_one_action_per_event(advance_model(attempt, events[0]).0, events.drop_first());
    }
}

/// Induction over a run: a property of (attempt, last action) that every
/// step preserves holds along the whole run, and so does whatever each step
/// guarantees of the action before it, the event, and the action after it.
proof fn lemma_along_run(
    kept: spec_fn(RegistrationView, ActionView) -> bool,
    step: spec_fn(ActionView, EventView, ActionView) -> bool,
    attempt: RegistrationView,
    last: ActionView,
    events: Seq<EventView>,
)
    requires
        kept(attempt, last),
        forall|a: RegistrationView, b: ActionView, e: EventView|
            #![trigger kept(a, b), advance_model(a, e)]
            kept(a, b) ==> kept(advance_model(a, e).0, advance_model(a, e).1) && step(
                b,
                e,
                advance_model(a, e).1,
            ),
    ensures
        ({
            let asked = seq![last] + actions(attempt, events);
            &&& asked.len() == events.len() + 1
            &&& forall|k: int|
                0 <= k < events.len() ==> step(#[trigger] asked[k], events[k], asked[k + 1])
        }),
    decreases events.len(),
{
    law_one_action_per_event(attempt, events);
    if events.len() > 0 {
        let (next, action) = advance_model(attempt, events[0]);
        let rest = events.drop_first();
        lemma_along_run(kept, step, next, action, rest);
        let asked = seq![last] + actions(attempt, events);
        let tail = seq![action] + actions(next, rest);
        assert forall|k: int| 0 <= k < events.len() implies step(
            #[trigger] asked[k],
            events[k],
            asked[k + 1],
        ) by {
            if k == 0 {
                assert(asked[1] == action);
            } else {
                assert(asked[k] == tail[k - 1]);
                assert(asked[k + 1] == tail[k]);
                assert(events[k] == rest[k - 1]);
            }
        }
    }
}

/// Induction over a run for what has to come first: if every step that
/// shows `effect` either follows a step that showed `cause` or shows it
/// itself, then along the whole run every `effect` is preceded by a `cause`,
/// unless one had been seen before the run began.
proof fn lemma_preceded(
    kept: spec_fn(RegistrationView, ActionView, bool) -> bool,
    cause: spec_fn(ActionView, EventView) -> bool,
    effect: spec_fn(ActionView) -> bool,
    attempt: RegistrationView,
    last: ActionView,
    seen: bool,
    events: Seq<EventView>,
)
    requires
        kept(attempt, last, seen),
        forall|a: RegistrationView, b: ActionView, e: EventView, s: bool|
            #![trigger kept(a, b, s), advance_model(a, e)]
            kept(a, b, s) ==> kept(advance_model(a, e).0, advance_model(a, e).1, s || cause(b, e))
                && (effect(advance_model(a, e).1) ==> s || cause(b, e)),
    ensures
        ({
            let asked = seq![last] + actions(attempt, events);
            &&& asked.len() == events.len() + 1
            &&& forall|k: int|
                0 < k <= events.len() && effect(#[trigger] asked[k]) ==> seen || exists|i: int|
                    0 <= i < k && cause(#[trigger] asked[i], events[i])
        }),
    decreases events.len(),
{
    law_one_action_per_event(attempt, events);
    if events.len() > 0 {
        let (next, action) = advance_model(attempt, events[0]);
        let rest = events.drop_first();
        let asked = seq![last] + actions(attempt, events);
        let tail = seq![action] + actions(next, rest);
        lemma_preceded(kept, cause, effect, next, action, seen || cause(last, events[0]), rest);
        assert forall|k: int| 0 < k <= events.len() && effect(#[trigger] asked[k]) implies seen
            || exists|i: int| 0 <= i < k && cause(#[trigger] asked[i], events[i]) by {
            assert(asked[k] == tail[k - 1]);
            if !seen {
                if cause(last, events[0]) {
                    assert(cause(asked[0], events[0]));
                } else {
                    assert(k > 1);
                    let i = choose|i: int| 0 <= i < k - 1 && cause(#[trigger] tail[i], rest[i]);
                    assert(asked[i + 1] == tail[i]);
                    assert(events[i + 1] == rest[i]);
                    assert(cause(asked[i + 1], events[i + 1]));
                }
            }
        }
    }
}

/// Induction over a run for what happens once at most: if every step that
/// shows `once` leaves the attempt `spent`, and a spent attempt stays spent
/// and never shows `once` again, then no run shows `once` twice.
proof fn lemma_at_most_once(
    once: spec_fn(ActionView) -> bool,
    spent: spec_fn(RegistrationView) -> bool,
    attempt: RegistrationView,
    events: Seq<EventView>,
)
    requires
        forall|a: RegistrationView, e: EventView|
            (once((#[trigger] advance_model(a, e)).1) ==> spent(advance_model(a, e).0)) && (spent(a)
                ==> spent(advance_model(a, e).0) && !once(advance_model(a, e).1)),
    ensures
        ({
            let asked = actions(attempt, events);
            &&& asked.len() == events.len()
            &&& forall|j: int, k: int|
                0 <= j < k < asked.len() ==> !(once(#[trigger] asked[j]) && once(
                    #[trigger] asked[k],
                ))
        }),
    decreases events.len(),
{
    law_one_action_per_event(attempt, events);
    if events.len() > 0 {
        let (next, action) = advance_model(attempt, events[0]);
        let rest = events.drop_first();
        let asked = actions(attempt, events);
        let later = actions(next, rest);
        let tail = seq![action] + later;
        lemma_at_most_once(once, spent, next, rest);
        let kept = |a: RegistrationView, b: ActionView| spent(a);
        let step = |b: ActionView, e: EventView, c: ActionView| !once(c);
        if once(action) {
            lemma_along_run(kept, step, next, action, rest);
        }
        assert forall|j: int, k: int| 0 <= j < k < asked.len() implies !(once(#[trigger] asked[j])
            && once(#[trigger] asked[k])) by {
            assert(asked[k] == later[k - 1]);
            if j > 0 {
                assert(asked[j] == later[j - 1]);
            } else if once(action) {
                assert(step(tail[k - 1], rest[k - 1], tail[k]));
            }
        }
    }
}

/// Whatever happens, a pairing request goes to the configured coordinates
/// under the configured user name and carries the configured root
/// certificate: the pinned one where one is pinned, none otherwise.
pub proof fn law_pairing_carries_configured_certificate(
    config: RegistrationConnectionConfigView,
    flow: FlowView,
    uuid: u128,
    events: Seq<EventView>,
)
    ensures
        ({
            let asked = trace(config, flow, uuid, events);
            forall|k: int|
                0 <= k < asked.len() ==> (#[trigger] asked[k] matches ActionView::Pair {
                    url,
                    trusted_root,
                    credentials,
                    ..
                } ==> url == config.coordinates.url() && trusted_root == config.root_certificate
                    && credentials.username == config.username)
        }),
{
    let (attempt, first) = begin_model(config, flow, uuid);
    let kept = |a: RegistrationView, b: ActionView| a.config == config;
    let step = |b: ActionView, e: EventView, c: ActionView|
        (c matches ActionView::Pair { url, trusted_root, credentials, .. } ==> url
            == config.coordinates.url() && trusted_root == config.root_certificate
            && credentials.username == config.username);
    lemma_along_run(kept, step, attempt, first, events);
    let asked = trace(config, flow, uuid, events);
    assert forall|k: int| 0 <= k < asked.len() implies (#[trigger] asked[k] matches ActionView::Pair {
        url,
        trusted_root,
        credentials,
        ..
    } ==> url == config.coordinates.url() && trusted_root == config.root_certificate
        && credentials.username == config.username) by {
        if k > 0 {
            assert(step(asked[k - 1], events[k - 1], asked[k]));
        }
    }
}

/// With a pinned root certificate, or with blind trust, the operator is
/// never asked about the server's certificate, whatever else happens.
pub proof fn law_configured_trust_never_asks(
    config: RegistrationConnectionConfigView,
    flow: FlowView,
    uuid: u128,
    events: Seq<EventView>,
)
    requires
        config.root_certificate is Some || config.trust_server_cert,
    ensures
        ({
            let asked = trace(config, flow, uuid, events);
            forall|k: int| 0 <= k < asked.len() ==> !(#[trigger] asked[k]).asks_about_certificate()
        }),
{
    let (attempt, first) = begin_model(config, flow, uuid);
    let kept = |a: RegistrationView, b: ActionView|
        a.config == config && !(a.stage matches StageView::Pairing(p) && (p is AwaitingCertificate
            || p is AwaitingAnswer));
    let step = |b: ActionView, e: EventView, c: ActionView| !c.asks_about_certificate();
    lemma_along_run(kept, step, attempt, first, events);
    let asked = trace(config, flow, uuid, events);
    assert forall|k: int| 0 <= k < asked.len() implies !(
    #[trigger] asked[k]).asks_about_certificate() by {
        if k > 0 {
            assert(step(asked[k - 1], events[k - 1], asked[k]));
        }
    }
}

/// A configured password is used as it is: the operator is never asked for
/// one, and every pairing request carries the configured value.
pub proof fn law_configured_password_is_used(
    config: RegistrationConnectionConfigView,
    flow: FlowView,
    uuid: u128,
    events: Seq<EventView>,
)
    requires
        config.password is Some,
    ensures
        ({
            let asked = trace(config, flow, uuid, events);
            forall|k: int|
                0 <= k < asked.len() ==> {
                    &&& !(#[trigger] asked[k] is AskPassword)
                    &&& asked[k] matches ActionView::Pair { credentials, .. } ==> Some(
                        credentials.password,
                    ) == config.password
                }
        }),
{
    let (attempt, first) = begin_model(config, flow, uuid);
    let kept = |a: RegistrationView, b: ActionView|
        a.config == config && !(a.stage matches StageView::Pairing(p) && p is AwaitingPassword);
    let step = |b: ActionView, e: EventView, c: ActionView|
        {
            &&& !(c is AskPassword)
            &&& c matches ActionView::Pair { credentials, .. } ==> Some(credentials.password)
                == config.password
        };
    lemma_along_run(kept, step, attempt, first, events);
    let asked = trace(config, flow, uuid, events);
    assert forall|k: int| 0 <= k < asked.len() implies {
        &&& !(#[trigger] asked[k] is AskPassword)
        &&& asked[k] matches ActionView::Pair { credentials, .. } ==> Some(credentials.password)
            == config.password
    } by {
        if k > 0 {
            assert(step(asked[k - 1], events[k - 1], asked[k]));
        }
    }
}

/// With the trust policy settled by configuration and a password
/// configured, the operator is never asked for anything.
pub proof fn law_fully_configured_never_prompts(
    config: RegistrationConnectionConfigView,
    flow: FlowView,
    uuid: u128,
    events: Seq<EventView>,
)
    requires
        config.root_certificate is Some || config.trust_server_cert,
        config.password is Some,
    ensures
        ({
            let asked = trace(config, flow, uuid, events);
            forall|k: int| 0 <= k < asked.len() ==> !(#[trigger] asked[k]).prompts()
        }),
{
    law_configured_trust_never_asks(config, flow, uuid, events);
    law_configured_password_is_used(config, flow, uuid, events);
}

/// Without a configured password, every pairing request directly follows a
/// password prompt and carries what the operator entered there.
pub proof fn law_prompted_password_is_used(
    config: RegistrationConnectionConfigView,
    flow: FlowView,
    uuid: u128,
    events: Seq<EventView>,
)
    requires
        config.password is None,
    ensures
        ({
            let asked = trace(config, flow, uuid, events);
            &&& asked.len() == events.len() + 1
            &&& forall|k: int|
                0 <= k < events.len() ==> (#[trigger] asked[k + 1] matches ActionView::Pair {
                    credentials,
                    ..
                } ==> asked[k] is AskPassword && events[k] == (EventView::Password {
                    password: credentials.password,
                }))
        }),
{
    let (attempt, first) = begin_model(config, flow, uuid);
    let kept = |a: RegistrationView, b: ActionView|
        a.config == config && (a.stage matches StageView::Pairing(p) && p is AwaitingPassword
            ==> b is AskPassword);
    let step = |b: ActionView, e: EventView, c: ActionView|
        (c matches ActionView::Pair { credentials, .. } ==> b is AskPassword && e
            == (EventView::Password { password: credentials.password }));
    lemma_along_run(kept, step, attempt, first, events);
    let asked = trace(config, flow, uuid, events);
    assert forall|k: int| 0 <= k < events.len() implies (#[trigger] asked[k + 1] matches ActionView::Pair {
        credentials,
        ..
    } ==> asked[k] is AskPassword && events[k] == (EventView::Password {
        password: credentials.password,
    })) by {
        assert(step(asked[k], events[k], asked[k + 1]));
    }
}

/// Without a configured password the operator is asked for one as soon as
/// the question of trust is settled: right after the identity exists where
/// configuration settles it silently, and right after the notice where a
/// pinned certificate overrides blind trust.
pub proof fn law_missing_password_is_asked_for(
    config: RegistrationConnectionConfigView,
    flow: FlowView,
    uuid: u128,
    csr: Seq<char>,
    private_key: Seq<char>,
)
    requires
        config.password is None,
        config.root_certificate is Some || config.trust_server_cert,
    ensures
        ({
            let created = EventView::CsrCreated { csr, private_key };
            let ask = ActionView::AskPassword { prompt: password_text(config.username) };
            if config.root_certificate is Some && config.trust_server_cert {
                let asked = trace(config, flow, uuid, seq![created, EventView::Completed]);
                asked.len() == 3 && asked[1] is Warn && asked[2] == ask
            } else {
                let asked = trace(config, flow, uuid, seq![created]);
                asked.len() == 2 && asked[1] == ask
            }
        }),
{
    let created = EventView::CsrCreated { csr, private_key };
    let (attempt, first) = begin_model(config, flow, uuid);
    let (next, action) = advance_model(attempt, created);
    if config.root_certificate is Some && config.trust_server_cert {
        let events = seq![created, EventView::Completed];
        let rest = events.drop_first();
        let (after, second) = advance_model(next, EventView::Completed);
        assert(rest[0] == EventView::Completed);
        assert(rest.drop_first() =~= Seq::<EventView>::empty());
        assert(actions(after, rest.drop_first()) =~= Seq::<ActionView>::empty());
        assert(actions(next, rest) =~= seq![second]);
        assert(actions(attempt, events) =~= seq![action, second]);
    } else {
        let events = seq![created];
        assert(events.drop_first() =~= Seq::<EventView>::empty());
        assert(actions(next, events.drop_first()) =~= Seq::<ActionView>::empty());
        assert(actions(attempt, events) =~= seq![action]);
    }
}

/// The operator is told that the pinned certificate takes precedence exactly
/// when one is pinned and blind trust is asked for as well: then the notice
/// is the first thing that follows the creation of the identity, and in no
/// other configuration is a notice ever shown.
pub proof fn law_notice_is_owed_when_pinned_overrides_blind(
    config: RegistrationConnectionConfigView,
    flow: FlowView,
    uuid: u128,
    events: Seq<EventView>,
)
    ensures
        ({
            let asked = trace(config, flow, uuid, events);
            let notice = ActionView::Warn { text: notice_text() };
            let owed = config.root_certificate is Some && config.trust_server_cert;
            &&& asked.len() == events.len() + 1
            &&& forall|k: int|
                0 <= k < asked.len() && #[trigger] asked[k] is Warn ==> owed && asked[k] == notice
            &&& owed && events.len() > 0 && events[0] is CsrCreated ==> asked[1] == notice
        }),
{
    let (attempt, first) = begin_model(config, flow, uuid);
    let notice = ActionView::Warn { text: notice_text() };
    let owed = config.root_certificate is Some && config.trust_server_cert;
    let kept = |a: RegistrationView, b: ActionView| a.config == config;
    let step = |b: ActionView, e: EventView, c: ActionView| (c is Warn ==> owed && c == notice);
    lemma_along_run(kept, step, attempt, first, events);
    let asked = trace(config, flow, uuid, events);
    assert forall|k: int| 0 <= k < asked.len() && #[trigger] asked[k] is Warn implies owed
        && asked[k] == notice by {
        if k > 0 {
            assert(step(asked[k - 1], events[k - 1], asked[k]));
        }
    }
    if events.len() > 0 {
        assert(asked[1] == advance_model(attempt, events[0]).1);
    }
}

/// Where the operator has to be asked (no pinned certificate, no blind
/// trust), the confirmation prompt comes before any pairing request.
pub proof fn law_certificate_is_confirmed_before_pairing(
    config: RegistrationConnectionConfigView,
    flow: FlowView,
    uuid: u128,
    events: Seq<EventView>,
)
    requires
        config.root_certificate is None,
        !config.trust_server_cert,
    ensures
        ({
            let asked = trace(config, flow, uuid, events);
            forall|k: int|
                0 <= k < asked.len() && #[trigger] asked[k] is Pair ==> exists|j: int|
                    0 <= j < k && #[trigger] asked[j] is ConfirmCertificate
        }),
{
    let (attempt, first) = begin_model(config, flow, uuid);
    let asked = trace(config, flow, uuid, events);
    let kept = |a: RegistrationView, b: ActionView, s: bool|
        a.config == config && (a.stage matches StageView::Pairing(p) ==> p is AwaitingCsr
            || p is AwaitingCertificate || s || (p is AwaitingAnswer && b is ConfirmCertificate));
    let cause = |b: ActionView, e: EventView| b is ConfirmCertificate;
    let effect = |c: ActionView| c is Pair;
    lemma_preceded(kept, cause, effect, attempt, first, false, events);
    assert forall|k: int| 0 <= k < asked.len() && #[trigger] asked[k] is Pair implies exists|j: int|
        0 <= j < k && #[trigger] asked[j] is ConfirmCertificate by {
        assert(effect(asked[k]));
        let j = choose|j: int| 0 <= j < k && cause(#[trigger] asked[j], events[j]);
        assert(asked[j] is ConfirmCertificate);
    }
}

/// While the operator is deciding on the certificate, an answer ends the
/// attempt if and only if it is a refusal; the attempt then fails as
/// untrusted, naming the coordinates. An unclear answer repeats the
/// question; any other goes on.
pub proof fn law_only_refusal_aborts(attempt: RegistrationView, line: Seq<char>)
    requires
        attempt.stage matches StageView::Pairing(p) && p is AwaitingAnswer,
    ensures
        ({
            let (next, action) = advance_model(attempt, EventView::Answer { line });
            let reply = reply_of(normalized(line));
            &&& reply is Refuse <==> action is Abort
            &&& reply is Refuse ==> next.stage is Failed && action == (ActionView::Abort {
                error: RegistrationErrorView::Untrusted { coordinates: attempt.config.coordinates },
            })
            &&& reply is Unclear ==> next.stage == attempt.stage && action is ConfirmCertificate
            &&& reply is Accept ==> action is AskPassword || action is Pair
        }),
{
}

/// An attempt fails as untrusted only in answer to a refusal.
pub proof fn law_untrusted_means_refused(
    config: RegistrationConnectionConfigView,
    flow: FlowView,
    uuid: u128,
    events: Seq<EventView>,
)
    ensures
        ({
            let asked = trace(config, flow, uuid, events);
            &&& asked.len() == events.len() + 1
            &&& forall|k: int|
                0 <= k < events.len() ==> (#[trigger] asked[k + 1] matches ActionView::Abort {
                    error: RegistrationErrorView::Untrusted { coordinates },
                } ==> coordinates == config.coordinates && (events[k] matches EventView::Answer {
                    line,
                } && reply_of(normalized(line)) is Refuse))
        }),
{
    let (attempt, first) = begin_model(config, flow, uuid);
    let kept = |a: RegistrationView, b: ActionView| a.config == config;
    let step = |b: ActionView, e: EventView, c: ActionView|
        (c matches ActionView::Abort { error: RegistrationErrorView::Untrusted { coordinates } }
            ==> coordinates == config.coordinates && (e matches EventView::Answer { line }
            && reply_of(normalized(line)) is Refuse));
    lemma_along_run(kept, step, attempt, first, events);
    let asked = trace(config, flow, uuid, events);
    assert forall|k: int| 0 <= k < events.len() implies (#[trigger] asked[k + 1] matches ActionView::Abort {
        error: RegistrationErrorView::Untrusted { coordinates },
    } ==> coordinates == config.coordinates && (events[k] matches EventView::Answer { line }
        && reply_of(normalized(line)) is Refuse)) by {
        assert(step(asked[k], events[k], asked[k + 1]));
    }
}

/// Once an attempt is over, it stays as it is and asks for nothing more:
/// every further event is turned away.
pub proof fn law_nothing_follows_the_end(attempt: RegistrationView, events: Seq<EventView>)
    requires
        attempt.stage.is_over(),
    ensures
        outcome(attempt, events) == attempt,
        actions(attempt, events).len() == events.len(),
        forall|k: int|
            0 <= k < events.len() ==> turns_away(#[trigger] actions(attempt, events)[k]),
    decreases events.len(),
{
    if events.len() > 0 {
        let (next, action) = advance_model(attempt, events[0]);
        let rest = events.drop_first();
        assert(next == attempt);
        law_nothing_follows_the_end(next, rest);
        assert forall|k: int| 0 <= k < events.len() implies turns_away(
            #[trigger] actions(attempt, events)[k],
        ) by {
            if k > 0 {
                assert(actions(attempt, events)[k] == actions(next, rest)[k - 1]);
            }
        }
    }
}

/// Whether an attempt has the question of trust behind it.
spec fn past_trust(stage: StageView) -> bool {
    stage matches StageView::Pairing(p) ==> p is AwaitingPassword || p is AwaitingPairing
}

proof fn lemma_never_both(attempt: RegistrationView, events: Seq<EventView>)
    ensures
        ({
            let asked = actions(attempt, events);
            forall|j: int, k: int|
                0 <= j < asked.len() && 0 <= k < asked.len() ==> !(#[trigger] asked[j] is Pair
                    && aborts_untrusted(#[trigger] asked[k]))
        }),
    decreases events.len(),
{
    law_one_action_per_event(attempt, events);
    if events.len() > 0 {
        let (next, action) = advance_model(attempt, events[0]);
        let rest = events.drop_first();
        let asked = actions(attempt, events);
        let later = actions(next, rest);
        let tail = seq![action] + later;
        lemma_never_both(next, rest);
        let kept = |a: RegistrationView, b: ActionView| past_trust(a.stage);
        let step = |b: ActionView, e: EventView, c: ActionView| !aborts_untrusted(c);
        if action is Pair {
            lemma_along_run(kept, step, next, action, rest);
        }
        if aborts_untrusted(action) {
            law_nothing_follows_the_end(next, rest);
        }
        assert forall|j: int, k: int|
            0 <= j < asked.len() && 0 <= k < asked.len() implies !(#[trigger] asked[j] is Pair
            && aborts_untrusted(#[trigger] asked[k])) by {
            if j > 0 {
                assert(asked[j] == later[j - 1]);
            }
            if k > 0 {
                assert(asked[k] == later[k - 1]);
            }
            if j == 0 && k > 0 && action is Pair {
                assert(step(tail[k - 1], rest[k - 1], tail[k]));
            }
        }
    }
}

/// A run in which the attempt fails as untrusted holds no pairing request,
/// neither before the refusal nor after it.
pub proof fn law_untrusted_run_never_pairs(
    config: RegistrationConnectionConfigView,
    flow: FlowView,
    uuid: u128,
    events: Seq<EventView>,
)
    ensures
        ({
            let asked = trace(config, flow, uuid, events);
            forall|j: int, k: int|
                0 <= j < asked.len() && 0 <= k < asked.len() ==> !(#[trigger] asked[j] is Pair
                    && aborts_untrusted(#[trigger] asked[k]))
        }),
{
    let (attempt, first) = begin_model(config, flow, uuid);
    let later = actions(attempt, events);
    let asked = trace(config, flow, uuid, events);
    law_one_action_per_event(attempt, events);
    lemma_never_both(attempt, events);
    assert forall|j: int, k: int| 0 <= j < asked.len() && 0 <= k < asked.len() implies !(
    #[trigger] asked[j] is Pair && aborts_untrusted(#[trigger] asked[k])) by {
        if j > 0 && k > 0 {
            assert(asked[j] == later[j - 1]);
            assert(asked[k] == later[k - 1]);
        }
    }
}

/// No trust record is persisted or emitted unless a pairing request was
/// answered with certificates and a registration request went through, both
/// earlier in the run.
pub proof fn law_record_follows_pairing_and_submission(
    config: RegistrationConnectionConfigView,
    flow: FlowView,
    uuid: u128,
    events: Seq<EventView>,
)
    ensures
        ({
            let asked = trace(config, flow, uuid, events);
            &&& asked.len() == events.len() + 1
            &&& forall|k: int|
                0 <= k < asked.len() && (#[trigger] asked[k] is Persist || asked[k] is Emit) ==> {
                    &&& exists|i: int|
                        0 <= i < k && #[trigger] asked[i] is Pair && events[i] is Paired
                    &&& exists|j: int|
                        0 <= j < k && submits(#[trigger] asked[j]) && events[j] is Completed
                }
        }),
{
    let (attempt, first) = begin_model(config, flow, uuid);
    let asked = trace(config, flow, uuid, events);
    let paired = |b: ActionView, e: EventView| b is Pair && e is Paired;
    let submitted = |b: ActionView, e: EventView| submits(b) && e is Completed;
    let effect = |c: ActionView| c is Persist || c is Emit;
    let kept_paired = |a: RegistrationView, b: ActionView, s: bool|
        {
            &&& (a.stage matches StageView::Pairing(p) ==> (p is AwaitingPairing ==> b is Pair))
            &&& (a.stage is AwaitingRegistration || a.stage is AwaitingStatus
                || a.stage is AwaitingDelay ==> s)
        };
    let kept_submitted = |a: RegistrationView, b: ActionView, s: bool|
        {
            &&& (a.stage is AwaitingRegistration ==> submits(b))
            &&& (a.stage is AwaitingStatus || a.stage is AwaitingDelay ==> s)
        };
    lemma_preceded(kept_paired, paired, effect, attempt, first, false, events);
    lemma_preceded(kept_submitted, submitted, effect, attempt, first, false, events);
    assert forall|k: int|
        0 <= k < asked.len() && (#[trigger] asked[k] is Persist || asked[k] is Emit) implies {
        &&& exists|i: int| 0 <= i < k && #[trigger] asked[i] is Pair && events[i] is Paired
        &&& exists|j: int| 0 <= j < k && submits(#[trigger] asked[j]) && events[j] is Completed
    } by {
        assert(effect(asked[k]));
        let i = choose|i: int| 0 <= i < k && paired(#[trigger] asked[i], events[i]);
        assert(asked[i] is Pair && events[i] is Paired);
        let j = choose|j: int| 0 <= j < k && submitted(#[trigger] asked[j], events[j]);
        assert(submits(asked[j]) && events[j] is Completed);
    }
}

/// Nothing is retried: a run holds at most one pairing request, at most one
/// registration request, and at most one request to persist a connection,
/// whatever is reported in answer to them.
pub proof fn law_pairing_and_submission_are_never_retried(
    config: RegistrationConnectionConfigView,
    flow: FlowView,
    uuid: u128,
    events: Seq<EventView>,
)
    ensures
        ({
            let asked = trace(config, flow, uuid, events);
            forall|j: int, k: int|
                0 <= j < k < asked.len() ==> {
                    &&& !(#[trigger] asked[j] is Pair && #[trigger] asked[k] is Pair)
                    &&& !(submits(asked[j]) && submits(asked[k]))
                    &&& !(asked[j] is Persist && asked[k] is Persist)
                }
        }),
{
    let (attempt, first) = begin_model(config, flow, uuid);
    let asked = trace(config, flow, uuid, events);
    let later = actions(attempt, events);
    let pairs = |c: ActionView| c is Pair;
    let paired = |a: RegistrationView|
        (a.stage matches StageView::Pairing(p) ==> p is AwaitingPairing);
    let submitted = |a: RegistrationView| !(a.stage is Pairing);
    let persists = |c: ActionView| c is Persist;
    let persisted = |a: RegistrationView| a.stage is AwaitingSave || a.stage.is_over();
    lemma_at_most_once(pairs, paired, attempt, events);
    lemma_at_most_once(|c: ActionView| submits(c), submitted, attempt, events);
    lemma_at_most_once(persists, persisted, attempt, events);
    assert forall|j: int, k: int| 0 <= j < k < asked.len() implies {
        &&& !(#[trigger] asked[j] is Pair && #[trigger] asked[k] is Pair)
        &&& !(submits(asked[j]) && submits(asked[k]))
        &&& !(asked[j] is Persist && asked[k] is Persist)
    } by {
        assert(asked[k] == later[k - 1]);
        if j > 0 {
            assert(asked[j] == later[j - 1]);
            assert(pairs(later[j - 1]) == (asked[j] is Pair));
            assert(pairs(later[k - 1]) == (asked[k] is Pair));
            assert(persists(later[j - 1]) == (asked[j] is Persist));
            assert(persists(later[k - 1]) == (asked[k] is Persist));
        }
    }
}

/// Every failure names the coordinates the attempt was configured for.
pub proof fn law_every_failure_names_the_coordinates(
    config: RegistrationConnectionConfigView,
    flow: FlowView,
    uuid: u128,
    events: Seq<EventView>,
)
    ensures
        ({
            let asked = trace(config, flow, uuid, events);
            forall|k: int|
                0 <= k < asked.len() ==> (#[trigger] asked[k] matches ActionView::Abort { error }
                    ==> error.coordinates() == config.coordinates)
        }),
{
    let (attempt, first) = begin_model(config, flow, uuid);
    let kept = |a: RegistrationView, b: ActionView| a.config == config;
    let step = |b: ActionView, e: EventView, c: ActionView|
        (c matches ActionView::Abort { error } ==> error.coordinates() == config.coordinates);
    lemma_along_run(kept, step, attempt, first, events);
    let asked = trace(config, flow, uuid, events);
    assert forall|k: int| 0 <= k < asked.len() implies (#[trigger] asked[k] matches ActionView::Abort {
        error,
    } ==> error.coordinates() == config.coordinates) by {
        if k > 0 {
            assert(step(asked[k - 1], events[k - 1], asked[k]));
        }
    }
}

/// When outside work is reported as failed, the attempt ends at once with
/// the failure that names that very step, the configured coordinates and
/// the reported cause. At every point of a run the attempt is waiting on
/// the action it asked for last.
pub proof fn law_failure_names_the_step_that_failed(
    config: RegistrationConnectionConfigView,
    flow: FlowView,
    uuid: u128,
    events: Seq<EventView>,
)
    ensures
        ({
            let asked = trace(config, flow, uuid, events);
            let start = begin_model(config, flow, uuid).0;
            &&& asked.len() == events.len() + 1
            &&& awaits(flow, outcome(start, events).stage, asked[events.len() as int])
            &&& forall|k: int|
                0 <= k < events.len() ==> (#[trigger] events[k] matches EventView::Failed { cause }
                    ==> asked[k].is_final() || asked[k + 1] == (ActionView::Abort {
                    error: failure_of(asked[k], config.coordinates, cause),
                }))
        }),
{
    let (attempt, first) = begin_model(config, flow, uuid);
    let kept = |a: RegistrationView, b: ActionView|
        a.config == config && a.flow == flow && awaits(flow, a.stage, b);
    let step = |b: ActionView, e: EventView, c: ActionView|
        (e matches EventView::Failed { cause } ==> b.is_final() || c == (ActionView::Abort {
            error: failure_of(b, config.coordinates, cause),
        }));
    lemma_along_run(kept, step, attempt, first, events);
    lemma_awaited(config, flow, attempt, first, events);
    let asked = trace(config, flow, uuid, events);
    assert forall|k: int| 0 <= k < events.len() implies (#[trigger] events[k] matches EventView::Failed {
        cause,
    } ==> asked[k].is_final() || asked[k + 1] == (ActionView::Abort {
        error: failure_of(asked[k], config.coordinates, cause),
    })) by {
        assert(step(asked[k], events[k], asked[k + 1]));
    }
}

/// After a run, the attempt is waiting on the last action it asked for.
proof fn lemma_awaited(
    config: RegistrationConnectionConfigView,
    flow: FlowView,
    attempt: RegistrationView,
    last: ActionView,
    events: Seq<EventView>,
)
    requires
        attempt.config == config,
        attempt.flow == flow,
        awaits(flow, attempt.stage, last),
    ensures
        awaits(
            flow,
            outcome(attempt, events).stage,
            (seq![last] + actions(attempt, events))[events.len() as int],
        ),
    decreases events.len(),
{
    law_one_action_per_event(attempt, events);
    if events.len() > 0 {
        let (next, action) = advance_model(attempt, events[0]);
        let rest = events.drop_first();
        lemma_awaited(config, flow, next, action, rest);
        let asked = seq![last] + actions(attempt, events);
        let tail = seq![action] + actions(next, rest);
        assert(asked[events.len() as int] == tail[rest.len() as int]);
    }
}

/// Whatever ends an attempt is the last thing it asks for: after the action
/// that finishes or aborts it, every further event is turned away.
pub proof fn law_the_end_is_final(
    config: RegistrationConnectionConfigView,
    flow: FlowView,
    uuid: u128,
    events: Seq<EventView>,
)
    ensures
        ({
            let asked = trace(config, flow, uuid, events);
            forall|j: int, k: int|
                0 <= j < k < asked.len() && (#[trigger] asked[j]).is_final() ==> turns_away(
                    #[trigger] asked[k],
                )
        }),
{
    let (attempt, first) = begin_model(config, flow, uuid);
    let kept = |a: RegistrationView, b: ActionView| (b.is_final() ==> a.stage.is_over());
    let step = |b: ActionView, e: EventView, c: ActionView| (b.is_final() ==> turns_away(c));
    lemma_along_run(kept, step, attempt, first, events);
    let asked = trace(config, flow, uuid, events);
    assert forall|j: int, k: int|
        0 <= j < k < asked.len() && (#[trigger] asked[j]).is_final() implies turns_away(
        #[trigger] asked[k],
    ) by {
        lemma_turned_away_from_then_on(asked, events, step, j, k);
    }
}

proof fn lemma_turned_away_from_then_on(
    asked: Seq<ActionView>,
    events: Seq<EventView>,
    step: spec_fn(ActionView, EventView, ActionView) -> bool,
    j: int,
    k: int,
)
    requires
        asked.len() == events.len() + 1,
        0 <= j < k < asked.len(),
        asked[j].is_final(),
        forall|b: ActionView, e: EventView, c: ActionView|
            #[trigger] step(b, e, c) == (b.is_final() ==> turns_away(c)),
        forall|i: int| 0 <= i < events.len() ==> step(#[trigger] asked[i], events[i], asked[i + 1]),
    ensures
        turns_away(asked[k]),
    decreases k - j,
{
    if k > j + 1 {
        lemma_turned_away_from_then_on(asked, events, step, j, k - 1);
    }
    assert(step(asked[k - 1], events[k - 1], asked[k]));
}

/// A declined status ends the direct flow at once, with the receiver's
/// message if it gave one, whatever else the response holds; no status
/// query and no waiting follows, whatever is reported afterwards.
pub proof fn law_decline_ends_polling(
    attempt: RegistrationView,
    response: StatusResponseView,
    later: Seq<EventView>,
)
    requires
        attempt.flow is Direct,
        attempt.stage is AwaitingStatus,
        response.status == Some(HostStatus::Declined),
    ensures
        ({
            let declined = EventView::Status { status_response: response };
            let (next, action) = advance_model(attempt, declined);
            &&& next.stage is Failed
            &&& action == (ActionView::Abort {
                error: RegistrationErrorView::Declined {
                    coordinates: attempt.config.coordinates,
                    message: response.message,
                },
            })
            &&& actions(next, later).len() == later.len()
            &&& forall|k: int|
                0 <= k < later.len() ==> !(#[trigger] actions(next, later)[k]).polls()
        }),
{
    let declined = EventView::Status { status_response: response };
    law_nothing_follows_the_end(advance_model(attempt, declined).0, later);
}

/// What is reported while polling when the receiver is undecided for a
/// while and then answers with `last`: each undecided answer, followed by
/// the end of the wait it caused, then the last answer.
pub open spec fn polling_events(
    undecided: Seq<StatusResponseView>,
    last: StatusResponseView,
) -> Seq<EventView>
    decreases undecided.len(),
{
    if undecided.len() == 0 {
        seq![EventView::Status { status_response: last }]
    } else {
        seq![EventView::Status { status_response: undecided[0] }, EventView::Completed]
            + polling_events(undecided.drop_first(), last)
    }
}

/// Polling waits exactly once per undecided answer: each such answer is
/// followed by one wait of the fixed interval and then the next query for
/// the same connection, and the approving answer at once by the request to
/// persist that connection under the type the receiver chose.
pub proof fn law_polling_waits_once_per_undecided_answer(
    attempt: RegistrationView,
    undecided: Seq<StatusResponseView>,
    last: StatusResponseView,
    connection_type: ConnectionType,
)
    requires
        attempt.flow is Direct,
        attempt.stage is AwaitingStatus,
        forall|i: int| 0 <= i < undecided.len() ==> approval_of(#[trigger] undecided[i]) is Pending,
        approval_of(last) == (ApprovalView::Approved { connection_type }),
    ensures
        ({
            let asked = actions(attempt, polling_events(undecided, last));
            let connection = attempt.stage->AwaitingStatus_connection;
            let waits = undecided.len() as int;
            &&& asked.len() == 2 * waits + 1
            &&& forall|i: int|
                0 <= i < waits ==> #[trigger] asked[2 * i] == (ActionView::Wait {
                    seconds: POLL_INTERVAL_SECONDS,
                    text: waiting_text(),
                }) && asked[2 * i + 1] == (ActionView::QueryStatus {
                    url: attempt.config.coordinates.url(),
                    connection,
                })
            &&& asked[2 * waits] == (ActionView::Persist {
                connection_type,
                coordinates: attempt.config.coordinates,
                connection,
            })
            &&& outcome(attempt, polling_events(undecided, last)).stage is AwaitingSave
        }),
    decreases undecided.len(),
{
    let events = polling_events(undecided, last);
    let connection = attempt.stage->AwaitingStatus_connection;
    let waits = undecided.len() as int;
    if undecided.len() == 0 {
        let (next, action) = advance_model(attempt, events[0]);
        assert(events.drop_first() =~= Seq::<EventView>::empty());
        assert(actions(next, events.drop_first()) =~= Seq::<ActionView>::empty());
        assert(outcome(next, events.drop_first()) == next);
    } else {
        let rest = polling_events(undecided.drop_first(), last);
        let (waiting, wait) = advance_model(attempt, events[0]);
        let after_first = events.drop_first();
        assert(after_first[0] == EventView::Completed);
        let (asking, query) = advance_model(waiting, after_first[0]);
        assert(after_first.drop_first() =~= rest);
        assert(asking.stage == attempt.stage);
        law_polling_waits_once_per_undecided_answer(
            asking,
            undecided.drop_first(),
            last,
            connection_type,
        );
        let asked = actions(attempt, events);
        let tail = actions(asking, rest);
        assert(actions(waiting, after_first) == seq![query] + tail);
        assert(asked == seq![wait] + actions(waiting, after_first));
        assert(asked =~= seq![wait, query] + tail);
        assert(outcome(waiting, after_first) == outcome(asking, rest));
        assert(outcome(attempt, events) == outcome(waiting, after_first));
        assert forall|i: int| 0 <= i < waits implies #[trigger] asked[2 * i] == (ActionView::Wait {
            seconds: POLL_INTERVAL_SECONDS,
            text: waiting_text(),
        }) && asked[2 * i + 1] == (ActionView::QueryStatus {
            url: attempt.config.coordinates.url(),
            connection,
        }) by {
            if i > 0 {
                assert(asked[2 * i] == tail[2 * (i - 1)]);
                assert(asked[2 * i + 1] == tail[2 * (i - 1) + 1]);
            }
        }
        assert(asked[2 * waits] == tail[2 * (waits - 1)]);
    }
}

/// The connection type under which a connection is persisted is the one the
/// receiver named when it approved: a request to persist directly answers
/// an approving status response to the status query before it, and is made
/// for the configured coordinates.
pub proof fn law_connection_type_is_the_receivers(
    config: RegistrationConnectionConfigView,
    flow: FlowView,
    uuid: u128,
    events: Seq<EventView>,
)
    ensures
        ({
            let asked = trace(config, flow, uuid, events);
            &&& asked.len() == events.len() + 1
            &&& forall|k: int|
                0 <= k < events.len() ==> (#[trigger] asked[k + 1] matches ActionView::Persist {
                    connection_type,
                    coordinates,
                    ..
                } ==> coordinates == config.coordinates && asked[k] is QueryStatus && (
                events[k] matches EventView::Status { status_response } && approval_of(
                    status_response,
                ) == (ApprovalView::Approved { connection_type })))
        }),
{
    let (attempt, first) = begin_model(config, flow, uuid);
    let kept = |a: RegistrationView, b: ActionView|
        a.config == config && (a.stage is AwaitingStatus ==> b is QueryStatus);
    let step = |b: ActionView, e: EventView, c: ActionView|
        (c matches ActionView::Persist { connection_type, coordinates, .. } ==> coordinates
            == config.coordinates && b is QueryStatus && (e matches EventView::Status {
            status_response,
        } && approval_of(status_response) == (ApprovalView::Approved { connection_type })));
    lemma_along_run(kept, step, attempt, first, events);
    let asked = trace(config, flow, uuid, events);
    assert forall|k: int| 0 <= k < events.len() implies (#[trigger] asked[k + 1] matches ActionView::Persist {
        connection_type,
        coordinates,
        ..
    } ==> coordinates == config.coordinates && asked[k] is QueryStatus && (
    events[k] matches EventView::Status { status_response } && approval_of(status_response) == (
    ApprovalView::Approved { connection_type }))) by {
        assert(step(asked[k], events[k], asked[k + 1]));
    }
}

/// The proxy flow never polls for approval and never asks for anything to
/// be persisted; the direct flow never emits a record. Every record that is
/// emitted carries this controller's version.
pub proof fn law_flows_keep_to_their_ends(
    config: RegistrationConnectionConfigView,
    flow: FlowView,
    uuid: u128,
    events: Seq<EventView>,
)
    ensures
        ({
            let asked = trace(config, flow, uuid, events);
            forall|k: int|
                0 <= k < asked.len() ==> {
                    &&& flow is Proxy ==> !(#[trigger] asked[k]).polls() && !(asked[k] is Persist)
                    &&& flow is Direct ==> !(asked[k] is Emit)
                    &&& asked[k] matches ActionView::Emit { record }
                        ==> record.agent_controller_version == VERSION@
                }
        }),
{
    let (attempt, first) = begin_model(config, flow, uuid);
    let kept = |a: RegistrationView, b: ActionView| a.flow == flow;
    let step = |b: ActionView, e: EventView, c: ActionView|
        {
            &&& flow is Proxy ==> !c.polls() && !(c is Persist)
            &&& flow is Direct ==> !(c is Emit)
            &&& c matches ActionView::Emit { record } ==> record.agent_controller_version
                == VERSION@
        };
    lemma_along_run(kept, step, attempt, first, events);
    let asked = trace(config, flow, uuid, events);
    assert forall|k: int| 0 <= k < asked.len() implies {
        &&& flow is Proxy ==> !(#[trigger] asked[k]).polls() && !(asked[k] is Persist)
        &&& flow is Direct ==> !(asked[k] is Emit)
        &&& asked[k] matches ActionView::Emit { record } ==> record.agent_controller_version
            == VERSION@
    } by {
        if k > 0 {
            assert(step(asked[k - 1], events[k - 1], asked[k]));
        }
    }
}

proof fn lemma_success_was_emitted(attempt: RegistrationView, events: Seq<EventView>)
    requires
        attempt.flow is Proxy,
        !(attempt.stage is Done),
        !(attempt.stage is AwaitingEmit),
        outcome(attempt, events).stage is Done,
    ensures
        exists|k: int| 0 <= k < events.len() && #[trigger] actions(attempt, events)[k] is Emit,
    decreases events.len(),
{
    law_one_action_per_event(attempt, events);
    if events.len() > 0 {
        let (next, action) = advance_model(attempt, events[0]);
        let rest = events.drop_first();
        let asked = actions(attempt, events);
        let later = actions(next, rest);
        if action is Emit {
            assert(asked[0] is Emit);
        } else {
            lemma_success_was_emitted(next, rest);
            let k = choose|k: int| 0 <= k < rest.len() && #[trigger] later[k] is Emit;
            assert(asked[k + 1] == later[k]);
        }
    }
}

/// A proxy attempt emits at most one record, and one that succeeded has
/// emitted exactly one.
pub proof fn law_proxy_emits_exactly_once(
    config: RegistrationConnectionConfigView,
    host_name: Seq<char>,
    uuid: u128,
    events: Seq<EventView>,
)
    ensures
        ({
            let flow = FlowView::Proxy { host_name };
            let asked = trace(config, flow, uuid, events);
            let end = outcome(begin_model(config, flow, uuid).0, events);
            &&& forall|j: int, k: int|
                0 <= j < k < asked.len() ==> !(#[trigger] asked[j] is Emit
                    && #[trigger] asked[k] is Emit)
            &&& end.stage is Done ==> exists|k: int|
                0 <= k < asked.len() && #[trigger] asked[k] is Emit
        }),
{
    let flow = FlowView::Proxy { host_name };
    let (attempt, first) = begin_model(config, flow, uuid);
    let asked = trace(config, flow, uuid, events);
    let later = actions(attempt, events);
    law_one_action_per_event(attempt, events);
    let once = |c: ActionView| c is Emit;
    let spent = |a: RegistrationView| a.stage is AwaitingEmit || a.stage.is_over();
    lemma_at_most_once(once, spent, attempt, events);
    assert forall|j: int, k: int| 0 <= j < k < asked.len() implies !(#[trigger] asked[j] is Emit
        && #[trigger] asked[k] is Emit) by {
        assert(asked[k] == later[k - 1]);
        if j > 0 {
            assert(asked[j] == later[j - 1]);
        }
    }
    if outcome(attempt, events).stage is Done {
        lemma_success_was_emitted(attempt, events);
        let k = choose|k: int| 0 <= k < events.len() && #[trigger] later[k] is Emit;
        assert(asked[k + 1] == later[k]);
    }
}

/// The private key generated for an attempt: the one that came with the
/// signing request, in answer to the opening action.
pub open spec fn generated_key(events: Seq<EventView>) -> Option<Seq<char>> {
    if events.len() > 0 {
        match events[0] {
            EventView::CsrCreated { private_key, .. } => Some(private_key),
            _ => None,
        }
    } else {
        None
    }
}

/// Whether a trust record holds this identifier and this private key.
pub open spec fn holds_identity(
    connection: TrustedConnectionView,
    uuid: u128,
    key: Option<Seq<char>>,
) -> bool {
    connection.uuid == uuid && Some(connection.private_key) == key
}

/// Whether an action hands on nothing but this identifier and this private
/// key: as the identifier to make the signing request for or to register,
/// or inside a trust record to query with, persist or emit.
pub open spec fn carries_identity(action: ActionView, uuid: u128, key: Option<Seq<char>>) -> bool {
    match action {
        ActionView::MakeCsr { id } => id == hyphenated(uuid),
        ActionView::RegisterWithHostName { uuid: registered, .. } => registered == uuid,
        ActionView::RegisterWithAgentLabels { uuid: registered, .. } => registered == uuid,
        _ => record_of(action) matches Some(connection) ==> holds_identity(connection, uuid, key),
    }
}

/// Whether everything an attempt has gathered so far belongs to this
/// identifier and this private key.
spec fn keeps_identity(stage: StageView, uuid: u128, key: Option<Seq<char>>) -> bool {
    match stage {
        StageView::Pairing(PairingStageView::AwaitingCsr) => false,
        StageView::Pairing(PairingStageView::AwaitingNotice { private_key, .. }) => Some(
            private_key,
        ) == key,
        StageView::Pairing(PairingStageView::AwaitingCertificate { private_key, .. }) => Some(
            private_key,
        ) == key,
        StageView::Pairing(PairingStageView::AwaitingAnswer { private_key, .. }) => Some(
            private_key,
        ) == key,
        StageView::Pairing(PairingStageView::AwaitingPassword { private_key, .. }) => Some(
            private_key,
        ) == key,
        StageView::Pairing(PairingStageView::AwaitingPairing { private_key, .. }) => Some(
            private_key,
        ) == key,
        StageView::AwaitingRegistration { pairing_result } => pairing_result.uuid == uuid && Some(
            pairing_result.private_key,
        ) == key,
        StageView::AwaitingStatus { connection } => holds_identity(connection, uuid, key),
        StageView::AwaitingDelay { connection } => holds_identity(connection, uuid, key),
        _ => true,
    }
}

/// The identity of an attempt makes the round trip unchanged: the
/// identifier generated at the start is the one the signing request is made
/// for and the one that is registered, and it and the private key that came
/// with the signing request are the ones in every trust record the attempt
/// queries with, persists or emits.
pub proof fn law_identity_round_trip(
    config: RegistrationConnectionConfigView,
    flow: FlowView,
    uuid: u128,
    events: Seq<EventView>,
)
    ensures
        ({
            let asked = trace(config, flow, uuid, events);
            forall|k: int|
                0 <= k < asked.len() ==> carries_identity(
                    #[trigger] asked[k],
                    uuid,
                    generated_key(events),
                )
        }),
{
    let (attempt, first) = begin_model(config, flow, uuid);
    let key = generated_key(events);
    let asked = trace(config, flow, uuid, events);
    law_one_action_per_event(attempt, events);
    if events.len() > 0 {
        let (next, action) = advance_model(attempt, events[0]);
        let rest = events.drop_first();
        let tail = seq![action] + actions(next, rest);
        let kept = |a: RegistrationView, b: ActionView|
            a.uuid == uuid && keeps_identity(a.stage, uuid, key);
        let step = |b: ActionView, e: EventView, c: ActionView| carries_identity(c, uuid, key);
        assert(carries_identity(action, uuid, key));
        lemma_along_run(kept, step, next, action, rest);
        assert forall|k: int| 0 <= k < asked.len() implies carries_identity(
            #[trigger] asked[k],
            uuid,
            key,
        ) by {
            if k > 1 {
                assert(asked[k] == tail[k - 1]);
                assert(step(tail[k - 2], rest[k - 2], tail[k - 1]));
            } else if k == 1 {
                assert(asked[1] == action);
            }
        }
    }
}

/// The certificates a trust record holds, as a pairing response would have
/// issued them.
pub open spec fn certificates_of(connection: TrustedConnectionView) -> PairingResponseView {
    PairingResponseView { root_cert: connection.root_cert, client_cert: connection.certificate }
}

/// The certificates in every trust record an attempt hands out are the ones
/// the receiver issued: earlier in the run a pairing request was answered
/// with exactly these two certificates.
pub proof fn law_record_holds_issued_certificates(
    config: RegistrationConnectionConfigView,
    flow: FlowView,
    uuid: u128,
    events: Seq<EventView>,
)
    ensures
        ({
            let asked = trace(config, flow, uuid, events);
            &&& asked.len() == events.len() + 1
            &&& forall|k: int|
                0 <= k < asked.len() ==> (record_of(#[trigger] asked[k]) matches Some(connection)
                    ==> exists|i: int|
                    0 <= i < k && #[trigger] asked[i] is Pair && events[i] == (EventView::Paired {
                        pairing_response: certificates_of(connection),
                    }))
        }),
{
    let (attempt, first) = begin_model(config, flow, uuid);
    let asked = trace(config, flow, uuid, events);
    law_one_action_per_event(attempt, events);
    assert forall|k: int| 0 <= k < asked.len() implies (record_of(
        #[trigger] asked[k],
    ) matches Some(connection) ==> exists|i: int|
        0 <= i < k && #[trigger] asked[i] is Pair && events[i] == (EventView::Paired {
            pairing_response: certificates_of(connection),
        })) by {
        if record_of(asked[k]) is Some {
            let issued = certificates_of(record_of(asked[k])->0);
            let answer = EventView::Paired { pairing_response: issued };
            let kept = |a: RegistrationView, b: ActionView, s: bool|
                {
                    &&& (a.stage matches StageView::Pairing(p) ==> (p is AwaitingPairing
                        ==> b is Pair))
                    &&& (a.stage matches StageView::AwaitingRegistration { pairing_result }
                        ==> (pairing_result.pairing_response == issued ==> s))
                    &&& (a.stage matches StageView::AwaitingStatus { connection } ==> (
                    certificates_of(connection) == issued ==> s))
                    &&& (a.stage matches StageView::AwaitingDelay { connection } ==> (
                    certificates_of(connection) == issued ==> s))
                };
            let cause = |b: ActionView, e: EventView| b is Pair && e == answer;
            let effect = |c: ActionView|
                (record_of(c) matches Some(handed) && certificates_of(handed) == issued);
            lemma_preceded(kept, cause, effect, attempt, first, false, events);
            assert(k > 0);
            assert(effect(asked[k]));
            let i = choose|i: int| 0 <= i < k && cause(#[trigger] asked[i], events[i]);
            assert(asked[i] is Pair && events[i] == answer);
        }
    }
}

} // verus!
