use cmk_agent_ctl::attempt::{Flow, Registration};
use cmk_agent_ctl::coordinates::Coordinates;
use cmk_agent_ctl::endpoint::{
    AgentLabelsRegistration, HostNameRegistration, RegistrationEndpointCall,
};
use cmk_agent_ctl::error::RegistrationError;
use cmk_agent_ctl::flow::Stage;
use cmk_agent_ctl::pairing::PairingStage;
use cmk_agent_ctl::polling::{post_registration_conn_type, Approval, POLL_INTERVAL_SECONDS};
use cmk_agent_ctl::protocol::{Action, Event};
use cmk_agent_ctl::types::{
    ClientConfig, ConnectionType, Credentials, HostStatus, PairingResponse, ProxyPullData,
    RegistrationConnectionConfig, ServerCertificate, StatusResponse, TrustedConnection, VERSION,
};

const UUID: u128 = 0xa1a2a3a4_b1b2_41c2_91d2_d3d4d5d6d7d8;
const URL: &str = "https://server:8000/host";

fn coordinates() -> Coordinates {
    Coordinates {
        server: String::from("server"),
        port: 8000,
        site: String::from("host"),
    }
}

fn config(
    root_certificate: Option<&str>,
    password: Option<&str>,
    trust_server_cert: bool,
) -> RegistrationConnectionConfig {
    RegistrationConnectionConfig {
        coordinates: coordinates(),
        username: String::from("user"),
        password: password.map(String::from),
        root_certificate: root_certificate.map(String::from),
        trust_server_cert,
        client_config: ClientConfig {
            use_proxy: false,
            validate_api_cert: false,
        },
    }
}

fn by_host_name() -> Flow {
    Flow::Direct(RegistrationEndpointCall::HostName(HostNameRegistration {
        host_name: String::from("host"),
    }))
}

fn by_agent_labels() -> Flow {
    let mut labels = std::collections::HashMap::new();
    labels.insert(String::from("a"), String::from("b"));
    Flow::Direct(RegistrationEndpointCall::AgentLabels(
        AgentLabelsRegistration {
            agent_labels: labels,
        },
    ))
}

fn proxy() -> Flow {
    Flow::Proxy(HostNameRegistration {
        host_name: String::from("host"),
    })
}

fn csr_created() -> Event {
    Event::CsrCreated {
        csr: String::from("csr"),
        private_key: String::from("private_key"),
    }
}

fn certificate() -> Event {
    Event::Certificate {
        certificate: ServerCertificate {
            pem: String::from("pem"),
            issuers: vec![String::from("issuer")],
            subjects: vec![String::from("subject")],
            not_before: String::from("then"),
            not_after: String::from("later"),
        },
    }
}

fn answer(line: &str) -> Event {
    Event::Answer {
        line: String::from(line),
    }
}

fn password(password: &str) -> Event {
    Event::Password {
        password: String::from(password),
    }
}

fn paired() -> Event {
    Event::Paired {
        pairing_response: PairingResponse {
            root_cert: String::from("root_cert"),
            client_cert: String::from("client_cert"),
        },
    }
}

fn failed(cause: &str) -> Event {
    Event::Failed {
        cause: String::from(cause),
    }
}

fn status(
    status: Option<HostStatus>,
    connection_type: Option<ConnectionType>,
    message: Option<&str>,
) -> StatusResponse {
    StatusResponse {
        hostname: Some(String::from("host")),
        status,
        connection_type,
        message: message.map(String::from),
    }
}

fn pending() -> Event {
    Event::Status {
        status_response: status(Some(HostStatus::Pending), None, None),
    }
}

fn approved(connection_type: ConnectionType) -> Event {
    Event::Status {
        status_response: status(None, Some(connection_type), None),
    }
}

fn declined(message: Option<&str>) -> Event {
    Event::Status {
        status_response: status(Some(HostStatus::Declined), None, message),
    }
}

fn credentials(password: &str) -> Credentials {
    Credentials {
        username: String::from("user"),
        password: String::from(password),
    }
}

fn connection() -> TrustedConnection {
    TrustedConnection {
        uuid: UUID,
        private_key: String::from("private_key"),
        certificate: String::from("client_cert"),
        root_cert: String::from("root_cert"),
    }
}

fn query() -> Action {
    Action::QueryStatus {
        url: String::from(URL),
        connection: connection(),
    }
}

fn wait() -> Action {
    Action::Wait {
        seconds: 20,
        text: String::from(
            "Waiting for registration to complete on Checkmk instance, sleeping 20 s",
        ),
    }
}

fn abort(error: RegistrationError) -> Action {
    Action::Abort { error }
}

/// Feeds the events to a fresh attempt and hands back everything it asked
/// for, opening action first, with the attempt as it stands in the end.
fn play(
    config: RegistrationConnectionConfig,
    flow: Flow,
    events: Vec<Event>,
) -> (Vec<Action>, Registration) {
    let (mut attempt, first) = Registration::begin(config, flow, UUID);
    let mut actions = vec![first];
    for event in events {
        let (next, action) = attempt.advance(event);
        attempt = next;
        actions.push(action);
    }
    (actions, attempt)
}

fn pair_action(trusted_root: Option<&str>, password: &str) -> Action {
    Action::Pair {
        url: String::from(URL),
        trusted_root: trusted_root.map(String::from),
        csr: String::from("csr"),
        credentials: credentials(password),
    }
}

#[test]
fn pinned_certificate_goes_straight_to_pairing() {
    let (actions, attempt) = play(
        config(Some("root_certificate"), Some("secret"), false),
        by_host_name(),
        vec![csr_created()],
    );
    assert_eq!(
        actions,
        vec![
            Action::MakeCsr {
                id: String::from("a1a2a3a4-b1b2-41c2-91d2-d3d4d5d6d7d8")
            },
            pair_action(Some("root_certificate"), "secret"),
        ]
    );
    assert_eq!(
        attempt.stage,
        Stage::Pairing(PairingStage::AwaitingPairing {
            credentials: credentials("secret"),
            private_key: String::from("private_key"),
        })
    );
}

#[test]
fn pinned_certificate_with_blind_trust_warns_first() {
    let (actions, _) = play(
        config(Some("root_certificate"), Some("secret"), true),
        by_host_name(),
        vec![csr_created(), Event::Completed],
    );
    assert_eq!(
        actions[1..],
        [
            Action::Warn {
                text: String::from(
                    "Blind trust of server certificate enabled but a root certificate was given in the configuration and will be used to verify the server certificate."
                )
            },
            pair_action(Some("root_certificate"), "secret"),
        ]
    );
}

#[test]
fn blind_trust_asks_for_missing_password_only() {
    let (actions, _) = play(
        config(None, None, true),
        by_host_name(),
        vec![csr_created(), password("typed")],
    );
    assert_eq!(
        actions[1..],
        [
            Action::AskPassword {
                prompt: String::from("\nPlease enter password for 'user'\n> ")
            },
            pair_action(None, "typed"),
        ]
    );
}

#[test]
fn interactive_trust_fetches_shows_and_asks() {
    let (actions, _) = play(
        config(None, Some("secret"), false),
        by_host_name(),
        vec![csr_created(), certificate(), answer("\n")],
    );
    assert_eq!(
        actions[1],
        Action::FetchCertificate {
            server: String::from("server"),
            port: 8000
        }
    );
    assert_eq!(
        actions[2],
        Action::ConfirmCertificate {
            prompt: String::from(
                "Attempting to register at server:8000/host. Server certificate details:\n\n\
                 PEM-encoded certificate:\npem\n\
                 Issued by:\n\tissuer\n\
                 Issued to:\n\tsubject\n\
                 Validity:\n\tFrom then\n\tTo   later\n\
                 \nDo you want to establish this connection? [Y/n]\n> "
            )
        }
    );
    assert_eq!(actions[3], pair_action(None, "secret"));
}

#[test]
fn refusal_aborts_without_pairing() {
    let (actions, attempt) = play(
        config(None, Some("secret"), false),
        by_host_name(),
        vec![csr_created(), certificate(), answer("N\n"), paired()],
    );
    assert_eq!(
        actions[3],
        abort(RegistrationError::Untrusted {
            coordinates: coordinates()
        })
    );
    assert_eq!(actions[4], abort(RegistrationError::Unexpected {
            coordinates: coordinates()
        }));
    assert!(actions.iter().all(|a| !matches!(a, Action::Pair { .. })));
    assert_eq!(attempt.stage, Stage::Failed);
}

#[test]
fn unclear_answer_asks_again_until_clear() {
    let (actions, _) = play(
        config(None, Some("secret"), false),
        by_host_name(),
        vec![
            csr_created(),
            certificate(),
            answer("what?\n"),
            answer("yes\n"),
            answer("Y\n"),
        ],
    );
    let again = Action::ConfirmCertificate {
        prompt: String::from("Please answer 'y' or 'n'\n> "),
    };
    assert_eq!(actions[3], again);
    assert_eq!(actions[4], again);
    assert_eq!(actions[5], pair_action(None, "secret"));
}

#[test]
fn failures_while_preparing_name_their_step() {
    let run = |events: Vec<Event>| {
        play(config(None, None, false), by_host_name(), events)
            .0
            .pop()
            .unwrap()
    };
    assert_eq!(
        run(vec![failed("no entropy")]),
        abort(RegistrationError::CreatingCsr {
            coordinates: coordinates(),
            cause: String::from("no entropy")
        })
    );
    assert_eq!(
        run(vec![csr_created(), failed("unreachable")]),
        abort(RegistrationError::ServerCertificate {
            coordinates: coordinates(),
            cause: String::from("unreachable")
        })
    );
    assert_eq!(
        run(vec![csr_created(), certificate(), failed("stdin closed")]),
        abort(RegistrationError::ReadingAnswer {
            coordinates: coordinates(),
            cause: String::from("stdin closed")
        })
    );
    assert_eq!(
        run(vec![
            csr_created(),
            certificate(),
            answer("y"),
            failed("no tty")
        ]),
        abort(RegistrationError::Password {
            coordinates: coordinates(),
            cause: String::from("no tty")
        })
    );
    assert_eq!(
        run(vec![
            csr_created(),
            certificate(),
            answer("y"),
            password("typed"),
            failed("401")
        ]),
        abort(RegistrationError::Pairing {
            coordinates: coordinates(),
            cause: String::from("401")
        })
    );
}

#[test]
fn registration_uses_the_paired_root_certificate() {
    let (actions, _) = play(
        config(Some("pinned"), Some("secret"), false),
        by_host_name(),
        vec![csr_created(), paired()],
    );
    assert_eq!(
        actions[2],
        Action::RegisterWithHostName {
            url: String::from(URL),
            root_cert: String::from("root_cert"),
            credentials: credentials("secret"),
            uuid: UUID,
            host_name: String::from("host"),
        }
    );
}

#[test]
fn registration_with_labels_carries_the_labels() {
    let (actions, _) = play(
        config(Some("pinned"), Some("secret"), false),
        by_agent_labels(),
        vec![csr_created(), paired()],
    );
    let mut labels = std::collections::HashMap::new();
    labels.insert(String::from("a"), String::from("b"));
    assert_eq!(
        actions[2],
        Action::RegisterWithAgentLabels {
            url: String::from(URL),
            root_cert: String::from("root_cert"),
            credentials: credentials("secret"),
            uuid: UUID,
            agent_labels: labels,
        }
    );
}

#[test]
fn failed_registration_names_variant_and_coordinates() {
    let events = || vec![csr_created(), paired(), failed("403")];
    let (actions, _) = play(config(None, Some("s"), true), by_host_name(), events());
    assert_eq!(
        actions[3],
        abort(RegistrationError::RegisteringHostName {
            coordinates: coordinates(),
            cause: String::from("403")
        })
    );
    let (actions, _) = play(config(None, Some("s"), true), by_agent_labels(), events());
    assert_eq!(
        actions[3],
        abort(RegistrationError::RegisteringAgentLabels {
            coordinates: coordinates(),
            cause: String::from("403")
        })
    );
    let (actions, _) = play(config(None, Some("s"), true), proxy(), events());
    assert_eq!(
        actions[3],
        abort(RegistrationError::RegisteringHostName {
            coordinates: coordinates(),
            cause: String::from("403")
        })
    );
}

#[test]
fn polling_waits_twice_for_two_pending_answers() {
    let (actions, attempt) = play(
        config(None, Some("secret"), true),
        by_host_name(),
        vec![
            csr_created(),
            paired(),
            Event::Completed,
            pending(),
            Event::Completed,
            pending(),
            Event::Completed,
            approved(ConnectionType::Pull),
            Event::Completed,
        ],
    );
    assert_eq!(
        actions[3..],
        [
            query(),
            wait(),
            query(),
            wait(),
            query(),
            Action::Persist {
                connection_type: ConnectionType::Pull,
                coordinates: coordinates(),
                connection: connection(),
            },
            Action::Finish {
                message: Some(String::from("Registration complete."))
            },
        ]
    );
    let waits = actions
        .iter()
        .filter(|a| matches!(a, Action::Wait { .. }))
        .count();
    assert_eq!(waits, 2);
    assert_eq!(POLL_INTERVAL_SECONDS, 20);
    assert!(attempt.succeeded());
}

#[test]
fn immediate_approval_does_not_wait() {
    let (actions, _) = play(
        config(None, Some("secret"), true),
        by_host_name(),
        vec![
            csr_created(),
            paired(),
            Event::Completed,
            approved(ConnectionType::Push),
        ],
    );
    assert_eq!(
        actions[4],
        Action::Persist {
            connection_type: ConnectionType::Push,
            coordinates: coordinates(),
            connection: connection(),
        }
    );
    assert!(actions.iter().all(|a| !matches!(a, Action::Wait { .. })));
}

#[test]
fn decline_ends_polling_with_the_message() {
    let (actions, attempt) = play(
        config(None, Some("secret"), true),
        by_host_name(),
        vec![
            csr_created(),
            paired(),
            Event::Completed,
            pending(),
            Event::Completed,
            declined(Some("host is unknown")),
            Event::Completed,
            pending(),
        ],
    );
    assert_eq!(
        actions[6],
        abort(RegistrationError::Declined {
            coordinates: coordinates(),
            message: Some(String::from("host is unknown"))
        })
    );
    assert_eq!(actions[7], abort(RegistrationError::Unexpected {
            coordinates: coordinates()
        }));
    assert_eq!(actions[8], abort(RegistrationError::Unexpected {
            coordinates: coordinates()
        }));
    assert_eq!(attempt.stage, Stage::Failed);
    assert!(actions
        .iter()
        .all(|a| !matches!(a, Action::Persist { .. })));
}

#[test]
fn decline_without_message() {
    let (actions, _) = play(
        config(None, Some("secret"), true),
        by_host_name(),
        vec![csr_created(), paired(), Event::Completed, declined(None)],
    );
    assert_eq!(
        actions[4],
        abort(RegistrationError::Declined {
            coordinates: coordinates(),
            message: None
        })
    );
}

#[test]
fn failed_status_query_is_not_retried() {
    let (actions, attempt) = play(
        config(None, Some("secret"), true),
        by_host_name(),
        vec![csr_created(), paired(), Event::Completed, failed("timeout")],
    );
    assert_eq!(
        actions[4],
        abort(RegistrationError::Status {
            coordinates: coordinates(),
            cause: String::from("timeout")
        })
    );
    assert_eq!(attempt.stage, Stage::Failed);
}

#[test]
fn failed_save_fails_the_attempt() {
    let (actions, _) = play(
        config(None, Some("secret"), true),
        by_host_name(),
        vec![
            csr_created(),
            paired(),
            Event::Completed,
            approved(ConnectionType::Pull),
            failed("disk full"),
        ],
    );
    assert_eq!(
        actions[5],
        abort(RegistrationError::Saving {
            coordinates: coordinates(),
            cause: String::from("disk full")
        })
    );
}

#[test]
fn status_response_is_read_exactly() {
    assert_eq!(
        post_registration_conn_type(status(Some(HostStatus::Pending), None, None)),
        Approval::Pending
    );
    assert_eq!(
        post_registration_conn_type(status(None, None, Some("ignored"))),
        Approval::Pending
    );
    assert_eq!(
        post_registration_conn_type(status(Some(HostStatus::New), None, None)),
        Approval::Pending
    );
    assert_eq!(
        post_registration_conn_type(status(
            Some(HostStatus::Ready),
            Some(ConnectionType::Pull),
            None
        )),
        Approval::Approved {
            connection_type: ConnectionType::Pull
        }
    );
    assert_eq!(
        post_registration_conn_type(status(None, Some(ConnectionType::Push), None)),
        Approval::Approved {
            connection_type: ConnectionType::Push
        }
    );
    assert_eq!(
        post_registration_conn_type(status(
            Some(HostStatus::Declined),
            Some(ConnectionType::Pull),
            Some("no")
        )),
        Approval::Declined {
            message: Some(String::from("no"))
        }
    );
    assert_eq!(
        post_registration_conn_type(status(Some(HostStatus::Declined), None, None)),
        Approval::Declined { message: None }
    );
}

#[test]
fn proxy_emits_one_record_and_touches_nothing_else() {
    let (actions, attempt) = play(
        config(None, None, true),
        proxy(),
        vec![
            csr_created(),
            password("typed"),
            paired(),
            Event::Completed,
            Event::Completed,
        ],
    );
    assert_eq!(
        actions[4..],
        [
            Action::Emit {
                record: ProxyPullData {
                    agent_controller_version: String::from(VERSION),
                    connection: connection(),
                }
            },
            Action::Finish { message: None },
        ]
    );
    let emits = actions
        .iter()
        .filter(|a| matches!(a, Action::Emit { .. }))
        .count();
    assert_eq!(emits, 1);
    assert!(actions.iter().all(|a| !matches!(
        a,
        Action::Persist { .. } | Action::QueryStatus { .. } | Action::Wait { .. }
    )));
    assert!(attempt.succeeded());
}

#[test]
fn failed_emit_fails_the_attempt() {
    let (actions, _) = play(
        config(None, Some("s"), true),
        proxy(),
        vec![csr_created(), paired(), Event::Completed, failed("broken pipe")],
    );
    assert_eq!(
        actions[4],
        abort(RegistrationError::Emitting {
            coordinates: coordinates(),
            cause: String::from("broken pipe")
        })
    );
}

#[test]
fn event_that_answers_nothing_fails_the_attempt() {
    let (actions, attempt) = play(
        config(None, Some("s"), true),
        by_host_name(),
        vec![paired()],
    );
    assert_eq!(actions[1], abort(RegistrationError::Unexpected {
            coordinates: coordinates()
        }));
    assert_eq!(attempt.stage, Stage::Failed);

    let (actions, attempt) = play(
        config(None, Some("s"), true),
        proxy(),
        vec![csr_created(), paired(), pending()],
    );
    assert_eq!(actions[3], abort(RegistrationError::Unexpected {
            coordinates: coordinates()
        }));
    assert_eq!(attempt.stage, Stage::Failed);
}

#[test]
fn finished_attempt_stays_finished() {
    let (actions, attempt) = play(
        config(None, Some("s"), true),
        proxy(),
        vec![
            csr_created(),
            paired(),
            Event::Completed,
            Event::Completed,
            Event::Completed,
            csr_created(),
        ],
    );
    assert_eq!(actions[4], Action::Finish { message: None });
    assert_eq!(actions[5], abort(RegistrationError::Unexpected {
            coordinates: coordinates()
        }));
    assert_eq!(actions[6], abort(RegistrationError::Unexpected {
            coordinates: coordinates()
        }));
    assert_eq!(attempt.stage, Stage::Done);
    assert!(attempt.is_over());
    assert!(attempt.succeeded());
}

#[test]
fn failed_pairing_is_not_retried() {
    let (actions, attempt) = play(
        config(None, Some("secret"), true),
        by_host_name(),
        vec![
            csr_created(),
            failed("503"),
            paired(),
            csr_created(),
            Event::Completed,
        ],
    );
    assert_eq!(
        actions[2],
        abort(RegistrationError::Pairing {
            coordinates: coordinates(),
            cause: String::from("503")
        })
    );
    let pairs = actions
        .iter()
        .filter(|a| matches!(a, Action::Pair { .. }))
        .count();
    assert_eq!(pairs, 1);
    assert!(actions[3..].iter().all(|a| matches!(
        a,
        Action::Abort {
            error: RegistrationError::Unexpected { .. }
        }
    )));
    assert_eq!(attempt.stage, Stage::Failed);
}

#[test]
fn failed_status_query_ends_polling_after_pending_answers() {
    let (actions, attempt) = play(
        config(None, Some("secret"), true),
        by_host_name(),
        vec![
            csr_created(),
            paired(),
            Event::Completed,
            pending(),
            Event::Completed,
            pending(),
            Event::Completed,
            failed("401 unauthorized"),
            Event::Completed,
            pending(),
        ],
    );
    let error = match &actions[8] {
        Action::Abort { error } => error,
        other => panic!("unexpected action {:?}", other),
    };
    assert_eq!(
        error.message(),
        "Error querying registration status at server:8000/host"
    );
    assert_eq!(error.cause(), Some(String::from("401 unauthorized")));
    assert_eq!(error.coordinates(), &coordinates());
    let queries = actions
        .iter()
        .filter(|a| matches!(a, Action::QueryStatus { .. }))
        .count();
    let waits = actions
        .iter()
        .filter(|a| matches!(a, Action::Wait { .. }))
        .count();
    let submissions = actions
        .iter()
        .filter(|a| matches!(a, Action::RegisterWithHostName { .. }))
        .count();
    assert_eq!(queries, 3);
    assert_eq!(waits, 2);
    assert_eq!(submissions, 1);
    assert!(actions[9..].iter().all(|a| matches!(
        a,
        Action::Abort {
            error: RegistrationError::Unexpected { .. }
        }
    )));
    assert_eq!(attempt.stage, Stage::Failed);
}

#[test]
fn every_abort_names_the_configured_coordinates() {
    let runs: Vec<Vec<Event>> = vec![
        vec![failed("a")],
        vec![csr_created(), failed("b")],
        vec![csr_created(), certificate(), failed("c")],
        vec![csr_created(), certificate(), answer("n")],
        vec![csr_created(), certificate(), answer("y"), failed("d")],
        vec![
            csr_created(),
            certificate(),
            answer("y"),
            password("p"),
            failed("e"),
        ],
        vec![
            csr_created(),
            certificate(),
            answer("y"),
            password("p"),
            paired(),
            failed("f"),
        ],
        vec![Event::Completed],
    ];
    for events in runs {
        let (mut actions, _) = play(config(None, None, false), by_host_name(), events);
        match actions.pop().unwrap() {
            Action::Abort { error } => {
                assert_eq!(error.coordinates(), &coordinates());
                assert!(error.message().ends_with("server:8000/host"));
            }
            other => panic!("unexpected action {:?}", other),
        }
    }
}
