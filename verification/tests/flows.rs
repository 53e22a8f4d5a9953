use cmk_agent_ctl::attempt::{
    proxy_register, register_agent_labels, register_host_name, Registration,
};
use cmk_agent_ctl::coordinates::Coordinates;
use cmk_agent_ctl::error::RegistrationError;
use cmk_agent_ctl::flow::Stage;
use cmk_agent_ctl::pairing::{PairingStage, Preparation};
use cmk_agent_ctl::protocol::{Action, Event};
use cmk_agent_ctl::types::{
    AgentLabels, ClientConfig, ConnectionType, Credentials, PairingResponse, PairingResult,
    ProxyPullData, RegistrationConfigAgentLabels, RegistrationConfigHostName,
    RegistrationConnectionConfig, ServerCertificate, StatusResponse, TrustedConnection, VERSION,
};

const SITE_COORDINATES: &str = "server:8000/host";
const SITE_URL: &str = "https://server:8000/host";
const HOST_NAME: &str = "host";
const USERNAME: &str = "user";

enum RegistrationMethod {
    HostName,
    AgentLabels,
}

struct MockApi {
    expect_root_cert_for_pairing: bool,
    expected_registration_method: Option<RegistrationMethod>,
}

impl MockApi {
    fn pair(
        &self,
        base_url: &str,
        root_cert: Option<&str>,
        _csr: &str,
        _credentials: &Credentials,
    ) -> PairingResponse {
        assert!(base_url == SITE_URL);
        assert!(root_cert.is_some() == self.expect_root_cert_for_pairing);
        PairingResponse {
            root_cert: String::from("root_cert"),
            client_cert: String::from("client_cert"),
        }
    }

    fn register_with_hostname(&self, base_url: &str, host_name: &str) {
        assert!(matches!(
            self.expected_registration_method.as_ref().unwrap(),
            RegistrationMethod::HostName
        ));
        assert!(base_url == SITE_URL);
        assert!(host_name == HOST_NAME);
    }

    fn register_with_agent_labels(&self, base_url: &str, ag_labels: &AgentLabels) {
        assert!(matches!(
            self.expected_registration_method.as_ref().unwrap(),
            RegistrationMethod::AgentLabels
        ));
        assert!(base_url == SITE_URL);
        assert!(ag_labels == &agent_labels());
    }

    fn status(&self, base_url: &str, _connection: &TrustedConnection) -> StatusResponse {
        assert!(base_url == SITE_URL);
        StatusResponse {
            hostname: Some(String::from(HOST_NAME)),
            status: None,
            connection_type: Some(ConnectionType::Pull),
            message: None,
        }
    }
}

struct MockInteractiveTrust {
    expect_server_cert_prompt: bool,
    expect_password_prompt: bool,
}

impl MockInteractiveTrust {
    fn fetch_server_certificate(&self, server: &str, port: u16) -> ServerCertificate {
        assert!(self.expect_server_cert_prompt);
        assert_eq!(format!("{}:{}", server, port), "server:8000");
        ServerCertificate {
            pem: String::from("pem"),
            issuers: vec![String::from("issuer")],
            subjects: vec![String::from("subject")],
            not_before: String::from("then"),
            not_after: String::from("later"),
        }
    }

    fn prompt_server_certificate(&self, prompt: &str) -> String {
        assert!(self.expect_server_cert_prompt);
        assert!(prompt.starts_with(&format!(
            "Attempting to register at {}. Server certificate details:\n",
            SITE_COORDINATES
        )));
        String::from("y\n")
    }

    fn prompt_password(&self, prompt: &str) -> String {
        assert!(self.expect_password_prompt);
        assert_eq!(prompt, format!("\nPlease enter password for '{}'\n> ", USERNAME));
        String::from("password")
    }
}

struct MockRegistry {
    connections: Vec<(ConnectionType, Coordinates, TrustedConnection)>,
    saved: bool,
}

impl MockRegistry {
    fn is_empty(&self) -> bool {
        self.connections.is_empty()
    }

    fn path_exists(&self) -> bool {
        self.saved
    }
}

struct Emitted {
    records: Vec<ProxyPullData>,
    status_queries: usize,
}

fn registry() -> MockRegistry {
    MockRegistry {
        connections: Vec::new(),
        saved: false,
    }
}

fn agent_labels() -> AgentLabels {
    let mut al = std::collections::HashMap::new();
    al.insert(String::from("a"), String::from("b"));
    al
}

fn site_coordinates() -> Coordinates {
    Coordinates {
        server: String::from("server"),
        port: 8000,
        site: String::from("host"),
    }
}

fn registration_connection_config(
    root_certificate: Option<String>,
    password: Option<String>,
    trust_server_cert: bool,
) -> RegistrationConnectionConfig {
    RegistrationConnectionConfig {
        coordinates: site_coordinates(),
        username: String::from(USERNAME),
        password,
        root_certificate,
        trust_server_cert,
        client_config: ClientConfig {
            use_proxy: false,
            validate_api_cert: false,
        },
    }
}

/// Does what an action asks for against the mocks and reports the outcome.
fn perform(
    action: Action,
    api: &MockApi,
    trust: &MockInteractiveTrust,
    registry: &mut MockRegistry,
    emitted: &mut Emitted,
) -> Event {
    match action {
        Action::MakeCsr { id } => {
            assert_eq!(id.len(), 36);
            Event::CsrCreated {
                csr: format!("csr for {}", id),
                private_key: String::from("private_key"),
            }
        }
        Action::Warn { .. } => Event::Completed,
        Action::FetchCertificate { server, port } => Event::Certificate {
            certificate: trust.fetch_server_certificate(&server, port),
        },
        Action::ConfirmCertificate { prompt } => Event::Answer {
            line: trust.prompt_server_certificate(&prompt),
        },
        Action::AskPassword { prompt } => Event::Password {
            password: trust.prompt_password(&prompt),
        },
        Action::Pair {
            url,
            trusted_root,
            csr,
            credentials,
        } => Event::Paired {
            pairing_response: api.pair(&url, trusted_root.as_deref(), &csr, &credentials),
        },
        Action::RegisterWithHostName { url, host_name, .. } => {
            api.register_with_hostname(&url, &host_name);
            Event::Completed
        }
        Action::RegisterWithAgentLabels {
            url, agent_labels, ..
        } => {
            api.register_with_agent_labels(&url, &agent_labels);
            Event::Completed
        }
        Action::QueryStatus { url, connection } => {
            emitted.status_queries += 1;
            Event::Status {
                status_response: api.status(&url, &connection),
            }
        }
        Action::Wait { .. } => Event::Completed,
        Action::Persist {
            connection_type,
            coordinates,
            connection,
        } => {
            registry
                .connections
                .push((connection_type, coordinates, connection));
            registry.saved = true;
            Event::Completed
        }
        Action::Emit { record } => {
            emitted.records.push(record);
            Event::Completed
        }
        Action::Finish { .. } | Action::Abort { .. } => unreachable!(),
    }
}

fn prepare_registration(
    config: &RegistrationConnectionConfig,
    api: &MockApi,
    trust: &MockInteractiveTrust,
) -> Result<(Credentials, PairingResult), RegistrationError> {
    let uuid = 0xa1a2a3a4_b1b2_41c2_91d2_d3d4d5d6d7d8u128;
    let mut stage = PairingStage::AwaitingCsr;
    let mut event = Event::CsrCreated {
        csr: String::from("csr"),
        private_key: String::from("private_key"),
    };
    let mut unused_registry = registry();
    let mut unused_output = Emitted {
        records: Vec::new(),
        status_queries: 0,
    };
    loop {
        match cmk_agent_ctl::pairing::prepare_registration(config, uuid, stage, event) {
            Preparation::Pending {
                stage: next,
                action,
            } => {
                stage = next;
                event = perform(action, api, trust, &mut unused_registry, &mut unused_output);
            }
            Preparation::Paired {
                credentials,
                pairing_result,
            } => return Ok((credentials, pairing_result)),
            Preparation::Failed { error } => return Err(error),
        }
    }
}

fn run(
    start: (Registration, Action),
    api: &MockApi,
    trust: &MockInteractiveTrust,
    registry: &mut MockRegistry,
    emitted: &mut Emitted,
) -> Result<Option<String>, RegistrationError> {
    let (mut attempt, mut action) = start;
    loop {
        match action {
            Action::Finish { message } => {
                assert!(attempt.succeeded());
                return Ok(message);
            }
            Action::Abort { error } => {
                assert!(attempt.is_over() && !attempt.succeeded());
                return Err(error);
            }
            other => {
                let event = perform(other, api, trust, registry, emitted);
                let next = attempt.advance(event);
                attempt = next.0;
                action = next.1;
            }
        }
    }
}

#[test]
fn test_interactive_trust() {
    assert!(prepare_registration(
        &registration_connection_config(None, None, false),
        &MockApi {
            expect_root_cert_for_pairing: false,
            expected_registration_method: None,
        },
        &MockInteractiveTrust {
            expect_server_cert_prompt: true,
            expect_password_prompt: true,
        },
    )
    .is_ok());
}

#[test]
fn test_blind_trust() {
    assert!(prepare_registration(
        &registration_connection_config(None, Some(String::from("password")), true),
        &MockApi {
            expect_root_cert_for_pairing: false,
            expected_registration_method: None,
        },
        &MockInteractiveTrust {
            expect_server_cert_prompt: false,
            expect_password_prompt: false,
        },
    )
    .is_ok());
}

#[test]
fn test_root_cert_from_config() {
    assert!(prepare_registration(
        &registration_connection_config(
            Some(String::from("root_certificate")),
            Some(String::from("password")),
            false
        ),
        &MockApi {
            expect_root_cert_for_pairing: true,
            expected_registration_method: None,
        },
        &MockInteractiveTrust {
            expect_server_cert_prompt: false,
            expect_password_prompt: false,
        },
    )
    .is_ok());
}

#[test]
fn test_root_cert_from_config_and_blind_trust() {
    assert!(prepare_registration(
        &registration_connection_config(Some(String::from("root_certificate")), None, true),
        &MockApi {
            expect_root_cert_for_pairing: true,
            expected_registration_method: None,
        },
        &MockInteractiveTrust {
            expect_server_cert_prompt: false,
            expect_password_prompt: true,
        },
    )
    .is_ok());
}

#[test]
fn test_host_name() {
    let mut registry = registry();
    let mut emitted = Emitted {
        records: Vec::new(),
        status_queries: 0,
    };
    assert!(!registry.path_exists());
    let outcome = run(
        register_host_name(&RegistrationConfigHostName {
            connection_config: registration_connection_config(None, None, false),
            host_name: String::from(HOST_NAME),
        }),
        &MockApi {
            expect_root_cert_for_pairing: false,
            expected_registration_method: Some(RegistrationMethod::HostName),
        },
        &MockInteractiveTrust {
            expect_server_cert_prompt: true,
            expect_password_prompt: true,
        },
        &mut registry,
        &mut emitted,
    );
    assert!(outcome.is_ok());
    assert!(!registry.is_empty());
    assert!(registry.path_exists());
    assert_eq!(outcome.unwrap().unwrap(), "Registration complete.");
    assert_eq!(registry.connections.len(), 1);
    assert_eq!(registry.connections[0].0, ConnectionType::Pull);
    assert_eq!(registry.connections[0].1.to_string(), SITE_COORDINATES);
    assert_eq!(registry.connections[0].2.private_key, "private_key");
    assert_eq!(registry.connections[0].2.certificate, "client_cert");
    assert_eq!(registry.connections[0].2.root_cert, "root_cert");
    assert!(emitted.records.is_empty());
    assert_eq!(emitted.status_queries, 1);
}

#[test]
fn test_agent_labels() {
    let mut registry = registry();
    let mut emitted = Emitted {
        records: Vec::new(),
        status_queries: 0,
    };
    assert!(!registry.path_exists());
    let outcome = run(
        register_agent_labels(&RegistrationConfigAgentLabels {
            connection_config: registration_connection_config(
                Some(String::from("root_certificate")),
                Some(String::from("password")),
                false,
            ),
            agent_labels: agent_labels(),
        }),
        &MockApi {
            expect_root_cert_for_pairing: true,
            expected_registration_method: Some(RegistrationMethod::AgentLabels),
        },
        &MockInteractiveTrust {
            expect_server_cert_prompt: false,
            expect_password_prompt: false,
        },
        &mut registry,
        &mut emitted,
    );
    assert!(outcome.is_ok());
    assert!(!registry.is_empty());
    assert!(registry.path_exists());
    assert_eq!(
        outcome.unwrap().unwrap(),
        "Registration complete. It may take few minutes until the newly created host and its services are visible in the site."
    );
}

#[test]
fn test_proxy() {
    let mut registry = registry();
    let mut emitted = Emitted {
        records: Vec::new(),
        status_queries: 0,
    };
    let start = proxy_register(&RegistrationConfigHostName {
        connection_config: registration_connection_config(None, None, true),
        host_name: String::from(HOST_NAME),
    });
    let uuid = start.0.uuid;
    let outcome = run(
        start,
        &MockApi {
            expect_root_cert_for_pairing: false,
            expected_registration_method: Some(RegistrationMethod::HostName),
        },
        &MockInteractiveTrust {
            expect_server_cert_prompt: false,
            expect_password_prompt: true,
        },
        &mut registry,
        &mut emitted,
    );
    assert!(outcome.is_ok());
    assert_eq!(outcome.unwrap(), None);
    assert_eq!(
        emitted.records,
        vec![ProxyPullData {
            agent_controller_version: String::from(VERSION),
            connection: TrustedConnection {
                uuid,
                private_key: String::from("private_key"),
                certificate: String::from("client_cert"),
                root_cert: String::from("root_cert"),
            },
        }]
    );
    assert!(registry.is_empty());
    assert!(!registry.path_exists());
    assert_eq!(emitted.status_queries, 0);
}

#[test]
fn pairing_result_keeps_generated_identity() {
    let (credentials, pairing_result) = prepare_registration(
        &registration_connection_config(None, Some(String::from("secret")), true),
        &MockApi {
            expect_root_cert_for_pairing: false,
            expected_registration_method: None,
        },
        &MockInteractiveTrust {
            expect_server_cert_prompt: false,
            expect_password_prompt: false,
        },
    )
    .unwrap();
    assert_eq!(
        credentials,
        Credentials {
            username: String::from(USERNAME),
            password: String::from("secret"),
        }
    );
    assert_eq!(
        pairing_result,
        PairingResult {
            uuid: 0xa1a2a3a4_b1b2_41c2_91d2_d3d4d5d6d7d8,
            private_key: String::from("private_key"),
            pairing_response: PairingResponse {
                root_cert: String::from("root_cert"),
                client_cert: String::from("client_cert"),
            },
        }
    );
    assert_eq!(
        pairing_result.into_connection(),
        TrustedConnection {
            uuid: 0xa1a2a3a4_b1b2_41c2_91d2_d3d4d5d6d7d8,
            private_key: String::from("private_key"),
            certificate: String::from("client_cert"),
            root_cert: String::from("root_cert"),
        }
    );
}

#[test]
fn stage_after_start_awaits_the_signing_request() {
    let (attempt, action) = proxy_register(&RegistrationConfigHostName {
        connection_config: registration_connection_config(None, None, true),
        host_name: String::from(HOST_NAME),
    });
    assert_eq!(attempt.stage, Stage::Pairing(PairingStage::AwaitingCsr));
    assert!(!attempt.is_over());
    assert!(!action.is_final());
    assert!(matches!(action, Action::MakeCsr { .. }));
}
