use cmk_agent_ctl::coordinates::Coordinates;
use cmk_agent_ctl::endpoint::{
    AgentLabelsRegistration, HostNameRegistration, RegistrationEndpointCall,
};
use cmk_agent_ctl::error::RegistrationError;
use cmk_agent_ctl::polling::waiting_notice;
use cmk_agent_ctl::text::{decimal, join};
use cmk_agent_ctl::trust::{
    display_cert, precedence_notice, prompt_again, prompt_password, prompt_server_certificate,
};
use cmk_agent_ctl::types::ServerCertificate;

fn coordinates() -> Coordinates {
    Coordinates {
        server: String::from("server"),
        port: 8000,
        site: String::from("host"),
    }
}

fn certificate() -> ServerCertificate {
    ServerCertificate {
        pem: String::from("-----BEGIN CERTIFICATE-----\nabc\n-----END CERTIFICATE-----"),
        issuers: vec![String::from("Site 'host' local CA"), String::from("backup CA")],
        subjects: vec![String::from("host")],
        not_before: String::from("Mon, 01 Jan 2024 00:00:00 +0000"),
        not_after: String::from("Wed, 01 Jan 2025 00:00:00 +0000"),
    }
}

#[test]
fn coordinates_render_short_form_and_url() {
    assert_eq!(coordinates().to_string(), "server:8000/host");
    assert_eq!(coordinates().to_url(), "https://server:8000/host");
}

#[test]
fn coordinates_render_any_port() {
    for port in [0u16, 7, 10, 443, 8000, 65535] {
        let coordinates = Coordinates {
            server: String::from("s"),
            port,
            site: String::from(""),
        };
        assert_eq!(coordinates.to_string(), format!("s:{}/", port));
    }
}

#[test]
fn decimal_matches_standard_rendering() {
    assert_eq!(decimal(0), "0");
    assert_eq!(decimal(9), "9");
    assert_eq!(decimal(10), "10");
    assert_eq!(decimal(8000), "8000");
    assert_eq!(decimal(65535), "65535");
    for n in 0..=u16::MAX {
        assert_eq!(decimal(n), n.to_string());
    }
}

#[test]
fn join_puts_separator_between_neighbours_only() {
    assert_eq!(join(&vec![], ", "), "");
    assert_eq!(join(&vec![String::from("a")], ", "), "a");
    assert_eq!(
        join(
            &vec![String::from("a"), String::from(""), String::from("c")],
            ", "
        ),
        "a, , c"
    );
}

#[test]
fn certificate_is_rendered_with_issuer_subject_and_validity() {
    assert_eq!(
        display_cert(&certificate()),
        "PEM-encoded certificate:\n\
         -----BEGIN CERTIFICATE-----\nabc\n-----END CERTIFICATE-----\n\
         Issued by:\n\tSite 'host' local CA, backup CA\n\
         Issued to:\n\thost\n\
         Validity:\n\tFrom Mon, 01 Jan 2024 00:00:00 +0000\n\tTo   Wed, 01 Jan 2025 00:00:00 +0000\n"
    );
}

#[test]
fn confirmation_prompt_names_coordinates_and_asks() {
    let prompt = prompt_server_certificate(&coordinates(), &certificate());
    assert_eq!(
        prompt,
        format!(
            "Attempting to register at server:8000/host. Server certificate details:\n\n{}\nDo you want to establish this connection? [Y/n]\n> ",
            display_cert(&certificate())
        )
    );
}

#[test]
fn operator_texts_are_fixed() {
    assert_eq!(prompt_again(), "Please answer 'y' or 'n'\n> ");
    assert_eq!(
        prompt_password("user"),
        "\nPlease enter password for 'user'\n> "
    );
    assert_eq!(
        precedence_notice(),
        "Blind trust of server certificate enabled but a root certificate was given in the configuration and will be used to verify the server certificate."
    );
    assert_eq!(
        waiting_notice(),
        "Waiting for registration to complete on Checkmk instance, sleeping 20 s"
    );
}

#[test]
fn completion_text_depends_on_the_variant() {
    let by_name = RegistrationEndpointCall::HostName(HostNameRegistration {
        host_name: String::from("host"),
    });
    let by_labels = RegistrationEndpointCall::AgentLabels(AgentLabelsRegistration {
        agent_labels: std::collections::HashMap::new(),
    });
    assert_eq!(by_name.completion(), "Registration complete.");
    assert_eq!(
        by_labels.completion(),
        "Registration complete. It may take few minutes until the newly created host and its services are visible in the site."
    );
}

fn every_error() -> Vec<(RegistrationError, &'static str, Option<&'static str>)> {
    let cause = || String::from("connection refused");
    vec![
        (
            RegistrationError::CreatingCsr {
                coordinates: coordinates(),
                cause: cause(),
            },
            "Error creating CSR for server:8000/host",
            Some("connection refused"),
        ),
        (
            RegistrationError::ServerCertificate {
                coordinates: coordinates(),
                cause: cause(),
            },
            "Error fetching server certificate of server:8000/host",
            Some("connection refused"),
        ),
        (
            RegistrationError::ReadingAnswer {
                coordinates: coordinates(),
                cause: cause(),
            },
            "Failed to read answer from standard input while registering at server:8000/host",
            Some("connection refused"),
        ),
        (
            RegistrationError::Untrusted {
                coordinates: coordinates(),
            },
            "Cannot continue without trusting server:8000/host",
            None,
        ),
        (
            RegistrationError::Password {
                coordinates: coordinates(),
                cause: cause(),
            },
            "Failed to obtain API password for server:8000/host",
            Some("connection refused"),
        ),
        (
            RegistrationError::Pairing {
                coordinates: coordinates(),
                cause: cause(),
            },
            "Error pairing with server:8000/host",
            Some("connection refused"),
        ),
        (
            RegistrationError::RegisteringHostName {
                coordinates: coordinates(),
                cause: cause(),
            },
            "Error registering with host name at server:8000/host",
            Some("connection refused"),
        ),
        (
            RegistrationError::RegisteringAgentLabels {
                coordinates: coordinates(),
                cause: cause(),
            },
            "Error registering with agent labels at server:8000/host",
            Some("connection refused"),
        ),
        (
            RegistrationError::Status {
                coordinates: coordinates(),
                cause: cause(),
            },
            "Error querying registration status at server:8000/host",
            Some("connection refused"),
        ),
        (
            RegistrationError::Declined {
                coordinates: coordinates(),
                message: Some(String::from("not today")),
            },
            "Registration declined by Checkmk instance at server:8000/host: not today",
            None,
        ),
        (
            RegistrationError::Declined {
                coordinates: coordinates(),
                message: None,
            },
            "Registration declined by Checkmk instance at server:8000/host",
            None,
        ),
        (
            RegistrationError::Saving {
                coordinates: coordinates(),
                cause: cause(),
            },
            "Error saving connection to server:8000/host",
            Some("connection refused"),
        ),
        (
            RegistrationError::Emitting {
                coordinates: coordinates(),
                cause: cause(),
            },
            "Error emitting connection to server:8000/host",
            Some("connection refused"),
        ),
        (
            RegistrationError::Unexpected {
                coordinates: coordinates(),
            },
            "Unexpected event while registering at server:8000/host",
            None,
        ),
    ]
}

#[test]
fn error_messages_name_step_and_coordinates() {
    for (error, message, _) in every_error() {
        assert_eq!(error.message(), message);
    }
}

#[test]
fn every_error_holds_the_coordinates() {
    for (error, _, _) in every_error() {
        assert_eq!(error.coordinates(), &coordinates());
    }
}

#[test]
fn error_keeps_the_cause_of_failed_outside_work() {
    for (error, _, cause) in every_error() {
        assert_eq!(error.cause(), cause.map(String::from));
    }
}

#[test]
fn declined_message_ends_with_the_receivers_words() {
    let error = RegistrationError::Declined {
        coordinates: coordinates(),
        message: Some(String::from("host: unknown, try again")),
    };
    assert!(error.message().ends_with(": host: unknown, try again"));
}
