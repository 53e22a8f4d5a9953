use cmk_agent_ctl::coordinates::Coordinates;
use cmk_agent_ctl::trust::{
    confirmation, interpret_reply, registration_server_cert, Reply, TrustPolicy,
};
use cmk_agent_ctl::types::{ClientConfig, RegistrationConnectionConfig};

fn config(
    root_certificate: Option<&str>,
    trust_server_cert: bool,
) -> RegistrationConnectionConfig {
    RegistrationConnectionConfig {
        coordinates: Coordinates {
            server: String::from("server"),
            port: 8000,
            site: String::from("host"),
        },
        username: String::from("user"),
        password: None,
        root_certificate: root_certificate.map(String::from),
        trust_server_cert,
        client_config: ClientConfig {
            use_proxy: false,
            validate_api_cert: false,
        },
    }
}

#[test]
fn pinned_certificate_wins_over_blind_trust() {
    assert_eq!(
        registration_server_cert(&config(Some("root_certificate"), true)),
        TrustPolicy::Pinned { notice: true }
    );
    assert_eq!(
        registration_server_cert(&config(Some("root_certificate"), false)),
        TrustPolicy::Pinned { notice: false }
    );
}

#[test]
fn blind_trust_wins_over_asking() {
    assert_eq!(
        registration_server_cert(&config(None, true)),
        TrustPolicy::Blind
    );
    assert_eq!(
        registration_server_cert(&config(None, false)),
        TrustPolicy::Interactive
    );
}

#[test]
fn normalized_reply_is_judged_exactly() {
    assert_eq!(interpret_reply("y"), Reply::Accept);
    assert_eq!(interpret_reply(""), Reply::Accept);
    assert_eq!(interpret_reply("n"), Reply::Refuse);
    assert_eq!(interpret_reply("Y"), Reply::Unclear);
    assert_eq!(interpret_reply("N"), Reply::Unclear);
    assert_eq!(interpret_reply(" n"), Reply::Unclear);
    assert_eq!(interpret_reply("yes"), Reply::Unclear);
    assert_eq!(interpret_reply("no"), Reply::Unclear);
    assert_eq!(interpret_reply("yn"), Reply::Unclear);
    assert_eq!(interpret_reply("x"), Reply::Unclear);
}

#[test]
fn answer_is_judged_without_regard_to_case() {
    assert_eq!(confirmation("Y"), Reply::Accept);
    assert_eq!(confirmation("N"), Reply::Refuse);
    assert_eq!(confirmation("y"), Reply::Accept);
    assert_eq!(confirmation("n"), Reply::Refuse);
}

#[test]
fn answer_is_judged_without_regard_to_surrounding_whitespace() {
    assert_eq!(confirmation("n\n"), Reply::Refuse);
    assert_eq!(confirmation("  n \r\n"), Reply::Refuse);
    assert_eq!(confirmation("\ty\n"), Reply::Accept);
    assert_eq!(confirmation("\u{2003}N\u{a0}"), Reply::Refuse);
}

#[test]
fn empty_answer_accepts() {
    assert_eq!(confirmation(""), Reply::Accept);
    assert_eq!(confirmation("\n"), Reply::Accept);
    assert_eq!(confirmation("   "), Reply::Accept);
}

#[test]
fn other_answers_are_unclear() {
    assert_eq!(confirmation("yes\n"), Reply::Unclear);
    assert_eq!(confirmation("no\n"), Reply::Unclear);
    assert_eq!(confirmation("n n"), Reply::Unclear);
    assert_eq!(confirmation("maybe"), Reply::Unclear);
}
