use std::path::PathBuf;
use v_kafka::app::form::{ClusterForm, ClusterFormField};
use v_kafka::app::{App, InputMode, View};
use v_kafka::config::cluster::{AuthMechanism, ClusterConfig, SaslConfig, SchemaRegistryConfig, SslConfig};
use v_kafka::config::profile::ProfileManager;
use v_kafka::events::handler::{Action, KeyCode, KeyPress};
use v_kafka::kafka::metadata::{cached_metadata, topic_meta, BrokerMeta};

fn cluster(name: &str) -> ClusterConfig {
    ClusterConfig {
        name: name.to_string(),
        bootstrap_servers: "k:9092".to_string(),
        auth: AuthMechanism::Plaintext,
        ssl: SslConfig::default(),
        sasl: SaslConfig::default(),
        schema_registry: None,
        client_id: None,
        group_id: None,
    }
}

fn app_with(names: &[&str]) -> App {
    App::new(ProfileManager { profiles: names.iter().map(|n| cluster(n)).collect(), config_path: PathBuf::new() })
}

fn press(app: &mut App, code: KeyCode) -> Action {
    app.handle_key_event(KeyPress { code, ctrl: false })
}

fn type_text(app: &mut App, text: &str) {
    for c in text.chars() {
        press(app, KeyCode::Char(c));
    }
}

fn focused(app: &App) -> ClusterFormField {
    let fields = app.cluster_form.fields();
    fields[app.cluster_form.focused_field_index.min(fields.len() - 1)]
}

#[test]
fn fields_follow_the_mechanism() {
    type F = ClusterFormField;
    assert_eq!(
        F::fields_for(AuthMechanism::Plaintext),
        vec![
            F::Name,
            F::BootstrapServers,
            F::AuthMechanism,
            F::ClientId,
            F::GroupId,
            F::SchemaRegistryUrl,
            F::SchemaRegistryUsername,
            F::SchemaRegistryPassword,
            F::Submit
        ]
    );
    assert_eq!(F::fields_for(AuthMechanism::SaslPlain)[3..5], [F::Username, F::Password]);
    assert_eq!(F::fields_for(AuthMechanism::SaslScramSha512).len(), 16);
    assert_eq!(
        F::fields_for(AuthMechanism::Kerberos)[3..6],
        [F::KerberosPrincipal, F::KerberosKeytab, F::KerberosServiceName]
    );
}

#[test]
fn new_cluster_typed_and_navigated() {
    let mut app = app_with(&[]);
    press(&mut app, KeyCode::Char('n'));
    type_text(&mut app, "dev");
    assert_eq!(app.cluster_form.name, "dev");
    press(&mut app, KeyCode::Backspace);
    assert_eq!(app.cluster_form.name, "de");
    press(&mut app, KeyCode::Tab);
    assert_eq!(focused(&app), ClusterFormField::BootstrapServers);
    type_text(&mut app, "b:9092");
    assert_eq!(app.cluster_form.bootstrap_servers, "b:9092");
    press(&mut app, KeyCode::BackTab);
    press(&mut app, KeyCode::BackTab);
    assert_eq!(app.cluster_form.focused_field_index, 0);
    // `j` and `k` move between fields rather than typing
    press(&mut app, KeyCode::Char('j'));
    assert_eq!(focused(&app), ClusterFormField::BootstrapServers);
    press(&mut app, KeyCode::Char('k'));
    assert_eq!(focused(&app), ClusterFormField::Name);
}

#[test]
fn mechanism_selector_and_hostname_switch() {
    let mut app = app_with(&[]);
    press(&mut app, KeyCode::Char('n'));
    press(&mut app, KeyCode::Tab);
    press(&mut app, KeyCode::Tab);
    assert_eq!(focused(&app), ClusterFormField::AuthMechanism);
    press(&mut app, KeyCode::Enter);
    assert_eq!(app.cluster_form.current_auth(), AuthMechanism::Ssl);
    press(&mut app, KeyCode::Up);
    assert_eq!(app.cluster_form.auth_index, 0);
    press(&mut app, KeyCode::Up);
    assert_eq!(app.cluster_form.auth_index, 0);
    for _ in 0..7 {
        press(&mut app, KeyCode::Down);
    }
    assert_eq!(app.cluster_form.current_auth(), AuthMechanism::Kerberos);
    press(&mut app, KeyCode::Enter);
    assert_eq!(app.cluster_form.current_auth(), AuthMechanism::Plaintext);
    press(&mut app, KeyCode::Enter);
    assert_eq!(app.cluster_form.current_auth(), AuthMechanism::Ssl);
    // CaCertPath, ClientCertPath, ClientKeyPath, ClientKeyPassword, VerifyHostname
    for _ in 0..5 {
        press(&mut app, KeyCode::Tab);
    }
    assert_eq!(focused(&app), ClusterFormField::VerifyHostname);
    assert!(!app.cluster_form.verify_hostname);
    press(&mut app, KeyCode::Enter);
    assert!(app.cluster_form.verify_hostname);
    press(&mut app, KeyCode::Down);
    assert!(!app.cluster_form.verify_hostname);
    press(&mut app, KeyCode::Up);
    assert!(app.cluster_form.verify_hostname);
    press(&mut app, KeyCode::Char('x'));
    assert!(app.cluster_form.verify_hostname);
}

#[test]
fn focus_stays_within_fields() {
    let mut app = app_with(&[]);
    press(&mut app, KeyCode::Char('n'));
    for _ in 0..30 {
        press(&mut app, KeyCode::Tab);
    }
    assert_eq!(focused(&app), ClusterFormField::Submit);
    assert_eq!(app.cluster_form.focused_field_index, 8);
}

#[test]
fn blank_name_or_servers_refused() {
    let mut app = app_with(&[]);
    press(&mut app, KeyCode::Char('n'));
    type_text(&mut app, "  ");
    for _ in 0..10 {
        press(&mut app, KeyCode::Tab);
    }
    assert_eq!(press(&mut app, KeyCode::Enter), Action::Idle);
    assert_eq!(app.error_message.as_deref(), Some("Name and Bootstrap Servers are required"));
    press(&mut app, KeyCode::Char('z'));
    assert_eq!(app.error_message, None);
    assert_eq!(app.current_view, View::ClusterForm);
}

#[test]
fn submit_asks_for_connection_test() {
    let mut app = app_with(&[]);
    press(&mut app, KeyCode::Char('n'));
    type_text(&mut app, "dev");
    press(&mut app, KeyCode::Tab);
    type_text(&mut app, "b:9092");
    for _ in 0..10 {
        press(&mut app, KeyCode::Tab);
    }
    assert_eq!(press(&mut app, KeyCode::Enter), Action::SaveAndTest);
    assert_eq!(app.status_message.as_deref(), Some("Testing connection to b:9092…"));
}

#[test]
fn tested_new_cluster_is_appended() {
    let mut app = app_with(&["a"]);
    press(&mut app, KeyCode::Char('n'));
    type_text(&mut app, "dev");
    press(&mut app, KeyCode::Tab);
    type_text(&mut app, "b:9092");
    let meta = cached_metadata(
        vec![BrokerMeta { id: 1, host: "h".to_string(), port: 9092 }],
        vec![topic_meta("t".to_string(), vec![]), topic_meta("__consumer_offsets".to_string(), vec![])],
    );
    app.on_form_tested(Ok(meta));
    assert_eq!(app.profile_manager.profiles.len(), 2);
    assert_eq!(app.profile_manager.profiles[1].name, "dev");
    assert_eq!(app.profile_manager.profiles[1].bootstrap_servers, "b:9092");
    assert_eq!(app.profile_manager.profiles[1].client_id, None);
    assert_eq!(app.current_view, View::ClusterList);
    assert_eq!(app.input_mode, InputMode::Normal);
    assert_eq!(app.status_message.as_deref(), Some("✓ 'dev' saved — 1 broker(s), 1 topics"));
}

#[test]
fn tested_edit_replaces_profile_even_on_failure() {
    let mut app = app_with(&["a", "b"]);
    press(&mut app, KeyCode::Down);
    press(&mut app, KeyCode::Char('e'));
    assert_eq!(app.cluster_form.name, "b");
    press(&mut app, KeyCode::Backspace);
    type_text(&mut app, "c");
    app.on_form_tested(Err("timed out".to_string()));
    assert_eq!(app.profile_manager.profiles.len(), 2);
    assert_eq!(app.profile_manager.profiles[0].name, "a");
    assert_eq!(app.profile_manager.profiles[1].name, "c");
    assert_eq!(app.status_message.as_deref(), Some("Saved 'c' (connection test: timed out)"));
}

#[test]
fn form_round_trips_a_cluster() {
    let mut c = cluster("prod");
    c.auth = AuthMechanism::SaslScramSha256;
    c.sasl.username = Some("u".to_string());
    c.ssl.ca_cert_path = Some("/ca.pem".to_string());
    c.ssl.verify_hostname = true;
    c.group_id = Some("g".to_string());
    c.schema_registry = Some(SchemaRegistryConfig { url: "http://sr".to_string(), username: None, password: Some("p".to_string()) });
    let form = ClusterForm::from_config(&c);
    assert_eq!(form.auth_index, 3);
    assert_eq!(form.text_of(ClusterFormField::Username).map(|s| s.as_str()), Some("u"));
    assert_eq!(form.text_of(ClusterFormField::AuthMechanism), None);
    let back = form.to_cluster_config();
    assert_eq!(back.to_rdkafka_config(), c.to_rdkafka_config());
    let sr = back.schema_registry.unwrap();
    assert_eq!(sr.url, "http://sr");
    assert_eq!(sr.username, None);
    assert_eq!(sr.password.as_deref(), Some("p"));
}
