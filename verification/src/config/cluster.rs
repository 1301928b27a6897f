//! The settings of one Kafka cluster and the client configuration entries
//! they produce.

use vstd::prelude::*;
use crate::text::owned;

verus! {

/// Authentication mechanism used to reach the brokers.
#[derive(Debug, Clone, Copy, PartialEq, Eq, Structural)]
pub enum AuthMechanism {
    Plaintext,
    Ssl,
    SaslPlain,
    SaslScramSha256,
    SaslScramSha512,
    Kerberos,
}

impl Default for AuthMechanism {
    fn default() -> (r: Self)
        ensures
            r == AuthMechanism::Plaintext,
    {
        AuthMechanism::Plaintext
    }
}

/// TLS settings.
#[derive(Debug, Clone)]
pub struct SslConfig {
    pub ca_cert_path: Option<String>,
    pub client_cert_path: Option<String>,
    pub client_key_path: Option<String>,
    pub client_key_password: Option<String>,
    pub verify_hostname: bool,
}

impl Default for SslConfig {
    fn default() -> (r: Self)
        ensures
            r.ca_cert_path is None,
            r.client_cert_path is None,
            r.client_key_path is None,
            r.client_key_password is None,
            !r.verify_hostname,
    {
        SslConfig {
            ca_cert_path: None,
            client_cert_path: None,
            client_key_path: None,
            client_key_password: None,
            verify_hostname: false,
        }
    }
}

/// SASL credentials and Kerberos settings.
#[derive(Debug, Clone)]
pub struct SaslConfig {
    pub username: Option<String>,
    pub password: Option<String>,
    /// Kerberos principal
    pub kerberos_principal: Option<String>,
    /// Kerberos keytab path
    pub kerberos_keytab: Option<String>,
    /// Kerberos service name (default: "kafka")
    pub kerberos_service_name: Option<String>,
}

impl Default for SaslConfig {
    fn default() -> (r: Self)
        ensures
            r.username is None,
            r.password is None,
            r.kerberos_principal is None,
            r.kerberos_keytab is None,
            r.kerberos_service_name is None,
    {
        SaslConfig {
            username: None,
            password: None,
            kerberos_principal: None,
            kerberos_keytab: None,
            kerberos_service_name: None,
        }
    }
}

/// Where the Schema Registry of a cluster is and how to log in to it.
#[derive(Debug, Clone)]
pub struct SchemaRegistryConfig {
    pub url: String,
    pub username: Option<String>,
    pub password: Option<String>,
}

/// A single Kafka cluster connection configuration.
#[derive(Debug, Clone)]
pub struct ClusterConfig {
    /// Display name for the cluster
    pub name: String,
    /// Comma-separated list of bootstrap brokers
    pub bootstrap_servers: String,
    /// Authentication mechanism
    pub auth: AuthMechanism,
    /// TLS settings (used when auth is ssl or one of the SCRAM mechanisms)
    pub ssl: SslConfig,
    /// SASL credentials
    pub sasl: SaslConfig,
    /// Optional Schema Registry
    pub schema_registry: Option<SchemaRegistryConfig>,
    /// Custom client ID
    pub client_id: Option<String>,
    /// Consumer group ID used for message inspection; it must be authorized by
    /// the cluster's ACLs.
    pub group_id: Option<String>,
}

/// A configuration entry as a pair of character sequences.
pub type Entry = (Seq<char>, Seq<char>);

/// One entry for `key` when the optional setting is present, none otherwise.
pub open spec fn optional_entry(key: Seq<char>, value: Option<String>) -> Seq<Entry> {
    match value {
        Some(v) => seq![(key, v@)],
        None => seq![],
    }
}

/// The TLS entries: the four optional paths and password, then whether the
/// broker certificate is verified.
pub open spec fn ssl_entries(ssl: SslConfig) -> Seq<Entry> {
    optional_entry("ssl.ca.location"@, ssl.ca_cert_path) + optional_entry(
        "ssl.certificate.location"@,
        ssl.client_cert_path,
    ) + optional_entry("ssl.key.location"@, ssl.client_key_path) + optional_entry(
        "ssl.key.password"@,
        ssl.client_key_password,
    ) + seq![
        (
            "enable.ssl.certificate.verification"@,
            if ssl.verify_hostname {
                "true"@
            } else {
                "false"@
            },
        ),
    ]
}

/// The SASL credential entries.
pub open spec fn sasl_entries(sasl: SaslConfig) -> Seq<Entry> {
    optional_entry("sasl.username"@, sasl.username) + optional_entry(
        "sasl.password"@,
        sasl.password,
    )
}

/// The security protocol and SASL mechanism of each authentication mechanism.
pub open spec fn security_entries(c: ClusterConfig) -> Seq<Entry> {
    match c.auth {
        AuthMechanism::Plaintext => seq![("security.protocol"@, "plaintext"@)],
        AuthMechanism::Ssl => seq![("security.protocol"@, "ssl"@)] + ssl_entries(c.ssl),
        AuthMechanism::SaslPlain => seq![
            ("security.protocol"@, "sasl_plaintext"@),
            ("sasl.mechanism"@, "PLAIN"@),
        ] + sasl_entries(c.sasl),
        AuthMechanism::SaslScramSha256 => seq![
            ("security.protocol"@, "sasl_ssl"@),
            ("sasl.mechanism"@, "SCRAM-SHA-256"@),
        ] + ssl_entries(c.ssl) + sasl_entries(c.sasl),
        AuthMechanism::SaslScramSha512 => seq![
            ("security.protocol"@, "sasl_ssl"@),
            ("sasl.mechanism"@, "SCRAM-SHA-512"@),
        ] + ssl_entries(c.ssl) + sasl_entries(c.sasl),
        AuthMechanism::Kerberos => seq![
            ("security.protocol"@, "sasl_plaintext"@),
            ("sasl.mechanism"@, "GSSAPI"@),
            (
                "sasl.kerberos.service.name"@,
                match c.sasl.kerberos_service_name {
                    Some(s) => s@,
                    None => "kafka"@,
                },
            ),
        ] + optional_entry("sasl.kerberos.principal"@, c.sasl.kerberos_principal)
            + optional_entry("sasl.kerberos.keytab"@, c.sasl.kerberos_keytab),
    }
}

/// Every client configuration entry of a cluster, in order: the bootstrap
/// servers, the client id (`v-kafka` unless set), the configured consumer
/// group, which is sent to the broker for authorization, then the security
/// entries.
pub open spec fn client_entries(c: ClusterConfig) -> Seq<Entry> {
    seq![
        ("bootstrap.servers"@, c.bootstrap_servers@),
        (
            "client.id"@,
            match c.client_id {
                Some(s) => s@,
                None => "v-kafka"@,
            },
        ),
    ] + optional_entry("group.id"@, c.group_id) + security_entries(c)
}

/// Whether a mechanism authenticates with a SASL user name and password.
pub open spec fn uses_sasl_login(a: AuthMechanism) -> bool {
    a is SaslPlain || a is SaslScramSha256 || a is SaslScramSha512
}

/// Whether a mechanism runs over TLS.
pub open spec fn uses_tls(a: AuthMechanism) -> bool {
    a is Ssl || a is SaslScramSha256 || a is SaslScramSha512
}

proof fn lemma_contains_left(a: Seq<Entry>, b: Seq<Entry>, x: Entry)
    requires
        a.contains(x),
    ensures
        (a + b).contains(x),
{
    let i = choose|i: int| 0 <= i < a.len() && a[i] == x;
    assert((a + b)[i] == x);
}

proof fn lemma_contains_right(a: Seq<Entry>, b: Seq<Entry>, x: Entry)
    requires
        b.contains(x),
    ensures
        (a + b).contains(x),
{
    let i = choose|i: int| 0 <= i < b.len() && b[i] == x;
    assert((a + b)[a.len() + i] == x);
}

proof fn lemma_optional_contains(key: Seq<char>, value: Option<String>)
    ensures
        value matches Some(v) ==> optional_entry(key, value).contains((key, v@)),
{
    if let Some(v) = value {
        assert(optional_entry(key, value)[0] == (key, v@));
    }
}

proof fn lemma_sasl_login_entries(c: ClusterConfig)
    ensures
        c.sasl.username matches Some(u) ==> sasl_entries(c.sasl).contains(("sasl.username"@, u@)),
        c.sasl.password matches Some(p) ==> sasl_entries(c.sasl).contains(("sasl.password"@, p@)),
{
    lemma_optional_contains("sasl.username"@, c.sasl.username);
    lemma_optional_contains("sasl.password"@, c.sasl.password);
    if let Some(u) = c.sasl.username {
        lemma_contains_left(
            optional_entry("sasl.username"@, c.sasl.username),
            optional_entry("sasl.password"@, c.sasl.password),
            ("sasl.username"@, u@),
        );
    }
    if let Some(p) = c.sasl.password {
        lemma_contains_right(
            optional_entry("sasl.username"@, c.sasl.username),
            optional_entry("sasl.password"@, c.sasl.password),
            ("sasl.password"@, p@),
        );
    }
}

/// What a cluster's client settings carry: its bootstrap servers, its
/// configured group, the SASL user name and password for every mechanism
/// that logs in with them, and for every mechanism over TLS whether the
/// broker's certificate is verified.
pub proof fn lemma_client_entries_carry_settings(c: ClusterConfig)
    ensures
        client_entries(c).contains(("bootstrap.servers"@, c.bootstrap_servers@)),
        c.group_id matches Some(g) ==> client_entries(c).contains(("group.id"@, g@)),
        uses_sasl_login(c.auth) ==> (c.sasl.username matches Some(u) ==> client_entries(
            c,
        ).contains(("sasl.username"@, u@))),
        uses_sasl_login(c.auth) ==> (c.sasl.password matches Some(p) ==> client_entries(
            c,
        ).contains(("sasl.password"@, p@))),
        uses_tls(c.auth) ==> client_entries(c).contains(
            (
                "enable.ssl.certificate.verification"@,
                if c.ssl.verify_hostname {
                    "true"@
                } else {
                    "false"@
                },
            ),
        ),
{
    let head = seq![
        ("bootstrap.servers"@, c.bootstrap_servers@),
        (
            "client.id"@,
            match c.client_id {
                Some(s) => s@,
                None => "v-kafka"@,
            },
        ),
    ];
    let group = optional_entry("group.id"@, c.group_id);
    let sec = security_entries(c);
    assert(client_entries(c) == head + group + sec);
    assert(head[0] == ("bootstrap.servers"@, c.bootstrap_servers@));
    assert(head.contains(("bootstrap.servers"@, c.bootstrap_servers@)));
    lemma_contains_left(head, group, ("bootstrap.servers"@, c.bootstrap_servers@));
    lemma_contains_left(head + group, sec, ("bootstrap.servers"@, c.bootstrap_servers@));
    if let Some(g) = c.group_id {
        lemma_optional_contains("group.id"@, c.group_id);
        lemma_contains_right(head, group, ("group.id"@, g@));
        lemma_contains_left(head + group, sec, ("group.id"@, g@));
    }
    lemma_sasl_login_entries(c);
    let verify = (
        "enable.ssl.certificate.verification"@,
        if c.ssl.verify_hostname {
            "true"@
        } else {
            "false"@
        },
    );
    let ssl = ssl_entries(c.ssl);
    assert(ssl.last() == verify);
    assert(ssl.contains(verify));
    let sasl = sasl_entries(c.sasl);
    match c.auth {
        AuthMechanism::Ssl => {
            let pre = seq![("security.protocol"@, "ssl"@)];
            assert(sec == pre + ssl);
            lemma_contains_right(pre, ssl, verify);
            lemma_contains_right(head + group, sec, verify);
        },
        AuthMechanism::SaslPlain => {
            let pre = seq![("security.protocol"@, "sasl_plaintext"@), ("sasl.mechanism"@, "PLAIN"@)];
            assert(sec == pre + sasl);
            if let Some(u) = c.sasl.username {
                lemma_contains_right(pre, sasl, ("sasl.username"@, u@));
                lemma_contains_right(head + group, sec, ("sasl.username"@, u@));
            }
            if let Some(p) = c.sasl.password {
                lemma_contains_right(pre, sasl, ("sasl.password"@, p@));
                lemma_contains_right(head + group, sec, ("sasl.password"@, p@));
            }
        },
        AuthMechanism::SaslScramSha256 | AuthMechanism::SaslScramSha512 => {
            let pre = if c.auth is SaslScramSha256 {
                seq![("security.protocol"@, "sasl_ssl"@), ("sasl.mechanism"@, "SCRAM-SHA-256"@)]
            } else {
                seq![("security.protocol"@, "sasl_ssl"@), ("sasl.mechanism"@, "SCRAM-SHA-512"@)]
            };
            assert(sec == pre + ssl + sasl);
            lemma_contains_right(pre, ssl, verify);
            lemma_contains_left(pre + ssl, sasl, verify);
            lemma_contains_right(head + group, sec, verify);
            if let Some(u) = c.sasl.username {
                lemma_contains_right(pre + ssl, sasl, ("sasl.username"@, u@));
                lemma_contains_right(head + group, sec, ("sasl.username"@, u@));
            }
            if let Some(p) = c.sasl.password {
                lemma_contains_right(pre + ssl, sasl, ("sasl.password"@, p@));
                lemma_contains_right(head + group, sec, ("sasl.password"@, p@));
            }
        },
        _ => {},
    }
}

fn push_entry(cfg: &mut Vec<(String, String)>, key: &str, value: String)
    ensures
        final(cfg).deep_view() == old(cfg).deep_view().push((key@, value@)),
{
    let ghost before = cfg.deep_view();
    cfg.push((owned(key), value));
    assert(cfg.deep_view() =~= before.push((key@, value@)));
}

fn push_optional(cfg: &mut Vec<(String, String)>, key: &str, value: &Option<String>)
    ensures
        final(cfg).deep_view() == old(cfg).deep_view() + optional_entry(key@, *value),
{
    let ghost before = cfg.deep_view();
    match value {
        Some(v) => {
            push_entry(cfg, key, v.clone());
            assert(cfg.deep_view() =~= before + optional_entry(key@, *value));
        },
        None => {
            assert(cfg.deep_view() =~= before + optional_entry(key@, *value));
        },
    }
}

impl ClusterConfig {
    /// Builds the client configuration entries for this cluster.
    #[verifier::rlimit(40)]
    pub fn to_rdkafka_config(&self) -> (cfg: Vec<(String, String)>)
        ensures
            cfg.deep_view() == client_entries(*self),
            uses_sasl_login(self.auth) ==> (self.sasl.username matches Some(u)
                ==> cfg.deep_view().contains(("sasl.username"@, u@))),
            uses_sasl_login(self.auth) ==> (self.sasl.password matches Some(p)
                ==> cfg.deep_view().contains(("sasl.password"@, p@))),
            self.group_id matches Some(g) ==> cfg.deep_view().contains(("group.id"@, g@)),
    {
        let mut cfg: Vec<(String, String)> = Vec::new();
        push_entry(&mut cfg, "bootstrap.servers", self.bootstrap_servers.clone());
        let client_id = match &self.client_id {
            Some(id) => id.clone(),
            None => owned("v-kafka"),
        };
        push_entry(&mut cfg, "client.id", client_id);
        push_optional(&mut cfg, "group.id", &self.group_id);
        let ghost head = cfg.deep_view();
        match self.auth {
            AuthMechanism::Plaintext => {
                push_entry(&mut cfg, "security.protocol", owned("plaintext"));
            },
            AuthMechanism::Ssl => {
                push_entry(&mut cfg, "security.protocol", owned("ssl"));
                self.apply_ssl_config(&mut cfg);
            },
            AuthMechanism::SaslPlain => {
                push_entry(&mut cfg, "security.protocol", owned("sasl_plaintext"));
                push_entry(&mut cfg, "sasl.mechanism", owned("PLAIN"));
                self.apply_sasl_config(&mut cfg);
            },
            AuthMechanism::SaslScramSha256 => {
                push_entry(&mut cfg, "security.protocol", owned("sasl_ssl"));
                push_entry(&mut cfg, "sasl.mechanism", owned("SCRAM-SHA-256"));
                self.apply_ssl_config(&mut cfg);
                self.apply_sasl_config(&mut cfg);
            },
            AuthMechanism::SaslScramSha512 => {
                push_entry(&mut cfg, "security.protocol", owned("sasl_ssl"));
                push_entry(&mut cfg, "sasl.mechanism", owned("SCRAM-SHA-512"));
                self.apply_ssl_config(&mut cfg);
                self.apply_sasl_config(&mut cfg);
            },
            AuthMechanism::Kerberos => {
                push_entry(&mut cfg, "security.protocol", owned("sasl_plaintext"));
                push_entry(&mut cfg, "sasl.mechanism", owned("GSSAPI"));
                match &self.sasl.kerberos_service_name {
                    Some(sn) => push_entry(&mut cfg, "sasl.kerberos.service.name", sn.clone()),
                    None => push_entry(&mut cfg, "sasl.kerberos.service.name", owned("kafka")),
                }
                push_optional(&mut cfg, "sasl.kerberos.principal", &self.sasl.kerberos_principal);
                push_optional(&mut cfg, "sasl.kerberos.keytab", &self.sasl.kerberos_keytab);
            },
        }
        assert(cfg.deep_view() =~= head + security_entries(*self));
        proof {
            assert(cfg.deep_view() == client_entries(*self));
            lemma_client_entries_carry_settings(*self);
        }
        cfg
    }

    fn apply_ssl_config(&self, cfg: &mut Vec<(String, String)>)
        ensures
            final(cfg).deep_view() == old(cfg).deep_view() + ssl_entries(self.ssl),
    {
        let ghost before = cfg.deep_view();
        push_optional(cfg, "ssl.ca.location", &self.ssl.ca_cert_path);
        push_optional(cfg, "ssl.certificate.location", &self.ssl.client_cert_path);
        push_optional(cfg, "ssl.key.location", &self.ssl.client_key_path);
        push_optional(cfg, "ssl.key.password", &self.ssl.client_key_password);
        let verify = if self.ssl.verify_hostname {
            owned("true")
        } else {
            owned("false")
        };
        push_entry(cfg, "enable.ssl.certificate.verification", verify);
        assert(cfg.deep_view() =~= before + ssl_entries(self.ssl));
    }

    fn apply_sasl_config(&self, cfg: &mut Vec<(String, String)>)
        ensures
            final(cfg).deep_view() == old(cfg).deep_view() + sasl_entries(self.sasl),
    {
        let ghost before = cfg.deep_view();
        push_optional(cfg, "sasl.username", &self.sasl.username);
        push_optional(cfg, "sasl.password", &self.sasl.password);
        assert(cfg.deep_view() =~= before + sasl_entries(self.sasl));
    }
}

} // verus!
