//! The cluster form: the fields shown for each authentication mechanism, the
//! text typed into them, and the cluster configuration they describe.

use vstd::prelude::*;
use vstd::string::*;
use crate::config::cluster::{
    client_entries, security_entries, ssl_entries, sasl_entries, optional_entry, AuthMechanism,
    ClusterConfig, SaslConfig, SchemaRegistryConfig, SslConfig,
};
use crate::text::{is_white_space, is_white_space_char, chars_of, pop_char, push_char};

verus! {

/// One field of the cluster form.
#[derive(Debug, Clone, Copy, PartialEq, Eq, Structural)]
pub enum ClusterFormField {
    Name,
    BootstrapServers,
    AuthMechanism,
    CaCertPath,
    ClientCertPath,
    ClientKeyPath,
    ClientKeyPassword,
    VerifyHostname,
    Username,
    Password,
    KerberosPrincipal,
    KerberosKeytab,
    KerberosServiceName,
    ClientId,
    GroupId,
    SchemaRegistryUrl,
    SchemaRegistryUsername,
    SchemaRegistryPassword,
    Submit,
}

/// The number of authentication mechanisms the form offers.
pub const AUTH_MECHANISM_COUNT: usize = 6;

/// The authentication mechanisms in the order the form lists them.
pub open spec fn auth_at(i: int) -> AuthMechanism {
    if i == 0 {
        AuthMechanism::Plaintext
    } else if i == 1 {
        AuthMechanism::Ssl
    } else if i == 2 {
        AuthMechanism::SaslPlain
    } else if i == 3 {
        AuthMechanism::SaslScramSha256
    } else if i == 4 {
        AuthMechanism::SaslScramSha512
    } else {
        AuthMechanism::Kerberos
    }
}

/// The position of a mechanism in the form's list.
pub open spec fn auth_position(a: AuthMechanism) -> usize {
    match a {
        AuthMechanism::Plaintext => 0,
        AuthMechanism::Ssl => 1,
        AuthMechanism::SaslPlain => 2,
        AuthMechanism::SaslScramSha256 => 3,
        AuthMechanism::SaslScramSha512 => 4,
        AuthMechanism::Kerberos => 5,
    }
}

/// The mechanism at position `i` of the form's list.
pub fn auth_mechanism_at(i: usize) -> (a: AuthMechanism)
    requires
        i < AUTH_MECHANISM_COUNT,
    ensures
        a == auth_at(i as int),
{
    if i == 0 {
        AuthMechanism::Plaintext
    } else if i == 1 {
        AuthMechanism::Ssl
    } else if i == 2 {
        AuthMechanism::SaslPlain
    } else if i == 3 {
        AuthMechanism::SaslScramSha256
    } else if i == 4 {
        AuthMechanism::SaslScramSha512
    } else {
        AuthMechanism::Kerberos
    }
}

/// The position of `a` in the form's list.
pub fn auth_index_of(a: AuthMechanism) -> (i: usize)
    ensures
        i == auth_position(a),
        i < AUTH_MECHANISM_COUNT,
        auth_at(i as int) == a,
{
    match a {
        AuthMechanism::Plaintext => 0,
        AuthMechanism::Ssl => 1,
        AuthMechanism::SaslPlain => 2,
        AuthMechanism::SaslScramSha256 => 3,
        AuthMechanism::SaslScramSha512 => 4,
        AuthMechanism::Kerberos => 5,
    }
}

/// The TLS fields.
pub open spec fn tls_fields() -> Seq<ClusterFormField> {
    seq![
        ClusterFormField::CaCertPath,
        ClusterFormField::ClientCertPath,
        ClusterFormField::ClientKeyPath,
        ClusterFormField::ClientKeyPassword,
        ClusterFormField::VerifyHostname,
    ]
}

/// The fields a mechanism needs: TLS settings for TLS, credentials for SASL,
/// credentials and TLS settings for SCRAM, the Kerberos settings for Kerberos.
pub open spec fn auth_fields(a: AuthMechanism) -> Seq<ClusterFormField> {
    match a {
        AuthMechanism::Plaintext => seq![],
        AuthMechanism::Ssl => tls_fields(),
        AuthMechanism::SaslPlain => seq![ClusterFormField::Username, ClusterFormField::Password],
        AuthMechanism::SaslScramSha256 => seq![
            ClusterFormField::Username,
            ClusterFormField::Password,
        ] + tls_fields(),
        AuthMechanism::SaslScramSha512 => seq![
            ClusterFormField::Username,
            ClusterFormField::Password,
        ] + tls_fields(),
        AuthMechanism::Kerberos => seq![
            ClusterFormField::KerberosPrincipal,
            ClusterFormField::KerberosKeytab,
            ClusterFormField::KerberosServiceName,
        ],
    }
}

/// The fields of the form, in order, for mechanism `a`: name, brokers and
/// mechanism, the mechanism's own fields, the client and group ids, the
/// Schema Registry, and the submit button last.
pub open spec fn form_fields(a: AuthMechanism) -> Seq<ClusterFormField> {
    seq![
        ClusterFormField::Name,
        ClusterFormField::BootstrapServers,
        ClusterFormField::AuthMechanism,
    ] + auth_fields(a) + seq![
        ClusterFormField::ClientId,
        ClusterFormField::GroupId,
        ClusterFormField::SchemaRegistryUrl,
        ClusterFormField::SchemaRegistryUsername,
        ClusterFormField::SchemaRegistryPassword,
        ClusterFormField::Submit,
    ]
}

/// Whether the field holds typed text (all but the mechanism selector, the
/// hostname switch and the submit button).
pub open spec fn is_text_field(f: ClusterFormField) -> bool {
    !(f is AuthMechanism || f is VerifyHostname || f is Submit)
}

impl ClusterFormField {
    /// The fields of the form for mechanism `auth`.
    pub fn fields_for(auth: AuthMechanism) -> (v: Vec<ClusterFormField>)
        ensures
            v@ == form_fields(auth),
    {
        let mut v = vec![
            ClusterFormField::Name,
            ClusterFormField::BootstrapServers,
            ClusterFormField::AuthMechanism,
        ];
        match auth {
            AuthMechanism::Plaintext => {},
            AuthMechanism::Ssl => {
                push_tls_fields(&mut v);
            },
            AuthMechanism::SaslPlain => {
                v.push(ClusterFormField::Username);
                v.push(ClusterFormField::Password);
            },
            AuthMechanism::SaslScramSha256 | AuthMechanism::SaslScramSha512 => {
                v.push(ClusterFormField::Username);
                v.push(ClusterFormField::Password);
                push_tls_fields(&mut v);
            },
            AuthMechanism::Kerberos => {
                v.push(ClusterFormField::KerberosPrincipal);
                v.push(ClusterFormField::KerberosKeytab);
                v.push(ClusterFormField::KerberosServiceName);
            },
        }
        v.push(ClusterFormField::ClientId);
        v.push(ClusterFormField::GroupId);
        v.push(ClusterFormField::SchemaRegistryUrl);
        v.push(ClusterFormField::SchemaRegistryUsername);
        v.push(ClusterFormField::SchemaRegistryPassword);
        v.push(ClusterFormField::Submit);
        assert(v@ =~= form_fields(auth));
        v
    }
}

fn push_tls_fields(v: &mut Vec<ClusterFormField>)
    ensures
        final(v)@ == old(v)@ + tls_fields(),
{
    v.push(ClusterFormField::CaCertPath);
    v.push(ClusterFormField::ClientCertPath);
    v.push(ClusterFormField::ClientKeyPath);
    v.push(ClusterFormField::ClientKeyPassword);
    v.push(ClusterFormField::VerifyHostname);
    assert(v@ =~= old(v)@ + tls_fields());
}

/// The state of the cluster form: the typed texts, the chosen mechanism (by
/// its position in the form's list), the hostname switch and the focused field.
pub struct ClusterForm {
    pub name: String,
    pub bootstrap_servers: String,
    pub auth_index: usize,
    pub ca_cert_path: String,
    pub client_cert_path: String,
    pub client_key_path: String,
    pub client_key_password: String,
    pub verify_hostname: bool,
    pub username: String,
    pub password: String,
    pub kerberos_principal: String,
    pub kerberos_keytab: String,
    pub kerberos_service_name: String,
    pub client_id: String,
    pub group_id: String,
    pub schema_registry_url: String,
    pub schema_registry_username: String,
    pub schema_registry_password: String,
    /// Position of the focused field in the form's field list
    pub focused_field_index: usize,
}

/// A `ClusterForm` with its texts as character sequences.
pub struct ClusterFormModel {
    pub name: Seq<char>,
    pub bootstrap_servers: Seq<char>,
    pub auth_index: usize,
    pub ca_cert_path: Seq<char>,
    pub client_cert_path: Seq<char>,
    pub client_key_path: Seq<char>,
    pub client_key_password: Seq<char>,
    pub verify_hostname: bool,
    pub username: Seq<char>,
    pub password: Seq<char>,
    pub kerberos_principal: Seq<char>,
    pub kerberos_keytab: Seq<char>,
    pub kerberos_service_name: Seq<char>,
    pub client_id: Seq<char>,
    pub group_id: Seq<char>,
    pub schema_registry_url: Seq<char>,
    pub schema_registry_username: Seq<char>,
    pub schema_registry_password: Seq<char>,
    pub focused_field_index: usize,
}

impl vstd::view::View for ClusterForm {
    type V = ClusterFormModel;

    open spec fn view(&self) -> ClusterFormModel {
        ClusterFormModel {
            name: self.name@,
            bootstrap_servers: self.bootstrap_servers@,
            auth_index: self.auth_index,
            ca_cert_path: self.ca_cert_path@,
            client_cert_path: self.client_cert_path@,
            client_key_path: self.client_key_path@,
            client_key_password: self.client_key_password@,
            verify_hostname: self.verify_hostname,
            username: self.username@,
            password: self.password@,
            kerberos_principal: self.kerberos_principal@,
            kerberos_keytab: self.kerberos_keytab@,
            kerberos_service_name: self.kerberos_service_name@,
            client_id: self.client_id@,
            group_id: self.group_id@,
            schema_registry_url: self.schema_registry_url@,
            schema_registry_username: self.schema_registry_username@,
            schema_registry_password: self.schema_registry_password@,
            focused_field_index: self.focused_field_index,
        }
    }
}

/// The text of a field (empty for the fields that hold no text).
pub open spec fn field_text(f: ClusterFormModel, field: ClusterFormField) -> Seq<char> {
    match field {
        ClusterFormField::Name => f.name,
        ClusterFormField::BootstrapServers => f.bootstrap_servers,
        ClusterFormField::CaCertPath => f.ca_cert_path,
        ClusterFormField::ClientCertPath => f.client_cert_path,
        ClusterFormField::ClientKeyPath => f.client_key_path,
        ClusterFormField::ClientKeyPassword => f.client_key_password,
        ClusterFormField::Username => f.username,
        ClusterFormField::Password => f.password,
        ClusterFormField::KerberosPrincipal => f.kerberos_principal,
        ClusterFormField::KerberosKeytab => f.kerberos_keytab,
        ClusterFormField::KerberosServiceName => f.kerberos_service_name,
        ClusterFormField::ClientId => f.client_id,
        ClusterFormField::GroupId => f.group_id,
        ClusterFormField::SchemaRegistryUrl => f.schema_registry_url,
        ClusterFormField::SchemaRegistryUsername => f.schema_registry_username,
        ClusterFormField::SchemaRegistryPassword => f.schema_registry_password,
        _ => seq![],
    }
}

/// The form with the text of `field` replaced by `t` (unchanged for the
/// fields that hold no text).
pub open spec fn with_field_text(
    f: ClusterFormModel,
    field: ClusterFormField,
    t: Seq<char>,
) -> ClusterFormModel {
    match field {
        ClusterFormField::Name => ClusterFormModel { name: t, ..f },
        ClusterFormField::BootstrapServers => ClusterFormModel { bootstrap_servers: t, ..f },
        ClusterFormField::CaCertPath => ClusterFormModel { ca_cert_path: t, ..f },
        ClusterFormField::ClientCertPath => ClusterFormModel { client_cert_path: t, ..f },
        ClusterFormField::ClientKeyPath => ClusterFormModel { client_key_path: t, ..f },
        ClusterFormField::ClientKeyPassword => ClusterFormModel { client_key_password: t, ..f },
        ClusterFormField::Username => ClusterFormModel { username: t, ..f },
        ClusterFormField::Password => ClusterFormModel { password: t, ..f },
        ClusterFormField::KerberosPrincipal => ClusterFormModel { kerberos_principal: t, ..f },
        ClusterFormField::KerberosKeytab => ClusterFormModel { kerberos_keytab: t, ..f },
        ClusterFormField::KerberosServiceName => ClusterFormModel {
            kerberos_service_name: t,
            ..f
        },
        ClusterFormField::ClientId => ClusterFormModel { client_id: t, ..f },
        ClusterFormField::GroupId => ClusterFormModel { group_id: t, ..f },
        ClusterFormField::SchemaRegistryUrl => ClusterFormModel { schema_registry_url: t, ..f },
        ClusterFormField::SchemaRegistryUsername => ClusterFormModel {
            schema_registry_username: t,
            ..f
        },
        ClusterFormField::SchemaRegistryPassword => ClusterFormModel {
            schema_registry_password: t,
            ..f
        },
        _ => f,
    }
}

/// An empty form: no text, plaintext, hostname not verified, the first
/// field focused.
pub open spec fn empty_form() -> ClusterFormModel {
    ClusterFormModel {
        name: seq![],
        bootstrap_servers: seq![],
        auth_index: 0,
        ca_cert_path: seq![],
        client_cert_path: seq![],
        client_key_path: seq![],
        client_key_password: seq![],
        verify_hostname: false,
        username: seq![],
        password: seq![],
        kerberos_principal: seq![],
        kerberos_keytab: seq![],
        kerberos_service_name: seq![],
        client_id: seq![],
        group_id: seq![],
        schema_registry_url: seq![],
        schema_registry_username: seq![],
        schema_registry_password: seq![],
        focused_field_index: 0,
    }
}

/// An optional setting as form text: empty when absent.
pub open spec fn opt_text(o: Option<String>) -> Seq<char> {
    match o {
        Some(s) => s@,
        None => seq![],
    }
}

/// The form filled in from a configured cluster, the first field focused.
pub open spec fn form_of(c: ClusterConfig) -> ClusterFormModel {
    ClusterFormModel {
        name: c.name@,
        bootstrap_servers: c.bootstrap_servers@,
        auth_index: auth_position(c.auth),
        ca_cert_path: opt_text(c.ssl.ca_cert_path),
        client_cert_path: opt_text(c.ssl.client_cert_path),
        client_key_path: opt_text(c.ssl.client_key_path),
        client_key_password: opt_text(c.ssl.client_key_password),
        verify_hostname: c.ssl.verify_hostname,
        username: opt_text(c.sasl.username),
        password: opt_text(c.sasl.password),
        kerberos_principal: opt_text(c.sasl.kerberos_principal),
        kerberos_keytab: opt_text(c.sasl.kerberos_keytab),
        kerberos_service_name: opt_text(c.sasl.kerberos_service_name),
        client_id: opt_text(c.client_id),
        group_id: opt_text(c.group_id),
        schema_registry_url: match c.schema_registry {
            Some(r) => r.url@,
            None => seq![],
        },
        schema_registry_username: match c.schema_registry {
            Some(r) => opt_text(r.username),
            None => seq![],
        },
        schema_registry_password: match c.schema_registry {
            Some(r) => opt_text(r.password),
            None => seq![],
        },
        focused_field_index: 0,
    }
}

/// An optional setting read from form text `t`: absent when `t` is empty.
pub open spec fn text_option(o: Option<String>, t: Seq<char>) -> bool {
    if t.len() == 0 {
        o is None
    } else {
        o matches Some(s) && s@ == t
    }
}

/// Whether `c` is the cluster configuration the form describes: the texts
/// as they are typed, empty optional settings left out, the Schema Registry
/// only when its address is given.
pub open spec fn config_of(f: ClusterFormModel, c: ClusterConfig) -> bool {
    &&& c.name@ == f.name
    &&& c.bootstrap_servers@ == f.bootstrap_servers
    &&& c.auth == auth_at(f.auth_index as int)
    &&& text_option(c.ssl.ca_cert_path, f.ca_cert_path)
    &&& text_option(c.ssl.client_cert_path, f.client_cert_path)
    &&& text_option(c.ssl.client_key_path, f.client_key_path)
    &&& text_option(c.ssl.client_key_password, f.client_key_password)
    &&& c.ssl.verify_hostname == f.verify_hostname
    &&& text_option(c.sasl.username, f.username)
    &&& text_option(c.sasl.password, f.password)
    &&& text_option(c.sasl.kerberos_principal, f.kerberos_principal)
    &&& text_option(c.sasl.kerberos_keytab, f.kerberos_keytab)
    &&& text_option(c.sasl.kerberos_service_name, f.kerberos_service_name)
    &&& text_option(c.client_id, f.client_id)
    &&& text_option(c.group_id, f.group_id)
    &&& if f.schema_registry_url.len() == 0 {
        c.schema_registry is None
    } else {
        &&& c.schema_registry matches Some(r)
        &&& r.url@ == f.schema_registry_url
        &&& text_option(r.username, f.schema_registry_username)
        &&& text_option(r.password, f.schema_registry_password)
    }
}

/// Whether a text is empty once surrounding whitespace is trimmed.
pub open spec fn is_blank(s: Seq<char>) -> bool {
    forall|i: int| 0 <= i < s.len() ==> is_white_space(#[trigger] s[i])
}

/// Whether the form can be saved: a name and bootstrap servers are given.
pub open spec fn form_valid(f: ClusterFormModel) -> bool {
    !is_blank(f.name) && !is_blank(f.bootstrap_servers)
}

/// The fields of the form for its chosen mechanism.
pub open spec fn current_fields(f: ClusterFormModel) -> Seq<ClusterFormField> {
    form_fields(auth_at(f.auth_index as int))
}

/// The position of the focused field, held to the last field.
pub open spec fn focused_position(f: ClusterFormModel) -> int {
    let max = current_fields(f).len() - 1;
    if f.focused_field_index < max {
        f.focused_field_index as int
    } else {
        max
    }
}

/// The focused field.
pub open spec fn focused_field(f: ClusterFormModel) -> ClusterFormField {
    current_fields(f)[focused_position(f)]
}

/// Whether an optional setting is absent or holds some text.
pub open spec fn not_empty_text(o: Option<String>) -> bool {
    o matches Some(s) ==> s@.len() > 0
}

/// Whether a configured cluster holds no optional setting set to the empty
/// text (the form cannot tell such a setting from an absent one).
pub open spec fn no_empty_settings(c: ClusterConfig) -> bool {
    &&& not_empty_text(c.ssl.ca_cert_path)
    &&& not_empty_text(c.ssl.client_cert_path)
    &&& not_empty_text(c.ssl.client_key_path)
    &&& not_empty_text(c.ssl.client_key_password)
    &&& not_empty_text(c.sasl.username)
    &&& not_empty_text(c.sasl.password)
    &&& not_empty_text(c.sasl.kerberos_principal)
    &&& not_empty_text(c.sasl.kerberos_keytab)
    &&& not_empty_text(c.sasl.kerberos_service_name)
    &&& not_empty_text(c.client_id)
    &&& not_empty_text(c.group_id)
    &&& c.schema_registry matches Some(r) ==> {
        &&& r.url@.len() > 0
        &&& not_empty_text(r.username)
        &&& not_empty_text(r.password)
    }
}

proof fn lemma_setting_kept(o: Option<String>, o2: Option<String>, key: Seq<char>)
    requires
        not_empty_text(o),
        text_option(o2, opt_text(o)),
    ensures
        optional_entry(key, o2) == optional_entry(key, o),
        opt_text(o2) == opt_text(o),
{
}

/// Opening a configured cluster in the form and saving it unchanged gives a
/// cluster with the same name and the same client settings.
pub proof fn lemma_edit_unchanged_keeps_settings(c: ClusterConfig, saved: ClusterConfig)
    requires
        no_empty_settings(c),
        config_of(form_of(c), saved),
    ensures
        saved.name@ == c.name@,
        client_entries(saved) == client_entries(c),
{
    lemma_setting_kept(c.ssl.ca_cert_path, saved.ssl.ca_cert_path, "ssl.ca.location"@);
    lemma_setting_kept(
        c.ssl.client_cert_path,
        saved.ssl.client_cert_path,
        "ssl.certificate.location"@,
    );
    lemma_setting_kept(c.ssl.client_key_path, saved.ssl.client_key_path, "ssl.key.location"@);
    lemma_setting_kept(
        c.ssl.client_key_password,
        saved.ssl.client_key_password,
        "ssl.key.password"@,
    );
    lemma_setting_kept(c.sasl.username, saved.sasl.username, "sasl.username"@);
    lemma_setting_kept(c.sasl.password, saved.sasl.password, "sasl.password"@);
    lemma_setting_kept(
        c.sasl.kerberos_principal,
        saved.sasl.kerberos_principal,
        "sasl.kerberos.principal"@,
    );
    lemma_setting_kept(c.sasl.kerberos_keytab, saved.sasl.kerberos_keytab, "sasl.kerberos.keytab"@);
    lemma_setting_kept(
        c.sasl.kerberos_service_name,
        saved.sasl.kerberos_service_name,
        "sasl.kerberos.service.name"@,
    );
    lemma_setting_kept(c.client_id, saved.client_id, "client.id"@);
    lemma_setting_kept(c.group_id, saved.group_id, "group.id"@);
    assert(saved.auth == c.auth);
    assert(ssl_entries(saved.ssl) == ssl_entries(c.ssl));
    assert(sasl_entries(saved.sasl) == sasl_entries(c.sasl));
    assert(security_entries(saved) == security_entries(c));
}

fn blank(s: &String) -> (b: bool)
    ensures
        b == is_blank(s@),
{
    let cs = chars_of(s.as_str());
    let mut i: usize = 0;
    while i < cs.len()
        invariant
            i <= cs.len(),
            cs@ == s@,
            forall|j: int| 0 <= j < i ==> is_white_space(#[trigger] cs@[j]),
        decreases cs.len() - i,
    {
        if !is_white_space_char(cs[i]) {
            return false;
        }
        i = i + 1;
    }
    true
}

fn optional_text(s: &String) -> (o: Option<String>)
    ensures
        text_option(o, s@),
{
    if s.as_str().unicode_len() == 0 {
        None
    } else {
        Some(s.clone())
    }
}

fn text_of_option(o: &Option<String>) -> (s: String)
    ensures
        s@ == opt_text(*o),
{
    match o {
        Some(t) => t.clone(),
        None => String::new(),
    }
}

impl ClusterForm {
    /// An empty form.
    pub fn new() -> (f: Self)
        ensures
            f@ == empty_form(),
    {
        ClusterForm {
            name: String::new(),
            bootstrap_servers: String::new(),
            auth_index: 0,
            ca_cert_path: String::new(),
            client_cert_path: String::new(),
            client_key_path: String::new(),
            client_key_password: String::new(),
            verify_hostname: false,
            username: String::new(),
            password: String::new(),
            kerberos_principal: String::new(),
            kerberos_keytab: String::new(),
            kerberos_service_name: String::new(),
            client_id: String::new(),
            group_id: String::new(),
            schema_registry_url: String::new(),
            schema_registry_username: String::new(),
            schema_registry_password: String::new(),
            focused_field_index: 0,
        }
    }

    /// The form filled in from a configured cluster, for editing it.
    pub fn from_config(c: &ClusterConfig) -> (f: Self)
        ensures
            f@ == form_of(*c),
    {
        let (sr_url, sr_user, sr_pass) = match &c.schema_registry {
            Some(r) => (r.url.clone(), text_of_option(&r.username), text_of_option(&r.password)),
            None => (String::new(), String::new(), String::new()),
        };
        ClusterForm {
            name: c.name.clone(),
            bootstrap_servers: c.bootstrap_servers.clone(),
            auth_index: auth_index_of(c.auth),
            ca_cert_path: text_of_option(&c.ssl.ca_cert_path),
            client_cert_path: text_of_option(&c.ssl.client_cert_path),
            client_key_path: text_of_option(&c.ssl.client_key_path),
            client_key_password: text_of_option(&c.ssl.client_key_password),
            verify_hostname: c.ssl.verify_hostname,
            username: text_of_option(&c.sasl.username),
            password: text_of_option(&c.sasl.password),
            kerberos_principal: text_of_option(&c.sasl.kerberos_principal),
            kerberos_keytab: text_of_option(&c.sasl.kerberos_keytab),
            kerberos_service_name: text_of_option(&c.sasl.kerberos_service_name),
            client_id: text_of_option(&c.client_id),
            group_id: text_of_option(&c.group_id),
            schema_registry_url: sr_url,
            schema_registry_username: sr_user,
            schema_registry_password: sr_pass,
            focused_field_index: 0,
        }
    }

    /// The chosen authentication mechanism.
    pub fn current_auth(&self) -> (a: AuthMechanism)
        requires
            self.auth_index < AUTH_MECHANISM_COUNT,
        ensures
            a == auth_at(self.auth_index as int),
    {
        auth_mechanism_at(self.auth_index)
    }

    /// The fields shown for the chosen mechanism.
    pub fn fields(&self) -> (v: Vec<ClusterFormField>)
        requires
            self.auth_index < AUTH_MECHANISM_COUNT,
        ensures
            v@ == current_fields(self@),
    {
        ClusterFormField::fields_for(self.current_auth())
    }

    /// The text of `field`, for the fields that hold text.
    pub fn text_of(&self, field: ClusterFormField) -> (r: Option<&String>)
        ensures
            r is Some <==> is_text_field(field),
            r matches Some(s) ==> s@ == field_text(self@, field),
    {
        match field {
            ClusterFormField::Name => Some(&self.name),
            ClusterFormField::BootstrapServers => Some(&self.bootstrap_servers),
            ClusterFormField::CaCertPath => Some(&self.ca_cert_path),
            ClusterFormField::ClientCertPath => Some(&self.client_cert_path),
            ClusterFormField::ClientKeyPath => Some(&self.client_key_path),
            ClusterFormField::ClientKeyPassword => Some(&self.client_key_password),
            ClusterFormField::Username => Some(&self.username),
            ClusterFormField::Password => Some(&self.password),
            ClusterFormField::KerberosPrincipal => Some(&self.kerberos_principal),
            ClusterFormField::KerberosKeytab => Some(&self.kerberos_keytab),
            ClusterFormField::KerberosServiceName => Some(&self.kerberos_service_name),
            ClusterFormField::ClientId => Some(&self.client_id),
            ClusterFormField::GroupId => Some(&self.group_id),
            ClusterFormField::SchemaRegistryUrl => Some(&self.schema_registry_url),
            ClusterFormField::SchemaRegistryUsername => Some(&self.schema_registry_username),
            ClusterFormField::SchemaRegistryPassword => Some(&self.schema_registry_password),
            _ => None,
        }
    }

    /// Whether a name and bootstrap servers are given, neither of them blank.
    pub fn is_valid(&self) -> (b: bool)
        ensures
            b == form_valid(self@),
    {
        !blank(&self.name) && !blank(&self.bootstrap_servers)
    }

    /// The cluster configuration the form describes.
    pub fn to_cluster_config(&self) -> (c: ClusterConfig)
        requires
            self.auth_index < AUTH_MECHANISM_COUNT,
        ensures
            config_of(self@, c),
    {
        let schema_registry = if self.schema_registry_url.as_str().unicode_len() == 0 {
            None
        } else {
            Some(
                SchemaRegistryConfig {
                    url: self.schema_registry_url.clone(),
                    username: optional_text(&self.schema_registry_username),
                    password: optional_text(&self.schema_registry_password),
                },
            )
        };
        ClusterConfig {
            name: self.name.clone(),
            bootstrap_servers: self.bootstrap_servers.clone(),
            auth: self.current_auth(),
            ssl: SslConfig {
                ca_cert_path: optional_text(&self.ca_cert_path),
                client_cert_path: optional_text(&self.client_cert_path),
                client_key_path: optional_text(&self.client_key_path),
                client_key_password: optional_text(&self.client_key_password),
                verify_hostname: self.verify_hostname,
            },
            sasl: SaslConfig {
                username: optional_text(&self.username),
                password: optional_text(&self.password),
                kerberos_principal: optional_text(&self.kerberos_principal),
                kerberos_keytab: optional_text(&self.kerberos_keytab),
                kerberos_service_name: optional_text(&self.kerberos_service_name),
            },
            schema_registry,
            client_id: optional_text(&self.client_id),
            group_id: optional_text(&self.group_id),
        }
    }

    /// Types `c` at the end of the text of `field`; nothing happens for the
    /// fields that hold no text.
    pub fn type_char(&mut self, field: ClusterFormField, c: char)
        ensures
            final(self)@ == (if is_text_field(field) {
                with_field_text(old(self)@, field, field_text(old(self)@, field).push(c))
            } else {
                old(self)@
            }),
    {
        match field {
            ClusterFormField::Name => push_char(&mut self.name, c),
            ClusterFormField::BootstrapServers => push_char(&mut self.bootstrap_servers, c),
            ClusterFormField::CaCertPath => push_char(&mut self.ca_cert_path, c),
            ClusterFormField::ClientCertPath => push_char(&mut self.client_cert_path, c),
            ClusterFormField::ClientKeyPath => push_char(&mut self.client_key_path, c),
            ClusterFormField::ClientKeyPassword => push_char(&mut self.client_key_password, c),
            ClusterFormField::Username => push_char(&mut self.username, c),
            ClusterFormField::Password => push_char(&mut self.password, c),
            ClusterFormField::KerberosPrincipal => push_char(&mut self.kerberos_principal, c),
            ClusterFormField::KerberosKeytab => push_char(&mut self.kerberos_keytab, c),
            ClusterFormField::KerberosServiceName => push_char(&mut self.kerberos_service_name, c),
            ClusterFormField::ClientId => push_char(&mut self.client_id, c),
            ClusterFormField::GroupId => push_char(&mut self.group_id, c),
            ClusterFormField::SchemaRegistryUrl => push_char(&mut self.schema_registry_url, c),
            ClusterFormField::SchemaRegistryUsername => push_char(
                &mut self.schema_registry_username,
                c,
            ),
            ClusterFormField::SchemaRegistryPassword => push_char(
                &mut self.schema_registry_password,
                c,
            ),
            _ => {},
        }
    }

    /// Deletes the last character of the text of `field`, if there is one;
    /// nothing happens for the fields that hold no text.
    pub fn erase_char(&mut self, field: ClusterFormField)
        ensures
            final(self)@ == (if is_text_field(field) && field_text(old(self)@, field).len() > 0 {
                with_field_text(old(self)@, field, field_text(old(self)@, field).drop_last())
            } else {
                old(self)@
            }),
    {
        match field {
            ClusterFormField::Name => pop_char(&mut self.name),
            ClusterFormField::BootstrapServers => pop_char(&mut self.bootstrap_servers),
            ClusterFormField::CaCertPath => pop_char(&mut self.ca_cert_path),
            ClusterFormField::ClientCertPath => pop_char(&mut self.client_cert_path),
            ClusterFormField::ClientKeyPath => pop_char(&mut self.client_key_path),
            ClusterFormField::ClientKeyPassword => pop_char(&mut self.client_key_password),
            ClusterFormField::Username => pop_char(&mut self.username),
            ClusterFormField::Password => pop_char(&mut self.password),
            ClusterFormField::KerberosPrincipal => pop_char(&mut self.kerberos_principal),
            ClusterFormField::KerberosKeytab => pop_char(&mut self.kerberos_keytab),
            ClusterFormField::KerberosServiceName => pop_char(&mut self.kerberos_service_name),
            ClusterFormField::ClientId => pop_char(&mut self.client_id),
            ClusterFormField::GroupId => pop_char(&mut self.group_id),
            ClusterFormField::SchemaRegistryUrl => pop_char(&mut self.schema_registry_url),
            ClusterFormField::SchemaRegistryUsername => pop_char(
                &mut self.schema_registry_username,
            ),
            ClusterFormField::SchemaRegistryPassword => pop_char(
                &mut self.schema_registry_password,
            ),
            _ => {},
        }
    }
}

} // verus!
