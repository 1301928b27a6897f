//! The cluster list screen.

use vstd::prelude::*;
use crate::config::cluster::AuthMechanism;

verus! {

/// The short label of an authentication mechanism.
pub open spec fn auth_label(auth: AuthMechanism) -> Seq<char> {
    match auth {
        AuthMechanism::Plaintext => "PLAINTEXT"@,
        AuthMechanism::Ssl => "SSL/TLS"@,
        AuthMechanism::SaslPlain => "SASL/PLAIN"@,
        AuthMechanism::SaslScramSha256 => "SCRAM-256"@,
        AuthMechanism::SaslScramSha512 => "SCRAM-512"@,
        AuthMechanism::Kerberos => "GSSAPI"@,
    }
}

/// The badge shown next to a cluster for its authentication mechanism.
pub fn auth_badge(auth: &AuthMechanism) -> (s: &'static str)
    ensures
        s@ == auth_label(*auth),
{
    match auth {
        AuthMechanism::Plaintext => "PLAINTEXT",
        AuthMechanism::Ssl => "SSL/TLS",
        AuthMechanism::SaslPlain => "SASL/PLAIN",
        AuthMechanism::SaslScramSha256 => "SCRAM-256",
        AuthMechanism::SaslScramSha512 => "SCRAM-512",
        AuthMechanism::Kerberos => "GSSAPI",
    }
}

} // verus!
