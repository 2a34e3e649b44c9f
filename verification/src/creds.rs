//! Credential resolution for a private container registry.
//!
//! An external credential helper is spawned by the surrounding binary; its
//! JSON output (`{"Username": .., "Secret": ..}`) is parsed here, and
//! rendered into the registry authentication document that the local
//! runtime's node image expects: a JSON object mapping the registry
//! hostname to `{"auth": base64("<secret>:<username>")}`. The
//! secret-before-username concatenation order is deliberate and must be
//! preserved for compatibility with the consuming container runtimes, even
//! though it looks reversed from convention.

use vstd::prelude::*;
use vstd::string::*;

use crate::errors::Error;
use crate::text::{json_field_value, json_plain, json_string_field};

verus! {

/// The base64 rendering (standard alphabet, padded) of the UTF-8 bytes of
/// a character sequence.
pub uninterp spec fn b64_of(s: Seq<char>) -> Seq<char>;

/// Relies on `base64::encode`: standard-alphabet, padded base64 of the
/// input bytes; a pure function of the input, and empty on empty input.
#[verifier::external_body]
fn base64_encode(s: &str) -> (r: String)
    ensures
        r@ == b64_of(s@),
        s@.len() == 0 ==> r@.len() == 0,
{
    base64::encode(s)
}

/// Credentials reported by the external helper.
pub struct DockerLogin {
    pub username: String,
    pub secret: String,
}

/// The username and secret carried by the helper's JSON output, when both
/// fields are present.
pub open spec fn login_of(s: Seq<char>) -> Option<(Seq<char>, Seq<char>)> {
    match (json_field_value(s, "Username"@), json_field_value(s, "Secret"@)) {
        (Option::Some(u), Option::Some(p)) => Option::Some((u, p)),
        _ => Option::None,
    }
}

/// Parses the helper's output. Malformed output — either field missing —
/// is a hard `ProcessError`: it aborts cluster creation before any
/// provisioning side effect.
pub fn parse_docker_login(s: &str) -> (r: Result<DockerLogin, Error>)
    ensures
        match r {
            Ok(l) => login_of(s@) == Option::Some((l.username@, l.secret@)),
            Err(e) => e is ProcessError && login_of(s@) is None,
        },
{
    let username = match json_string_field(s, "Username") {
        Option::Some(u) => u,
        Option::None => {
            return Err(Error::ProcessError("credential helper output carries no Username field".to_owned()));
        },
    };
    let secret = match json_string_field(s, "Secret") {
        Option::Some(p) => p,
        Option::None => {
            return Err(Error::ProcessError("credential helper output carries no Secret field".to_owned()));
        },
    };
    Ok(DockerLogin { username, secret })
}

/// The secret, a colon, the username: the exact payload that is base64
/// encoded into the authentication document.
pub open spec fn auth_payload(secret: Seq<char>, username: Seq<char>) -> Seq<char> {
    secret + seq![':'] + username
}

/// The authentication document for `registry`, with `auth` already
/// encoded.
pub open spec fn auth_doc(registry: Seq<char>, auth: Seq<char>) -> Seq<char> {
    "{\"auths\":{\""@ + registry + "\":{\"auth\":\""@ + auth + "\"}}}"@
}

/// Renders the registry authentication document. The registry hostname is
/// embedded verbatim, so it must not need JSON escaping.
pub fn auth_document(registry: &str, login: &DockerLogin) -> (r: String)
    requires
        json_plain(registry@),
    ensures
        r@ == auth_doc(registry@, b64_of(auth_payload(login.secret@, login.username@))),
{
    let mut payload = login.secret.clone();
    payload.append(":");
    payload.append(login.username.as_str());
    proof {
        reveal_strlit(":");
        assert(":"@ =~= seq![':']);
        assert(payload@ =~= auth_payload(login.secret@, login.username@));
    }
    let encoded = base64_encode(payload.as_str());
    let mut out = String::new();
    out.append("{\"auths\":{\"");
    out.append(registry);
    out.append("\":{\"auth\":\"");
    out.append(encoded.as_str());
    out.append("\"}}}");
    proof {
        assert(out@ =~= auth_doc(registry@, b64_of(auth_payload(login.secret@, login.username@))));
    }
    out
}

/// Parses the helper's output and renders the authentication document in
/// one step, as cluster creation uses it: succeeds exactly when the helper
/// output is well formed.
pub fn get_docker_login(registry: &str, helper_output: &str) -> (r: Result<String, Error>)
    requires
        json_plain(registry@),
    ensures
        match r {
            Ok(doc) => match login_of(helper_output@) {
                Option::Some(l) => doc@ == auth_doc(registry@, b64_of(auth_payload(l.1, l.0))),
                Option::None => false,
            },
            Err(e) => e is ProcessError && login_of(helper_output@) is None,
        },
{
    let login = match parse_docker_login(helper_output) {
        Ok(l) => l,
        Err(e) => {
            return Err(e);
        },
    };
    Ok(auth_document(registry, &login))
}

} // verus!
