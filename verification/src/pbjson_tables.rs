//! The field tables of the daemon's protobuf messages: for each message, the
//! JSON and proto names of its fields, in declaration order.

use vstd::prelude::*;
use crate::pbjson::{names_view, shape_view, FieldName};

verus! {

/// The messages whose JSON form the library knows.
#[derive(Clone, Copy, Debug, PartialEq, Eq, Structural)]
pub enum MessageKind {
    ListProfilesResponse,
    Profile,
    SetupRequest,
    SetupResponse,
    FidoRequest,
    FidoResponse,
    CapabilitiesResponse,
    PingResponse,
    StateSession,
    InteractiveAuthAsyncResponse,
    InteractiveAuthContinueRequest,
    InteractiveAuthInitRequest,
    InteractiveAuthRequest,
    InteractiveChallenge,
    SystemAuthorizeRequest,
    SystemAuthorizeResponse,
    TokenAuthRequest,
    TokenAuthResponse,
    RegisterDeviceRequest,
    RegisterDeviceResponse,
    RegisterUserRequest,
    RegisterUserResponse,
    GetRequest,
    Group,
    Groups,
    User,
    Users,
}

/// The JSON and proto names of the fields of `kind`, in declaration order.
pub open spec fn message_table(kind: MessageKind) -> Seq<(Seq<char>, Seq<char>)> {
    match kind {
        MessageKind::ListProfilesResponse => seq![("header"@, "header"@), ("profiles"@, "profiles"@)],
        MessageKind::Profile => seq![("name"@, "name"@), ("username"@, "username"@), ("authentikUrl"@, "authentik_url"@), ("lastRenewed"@, "last_renewed"@), ("nextRenew"@, "next_renew"@)],
        MessageKind::SetupRequest => seq![("header"@, "header"@), ("authentikUrl"@, "authentik_url"@), ("appSlug"@, "app_slug"@), ("clientId"@, "client_id"@), ("accessToken"@, "access_token"@), ("refreshToken"@, "refresh_token"@)],
        MessageKind::SetupResponse => seq![("header"@, "header"@)],
        MessageKind::FidoRequest => seq![("rpId"@, "rp_id"@), ("challenge"@, "challenge"@), ("credentialIds"@, "credential_ids"@), ("uv"@, "uv"@)],
        MessageKind::FidoResponse => seq![("credentialId"@, "credential_id"@), ("signature"@, "signature"@), ("authenticatorData"@, "authenticator_data"@)],
        MessageKind::CapabilitiesResponse => seq![("capabilities"@, "capabilities"@)],
        MessageKind::PingResponse => seq![("component"@, "component"@), ("version"@, "version"@), ("serverVersion"@, "server_version"@)],
        MessageKind::StateSession => seq![("id"@, "id"@), ("username"@, "username"@), ("tokenHash"@, "token_hash"@), ("expiresAt"@, "expires_at"@), ("pid"@, "pid"@), ("ppid"@, "ppid"@), ("createdAt"@, "created_at"@), ("localSocket"@, "local_socket"@), ("opened"@, "opened"@)],
        MessageKind::InteractiveAuthAsyncResponse => seq![("url"@, "url"@), ("headerToken"@, "header_token"@)],
        MessageKind::InteractiveAuthContinueRequest => seq![("txid"@, "txid"@), ("value"@, "value"@)],
        MessageKind::InteractiveAuthInitRequest => seq![("username"@, "username"@), ("password"@, "password"@)],
        MessageKind::InteractiveAuthRequest => seq![("init"@, "init"@), ("continue"@, "continue"@)],
        MessageKind::InteractiveChallenge => seq![("txid"@, "txid"@), ("finished"@, "finished"@), ("result"@, "result"@), ("prompt"@, "prompt"@), ("promptMeta"@, "prompt_meta"@), ("debugInfo"@, "debug_info"@), ("sessionId"@, "session_id"@), ("component"@, "component"@)],
        MessageKind::SystemAuthorizeRequest => seq![("sessionId"@, "session_id"@), ("authz"@, "authz"@)],
        MessageKind::SystemAuthorizeResponse => seq![("response"@, "response"@), ("code"@, "code"@)],
        MessageKind::TokenAuthRequest => seq![("username"@, "username"@), ("token"@, "token"@)],
        MessageKind::TokenAuthResponse => seq![("successful"@, "successful"@), ("token"@, "token"@), ("sessionId"@, "session_id"@)],
        MessageKind::RegisterDeviceRequest => seq![("deviceSigningKey"@, "device_signing_key"@), ("deviceEncryptionKey"@, "device_encryption_key"@), ("encKeyId"@, "enc_key_id"@), ("signKeyId"@, "sign_key_id"@)],
        MessageKind::RegisterDeviceResponse => seq![("clientId"@, "client_id"@), ("issuer"@, "issuer"@), ("tokenEndpoint"@, "token_endpoint"@), ("jwksEndpoint"@, "jwks_endpoint"@), ("audience"@, "audience"@), ("nonceEndpoint"@, "nonce_endpoint"@), ("deviceToken"@, "device_token"@), ("authorizationEndpoint"@, "authorization_endpoint"@)],
        MessageKind::RegisterUserRequest => seq![("userSecureEnclaveKey"@, "user_secure_enclave_key"@), ("enclaveKeyId"@, "enclave_key_id"@), ("userAuth"@, "user_auth"@)],
        MessageKind::RegisterUserResponse => seq![("username"@, "username"@)],
        MessageKind::GetRequest => seq![("id"@, "id"@), ("name"@, "name"@)],
        MessageKind::Group => seq![("name"@, "name"@), ("gid"@, "gid"@), ("members"@, "members"@), ("passwd"@, "passwd"@)],
        MessageKind::Groups => seq![("groups"@, "groups"@)],
        MessageKind::User => seq![("name"@, "name"@), ("uid"@, "uid"@), ("gid"@, "gid"@), ("gecos"@, "gecos"@), ("homedir"@, "homedir"@), ("shell"@, "shell"@)],
        MessageKind::Users => seq![("users"@, "users"@)],
    }
}

/// Whether field `i` of `kind` is read as absent when its value is JSON
/// `null`: its message-typed fields, its `optional` fields and the members of
/// a `oneof`.
pub open spec fn field_nullable(kind: MessageKind, i: int) -> bool {
    match kind {
        MessageKind::ListProfilesResponse => i == 0,
        MessageKind::Profile => i == 3 || i == 4,
        MessageKind::SetupRequest => i == 0,
        MessageKind::SetupResponse => i == 0,
        MessageKind::StateSession => i == 3 || i == 6,
        MessageKind::InteractiveAuthRequest => i == 0 || i == 1,
        MessageKind::SystemAuthorizeRequest => i == 1,
        MessageKind::SystemAuthorizeResponse => i == 0,
        MessageKind::TokenAuthResponse => i == 1,
        MessageKind::GetRequest => i == 0 || i == 1,
        _ => false,
    }
}

/// The slot that field `i` of `kind` fills: its own, except that the members
/// of the `oneof` of `InteractiveAuthRequest` (`init` and `continue`) share one.
pub open spec fn field_slot(kind: MessageKind, i: int) -> int {
    match kind {
        MessageKind::InteractiveAuthRequest => 0,
        _ => i,
    }
}

/// The slot and nullability of each field of `kind`, in declaration order.
pub open spec fn message_shape(kind: MessageKind) -> Seq<(int, bool)> {
    Seq::new(message_table(kind).len(), |i: int| (field_slot(kind, i), field_nullable(kind, i)))
}

fn field(json: &str, proto: &str, slot: usize, nullable: bool) -> (r: FieldName)
    ensures
        r.json@ == json@,
        r.proto@ == proto@,
        r.slot == slot,
        r.nullable == nullable,
{
    FieldName { json: String::from_str(json), proto: String::from_str(proto), slot, nullable }
}

/// The field table of `kind`.
pub fn message_fields(kind: MessageKind) -> (r: Vec<FieldName>)
    ensures
        names_view(r@) == message_table(kind),
        shape_view(r@) == message_shape(kind),
        json_names_derived(names_view(r@)),
{
    let mut v: Vec<FieldName> = Vec::new();
    match kind {
        MessageKind::ListProfilesResponse => {
            v.push(field("header", "header", 0, true));
            v.push(field("profiles", "profiles", 1, false));
        },
        MessageKind::Profile => {
            v.push(field("name", "name", 0, false));
            v.push(field("username", "username", 1, false));
            v.push(field("authentikUrl", "authentik_url", 2, false));
            v.push(field("lastRenewed", "last_renewed", 3, true));
            v.push(field("nextRenew", "next_renew", 4, true));
        },
        MessageKind::SetupRequest => {
            v.push(field("header", "header", 0, true));
            v.push(field("authentikUrl", "authentik_url", 1, false));
            v.push(field("appSlug", "app_slug", 2, false));
            v.push(field("clientId", "client_id", 3, false));
            v.push(field("accessToken", "access_token", 4, false));
            v.push(field("refreshToken", "refresh_token", 5, false));
        },
        MessageKind::SetupResponse => {
            v.push(field("header", "header", 0, true));
        },
        MessageKind::FidoRequest => {
            v.push(field("rpId", "rp_id", 0, false));
            v.push(field("challenge", "challenge", 1, false));
            v.push(field("credentialIds", "credential_ids", 2, false));
            v.push(field("uv", "uv", 3, false));
        },
        MessageKind::FidoResponse => {
            v.push(field("credentialId", "credential_id", 0, false));
            v.push(field("signature", "signature", 1, false));
            v.push(field("authenticatorData", "authenticator_data", 2, false));
        },
        MessageKind::CapabilitiesResponse => {
            v.push(field("capabilities", "capabilities", 0, false));
        },
        MessageKind::PingResponse => {
            v.push(field("component", "component", 0, false));
            v.push(field("version", "version", 1, false));
            v.push(field("serverVersion", "server_version", 2, false));
        },
        MessageKind::StateSession => {
            v.push(field("id", "id", 0, false));
            v.push(field("username", "username", 1, false));
            v.push(field("tokenHash", "token_hash", 2, false));
            v.push(field("expiresAt", "expires_at", 3, true));
            v.push(field("pid", "pid", 4, false));
            v.push(field("ppid", "ppid", 5, false));
            v.push(field("createdAt", "created_at", 6, true));
            v.push(field("localSocket", "local_socket", 7, false));
            v.push(field("opened", "opened", 8, false));
        },
        MessageKind::InteractiveAuthAsyncResponse => {
            v.push(field("url", "url", 0, false));
            v.push(field("headerToken", "header_token", 1, false));
        },
        MessageKind::InteractiveAuthContinueRequest => {
            v.push(field("txid", "txid", 0, false));
            v.push(field("value", "value", 1, false));
        },
        MessageKind::InteractiveAuthInitRequest => {
            v.push(field("username", "username", 0, false));
            v.push(field("password", "password", 1, false));
        },
        MessageKind::InteractiveAuthRequest => {
            v.push(field("init", "init", 0, true));
            v.push(field("continue", "continue", 0, true));
        },
        MessageKind::InteractiveChallenge => {
            v.push(field("txid", "txid", 0, false));
            v.push(field("finished", "finished", 1, false));
            v.push(field("result", "result", 2, false));
            v.push(field("prompt", "prompt", 3, false));
            v.push(field("promptMeta", "prompt_meta", 4, false));
            v.push(field("debugInfo", "debug_info", 5, false));
            v.push(field("sessionId", "session_id", 6, false));
            v.push(field("component", "component", 7, false));
        },
        MessageKind::SystemAuthorizeRequest => {
            v.push(field("sessionId", "session_id", 0, false));
            v.push(field("authz", "authz", 1, true));
        },
        MessageKind::SystemAuthorizeResponse => {
            v.push(field("response", "response", 0, true));
            v.push(field("code", "code", 1, false));
        },
        MessageKind::TokenAuthRequest => {
            v.push(field("username", "username", 0, false));
            v.push(field("token", "token", 1, false));
        },
        MessageKind::TokenAuthResponse => {
            v.push(field("successful", "successful", 0, false));
            v.push(field("token", "token", 1, true));
            v.push(field("sessionId", "session_id", 2, false));
        },
        MessageKind::RegisterDeviceRequest => {
            v.push(field("deviceSigningKey", "device_signing_key", 0, false));
            v.push(field("deviceEncryptionKey", "device_encryption_key", 1, false));
            v.push(field("encKeyId", "enc_key_id", 2, false));
            v.push(field("signKeyId", "sign_key_id", 3, false));
        },
        MessageKind::RegisterDeviceResponse => {
            v.push(field("clientId", "client_id", 0, false));
            v.push(field("issuer", "issuer", 1, false));
            v.push(field("tokenEndpoint", "token_endpoint", 2, false));
            v.push(field("jwksEndpoint", "jwks_endpoint", 3, false));
            v.push(field("audience", "audience", 4, false));
            v.push(field("nonceEndpoint", "nonce_endpoint", 5, false));
            v.push(field("deviceToken", "device_token", 6, false));
            v.push(field("authorizationEndpoint", "authorization_endpoint", 7, false));
        },
        MessageKind::RegisterUserRequest => {
            v.push(field("userSecureEnclaveKey", "user_secure_enclave_key", 0, false));
            v.push(field("enclaveKeyId", "enclave_key_id", 1, false));
            v.push(field("userAuth", "user_auth", 2, false));
        },
        MessageKind::RegisterUserResponse => {
            v.push(field("username", "username", 0, false));
        },
        MessageKind::GetRequest => {
            v.push(field("id", "id", 0, true));
            v.push(field("name", "name", 1, true));
        },
        MessageKind::Group => {
            v.push(field("name", "name", 0, false));
            v.push(field("gid", "gid", 1, false));
            v.push(field("members", "members", 2, false));
            v.push(field("passwd", "passwd", 3, false));
        },
        MessageKind::Groups => {
            v.push(field("groups", "groups", 0, false));
        },
        MessageKind::User => {
            v.push(field("name", "name", 0, false));
            v.push(field("uid", "uid", 1, false));
            v.push(field("gid", "gid", 2, false));
            v.push(field("gecos", "gecos", 3, false));
            v.push(field("homedir", "homedir", 4, false));
            v.push(field("shell", "shell", 5, false));
        },
        MessageKind::Users => {
            v.push(field("users", "users", 0, false));
        },
    }
    assert(names_view(v@) =~= message_table(kind));
    assert(shape_view(v@) =~= message_shape(kind));
    proof {
        lemma_json_names_are_lower_camel(kind);
    }
    v
}

} // verus!
verus! {

/// The enumerations whose JSON form the library knows. Their values are
/// written as their names; the numbers behind them are the protobuf
/// definitions'.
#[derive(Clone, Copy, Debug, PartialEq, Eq, Structural)]
pub enum EnumKind {
    /// `ping.CapabilitiesResponse.Capability`.
    Capability,
    /// `sys_auth.InteractiveAuthResult`.
    InteractiveAuthResult,
    /// `sys_auth.InteractiveChallenge.PromptMeta`.
    PromptMeta,
}

/// The JSON names of the values of `kind`, in declaration order.
pub open spec fn enum_table(kind: EnumKind) -> Seq<Seq<char>> {
    match kind {
        EnumKind::Capability => seq!["UNSPECIFIED"@, "AUTH_INTERACTIVE"@, "AUTH_AUTHZ"@, "DEBUG"@],
        EnumKind::InteractiveAuthResult => seq!["PAM_SUCCESS"@, "PAM_PERM_DENIED"@, "PAM_AUTH_ERR"@],
        EnumKind::PromptMeta => seq![
            "UNSPECIFIED"@,
            "PAM_PROMPT_ECHO_OFF"@,
            "PAM_PROMPT_ECHO_ON"@,
            "PAM_ERROR_MSG"@,
            "PAM_TEXT_INFO"@,
            "PAM_RADIO_TYPE"@,
            "PAM_BINARY_PROMPT"@,
            "PASSWORD"@,
        ],
    }
}

/// The JSON names of the values of `kind`, in declaration order.
pub fn enum_names(kind: EnumKind) -> (r: Vec<String>)
    ensures
        r@.map_values(|s: String| s@) == enum_table(kind),
{
    let mut v: Vec<String> = Vec::new();
    match kind {
        EnumKind::Capability => {
            v.push(String::from_str("UNSPECIFIED"));
            v.push(String::from_str("AUTH_INTERACTIVE"));
            v.push(String::from_str("AUTH_AUTHZ"));
            v.push(String::from_str("DEBUG"));
        },
        EnumKind::InteractiveAuthResult => {
            v.push(String::from_str("PAM_SUCCESS"));
            v.push(String::from_str("PAM_PERM_DENIED"));
            v.push(String::from_str("PAM_AUTH_ERR"));
        },
        EnumKind::PromptMeta => {
            v.push(String::from_str("UNSPECIFIED"));
            v.push(String::from_str("PAM_PROMPT_ECHO_OFF"));
            v.push(String::from_str("PAM_PROMPT_ECHO_ON"));
            v.push(String::from_str("PAM_ERROR_MSG"));
            v.push(String::from_str("PAM_TEXT_INFO"));
            v.push(String::from_str("PAM_RADIO_TYPE"));
            v.push(String::from_str("PAM_BINARY_PROMPT"));
            v.push(String::from_str("PASSWORD"));
        },
    }
    assert(v@.map_values(|s: String| s@) =~= enum_table(kind));
    v
}

/// The position of the first name of `t` equal to `s`.
pub open spec fn name_position(t: Seq<Seq<char>>, s: Seq<char>) -> Option<int>
    decreases t.len(),
{
    if t.len() == 0 {
        None
    } else {
        match name_position(t.drop_last(), s) {
            Some(i) => Some(i),
            None => if t.last() == s {
                Some(t.len() - 1)
            } else {
                None
            },
        }
    }
}

proof fn lemma_name_position_prefix(t: Seq<Seq<char>>, s: Seq<char>, n: int)
    requires
        0 <= n <= t.len(),
        name_position(t.take(n), s) is Some,
    ensures
        name_position(t, s) == name_position(t.take(n), s),
    decreases t.len() - n,
{
    if n < t.len() {
        assert(t.take(n + 1).drop_last() =~= t.take(n));
        lemma_name_position_prefix(t, s, n + 1);
    } else {
        assert(t.take(n) =~= t);
    }
}

/// Which value of `kind` the JSON string `s` names, by its position in
/// declaration order; `None` for a string that names no value (an unknown
/// variant).
pub fn enum_variant_of_str(kind: EnumKind, s: &str) -> (r: Option<usize>)
    ensures
        match name_position(enum_table(kind), s@) {
            Some(i) => r == Some(i as usize),
            None => r is None,
        },
{
    let names = enum_names(kind);
    let ghost t = enum_table(kind);
    let key = String::from_str(s);
    let mut i: usize = 0;
    while i < names.len()
        invariant
            i <= names@.len(),
            names@.map_values(|x: String| x@) == t,
            t == enum_table(kind),
            key@ == s@,
            name_position(t.take(i as int), s@) is None,
        decreases names@.len() - i,
    {
        proof {
            assert(t.take(i + 1).drop_last() =~= t.take(i as int));
            assert(t[i as int] == names@[i as int]@);
        }
        if names[i] == key {
            proof {
                assert(t.take(i + 1).last() == t[i as int]);
                assert(name_position(t.take(i + 1), s@) == Some(i as int));
                lemma_name_position_prefix(t, s@, i + 1);
            }
            return Some(i);
        }
        i = i + 1;
    }
    proof {
        assert(t.take(i as int) =~= t);
    }
    None
}

} // verus!

verus! {

/// The character `c` in upper case, for the ASCII letters.
pub open spec fn upper_char(c: char) -> char {
    if 'a' <= c && c <= 'z' {
        ((c as int) - 32) as char
    } else {
        c
    }
}

/// The protobuf JSON name of a field with proto name `p`: each `_` dropped
/// and the character after it put in upper case.
pub open spec fn lower_camel(p: Seq<char>) -> Seq<char>
    decreases p.len(),
{
    if p.len() == 0 {
        Seq::empty()
    } else if p[0] == '_' {
        if p.len() >= 2 {
            seq![upper_char(p[1])] + lower_camel(p.subrange(2, p.len() as int))
        } else {
            Seq::empty()
        }
    } else {
        seq![p[0]] + lower_camel(p.subrange(1, p.len() as int))
    }
}

/// The JSON names of a table are the protobuf JSON names of its proto names.
pub open spec fn json_names_derived(t: Seq<(Seq<char>, Seq<char>)>) -> bool {
    forall|i: int| 0 <= i < t.len() ==> #[trigger] t[i].0 == lower_camel(t[i].1)
}

proof fn lemma_camel_list_profiles_response()
    ensures
        json_names_derived(message_table(MessageKind::ListProfilesResponse)),
{
    reveal_with_fuel(lower_camel, 30);
    reveal_strlit("header");
    reveal_strlit("profiles");
    assert(lower_camel("header"@) =~= "header"@);
    assert(lower_camel("profiles"@) =~= "profiles"@);
}

proof fn lemma_camel_profile()
    ensures
        json_names_derived(message_table(MessageKind::Profile)),
{
    reveal_with_fuel(lower_camel, 30);
    reveal_strlit("name");
    reveal_strlit("username");
    reveal_strlit("authentikUrl");
    reveal_strlit("authentik_url");
    reveal_strlit("lastRenewed");
    reveal_strlit("last_renewed");
    reveal_strlit("nextRenew");
    reveal_strlit("next_renew");
    assert(lower_camel("name"@) =~= "name"@);
    assert(lower_camel("username"@) =~= "username"@);
    assert(lower_camel("authentik_url"@) =~= "authentikUrl"@);
    assert(lower_camel("last_renewed"@) =~= "lastRenewed"@);
    assert(lower_camel("next_renew"@) =~= "nextRenew"@);
}

proof fn lemma_camel_setup_request()
    ensures
        json_names_derived(message_table(MessageKind::SetupRequest)),
{
    reveal_with_fuel(lower_camel, 30);
    reveal_strlit("header");
    reveal_strlit("authentikUrl");
    reveal_strlit("authentik_url");
    reveal_strlit("appSlug");
    reveal_strlit("app_slug");
    reveal_strlit("clientId");
    reveal_strlit("client_id");
    reveal_strlit("accessToken");
    reveal_strlit("access_token");
    reveal_strlit("refreshToken");
    reveal_strlit("refresh_token");
    assert(lower_camel("header"@) =~= "header"@);
    assert(lower_camel("authentik_url"@) =~= "authentikUrl"@);
    assert(lower_camel("app_slug"@) =~= "appSlug"@);
    assert(lower_camel("client_id"@) =~= "clientId"@);
    assert(lower_camel("access_token"@) =~= "accessToken"@);
    assert(lower_camel("refresh_token"@) =~= "refreshToken"@);
}

proof fn lemma_camel_setup_response()
    ensures
        json_names_derived(message_table(MessageKind::SetupResponse)),
{
    reveal_with_fuel(lower_camel, 30);
    reveal_strlit("header");
    assert(lower_camel("header"@) =~= "header"@);
}

proof fn lemma_camel_fido_request()
    ensures
        json_names_derived(message_table(MessageKind::FidoRequest)),
{
    reveal_with_fuel(lower_camel, 30);
    reveal_strlit("rpId");
    reveal_strlit("rp_id");
    reveal_strlit("challenge");
    reveal_strlit("credentialIds");
    reveal_strlit("credential_ids");
    reveal_strlit("uv");
    assert(lower_camel("rp_id"@) =~= "rpId"@);
    assert(lower_camel("challenge"@) =~= "challenge"@);
    assert(lower_camel("credential_ids"@) =~= "credentialIds"@);
    assert(lower_camel("uv"@) =~= "uv"@);
}

proof fn lemma_camel_fido_response()
    ensures
        json_names_derived(message_table(MessageKind::FidoResponse)),
{
    reveal_with_fuel(lower_camel, 30);
    reveal_strlit("credentialId");
    reveal_strlit("credential_id");
    reveal_strlit("signature");
    reveal_strlit("authenticatorData");
    reveal_strlit("authenticator_data");
    assert(lower_camel("credential_id"@) =~= "credentialId"@);
    assert(lower_camel("signature"@) =~= "signature"@);
    assert(lower_camel("authenticator_data"@) =~= "authenticatorData"@);
}

proof fn lemma_camel_capabilities_response()
    ensures
        json_names_derived(message_table(MessageKind::CapabilitiesResponse)),
{
    reveal_with_fuel(lower_camel, 30);
    reveal_strlit("capabilities");
    assert(lower_camel("capabilities"@) =~= "capabilities"@);
}

proof fn lemma_camel_ping_response()
    ensures
        json_names_derived(message_table(MessageKind::PingResponse)),
{
    reveal_with_fuel(lower_camel, 30);
    reveal_strlit("component");
    reveal_strlit("version");
    reveal_strlit("serverVersion");
    reveal_strlit("server_version");
    assert(lower_camel("component"@) =~= "component"@);
    assert(lower_camel("version"@) =~= "version"@);
    assert(lower_camel("server_version"@) =~= "serverVersion"@);
}

proof fn lemma_camel_state_session()
    ensures
        json_names_derived(message_table(MessageKind::StateSession)),
{
    reveal_with_fuel(lower_camel, 30);
    reveal_strlit("id");
    reveal_strlit("username");
    reveal_strlit("tokenHash");
    reveal_strlit("token_hash");
    reveal_strlit("expiresAt");
    reveal_strlit("expires_at");
    reveal_strlit("pid");
    reveal_strlit("ppid");
    reveal_strlit("createdAt");
    reveal_strlit("created_at");
    reveal_strlit("localSocket");
    reveal_strlit("local_socket");
    reveal_strlit("opened");
    assert(lower_camel("id"@) =~= "id"@);
    assert(lower_camel("username"@) =~= "username"@);
    assert(lower_camel("token_hash"@) =~= "tokenHash"@);
    assert(lower_camel("expires_at"@) =~= "expiresAt"@);
    assert(lower_camel("pid"@) =~= "pid"@);
    assert(lower_camel("ppid"@) =~= "ppid"@);
    assert(lower_camel("created_at"@) =~= "createdAt"@);
    assert(lower_camel("local_socket"@) =~= "localSocket"@);
    assert(lower_camel("opened"@) =~= "opened"@);
}

proof fn lemma_camel_interactive_auth_async_response()
    ensures
        json_names_derived(message_table(MessageKind::InteractiveAuthAsyncResponse)),
{
    reveal_with_fuel(lower_camel, 30);
    reveal_strlit("url");
    reveal_strlit("headerToken");
    reveal_strlit("header_token");
    assert(lower_camel("url"@) =~= "url"@);
    assert(lower_camel("header_token"@) =~= "headerToken"@);
}

proof fn lemma_camel_interactive_auth_continue_request()
    ensures
        json_names_derived(message_table(MessageKind::InteractiveAuthContinueRequest)),
{
    reveal_with_fuel(lower_camel, 30);
    reveal_strlit("txid");
    reveal_strlit("value");
    assert(lower_camel("txid"@) =~= "txid"@);
    assert(lower_camel("value"@) =~= "value"@);
}

proof fn lemma_camel_interactive_auth_init_request()
    ensures
        json_names_derived(message_table(MessageKind::InteractiveAuthInitRequest)),
{
    reveal_with_fuel(lower_camel, 30);
    reveal_strlit("username");
    reveal_strlit("password");
    assert(lower_camel("username"@) =~= "username"@);
    assert(lower_camel("password"@) =~= "password"@);
}

proof fn lemma_camel_interactive_auth_request()
    ensures
        json_names_derived(message_table(MessageKind::InteractiveAuthRequest)),
{
    reveal_with_fuel(lower_camel, 30);
    reveal_strlit("init");
    reveal_strlit("continue");
    assert(lower_camel("init"@) =~= "init"@);
    assert(lower_camel("continue"@) =~= "continue"@);
}

proof fn lemma_camel_interactive_challenge()
    ensures
        json_names_derived(message_table(MessageKind::InteractiveChallenge)),
{
    reveal_with_fuel(lower_camel, 30);
    reveal_strlit("txid");
    reveal_strlit("finished");
    reveal_strlit("result");
    reveal_strlit("prompt");
    reveal_strlit("promptMeta");
    reveal_strlit("prompt_meta");
    reveal_strlit("debugInfo");
    reveal_strlit("debug_info");
    reveal_strlit("sessionId");
    reveal_strlit("session_id");
    reveal_strlit("component");
    assert(lower_camel("txid"@) =~= "txid"@);
    assert(lower_camel("finished"@) =~= "finished"@);
    assert(lower_camel("result"@) =~= "result"@);
    assert(lower_camel("prompt"@) =~= "prompt"@);
    assert(lower_camel("prompt_meta"@) =~= "promptMeta"@);
    assert(lower_camel("debug_info"@) =~= "debugInfo"@);
    assert(lower_camel("session_id"@) =~= "sessionId"@);
    assert(lower_camel("component"@) =~= "component"@);
}

proof fn lemma_camel_system_authorize_request()
    ensures
        json_names_derived(message_table(MessageKind::SystemAuthorizeRequest)),
{
    reveal_with_fuel(lower_camel, 30);
    reveal_strlit("sessionId");
    reveal_strlit("session_id");
    reveal_strlit("authz");
    assert(lower_camel("session_id"@) =~= "sessionId"@);
    assert(lower_camel("authz"@) =~= "authz"@);
}

proof fn lemma_camel_system_authorize_response()
    ensures
        json_names_derived(message_table(MessageKind::SystemAuthorizeResponse)),
{
    reveal_with_fuel(lower_camel, 30);
    reveal_strlit("response");
    reveal_strlit("code");
    assert(lower_camel("response"@) =~= "response"@);
    assert(lower_camel("code"@) =~= "code"@);
}

proof fn lemma_camel_token_auth_request()
    ensures
        json_names_derived(message_table(MessageKind::TokenAuthRequest)),
{
    reveal_with_fuel(lower_camel, 30);
    reveal_strlit("username");
    reveal_strlit("token");
    assert(lower_camel("username"@) =~= "username"@);
    assert(lower_camel("token"@) =~= "token"@);
}

proof fn lemma_camel_token_auth_response()
    ensures
        json_names_derived(message_table(MessageKind::TokenAuthResponse)),
{
    reveal_with_fuel(lower_camel, 30);
    reveal_strlit("successful");
    reveal_strlit("token");
    reveal_strlit("sessionId");
    reveal_strlit("session_id");
    assert(lower_camel("successful"@) =~= "successful"@);
    assert(lower_camel("token"@) =~= "token"@);
    assert(lower_camel("session_id"@) =~= "sessionId"@);
}

proof fn lemma_camel_register_device_request()
    ensures
        json_names_derived(message_table(MessageKind::RegisterDeviceRequest)),
{
    reveal_with_fuel(lower_camel, 30);
    reveal_strlit("deviceSigningKey");
    reveal_strlit("device_signing_key");
    reveal_strlit("deviceEncryptionKey");
    reveal_strlit("device_encryption_key");
    reveal_strlit("encKeyId");
    reveal_strlit("enc_key_id");
    reveal_strlit("signKeyId");
    reveal_strlit("sign_key_id");
    assert(lower_camel("device_signing_key"@) =~= "deviceSigningKey"@);
    assert(lower_camel("device_encryption_key"@) =~= "deviceEncryptionKey"@);
    assert(lower_camel("enc_key_id"@) =~= "encKeyId"@);
    assert(lower_camel("sign_key_id"@) =~= "signKeyId"@);
}

proof fn lemma_camel_register_device_response()
    ensures
        json_names_derived(message_table(MessageKind::RegisterDeviceResponse)),
{
    reveal_with_fuel(lower_camel, 30);
    reveal_strlit("clientId");
    reveal_strlit("client_id");
    reveal_strlit("issuer");
    reveal_strlit("tokenEndpoint");
    reveal_strlit("token_endpoint");
    reveal_strlit("jwksEndpoint");
    reveal_strlit("jwks_endpoint");
    reveal_strlit("audience");
    reveal_strlit("nonceEndpoint");
    reveal_strlit("nonce_endpoint");
    reveal_strlit("deviceToken");
    reveal_strlit("device_token");
    reveal_strlit("authorizationEndpoint");
    reveal_strlit("authorization_endpoint");
    assert(lower_camel("client_id"@) =~= "clientId"@);
    assert(lower_camel("issuer"@) =~= "issuer"@);
    assert(lower_camel("token_endpoint"@) =~= "tokenEndpoint"@);
    assert(lower_camel("jwks_endpoint"@) =~= "jwksEndpoint"@);
    assert(lower_camel("audience"@) =~= "audience"@);
    assert(lower_camel("nonce_endpoint"@) =~= "nonceEndpoint"@);
    assert(lower_camel("device_token"@) =~= "deviceToken"@);
    assert(lower_camel("authorization_endpoint"@) =~= "authorizationEndpoint"@);
}

proof fn lemma_camel_register_user_request()
    ensures
        json_names_derived(message_table(MessageKind::RegisterUserRequest)),
{
    reveal_with_fuel(lower_camel, 30);
    reveal_strlit("userSecureEnclaveKey");
    reveal_strlit("user_secure_enclave_key");
    reveal_strlit("enclaveKeyId");
    reveal_strlit("enclave_key_id");
    reveal_strlit("userAuth");
    reveal_strlit("user_auth");
    assert(lower_camel("user_secure_enclave_key"@) =~= "userSecureEnclaveKey"@);
    assert(lower_camel("enclave_key_id"@) =~= "enclaveKeyId"@);
    assert(lower_camel("user_auth"@) =~= "userAuth"@);
}

proof fn lemma_camel_register_user_response()
    ensures
        json_names_derived(message_table(MessageKind::RegisterUserResponse)),
{
    reveal_with_fuel(lower_camel, 30);
    reveal_strlit("username");
    assert(lower_camel("username"@) =~= "username"@);
}

proof fn lemma_camel_get_request()
    ensures
        json_names_derived(message_table(MessageKind::GetRequest)),
{
    reveal_with_fuel(lower_camel, 30);
    reveal_strlit("id");
    reveal_strlit("name");
    assert(lower_camel("id"@) =~= "id"@);
    assert(lower_camel("name"@) =~= "name"@);
}

proof fn lemma_camel_group()
    ensures
        json_names_derived(message_table(MessageKind::Group)),
{
    reveal_with_fuel(lower_camel, 30);
    reveal_strlit("name");
    reveal_strlit("gid");
    reveal_strlit("members");
    reveal_strlit("passwd");
    assert(lower_camel("name"@) =~= "name"@);
    assert(lower_camel("gid"@) =~= "gid"@);
    assert(lower_camel("members"@) =~= "members"@);
    assert(lower_camel("passwd"@) =~= "passwd"@);
}

proof fn lemma_camel_groups()
    ensures
        json_names_derived(message_table(MessageKind::Groups)),
{
    reveal_with_fuel(lower_camel, 30);
    reveal_strlit("groups");
    assert(lower_camel("groups"@) =~= "groups"@);
}

proof fn lemma_camel_user()
    ensures
        json_names_derived(message_table(MessageKind::User)),
{
    reveal_with_fuel(lower_camel, 30);
    reveal_strlit("name");
    reveal_strlit("uid");
    reveal_strlit("gid");
    reveal_strlit("gecos");
    reveal_strlit("homedir");
    reveal_strlit("shell");
    assert(lower_camel("name"@) =~= "name"@);
    assert(lower_camel("uid"@) =~= "uid"@);
    assert(lower_camel("gid"@) =~= "gid"@);
    assert(lower_camel("gecos"@) =~= "gecos"@);
    assert(lower_camel("homedir"@) =~= "homedir"@);
    assert(lower_camel("shell"@) =~= "shell"@);
}

proof fn lemma_camel_users()
    ensures
        json_names_derived(message_table(MessageKind::Users)),
{
    reveal_with_fuel(lower_camel, 30);
    reveal_strlit("users");
    assert(lower_camel("users"@) =~= "users"@);
}

/// Every field's JSON name in the message tables is the lowerCamelCase
/// form of its proto name, as the protobuf JSON mapping derives it: each `_`
/// dropped and the letter after it put in upper case (`session_id` is read
/// and written as `sessionId`).
pub proof fn lemma_json_names_are_lower_camel(kind: MessageKind)
    ensures
        json_names_derived(message_table(kind)),
{
    match kind {
        MessageKind::ListProfilesResponse => lemma_camel_list_profiles_response(),
        MessageKind::Profile => lemma_camel_profile(),
        MessageKind::SetupRequest => lemma_camel_setup_request(),
        MessageKind::SetupResponse => lemma_camel_setup_response(),
        MessageKind::FidoRequest => lemma_camel_fido_request(),
        MessageKind::FidoResponse => lemma_camel_fido_response(),
        MessageKind::CapabilitiesResponse => lemma_camel_capabilities_response(),
        MessageKind::PingResponse => lemma_camel_ping_response(),
        MessageKind::StateSession => lemma_camel_state_session(),
        MessageKind::InteractiveAuthAsyncResponse => lemma_camel_interactive_auth_async_response(),
        MessageKind::InteractiveAuthContinueRequest => lemma_camel_interactive_auth_continue_request(),
        MessageKind::InteractiveAuthInitRequest => lemma_camel_interactive_auth_init_request(),
        MessageKind::InteractiveAuthRequest => lemma_camel_interactive_auth_request(),
        MessageKind::InteractiveChallenge => lemma_camel_interactive_challenge(),
        MessageKind::SystemAuthorizeRequest => lemma_camel_system_authorize_request(),
        MessageKind::SystemAuthorizeResponse => lemma_camel_system_authorize_response(),
        MessageKind::TokenAuthRequest => lemma_camel_token_auth_request(),
        MessageKind::TokenAuthResponse => lemma_camel_token_auth_response(),
        MessageKind::RegisterDeviceRequest => lemma_camel_register_device_request(),
        MessageKind::RegisterDeviceResponse => lemma_camel_register_device_response(),
        MessageKind::RegisterUserRequest => lemma_camel_register_user_request(),
        MessageKind::RegisterUserResponse => lemma_camel_register_user_response(),
        MessageKind::GetRequest => lemma_camel_get_request(),
        MessageKind::Group => lemma_camel_group(),
        MessageKind::Groups => lemma_camel_groups(),
        MessageKind::User => lemma_camel_user(),
        MessageKind::Users => lemma_camel_users(),
    }
}

} // verus!

verus! {

/// The message style numbers of Linux-PAM's conversation messages
/// (`security/_pam_types.h`).
pub open spec fn pam_msg_style(name: Seq<char>) -> Option<int> {
    if name == "PAM_PROMPT_ECHO_OFF"@ {
        Some(1)
    } else if name == "PAM_PROMPT_ECHO_ON"@ {
        Some(2)
    } else if name == "PAM_ERROR_MSG"@ {
        Some(3)
    } else if name == "PAM_TEXT_INFO"@ {
        Some(4)
    } else if name == "PAM_RADIO_TYPE"@ {
        Some(5)
    } else if name == "PAM_BINARY_PROMPT"@ {
        Some(7)
    } else {
        None
    }
}

/// The return codes of Linux-PAM (`security/_pam_types.h`).
pub open spec fn pam_return_code(name: Seq<char>) -> Option<int> {
    if name == "PAM_SUCCESS"@ {
        Some(0)
    } else if name == "PAM_PERM_DENIED"@ {
        Some(6)
    } else if name == "PAM_AUTH_ERR"@ {
        Some(7)
    } else {
        None
    }
}

/// The first name of `t` equal to `s` is at `k` when `t[k]` is `s` and no
/// name before it is.
proof fn lemma_name_position_first(t: Seq<Seq<char>>, s: Seq<char>, k: int)
    requires
        0 <= k < t.len(),
        t[k] == s,
        forall|j: int| 0 <= j < k ==> t[j] != s,
    ensures
        name_position(t, s) == Some(k),
    decreases t.len(),
{
    if k < t.len() - 1 {
        let p = t.drop_last();
        assert(p[k] == t[k]);
        assert forall|j: int| 0 <= j < k implies p[j] != s by {
            assert(p[j] == t[j]);
        }
        lemma_name_position_first(p, s, k);
    } else {
        lemma_name_position_absent(t.drop_last(), s);
    }
}

/// A name equal to none of `t` has no position in it.
proof fn lemma_name_position_absent(t: Seq<Seq<char>>, s: Seq<char>)
    requires
        forall|j: int| 0 <= j < t.len() ==> t[j] != s,
    ensures
        name_position(t, s) is None,
    decreases t.len(),
{
    if t.len() > 0 {
        let p = t.drop_last();
        assert forall|j: int| 0 <= j < p.len() implies p[j] != s by {
            assert(p[j] == t[j]);
        }
        lemma_name_position_absent(p, s);
        assert(t.last() == t[t.len() - 1]);
    }
}

/// The prompt kinds of `PromptMeta` follow PAM's conversation message
/// styles: reading the name of one of the X/Open styles gives the value at
/// that style's PAM number (`PAM_PROMPT_ECHO_OFF` is 1, `PAM_PROMPT_ECHO_ON`
/// is 2, ...), and all PAM styles are listed in the order of their numbers.
pub proof fn lemma_prompt_meta_follows_pam_styles()
    ensures
        forall|s: Seq<char>|
            #![trigger pam_msg_style(s)]
            pam_msg_style(s) matches Some(n) ==> (n <= 5 ==> name_position(enum_table(EnumKind::PromptMeta), s)
                == Some(n)),
        forall|i: int, j: int|
            0 <= i < enum_table(EnumKind::PromptMeta).len() && 0 <= j < enum_table(EnumKind::PromptMeta).len()
                && pam_msg_style(#[trigger] enum_table(EnumKind::PromptMeta)[i]) is Some && pam_msg_style(
                #[trigger] enum_table(EnumKind::PromptMeta)[j],
            ) is Some ==> (i < j <==> pam_msg_style(enum_table(EnumKind::PromptMeta)[i])->0 < pam_msg_style(
                enum_table(EnumKind::PromptMeta)[j],
            )->0),
{
    reveal_strlit("UNSPECIFIED");
    reveal_strlit("PAM_PROMPT_ECHO_OFF");
    reveal_strlit("PAM_PROMPT_ECHO_ON");
    reveal_strlit("PAM_ERROR_MSG");
    reveal_strlit("PAM_TEXT_INFO");
    reveal_strlit("PAM_RADIO_TYPE");
    reveal_strlit("PAM_BINARY_PROMPT");
    reveal_strlit("PASSWORD");
    let t = enum_table(EnumKind::PromptMeta);
    assert(t[0].len() == 11 && t[1].len() == 19 && t[2].len() == 18 && t[3].len() == 13);
    assert(t[4].len() == 13 && t[5].len() == 14 && t[6].len() == 17 && t[7].len() == 8);
    assert(t[3][4] != t[4][4]);
    assert forall|a: int, b: int| 0 <= a < b < t.len() implies t[a] != t[b] by {
        if a == 3 && b == 4 {
            assert(t[a][4] != t[b][4]);
        } else {
            assert(t[a].len() != t[b].len());
        }
    }
    lemma_name_position_first(t, t[1], 1);
    lemma_name_position_first(t, t[2], 2);
    lemma_name_position_first(t, t[3], 3);
    lemma_name_position_first(t, t[4], 4);
    lemma_name_position_first(t, t[5], 5);
}

/// The results of `InteractiveAuthResult` follow PAM's return codes: every
/// value is named by a PAM return code, `PAM_SUCCESS` comes first, and the
/// values are listed in the order of their codes.
pub proof fn lemma_auth_result_follows_pam_codes()
    ensures
        forall|i: int|
            0 <= i < enum_table(EnumKind::InteractiveAuthResult).len() ==> pam_return_code(
                #[trigger] enum_table(EnumKind::InteractiveAuthResult)[i],
            ) is Some,
        name_position(enum_table(EnumKind::InteractiveAuthResult), "PAM_SUCCESS"@) == Some(0int),
        forall|i: int, j: int|
            0 <= i < enum_table(EnumKind::InteractiveAuthResult).len() && 0 <= j < enum_table(
                EnumKind::InteractiveAuthResult,
            ).len() ==> (i < j <==> pam_return_code(#[trigger] enum_table(EnumKind::InteractiveAuthResult)[i])->0
                < pam_return_code(#[trigger] enum_table(EnumKind::InteractiveAuthResult)[j])->0),
{
    reveal_strlit("PAM_SUCCESS");
    reveal_strlit("PAM_PERM_DENIED");
    reveal_strlit("PAM_AUTH_ERR");
    let t = enum_table(EnumKind::InteractiveAuthResult);
    assert(t[0].len() == 11 && t[1].len() == 15 && t[2].len() == 12);
    lemma_name_position_first(t, t[0], 0);
}

/// Every value of an enumeration has a name of its own: reading the name at
/// position `i` of the table gives back position `i`.
pub proof fn lemma_enum_names_read_back(kind: EnumKind)
    ensures
        forall|i: int|
            0 <= i < enum_table(kind).len() ==> name_position(enum_table(kind), #[trigger] enum_table(kind)[i])
                == Some(i),
{
    let t = enum_table(kind);
    match kind {
        EnumKind::Capability => {
            reveal_strlit("UNSPECIFIED");
            reveal_strlit("AUTH_INTERACTIVE");
            reveal_strlit("AUTH_AUTHZ");
            reveal_strlit("DEBUG");
            assert(t[0].len() == 11 && t[1].len() == 16 && t[2].len() == 10 && t[3].len() == 5);
        },
        EnumKind::InteractiveAuthResult => {
            reveal_strlit("PAM_SUCCESS");
            reveal_strlit("PAM_PERM_DENIED");
            reveal_strlit("PAM_AUTH_ERR");
            assert(t[0].len() == 11 && t[1].len() == 15 && t[2].len() == 12);
        },
        EnumKind::PromptMeta => {
            reveal_strlit("UNSPECIFIED");
            reveal_strlit("PAM_PROMPT_ECHO_OFF");
            reveal_strlit("PAM_PROMPT_ECHO_ON");
            reveal_strlit("PAM_ERROR_MSG");
            reveal_strlit("PAM_TEXT_INFO");
            reveal_strlit("PAM_RADIO_TYPE");
            reveal_strlit("PAM_BINARY_PROMPT");
            reveal_strlit("PASSWORD");
            assert(t[0].len() == 11 && t[1].len() == 19 && t[2].len() == 18 && t[3].len() == 13);
            assert(t[4].len() == 13 && t[5].len() == 14 && t[6].len() == 17 && t[7].len() == 8);
            assert(t[3][4] != t[4][4]);
        },
    }
    assert forall|i: int| 0 <= i < t.len() implies name_position(t, #[trigger] t[i]) == Some(i) by {
        assert forall|j: int| 0 <= j < i implies t[j] != t[i] by {
            if kind == EnumKind::PromptMeta && j == 3 && i == 4 {
                assert(t[j][4] != t[i][4]);
            } else {
                assert(t[j].len() != t[i].len());
            }
        }
        lemma_name_position_first(t, t[i], i);
    }
}

} // verus!
