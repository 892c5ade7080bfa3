//! Where things live: the store's key layout and the addresses of the web
//! flow.

use vstd::prelude::*;
use vstd::string::*;
use vstd::utf8::encode_utf8;
use crate::roles::{role_key, Role};
use crate::text::{decimal_string, decimal_text};

verus! {

pub open spec fn dec(n: u64) -> Seq<char> {
    decimal_text(n as nat)
}

/// Whether URL encoding keeps a byte as it is.
pub open spec fn is_unreserved(b: u8) -> bool {
    (48 <= b <= 57) || (65 <= b <= 90) || (97 <= b <= 122) || b == 45 || b == 46 || b == 95
        || b == 126
}

pub open spec fn hex_upper(d: u8) -> char {
    if d < 10 {
        ((d + 48) as u8) as char
    } else {
        ((d + 55) as u8) as char
    }
}

pub open spec fn encode_byte(b: u8) -> Seq<char> {
    if is_unreserved(b) {
        seq![b as char]
    } else {
        seq!['%', hex_upper(b / 16), hex_upper(b % 16)]
    }
}

/// URL encoding of a byte sequence, byte by byte.
pub open spec fn percent_encoded(bytes: Seq<u8>) -> Seq<char>
    decreases bytes.len(),
{
    if bytes.len() == 0 {
        Seq::empty()
    } else {
        percent_encoded(bytes.drop_last()) + encode_byte(bytes.last())
    }
}

/// Relies on `urlencoding::encode`: each byte of the UTF-8 text is kept when
/// it is an ASCII letter or digit or one of `-`, `.`, `_`, `~`, and written
/// as `%` and two upper-case hex digits otherwise.
#[verifier::external_body]
fn url_encode(s: &str) -> (r: String)
    ensures
        r@ == percent_encoded(s.spec_bytes()),
{
    urlencoding::encode(s).into_owned()
}

/// The durable record of a pending token.
pub fn pending_key(token: &str) -> (r: String)
    ensures
        r@ == "verify:"@ + token@,
{
    let mut out = String::from_str("verify:");
    out.append(token);
    out
}

/// The single-sign-on account linked to a chat-platform account.
pub fn platform_link_key(platform_id: u64) -> (r: String)
    ensures
        r@ == "discord:"@ + dec(platform_id) + ":keycloak"@,
{
    let mut out = String::from_str("discord:");
    out.append(decimal_string(platform_id).as_str());
    out.append(":keycloak");
    out
}

/// The chat-platform account linked to a single-sign-on account.
pub fn sso_link_key(sso: &str) -> (r: String)
    ensures
        r@ == "keycloak:"@ + sso@ + ":discord"@,
{
    let mut out = String::from_str("keycloak:");
    out.append(sso);
    out.append(":discord");
    out
}

/// When a chat-platform account was linked.
pub fn verified_at_key(platform_id: u64) -> (r: String)
    ensures
        r@ == "discord:"@ + dec(platform_id) + ":verified_at"@,
{
    let mut out = String::from_str("discord:");
    out.append(decimal_string(platform_id).as_str());
    out.append(":verified_at");
    out
}

fn guild_key(guild_id: u64, rest: &str) -> (r: String)
    ensures
        r@ == "guild:"@ + dec(guild_id) + rest@,
{
    let mut out = String::from_str("guild:");
    out.append(decimal_string(guild_id).as_str());
    out.append(rest);
    out
}

/// A server's verified role.
pub fn verified_role_key(guild_id: u64) -> (r: String)
    ensures
        r@ == "guild:"@ + dec(guild_id) + ":role:verified"@,
{
    guild_key(guild_id, ":role:verified")
}

/// A server's role mode.
pub fn role_mode_key(guild_id: u64) -> (r: String)
    ensures
        r@ == "guild:"@ + dec(guild_id) + ":role_mode"@,
{
    guild_key(guild_id, ":role_mode")
}

/// A server's log channel.
pub fn log_channel_key(guild_id: u64) -> (r: String)
    ensures
        r@ == "guild:"@ + dec(guild_id) + ":log_channel"@,
{
    guild_key(guild_id, ":log_channel")
}

/// The id of one of a server's roles, under the role's key.
pub fn role_store_key(guild_id: u64, role: Role) -> (r: String)
    ensures
        r@ == "guild:"@ + dec(guild_id) + ":role:"@ + role_key(role),
{
    let mut out = guild_key(guild_id, ":role:");
    out.append(role.key().as_str());
    out
}

/// The page that starts a verification.
pub fn verify_url(app_url: &str, token: &str) -> (r: String)
    ensures
        r@ == app_url@ + "/verify?state="@ + token@,
{
    let mut out = String::from_str(app_url);
    out.append("/verify?state=");
    out.append(token);
    out
}

/// The page shown once a verification has gone through.
pub fn success_path(token: &str) -> (r: String)
    ensures
        r@ == "/success?state="@ + token@,
{
    let mut out = String::from_str("/success?state=");
    out.append(token);
    out
}

/// The identity provider's page that links the chat-platform account and then
/// returns to the link callback.
pub fn linking_url(keycloak_url: &str, realm: &str, client_id: &str, app_url: &str) -> (r: String)
    ensures
        r@ == keycloak_url@ + "/realms/"@ + realm@ + "/protocol/openid-connect/auth?client_id="@
            + percent_encoded(client_id.spec_bytes()) + "&redirect_uri="@ + percent_encoded(
            encode_utf8(app_url@ + "/link-callback"@),
        ) + "&response_type=code&scope=openid%20email%20profile&kc_action=idp_link:discord"@,
{
    let mut callback = String::from_str(app_url);
    callback.append("/link-callback");
    let mut out = String::from_str(keycloak_url);
    out.append("/realms/");
    out.append(realm);
    out.append("/protocol/openid-connect/auth?client_id=");
    out.append(url_encode(client_id).as_str());
    out.append("&redirect_uri=");
    out.append(url_encode(callback.as_str()).as_str());
    out.append("&response_type=code&scope=openid%20email%20profile&kc_action=idp_link:discord");
    out
}

} // verus!
