//! The JSON text that the login endpoint is sent.

use vstd::prelude::*;

verus! {

/// The compact JSON text of a string: the text between quotation marks, with
/// the escapes that `serde_json` writes.
pub uninterp spec fn json_string_text(text: Seq<char>) -> Seq<char>;

/// `serde_json::Value`'s `Display`, on a JSON string: the result is the
/// compact JSON text of that string, a function of its characters alone.
#[verifier::external_body]
fn json_string(text: &str) -> (json: String)
    ensures
        json@ == json_string_text(text@),
{
    serde_json::Value::String(text.to_owned()).to_string()
}

/// The body of a login request around the JSON texts of its two members.
pub open spec fn login_body_frame(auth_json: Seq<char>, password_json: Seq<char>) -> Seq<char> {
    "{\"auth\":"@ + auth_json + ",\"password\":"@ + password_json + "}"@
}

/// Frames the JSON texts of a user name and a password as the object that
/// the login endpoint expects.
pub fn frame_login_body(auth_json: &str, password_json: &str) -> (body: String)
    ensures
        body@ == login_body_frame(auth_json@, password_json@),
{
    let mut body = "{\"auth\":".to_owned();
    body.append(auth_json);
    body.append(",\"password\":");
    body.append(password_json);
    body.append("}");
    body
}

/// The body of the login request for a user name and a password: the
/// object `{"auth": .., "password": ..}` in compact form.
pub fn login_body(username: &str, password: &str) -> (body: String)
    ensures
        body@ == login_body_frame(json_string_text(username@), json_string_text(password@)),
{
    let auth_json = json_string(username);
    let password_json = json_string(password);
    frame_login_body(auth_json.as_str(), password_json.as_str())
}

} // verus!
