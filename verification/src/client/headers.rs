//! The default headers that a credential puts on every request.

use vstd::prelude::*;
use vstd::utf8::*;
use reqwest::header::{HeaderMap, HeaderValue, InvalidHeaderValue};
use crate::client::authentication::{AuthInfo, Credential};
use crate::client::error::{ClientError, ClientErrorView};

verus! {

/// `reqwest::header::HeaderValue`, the value of one header field. Its
/// contents are spoken of through [`header_value_bytes`].
#[verifier::external_type_specification]
#[verifier::external_body]
pub struct ExHeaderValue(reqwest::header::HeaderValue);

/// `reqwest::header::InvalidHeaderValue`, the error of a refused header
/// value. It carries nothing.
#[verifier::external_type_specification]
#[verifier::external_body]
pub struct ExInvalidHeaderValue(reqwest::header::InvalidHeaderValue);

/// `reqwest::header::HeaderMap`, the multimap from field names to values.
/// Its contents are spoken of through [`header_fields`].
#[verifier::external_type_specification]
#[verifier::external_body]
#[verifier::reject_recursive_types(T)]
pub struct ExHeaderMap<T>(reqwest::header::HeaderMap<T>);

/// The fields of a header map as a mathematical value: each name that has
/// values, with the bytes of those values in order.
pub type Fields = Map<Seq<char>, Seq<Seq<u8>>>;

/// The bytes that a header value holds.
pub uninterp spec fn header_value_bytes(value: HeaderValue) -> Seq<u8>;

/// What a header map holds: for each name that has values, in the lower-case
/// spelling under which the map files it, the bytes of its values in order.
pub uninterp spec fn header_fields(headers: HeaderMap<HeaderValue>) -> Map<Seq<char>, Seq<Seq<u8>>>;

/// Whether a byte may stand in a header value: anything from the space
/// upwards except DEL, and the horizontal tab.
pub open spec fn is_legal_value_byte(byte: u8) -> bool {
    byte >= 32 && byte != 127 || byte == 9
}

/// Whether every byte of a sequence may stand in a header value.
pub open spec fn is_legal_value(bytes: Seq<u8>) -> bool {
    forall|i: int| 0 <= i < bytes.len() ==> is_legal_value_byte(#[trigger] bytes[i])
}

/// `HeaderValue::from_str` accepts a string exactly when each byte of its
/// UTF-8 encoding is legal in a header value, and the value it then returns
/// holds those bytes. Bytes from 128 upwards count as legal, so text beyond
/// ASCII passes.
pub assume_specification[ reqwest::header::HeaderValue::from_str ](src: &str) -> (made: Result<
    HeaderValue,
    InvalidHeaderValue,
>)
    ensures
        made is Ok <==> is_legal_value(encode_utf8(src@)),
        made is Ok ==> header_value_bytes(made->Ok_0) == encode_utf8(src@),
;

/// `HeaderMap::new` returns a map without any field.
pub assume_specification[ reqwest::header::HeaderMap::<HeaderValue>::new ]() -> (headers: HeaderMap<HeaderValue>)
    ensures
        header_fields(headers) == Fields::empty(),
;

/// Whether a character may stand in a field name: a letter, a digit, or one of
/// the marks that HTTP allows in a token.
pub open spec fn is_name_char(c: char) -> bool {
    ||| 'a' <= c <= 'z'
    ||| 'A' <= c <= 'Z'
    ||| '0' <= c <= '9'
    ||| c == '!' || c == '#' || c == '$' || c == '%' || c == '&' || c == '\'' || c == '*'
    ||| c == '+' || c == '-' || c == '.' || c == '^' || c == '_' || c == '`' || c == '|'
    ||| c == '~'
}

/// Whether a text can name a field: one to sixty-four name characters.
pub open spec fn is_field_name(name: Seq<char>) -> bool {
    &&& 1 <= name.len() <= 64
    &&& forall|i: int| 0 <= i < name.len() ==> is_name_char(#[trigger] name[i])
}

/// A character with an upper-case ASCII letter turned into its lower-case one.
pub open spec fn lower(c: char) -> char {
    if 'A' <= c <= 'Z' {
        ((c as u8) + 32) as char
    } else {
        c
    }
}

/// The spelling under which a header map files a field name: the name in
/// lower case.
pub open spec fn field_key(name: Seq<char>) -> Seq<char> {
    Seq::new(name.len(), |i: int| lower(name[i]))
}

/// The number of names below which a header map takes a further name for
/// certain.
pub const FIELD_ROOM: usize = 1024;

/// `HeaderMap::insert` with the name given as text. The map files the value
/// under the lower-case spelling of the name, in place of any values that the
/// name had. The call panics on a text that cannot name a field, and when
/// its table would have to grow past 32,768 slots; the table never has more
/// than ten slots to a name when it doubles, so a map with fewer than
/// `FIELD_ROOM` names is clear of that.
#[verifier::external_body]
fn insert_field(headers: &mut HeaderMap<HeaderValue>, name: &'static str, value: HeaderValue)
    requires
        is_field_name(name@),
        header_fields(*old(headers)).dom().finite(),
        header_fields(*old(headers)).dom().len() < FIELD_ROOM,
    ensures
        header_fields(*final(headers)) == header_fields(*old(headers)).insert(
            field_key(name@),
            seq![header_value_bytes(value)],
        ),
{
    headers.insert(name, value);
}

/// Whether a character may stand in a header value: the horizontal tab, and
/// every character from the space upwards except DEL.
pub open spec fn is_legal_char(c: char) -> bool {
    c == '\t' || (' ' <= c && c != '\u{7f}')
}

/// Whether every character of a text may stand in a header value.
pub open spec fn is_legal_text(text: Seq<char>) -> bool {
    forall|i: int| 0 <= i < text.len() ==> is_legal_char(#[trigger] text[i])
}

/// Whether the header that a credential calls for can be written: whether
/// the token or the session identifier is legal text. A password calls for
/// no header.
pub open spec fn has_legal_header(credential: Credential) -> bool {
    match credential {
        Credential::Token(token) => is_legal_text(token),
        Credential::SessionCookie(session_id) => is_legal_text(session_id),
        Credential::Password(_, _) => true,
    }
}

/// The fields that a credential puts on every request: `Authorization` with
/// the bearer token, `Cookie` with the session, or nothing for a password.
pub open spec fn credential_fields(credential: Credential) -> Fields {
    match credential {
        Credential::Token(token) => Fields::empty().insert(
            field_key("Authorization"@),
            seq![encode_utf8("Bearer "@ + token)],
        ),
        Credential::SessionCookie(session_id) => Fields::empty().insert(
            field_key("Cookie"@),
            seq![encode_utf8("semaphore="@ + session_id)],
        ),
        Credential::Password(_, _) => Fields::empty(),
    }
}

/// Derives the default headers of a client from its credential.
///
/// Fails with [`ClientError::InvalidHeaderValue`] exactly when the credential calls
/// for a header whose text cannot be written; otherwise the map holds the
/// fields of [`credential_fields`] and no others.
pub fn derive_headers(auth: &AuthInfo) -> (derived: Result<HeaderMap<HeaderValue>, ClientError>)
    ensures
        derived is Ok <==> has_legal_header(auth@),
        derived is Ok ==> header_fields(derived->Ok_0) == credential_fields(auth@),
        derived is Err ==> derived->Err_0@ == ClientErrorView::InvalidHeaderValue,
{
    let mut headers = HeaderMap::new();
    match auth {
        AuthInfo::Token(token) => {
            let mut text = "Bearer ".to_owned();
            text.append(token.as_str());
            proof {
                reveal_strlit("Bearer ");
                lemma_legal_text_joined("Bearer "@, token@);
                lemma_legal_text_encodes_legal(text@);
            }
            match HeaderValue::from_str(text.as_str()) {
                Ok(value) => {
                    proof {
                        lemma_authorization_names_a_field();
                    }
                    insert_field(&mut headers, "Authorization", value);
                },
                Err(_) => {
                    return Err(ClientError::InvalidHeaderValue);
                },
            }
        },
        AuthInfo::SessionCookie(session_id) => {
            let mut text = "semaphore=".to_owned();
            text.append(session_id.as_str());
            proof {
                reveal_strlit("semaphore=");
                lemma_legal_text_joined("semaphore="@, session_id@);
                lemma_legal_text_encodes_legal(text@);
            }
            match HeaderValue::from_str(text.as_str()) {
                Ok(value) => {
                    proof {
                        lemma_cookie_names_a_field();
                    }
                    insert_field(&mut headers, "Cookie", value);
                },
                Err(_) => {
                    return Err(ClientError::InvalidHeaderValue);
                },
            }
        },
        AuthInfo::Password(_, _) => {},
    }
    Ok(headers)
}

/// The bytes that encode one character are legal in a header value exactly
/// when the character is.
proof fn lemma_char_encodes_legal(c: char)
    ensures
        is_legal_value(encode_scalar(c as u32)) <==> is_legal_char(c),
{
    let s = c as u32;
    let bytes = encode_scalar(s);
    char_is_scalar(c);
    if has_width_1_encoding(s) {
        assert(leading_byte_width_1(s) == s) by (bit_vector)
            requires
                s <= 0x7F,
        ;
        assert(bytes[0] == s);
    } else if has_width_2_encoding(s) {
        assert(leading_byte_width_2(s) >= 0x80 && last_continuation_byte(s) >= 0x80)
            by (bit_vector);
    } else if has_width_3_encoding(s) {
        assert(leading_byte_width_3(s) >= 0x80 && second_last_continuation_byte(s) >= 0x80
            && last_continuation_byte(s) >= 0x80) by (bit_vector);
    } else {
        assert(leading_byte_width_4(s) >= 0x80 && third_last_continuation_byte(s) >= 0x80
            && second_last_continuation_byte(s) >= 0x80 && last_continuation_byte(s) >= 0x80)
            by (bit_vector);
    }
}

/// A text is legal in a header value exactly when each byte of its UTF-8
/// encoding is.
pub proof fn lemma_legal_text_encodes_legal(text: Seq<char>)
    ensures
        is_legal_value(encode_utf8(text)) <==> is_legal_text(text),
    decreases text.len(),
{
    if text.len() > 0 {
        let head = encode_scalar(text[0] as u32);
        let tail = encode_utf8(text.drop_first());
        lemma_char_encodes_legal(text[0]);
        lemma_legal_text_encodes_legal(text.drop_first());
        assert(encode_utf8(text) == head + tail);
        if is_legal_value(head + tail) {
            assert forall|i: int| 0 <= i < head.len() implies is_legal_value_byte(
                #[trigger] head[i],
            ) by {
                assert(head[i] == (head + tail)[i]);
            }
            assert forall|i: int| 0 <= i < tail.len() implies is_legal_value_byte(
                #[trigger] tail[i],
            ) by {
                assert(tail[i] == (head + tail)[head.len() + i]);
            }
            assert forall|i: int| 0 <= i < text.len() implies is_legal_char(#[trigger] text[i]) by {
                if i > 0 {
                    assert(text[i] == text.drop_first()[i - 1]);
                }
            }
        }
        if is_legal_text(text) {
            assert forall|i: int| 0 <= i < text.drop_first().len() implies is_legal_char(
                #[trigger] text.drop_first()[i],
            ) by {
                assert(text.drop_first()[i] == text[i + 1]);
            }
        }
    }
}

/// A text made of two legal texts is legal.
proof fn lemma_legal_text_joined(prefix: Seq<char>, rest: Seq<char>)
    ensures
        is_legal_text(prefix + rest) <==> is_legal_text(prefix) && is_legal_text(rest),
{
    let whole = prefix + rest;
    if is_legal_text(whole) {
        assert forall|i: int| 0 <= i < prefix.len() implies is_legal_char(#[trigger] prefix[i]) by {
            assert(prefix[i] == whole[i]);
        }
        assert forall|i: int| 0 <= i < rest.len() implies is_legal_char(#[trigger] rest[i]) by {
            assert(rest[i] == whole[prefix.len() + i]);
        }
    }
}

/// The two names under which a credential's header is filed: the map spells
/// `Authorization` and `Cookie` in lower case.
pub proof fn lemma_field_keys()
    ensures
        field_key("Authorization"@) == "authorization"@,
        field_key("Cookie"@) == "cookie"@,
{
    reveal_strlit("Authorization");
    reveal_strlit("authorization");
    reveal_strlit("Cookie");
    reveal_strlit("cookie");
    assert(field_key("Authorization"@) =~= "authorization"@);
    assert(field_key("Cookie"@) =~= "cookie"@);
}

/// A credential puts one field on every request, and a password none: the
/// fields of a token are `Authorization` alone, those of a session cookie
/// `Cookie` alone, and each has the one value that the credential gives.
pub proof fn lemma_credential_fields(credential: Credential)
    ensures
        credential_fields(credential).dom().finite(),
        match credential {
            Credential::Token(token) => {
                &&& credential_fields(credential).dom() == set![field_key("Authorization"@)]
                &&& credential_fields(credential)[field_key("Authorization"@)]
                    == seq![encode_utf8("Bearer "@ + token)]
            },
            Credential::SessionCookie(session_id) => {
                &&& credential_fields(credential).dom() == set![field_key("Cookie"@)]
                &&& credential_fields(credential)[field_key("Cookie"@)]
                    == seq![encode_utf8("semaphore="@ + session_id)]
            },
            Credential::Password(_, _) => credential_fields(credential) == Fields::empty(),
        },
{
    match credential {
        Credential::Token(_) => {
            assert(credential_fields(credential).dom() =~= set![field_key("Authorization"@)]);
        },
        Credential::SessionCookie(_) => {
            assert(credential_fields(credential).dom() =~= set![field_key("Cookie"@)]);
        },
        Credential::Password(_, _) => {},
    }
}

proof fn lemma_authorization_names_a_field()
    ensures
        is_field_name("Authorization"@),
{
    reveal_strlit("Authorization");
}

proof fn lemma_cookie_names_a_field()
    ensures
        is_field_name("Cookie"@),
{
    reveal_strlit("Cookie");
}

} // verus!
