//! Login, token issue and token checks of the authentication routes.

use vstd::prelude::*;

use crate::handlers::error_response::{
    error_body, poisoned_message, write_error_response, CollectionWriteError, INTERNAL_SERVER_ERROR,
};
use crate::json_value::{
    json_field, json_get, remove_field, set_field, str_field, get_str_field, with_field,
    without_field, Json, JsonView,
};
use crate::text::{
    chars_of, find_char, first_index_of, lemma_first_index_of, push_str, seqs_view,
    split_chars, split_on, starts_with, starts_with_str, string_of, sub_chars, trim, trim_chars,
    trimmed,
};

verus! {

/// Lifetime of an issued token, in seconds (24 hours).
pub const TOKEN_LIFETIME_SECONDS: i64 = 86400;

/// The username and password of a login payload, when both are strings.
pub open spec fn auth_info(payload: JsonView, username_field: Seq<char>, password_field: Seq<char>) -> Option<(Seq<char>, Seq<char>)> {
    match (str_field(payload, username_field), str_field(payload, password_field)) {
        (Some(u), Some(p)) => Some((u, p)),
        _ => None,
    }
}

/// Reads the username and password of a login payload.
pub fn try_get_auth_info(payload: &Json, username_field: &str, password_field: &str) -> (r: Option<(String, String)>)
    ensures
        match r {
            Some((u, p)) => auth_info(payload@, username_field@, password_field@) == Some((u@, p@)),
            None => auth_info(payload@, username_field@, password_field@) is None,
        },
{
    match (get_str_field(payload, username_field), get_str_field(payload, password_field)) {
        (Some(u), Some(p)) => Some((u, p)),
        _ => None,
    }
}

/// Whether the stored user's password field is the string `password`.
pub fn check_password(item: &Json, password: &str, password_field: &str) -> (r: bool)
    ensures
        r == (str_field(item@, password_field@) == Some(password@)),
{
    match get_str_field(item, password_field) {
        Some(stored) => crate::text::chars_eq_str(&chars_of(stored.as_str()), password),
        None => false,
    }
}

/// The query that finds the user of a login.
pub open spec fn login_query_text(user_collection: Seq<char>, username_field: Seq<char>, password_field: Seq<char>) -> Seq<char> {
    "\n                    SELECT * FROM "@ + user_collection + "\n                    WHERE "@
        + username_field + " = ? AND "@ + password_field + " = ?\n                "@
}

/// The query that finds the user of a login, with the username and the
/// password as its two arguments.
pub fn login_query(user_collection: &str, username_field: &str, password_field: &str) -> (q: String)
    ensures
        q@ == login_query_text(user_collection@, username_field@, password_field@),
{
    let mut out = chars_of("\n                    SELECT * FROM ");
    push_str(&mut out, user_collection);
    push_str(&mut out, "\n                    WHERE ");
    push_str(&mut out, username_field);
    push_str(&mut out, " = ? AND ");
    push_str(&mut out, password_field);
    push_str(&mut out, " = ?\n                ");
    string_of(&out)
}

/// How a login ends once its user query ran.
#[derive(Debug, Clone, Copy, PartialEq, Eq, Structural)]
pub enum LoginVerdict {
    /// `401 Unauthorized`.
    Unauthorized,
    /// A token is issued for the first user found.
    Authenticated,
}

/// A login succeeds when the query ran, found a user, and the first user's
/// password field holds the password.
pub open spec fn login_succeeds(users: Option<Seq<JsonView>>, password: Seq<char>, password_field: Seq<char>) -> bool {
    match users {
        Some(found) => found.len() > 0 && str_field(found[0], password_field) == Some(password),
        None => false,
    }
}

/// The outcome of a login: `users` is what the user query returned (`None`
/// when it failed).
pub fn login_verdict(users: &Option<Vec<Json>>, password: &str, password_field: &str) -> (v: LoginVerdict)
    ensures
        (v == LoginVerdict::Authenticated) == login_succeeds(
            match users {
                Some(found) => Some(found@.map_values(|j: Json| j@)),
                None => None,
            },
            password@,
            password_field@,
        ),
{
    match users {
        Some(found) => {
            if found.len() == 0 {
                return LoginVerdict::Unauthorized;
            }
            if check_password(&found[0], password, password_field) {
                LoginVerdict::Authenticated
            } else {
                LoginVerdict::Unauthorized
            }
        },
        None => LoginVerdict::Unauthorized,
    }
}

/// Who a token is issued to.
#[derive(Debug, Clone, PartialEq, Eq)]
pub struct TokenSubject {
    /// User identifier.
    pub sub: String,
    /// User name.
    pub username: String,
    /// User roles.
    pub roles: String,
}

/// The claims of an issued token.
#[derive(Debug, Clone, PartialEq, Eq)]
pub struct Claims {
    /// User identifier.
    pub sub: String,
    /// User name.
    pub username: String,
    /// User roles.
    pub roles: String,
    /// Expiry, in seconds since the epoch.
    pub exp: i64,
    /// Issue time, in seconds since the epoch.
    pub iat: i64,
}

/// A string field, or `"unknown"`.
pub open spec fn str_or_unknown(item: JsonView, key: Seq<char>) -> Seq<char> {
    match str_field(item, key) {
        Some(s) => s,
        None => "unknown"@,
    }
}

/// The first of the fields `id_key`, `"id"` and `"_id"` that the user has.
pub open spec fn id_source(item: JsonView, id_key: Seq<char>) -> Option<JsonView> {
    match json_field(item, id_key) {
        Some(v) => Some(v),
        None => match json_field(item, "id"@) {
            Some(v) => Some(v),
            None => json_field(item, "_id"@),
        },
    }
}

/// The subject of a token: the user's id (the first id field found, when it
/// is a string, else the username), name and roles.
pub open spec fn subject_of(item: JsonView, id_key: Seq<char>, username_field: Seq<char>, roles_field: Seq<char>) -> (Seq<char>, Seq<char>, Seq<char>) {
    let username = str_or_unknown(item, username_field);
    let sub = match id_source(item, id_key) {
        Some(JsonView::Str(s)) => s,
        _ => username,
    };
    (sub, username, str_or_unknown(item, roles_field))
}

/// A string field, or `"unknown"`.
fn field_or_unknown(item: &Json, key: &str) -> (s: String)
    ensures
        s@ == str_or_unknown(item@, key@),
{
    match get_str_field(item, key) {
        Some(s) => s,
        None => "unknown".to_string(),
    }
}

/// Who a token for the user `item` is issued to.
pub fn token_subject(item: &Json, id_key: &str, username_field: &str, roles_field: &str) -> (t: TokenSubject)
    ensures
        (t.sub@, t.username@, t.roles@) == subject_of(item@, id_key@, username_field@, roles_field@),
{
    let username = field_or_unknown(item, username_field);
    let source = match json_get(item, id_key) {
        Some(v) => Some(v),
        None => match json_get(item, "id") {
            Some(v) => Some(v),
            None => json_get(item, "_id"),
        },
    };
    let sub = match source {
        Some(Json::Str(s)) => s.clone(),
        _ => username.clone(),
    };
    let roles = field_or_unknown(item, roles_field);
    TokenSubject { sub, username, roles }
}

/// The claims of a token issued at `now` (seconds since the epoch), valid for
/// 24 hours; `None` when the expiry does not fit in an `i64`.
pub fn token_claims(subject: &TokenSubject, now: i64) -> (c: Option<Claims>)
    ensures
        match c {
            Some(claims) => now + TOKEN_LIFETIME_SECONDS <= i64::MAX && claims.sub == subject.sub
                && claims.username == subject.username && claims.roles == subject.roles
                && claims.iat == now && claims.exp == now + TOKEN_LIFETIME_SECONDS,
            None => now + TOKEN_LIFETIME_SECONDS > i64::MAX,
        },
{
    if now > i64::MAX - TOKEN_LIFETIME_SECONDS {
        return None;
    }
    Some(
        Claims {
            sub: subject.sub.clone(),
            username: subject.username.clone(),
            roles: subject.roles.clone(),
            exp: now + TOKEN_LIFETIME_SECONDS,
            iat: now,
        },
    )
}

/// The `Set-Cookie` value that carries a token.
pub open spec fn cookie_text(cookie_name: Seq<char>, token: Seq<char>) -> Seq<char> {
    cookie_name + "="@ + token + "; HttpOnly; Secure; SameSite=Strict; Max-Age=86400; Path=/"@
}

/// The `Set-Cookie` value that carries a token.
pub fn auth_cookie(cookie_name: &str, token: &str) -> (s: String)
    ensures
        s@ == cookie_text(cookie_name@, token@),
{
    let mut out = chars_of(cookie_name);
    push_str(&mut out, "=");
    push_str(&mut out, token);
    push_str(&mut out, "; HttpOnly; Secure; SameSite=Strict; Max-Age=86400; Path=/");
    string_of(&out)
}

/// The body of a successful login: the token and the user without its password.
pub open spec fn login_body(token: Seq<char>, item: JsonView, password_field: Seq<char>) -> JsonView {
    JsonView::Object(
        seq![("token"@, JsonView::Str(token)), ("user"@, without_field(item, password_field))],
    )
}

/// The body of a successful login: the token and the user without its password.
pub fn login_response(token: &str, item: &Json, password_field: &str) -> (body: Json)
    ensures
        body@ == login_body(token@, item@, password_field@),
{
    let user = remove_field(item.duplicate(), password_field);
    let mut fields: Vec<(String, Json)> = Vec::new();
    fields.push(("token".to_string(), Json::Str(token.to_string())));
    fields.push(("user".to_string(), user));
    proof {
        crate::json_value::lemma_object_view(fields);
        assert(crate::json_value::fields_view(fields@) =~= seq![
            ("token"@, JsonView::Str(token@)),
            ("user"@, without_field(item@, password_field@)),
        ]);
    }
    Json::Object(fields)
}

/// What is stored for an issued token: the user without its password, with
/// the token in the id field of the token collection.
pub open spec fn token_record_of(item: JsonView, password_field: Seq<char>, id_key: Seq<char>, token: Seq<char>) -> JsonView {
    with_field(without_field(item, password_field), id_key, JsonView::Str(token))
}

/// What is stored for an issued token.
pub fn token_record(item: &Json, password_field: &str, id_key: &str, token: &str) -> (r: Json)
    ensures
        r@ == token_record_of(item@, password_field@, id_key@, token@),
{
    let user = remove_field(item.duplicate(), password_field);
    set_field(user, id_key, Json::Str(token.to_string()))
}

/// The token of the first cookie named `name` among `;`-separated pieces:
/// each piece is trimmed and split at its first `=`, and both sides trimmed.
pub open spec fn cookie_token(pieces: Seq<Seq<char>>, name: Seq<char>) -> Option<Seq<char>>
    decreases pieces.len(),
{
    if pieces.len() == 0 {
        None
    } else {
        let c = trim(pieces[0]);
        let k = first_index_of(c, '=');
        if k < c.len() && trim(c.take(k)) == name {
            Some(trim(c.skip(k + 1)))
        } else {
            cookie_token(pieces.drop_first(), name)
        }
    }
}

/// The token of a request: the `Authorization` header after `"Bearer "`, else
/// the cookie named `name` of the `Cookie` header.
pub open spec fn request_token(authorization: Option<Seq<char>>, cookie: Option<Seq<char>>, name: Seq<char>) -> Option<Seq<char>> {
    let bearer = "Bearer "@;
    if authorization is Some && starts_with(authorization->0, bearer) {
        Some(authorization->0.skip(bearer.len() as int))
    } else {
        match cookie {
            Some(c) => cookie_token(split_on(c, ';'), name),
            None => None,
        }
    }
}

/// The token of the first cookie named `name` among `;`-separated pieces.
fn cookie_token_from(pieces: &Vec<Vec<char>>, name: &str) -> (r: Option<Vec<char>>)
    ensures
        match r {
            Some(t) => cookie_token(seqs_view(pieces@), name@) == Some(t@),
            None => cookie_token(seqs_view(pieces@), name@) is None,
        },
{
    let ghost pv = seqs_view(pieces@);
    let mut i: usize = 0;
    assert(pv.skip(0) =~= pv);
    while i < pieces.len()
        invariant
            i <= pieces.len(),
            pv == seqs_view(pieces@),
            cookie_token(pv, name@) == cookie_token(pv.skip(i as int), name@),
        decreases pieces.len() - i,
    {
        let ghost rest = pv.skip(i as int);
        assert(rest[0] == pieces@[i as int]@);
        assert(rest.drop_first() =~= pv.skip(i + 1));
        let c = trim_chars(&pieces[i]);
        let k = find_char(&c, '=');
        proof {
            lemma_first_index_of(c@, '=');
        }
        if k < c.len() {
            let left = trim_chars(&sub_chars(&c, 0, k));
            assert(c@.take(k as int) =~= c@.subrange(0, k as int));
            if crate::text::chars_eq_str(&left, name) {
                let right = trim_chars(&sub_chars(&c, k + 1, c.len()));
                assert(c@.skip(k + 1) =~= c@.subrange(k + 1, c.len() as int));
                return Some(right);
            }
        }
        i += 1;
    }
    assert(pv.skip(i as int) =~= Seq::<Seq<char>>::empty());
    None
}

/// The token a request carries, from its `Authorization` and `Cookie` headers
/// (`None` for a header that is absent or not visible ASCII).
pub fn extract_token_from_request(authorization: Option<&str>, cookie: Option<&str>, cookie_name: &str) -> (r: Option<String>)
    ensures
        match r {
            Some(t) => request_token(
                match authorization {
                    Some(a) => Some(a@),
                    None => None,
                },
                match cookie {
                    Some(c) => Some(c@),
                    None => None,
                },
                cookie_name@,
            ) == Some(t@),
            None => request_token(
                match authorization {
                    Some(a) => Some(a@),
                    None => None,
                },
                match cookie {
                    Some(c) => Some(c@),
                    None => None,
                },
                cookie_name@,
            ) is None,
        },
{
    proof {
        reveal_strlit("Bearer ");
    }
    if let Some(a) = authorization {
        let chars = chars_of(a);
        if starts_with_str(&chars, "Bearer ") {
            let token = sub_chars(&chars, 7, chars.len());
            assert(a@.skip(7) =~= chars@.subrange(7, chars@.len() as int));
            return Some(string_of(&token));
        }
    }
    match cookie {
        Some(c) => {
            let pieces = split_chars(&chars_of(c), ';');
            match cookie_token_from(&pieces, cookie_name) {
                Some(t) => Some(string_of(&t)),
                None => None,
            }
        },
        None => None,
    }
}

/// Whether a protected request goes through, or the status it is refused
/// with: no token gives `401`; a token that does not decode gives `500`; a
/// token whose lookup failed gives `500`; a token that is not stored gives `401`.
pub open spec fn access_status(token_found: bool, decoded: bool, stored: Option<bool>) -> Option<u16> {
    if !token_found {
        Some(401)
    } else if !decoded {
        Some(500)
    } else {
        match stored {
            None => Some(500),
            Some(false) => Some(401),
            Some(true) => None,
        }
    }
}

/// Whether a protected request goes through (`None`) or the status it is
/// refused with. `decoded` is whether the token decoded with the secret;
/// `stored` whether it is in the token collection (`None` when the lookup
/// failed). Later arguments only count when the earlier checks passed.
pub fn access_verdict(token_found: bool, decoded: bool, stored: Option<bool>) -> (r: Option<u16>)
    ensures
        r == access_status(token_found, decoded, stored),
{
    if !token_found {
        Some(401)
    } else if !decoded {
        Some(500)
    } else {
        match stored {
            None => Some(500),
            Some(false) => Some(401),
            Some(true) => None,
        }
    }
}

/// The body of a successful logout: `{"message": "Successfully logged out"}`.
pub open spec fn logout_body() -> JsonView {
    JsonView::Object(seq![("message"@, JsonView::Str("Successfully logged out"@))])
}

/// The status and body a logout answers: `401` with no body when the request
/// bears no token; otherwise, once the token has been removed from the token
/// collection, `200` with [`logout_body`], or the internal-error answer when
/// the removal failed.
pub open spec fn logout_status(token_found: bool, removed: bool) -> (u16, Option<JsonView>) {
    if !token_found {
        (401, None)
    } else if !removed {
        (
            INTERNAL_SERVER_ERROR,
            Some(
                JsonView::Object(
                    seq![
                        ("error"@, JsonView::Str("internal_error"@)),
                        ("message"@, JsonView::Str(poisoned_message())),
                    ],
                ),
            ),
        )
    } else {
        (200, Some(logout_body()))
    }
}

/// What a logout answers, given whether the request bore a token and, when it
/// did, how removing it from the token collection went.
pub fn logout_answer(token_found: bool, removal: Result<(), CollectionWriteError>) -> (r: (
    u16,
    Option<Json>,
))
    ensures
        r.0 == logout_status(token_found, removal is Ok).0,
        match r.1 {
            Some(b) => logout_status(token_found, removal is Ok).1 == Some(b@),
            None => logout_status(token_found, removal is Ok).1 is None,
        },
{
    if !token_found {
        return (401, None);
    }
    match removal {
        Err(err) => {
            let answer = write_error_response(err);
            let body = error_body(&answer);
            (answer.status, Some(body))
        },
        Ok(()) => {
            proof {
                reveal_strlit("Successfully logged out");
            }
            let mut fields: Vec<(String, Json)> = Vec::new();
            fields.push(("message".to_string(), Json::Str("Successfully logged out".to_string())));
            proof {
                crate::json_value::lemma_object_view(fields);
                assert(crate::json_value::fields_view(fields@) =~= seq![
                    ("message"@, JsonView::Str("Successfully logged out"@)),
                ]);
            }
            (200, Some(Json::Object(fields)))
        },
    }
}

/// Logging out revokes a token: once login has stored the token's record in
/// the token collection, a request bearing the token goes through; once
/// logout has removed that record, the same request is refused with `401`.
pub proof fn lemma_logout_revokes_token(
    tokens: crate::in_memory_collection::Entries,
    token: Seq<char>,
    record: JsonView,
)
    requires
        crate::in_memory_collection::unique_keys(tokens),
    ensures
        ({
            let logged_in = crate::json_value::fields_with(tokens, token, record);
            &&& access_status(
                true,
                true,
                Some(crate::json_value::field_value(logged_in, token) is Some),
            ) is None
            &&& crate::json_value::field_index(logged_in, token) matches Some(i) && access_status(
                true,
                true,
                Some(crate::json_value::field_value(logged_in.remove(i), token) is Some),
            ) == Some(401u16)
        }),
{
    let logged_in = crate::json_value::fields_with(tokens, token, record);
    crate::in_memory_collection::lemma_put_then_get(tokens, token, record, token);
    crate::json_value::lemma_field_index(logged_in, token);
    let i = crate::json_value::field_index(logged_in, token)->0;
    crate::in_memory_collection::lemma_remove_then_get(logged_in, i, token);
}

/// No field named `key` is left once the fields named `key` are removed.
proof fn lemma_removed_field_absent(fields: Seq<(Seq<char>, JsonView)>, key: Seq<char>)
    ensures
        crate::json_value::field_index(crate::json_value::fields_without(fields, key), key) is None,
    decreases fields.len(),
{
    let kept = crate::json_value::fields_without(fields, key);
    crate::json_value::lemma_field_index(kept, key);
    assert forall|j: int| 0 <= j < kept.len() implies kept[j].0 != key by {
        fields.filter_lemma(crate::json_value::key_differs(key));
        assert(crate::json_value::key_differs(key)(kept[j]));
    }
}

/// A successful login never answers the stored password: the user in the
/// body has no password field, and neither has the stored token record
/// unless the token's own field has that name.
pub proof fn lemma_login_hides_password(token: Seq<char>, item: JsonView, password_field: Seq<char>, id_key: Seq<char>)
    requires
        item is Object,
    ensures
        json_field(login_body(token, item, password_field)->Object_0[1].1, password_field) is None,
        id_key != password_field ==> json_field(
            token_record_of(item, password_field, id_key, token),
            password_field,
        ) is None,
{
    let fields = item->Object_0;
    lemma_removed_field_absent(fields, password_field);
    let kept = crate::json_value::fields_without(fields, password_field);
    if id_key != password_field {
        crate::json_value::lemma_field_index(kept, id_key);
        crate::json_value::lemma_field_index(kept, password_field);
        let updated = crate::json_value::fields_with(kept, id_key, JsonView::Str(token));
        crate::json_value::lemma_field_index(updated, password_field);
        assert forall|j: int| 0 <= j < updated.len() implies updated[j].0 != password_field by {
            match crate::json_value::field_index(kept, id_key) {
                Some(i) => {
                    if j != i {
                        assert(updated[j] == kept[j]);
                    }
                },
                None => {
                    if j < kept.len() {
                        assert(updated[j] == kept[j]);
                    }
                },
            }
        }
    }
}

} // verus!
