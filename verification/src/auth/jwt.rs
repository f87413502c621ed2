//! The token codec: claims, their JSON payload, signing and verification, and
//! the digest under which a refresh token is filed.
//!
//! A token is a compact HS256 JWT. `jsonwebtoken` frames and signs it and
//! checks a signature; what the payload holds, how it is read back, and when
//! a token has expired is decided here.

use vstd::prelude::*;
use crate::config::Config;
use crate::error::{AppError, AppResult};
use crate::json::{
    all_scalar, json_get, json_insert, json_members, json_object_new, no_members, JsonField,
    JsonItem, JsonObject,
};
use crate::platform::{fresh_uuid, unix_now, uuid_parse, uuid_parsed, uuid_text, uuid_text_of};
use crate::text::{hex_encode, hex_lower, is_lower_hex, lemma_hex_lower_shape, same_text};

verus! {

/// `jsonwebtoken::errors::Error`, carried through and never looked into.
#[verifier::external_type_specification]
#[verifier::external_body]
pub struct ExJwtError(jsonwebtoken::errors::Error);

/// What a token may be used for.
#[derive(Debug, Clone, Copy, PartialEq, Eq, Structural)]
pub enum TokenType {
    Access,
    Refresh,
}

/// The signed payload of a token.
#[derive(Debug, Clone)]
pub struct Claims {
    /// The subject: the user's identifier.
    pub sub: u128,
    /// Empty for sessions without an address.
    pub email: String,
    /// Unix time in seconds from which the token is no longer accepted.
    pub exp: i64,
    /// Unix time in seconds at which the token was issued.
    pub iat: i64,
    pub token_type: TokenType,
    /// Identifies one refresh token; access tokens carry none.
    pub jti: Option<u128>,
    /// Set on the short-lived tokens of demo sessions.
    pub is_demo: Option<bool>,
}

/// [`Claims`] as contracts speak of them.
pub struct ClaimsView {
    pub sub: u128,
    pub email: Seq<char>,
    pub exp: i64,
    pub iat: i64,
    pub token_type: TokenType,
    pub jti: Option<u128>,
    pub is_demo: Option<bool>,
}

impl View for Claims {
    type V = ClaimsView;

    open spec fn view(&self) -> ClaimsView {
        ClaimsView {
            sub: self.sub,
            email: self.email@,
            exp: self.exp,
            iat: self.iat,
            token_type: self.token_type,
            jti: self.jti,
            is_demo: self.is_demo,
        }
    }
}

impl ClaimsView {
    /// A token expires after it was issued, and carries an identifier of its
    /// own exactly when it is a refresh token.
    pub open spec fn well_formed(self) -> bool {
        &&& self.exp > self.iat
        &&& (self.jti is Some <==> self.token_type == TokenType::Refresh)
    }
}

/// An access token and the refresh token issued with it.
#[derive(Debug)]
pub struct TokenPair {
    pub access_token: String,
    pub refresh_token: String,
    /// Lifetime of the access token in seconds.
    pub expires_in: i64,
}

// ---------------------------------------------------------------------------
// Claims and their JSON payload
// ---------------------------------------------------------------------------

/// The name of a token kind in a payload.
pub open spec fn token_type_name(kind: TokenType) -> Seq<char> {
    match kind {
        TokenType::Access => "access"@,
        TokenType::Refresh => "refresh"@,
    }
}

/// An optional identifier as a payload writes it.
pub open spec fn optional_uuid_field(id: Option<u128>) -> JsonField {
    match id {
        Some(id) => JsonField::Text(uuid_text_of(id)),
        None => JsonField::Null,
    }
}

/// An optional flag as a payload writes it.
pub open spec fn optional_bool_field(flag: Option<bool>) -> JsonField {
    match flag {
        Some(flag) => JsonField::Bool(flag),
        None => JsonField::Null,
    }
}

/// The payload that stands for `c`: seven members, identifiers as hyphenated
/// text, times as integers, an absent option as `null`.
pub open spec fn claims_members(c: ClaimsView) -> Map<Seq<char>, JsonField> {
    no_members().insert("sub"@, JsonField::Text(uuid_text_of(c.sub))).insert(
        "email"@,
        JsonField::Text(c.email),
    ).insert("exp"@, JsonField::Int(c.exp)).insert("iat"@, JsonField::Int(c.iat)).insert(
        "token_type"@,
        JsonField::Text(token_type_name(c.token_type)),
    ).insert("jti"@, optional_uuid_field(c.jti)).insert("is_demo"@, optional_bool_field(c.is_demo))
}

/// The value that `name` holds in `members`, if it holds one.
pub open spec fn member(members: Map<Seq<char>, JsonField>, name: Seq<char>) -> Option<JsonField> {
    if members.contains_key(name) {
        Some(members[name])
    } else {
        None
    }
}

/// An identifier read from the text of a member.
pub open spec fn read_uuid(field: Option<JsonField>) -> Option<u128> {
    match field {
        Some(JsonField::Text(text)) => uuid_parsed(text),
        _ => None,
    }
}

/// The text of a member that is a string.
pub open spec fn read_text(field: Option<JsonField>) -> Option<Seq<char>> {
    match field {
        Some(JsonField::Text(text)) => Some(text),
        _ => None,
    }
}

/// The number of a member that is an integer.
pub open spec fn read_int(field: Option<JsonField>) -> Option<i64> {
    match field {
        Some(JsonField::Int(n)) => Some(n),
        _ => None,
    }
}

/// The token kind that a member names.
pub open spec fn read_token_type(field: Option<JsonField>) -> Option<TokenType> {
    match field {
        Some(JsonField::Text(text)) => if text == "access"@ {
            Some(TokenType::Access)
        } else if text == "refresh"@ {
            Some(TokenType::Refresh)
        } else {
            None
        },
        _ => None,
    }
}

/// An optional identifier: an absent member and `null` both read as none;
/// the outer `None` means the member cannot be read.
pub open spec fn read_optional_uuid(field: Option<JsonField>) -> Option<Option<u128>> {
    match field {
        None => Some(None),
        Some(JsonField::Null) => Some(None),
        Some(JsonField::Text(text)) => match uuid_parsed(text) {
            Some(id) => Some(Some(id)),
            None => None,
        },
        _ => None,
    }
}

/// An optional flag, read as [`read_optional_uuid`] reads an identifier.
pub open spec fn read_optional_bool(field: Option<JsonField>) -> Option<Option<bool>> {
    match field {
        None => Some(None),
        Some(JsonField::Null) => Some(None),
        Some(JsonField::Bool(flag)) => Some(Some(flag)),
        _ => None,
    }
}

/// The claims that a payload stands for. `sub`, `email`, `exp`, `iat` and
/// `token_type` must be there and of their type; `jti` and `is_demo` may be
/// missing or `null`; members of other names are ignored.
pub open spec fn members_claims(members: Map<Seq<char>, JsonField>) -> Option<ClaimsView> {
    match (
        read_uuid(member(members, "sub"@)),
        read_text(member(members, "email"@)),
        read_int(member(members, "exp"@)),
        read_int(member(members, "iat"@)),
        read_token_type(member(members, "token_type"@)),
        read_optional_uuid(member(members, "jti"@)),
        read_optional_bool(member(members, "is_demo"@)),
    ) {
        (Some(sub), Some(email), Some(exp), Some(iat), Some(token_type), Some(jti), Some(is_demo)) => Some(
            ClaimsView { sub, email, exp, iat, token_type, jti, is_demo },
        ),
        _ => None,
    }
}

/// Parsing the text written for each identifier of `c` yields it again.
pub open spec fn identifiers_read_back(c: ClaimsView) -> bool {
    &&& uuid_parsed(uuid_text_of(c.sub)) == Some(c.sub)
    &&& c.jti matches Some(id) ==> uuid_parsed(uuid_text_of(id)) == Some(id)
}

proof fn lemma_member_names_differ()
    ensures
        "sub"@ != "email"@,
        "sub"@ != "exp"@,
        "sub"@ != "iat"@,
        "sub"@ != "token_type"@,
        "sub"@ != "jti"@,
        "sub"@ != "is_demo"@,
        "sub"@ != "aud"@,
        "email"@ != "exp"@,
        "email"@ != "iat"@,
        "email"@ != "token_type"@,
        "email"@ != "jti"@,
        "email"@ != "is_demo"@,
        "email"@ != "aud"@,
        "exp"@ != "iat"@,
        "exp"@ != "token_type"@,
        "exp"@ != "jti"@,
        "exp"@ != "is_demo"@,
        "exp"@ != "aud"@,
        "iat"@ != "token_type"@,
        "iat"@ != "jti"@,
        "iat"@ != "is_demo"@,
        "iat"@ != "aud"@,
        "token_type"@ != "jti"@,
        "token_type"@ != "is_demo"@,
        "token_type"@ != "aud"@,
        "jti"@ != "is_demo"@,
        "jti"@ != "aud"@,
        "is_demo"@ != "aud"@,
        "access"@ != "refresh"@,
{
    reveal_strlit("sub");
    reveal_strlit("email");
    reveal_strlit("exp");
    reveal_strlit("iat");
    reveal_strlit("token_type");
    reveal_strlit("jti");
    reveal_strlit("is_demo");
    reveal_strlit("aud");
    reveal_strlit("access");
    reveal_strlit("refresh");
    assert("sub"@.len() == 3);
    assert("email"@.len() == 5);
    assert("exp"@.len() == 3);
    assert("iat"@.len() == 3);
    assert("token_type"@.len() == 10);
    assert("jti"@.len() == 3);
    assert("is_demo"@.len() == 7);
    assert("aud"@.len() == 3);
    assert("access"@.len() == 6);
    assert("refresh"@.len() == 7);
    assert("sub"@[0] == 's');
    assert("exp"@[0] == 'e');
    assert("iat"@[0] == 'i');
    assert("jti"@[0] == 'j');
    assert("aud"@[0] == 'a');
    assert("is_demo"@[0] == 'i');
    assert("refresh"@[0] == 'r');
}

/// A payload written for claims holds scalar members only, has no `aud`
/// member, and reads back as the same claims.
pub proof fn lemma_payload_reads_back(c: ClaimsView)
    requires
        identifiers_read_back(c),
    ensures
        all_scalar(claims_members(c)),
        !claims_members(c).contains_key("aud"@),
        members_claims(claims_members(c)) == Some(c),
{
    lemma_member_names_differ();
    let m = claims_members(c);
    assert(member(m, "sub"@) == Some(JsonField::Text(uuid_text_of(c.sub))));
    assert(member(m, "email"@) == Some(JsonField::Text(c.email)));
    assert(member(m, "exp"@) == Some(JsonField::Int(c.exp)));
    assert(member(m, "iat"@) == Some(JsonField::Int(c.iat)));
    assert(member(m, "token_type"@) == Some(JsonField::Text(token_type_name(c.token_type))));
    assert(member(m, "jti"@) == Some(optional_uuid_field(c.jti)));
    assert(member(m, "is_demo"@) == Some(optional_bool_field(c.is_demo)));
    assert(read_token_type(member(m, "token_type"@)) == Some(c.token_type));
    assert(read_optional_uuid(member(m, "jti"@)) == Some(c.jti));
    assert(read_optional_bool(member(m, "is_demo"@)) == Some(c.is_demo));
}

/// What a looked-up member stands for.
pub open spec fn seen(item: Option<JsonItem>) -> Option<JsonField> {
    match item {
        Some(item) => Some(item@),
        None => None,
    }
}

fn token_type_text(kind: TokenType) -> (text: &'static str)
    ensures
        text@ == token_type_name(kind),
{
    match kind {
        TokenType::Access => "access",
        TokenType::Refresh => "refresh",
    }
}

/// Writes claims as the JSON object that is signed.
pub fn claims_to_payload(claims: &Claims) -> (payload: JsonObject)
    ensures
        json_members(payload) == claims_members(claims@),
        identifiers_read_back(claims@),
{
    let mut payload = json_object_new();
    json_insert(&mut payload, "sub", JsonItem::Text(uuid_text(claims.sub)));
    json_insert(&mut payload, "email", JsonItem::Text(claims.email.clone()));
    json_insert(&mut payload, "exp", JsonItem::Int(claims.exp));
    json_insert(&mut payload, "iat", JsonItem::Int(claims.iat));
    json_insert(
        &mut payload,
        "token_type",
        JsonItem::Text(token_type_text(claims.token_type).to_owned()),
    );
    let jti = match claims.jti {
        Some(id) => JsonItem::Text(uuid_text(id)),
        None => JsonItem::Null,
    };
    json_insert(&mut payload, "jti", jti);
    let is_demo = match claims.is_demo {
        Some(flag) => JsonItem::Bool(flag),
        None => JsonItem::Null,
    };
    json_insert(&mut payload, "is_demo", is_demo);
    payload
}

fn take_uuid(item: Option<JsonItem>) -> (id: Option<u128>)
    ensures
        id == read_uuid(seen(item)),
{
    match item {
        Some(JsonItem::Text(text)) => uuid_parse(text.as_str()),
        _ => None,
    }
}

fn take_optional_uuid(item: Option<JsonItem>) -> (id: Option<Option<u128>>)
    ensures
        id == read_optional_uuid(seen(item)),
{
    match item {
        None => Some(None),
        Some(JsonItem::Null) => Some(None),
        Some(JsonItem::Text(text)) => match uuid_parse(text.as_str()) {
            Some(id) => Some(Some(id)),
            None => None,
        },
        _ => None,
    }
}

fn take_token_type(item: Option<JsonItem>) -> (kind: Option<TokenType>)
    ensures
        kind == read_token_type(seen(item)),
{
    match item {
        Some(JsonItem::Text(text)) => {
            if same_text(text.as_str(), "access") {
                Some(TokenType::Access)
            } else if same_text(text.as_str(), "refresh") {
                Some(TokenType::Refresh)
            } else {
                None
            }
        },
        _ => None,
    }
}

fn lookup(payload: &JsonObject, name: &str) -> (item: Option<JsonItem>)
    ensures
        seen(item) == member(json_members(*payload), name@),
{
    json_get(payload, name)
}

/// Reads claims from a decoded payload, or nothing where a member is missing
/// or of the wrong type.
pub fn claims_from_payload(payload: &JsonObject) -> (claims: Option<Claims>)
    ensures
        match members_claims(json_members(*payload)) {
            Some(c) => claims matches Some(read) && read@ == c,
            None => claims is None,
        },
{
    let sub = take_uuid(lookup(payload, "sub"));
    let email = match lookup(payload, "email") {
        Some(JsonItem::Text(text)) => Some(text),
        _ => None,
    };
    let exp = match lookup(payload, "exp") {
        Some(JsonItem::Int(n)) => Some(n),
        _ => None,
    };
    let iat = match lookup(payload, "iat") {
        Some(JsonItem::Int(n)) => Some(n),
        _ => None,
    };
    let token_type = take_token_type(lookup(payload, "token_type"));
    let jti = take_optional_uuid(lookup(payload, "jti"));
    let is_demo = match lookup(payload, "is_demo") {
        None => Some(None),
        Some(JsonItem::Null) => Some(None),
        Some(JsonItem::Bool(flag)) => Some(Some(flag)),
        _ => None,
    };
    match (sub, email, exp, iat, token_type, jti, is_demo) {
        (Some(sub), Some(email), Some(exp), Some(iat), Some(token_type), Some(jti), Some(is_demo)) => Some(
            Claims { sub, email, exp, iat, token_type, jti, is_demo },
        ),
        _ => None,
    }
}

// ---------------------------------------------------------------------------
// Signing and opening
// ---------------------------------------------------------------------------

/// The HS256 token that `jsonwebtoken::encode` writes for a payload of scalar
/// members under a secret. The token depends on the members alone because
/// `serde_json` keeps an object's members sorted by name; with its
/// `preserve_order` feature switched on that would no longer hold.
pub uninterp spec fn jwt_encoded(payload: Map<Seq<char>, JsonField>, secret: Seq<u8>) -> Seq<char>;

/// The payload that `jsonwebtoken::decode` accepts from a token under a
/// secret, with the check of `exp` switched off: none where the token is
/// malformed, its header names another algorithm than HS256, its signature
/// does not match, the payload is no object, the payload names an audience
/// under `aud`, or it holds a list or an object under `exp`, `nbf`, `sub` or
/// `iss`.
pub uninterp spec fn jwt_decoded(token: Seq<char>, secret: Seq<u8>) -> Option<
    Map<Seq<char>, JsonField>,
>;

/// `jsonwebtoken::encode` with the default header (HS256). It always returns
/// a token: the key is of the header's family, a payload of scalar members
/// always serialises, and signing with HMAC cannot fail. The token is a
/// function of the payload's members and the secret, and unless the payload
/// has an `aud` member, decoding it under the same secret yields the same
/// members.
#[verifier::external_body]
fn jwt_encode(payload: &JsonObject, secret: &[u8]) -> (signed: Result<
    String,
    jsonwebtoken::errors::Error,
>)
    requires
        all_scalar(json_members(*payload)),
    ensures
        signed is Ok,
        signed matches Ok(token) ==> token@ == jwt_encoded(json_members(*payload), secret@),
        signed matches Ok(token) ==> (!json_members(*payload).contains_key("aud"@) ==> jwt_decoded(
            token@,
            secret@,
        ) == Some(json_members(*payload))),
{
    let key = jsonwebtoken::EncodingKey::from_secret(secret);
    jsonwebtoken::encode(&jsonwebtoken::Header::default(), payload, &key)
}

/// `jsonwebtoken::decode` with the default validation (HS256) except that
/// `exp` is neither required nor compared with the clock, so that the
/// outcome depends on the token and the secret alone.
#[verifier::external_body]
fn jwt_decode(token: &str, secret: &[u8]) -> (opened: Result<JsonObject, jsonwebtoken::errors::Error>)
    ensures
        opened matches Ok(payload) ==> jwt_decoded(token@, secret@) == Some(json_members(payload)),
        opened is Err ==> jwt_decoded(token@, secret@) is None,
{
    let mut validation = jsonwebtoken::Validation::default();
    validation.validate_exp = false;
    validation.required_spec_claims.clear();
    let key = jsonwebtoken::DecodingKey::from_secret(secret);
    jsonwebtoken::decode::<JsonObject>(token, &key, &validation).map(|data| data.claims)
}

/// The message of a `jsonwebtoken` error, for the log.
#[verifier::external_body]
fn jwt_error_text(error: &jsonwebtoken::errors::Error) -> String {
    error.to_string()
}

/// The bytes that sign and check every token of a service.
pub open spec fn signing_key(config: Config) -> Seq<u8> {
    vstd::utf8::encode_utf8(config.jwt_secret@)
}

/// `token` is the signed form of `c` under `key`, and opens to `c` again.
pub open spec fn issued(token: Seq<char>, c: ClaimsView, key: Seq<u8>) -> bool {
    &&& token == jwt_encoded(claims_members(c), key)
    &&& jwt_decoded(token, key) == Some(claims_members(c))
    &&& identifiers_read_back(c)
}

/// The claims that a token carries under `key`, whatever the time: none
/// where the token does not open or its payload does not read as claims.
pub open spec fn decoded_claims(token: Seq<char>, key: Seq<u8>) -> Option<ClaimsView> {
    match jwt_decoded(token, key) {
        Some(members) => members_claims(members),
        None => None,
    }
}

/// The claims that verification at time `now` yields: those the token
/// carries, as long as `now` is before their `exp`.
pub open spec fn verified_claims(token: Seq<char>, key: Seq<u8>, now: i64) -> Option<ClaimsView> {
    match decoded_claims(token, key) {
        Some(c) => if now < c.exp {
            Some(c)
        } else {
            None
        },
        None => None,
    }
}

/// A token signed for claims verifies to the same claims at every instant
/// before they expire.
pub proof fn lemma_issued_token_verifies(token: Seq<char>, c: ClaimsView, key: Seq<u8>, now: i64)
    requires
        issued(token, c, key),
        now < c.exp,
    ensures
        verified_claims(token, key, now) == Some(c),
{
    lemma_payload_reads_back(c);
}

/// No token verifies at or after the `exp` it carries: from that instant on
/// verification yields nothing, whatever the token and the key.
pub proof fn lemma_expired_token_is_refused(token: Seq<char>, key: Seq<u8>, now: i64)
    ensures
        verified_claims(token, key, now) matches Some(c) ==> now < c.exp,
        decoded_claims(token, key) matches Some(c) && c.exp <= now ==> verified_claims(
            token,
            key,
            now,
        ) is None,
{
}

/// What a signing attempt becomes: the token, or an internal failure that
/// names the kind of token and carries the signer's message.
pub fn sealed(signed: Result<String, jsonwebtoken::errors::Error>, what: &str) -> (outcome: AppResult<
    String,
>)
    ensures
        signed matches Ok(token) ==> outcome == Ok::<String, AppError>(token),
        signed is Err ==> outcome matches Err(AppError::Internal(_)),
{
    match signed {
        Ok(token) => Ok(token),
        Err(error) => {
            let detail = "Failed to create ".to_owned().concat(what).concat(": ").concat(
                jwt_error_text(&error).as_str(),
            );
            Err(AppError::Internal(detail))
        },
    }
}

/// Signs claims with the service's secret: the outcome is always a token,
/// the signed form of exactly these claims.
pub fn sign_claims(claims: &Claims, config: &Config, what: &str) -> (outcome: AppResult<String>)
    ensures
        issues(outcome, claims@, signing_key(*config)),
{
    let payload = claims_to_payload(claims);
    proof {
        lemma_payload_reads_back(claims@);
    }
    let signed = jwt_encode(&payload, config.jwt_secret.as_str().as_bytes());
    sealed(signed, what)
}

/// What an opened payload yields at time `now`: its claims while they have
/// not expired, and otherwise the one failure that every rejected credential
/// gets.
pub fn accept_payload(payload: &JsonObject, now: i64) -> (outcome: AppResult<Claims>)
    ensures
        match members_claims(json_members(*payload)) {
            Some(c) => if now < c.exp {
                outcome matches Ok(claims) && claims@ == c
            } else {
                outcome matches Err(AppError::Unauthorized)
            },
            None => outcome matches Err(AppError::Unauthorized),
        },
{
    match claims_from_payload(payload) {
        Some(claims) => {
            if now < claims.exp {
                Ok(claims)
            } else {
                Err(AppError::Unauthorized)
            }
        },
        None => Err(AppError::Unauthorized),
    }
}

/// A verification at time `now` returned `outcome`: the claims that the
/// token yields at that time, or `Unauthorized` where it yields none.
pub open spec fn verified_at(outcome: AppResult<Claims>, token: Seq<char>, key: Seq<u8>, now: i64) -> bool {
    match verified_claims(token, key, now) {
        Some(c) => outcome matches Ok(claims) && claims@ == c,
        None => outcome matches Err(AppError::Unauthorized),
    }
}

/// Verifies a token at time `now`. It succeeds exactly when the token opens
/// under the service's secret, its payload reads as claims, and `now` is
/// before `exp`; a token presented at `exp` itself is refused.
pub fn verify_token_at(token: &str, config: &Config, now: i64) -> (outcome: AppResult<Claims>)
    ensures
        verified_at(outcome, token@, signing_key(*config), now),
{
    match jwt_decode(token, config.jwt_secret.as_str().as_bytes()) {
        Ok(payload) => accept_payload(&payload, now),
        Err(_) => Err(AppError::Unauthorized),
    }
}

/// Verifies a token against the clock: whatever time it shows, the outcome
/// is the one of [`verify_token_at`] at that time. So success yields the
/// claims that the token carries, and a token that carries none is refused.
pub fn verify_token(token: &str, config: &Config) -> (outcome: AppResult<Claims>)
    ensures
        exists|now: i64| verified_at(outcome, token@, signing_key(*config), now),
        outcome matches Ok(claims) ==> decoded_claims(token@, signing_key(*config)) == Some(claims@),
        outcome matches Err(e) ==> e is Unauthorized,
        decoded_claims(token@, signing_key(*config)) is None ==> outcome is Err,
{
    let now = unix_now();
    let outcome = verify_token_at(token, config, now);
    assert(verified_at(outcome, token@, signing_key(*config), now));
    outcome
}

// ---------------------------------------------------------------------------
// Issuing
// ---------------------------------------------------------------------------

/// Whether `now + ttl` is a time that `i64` holds.
pub open spec fn expiry_fits(now: i64, ttl: i64) -> bool {
    i64::MIN <= now + ttl <= i64::MAX
}

/// Claims of an access token issued at `now` for `ttl` seconds.
pub open spec fn access_claims(user_id: u128, email: Seq<char>, now: i64, ttl: i64) -> ClaimsView {
    ClaimsView {
        sub: user_id,
        email,
        exp: (now + ttl) as i64,
        iat: now,
        token_type: TokenType::Access,
        jti: None,
        is_demo: None,
    }
}

/// Claims of a refresh token issued at `now` for `ttl` seconds under the
/// identifier `jti`.
pub open spec fn refresh_claims(
    user_id: u128,
    email: Seq<char>,
    now: i64,
    ttl: i64,
    jti: u128,
) -> ClaimsView {
    ClaimsView {
        sub: user_id,
        email,
        exp: (now + ttl) as i64,
        iat: now,
        token_type: TokenType::Refresh,
        jti: Some(jti),
        is_demo: None,
    }
}

/// Claims of a demo session's access token: no address, the demo flag set.
pub open spec fn demo_claims(user_id: u128, now: i64, ttl: i64) -> ClaimsView {
    ClaimsView {
        sub: user_id,
        email: Seq::empty(),
        exp: (now + ttl) as i64,
        iat: now,
        token_type: TokenType::Access,
        jti: None,
        is_demo: Some(true),
    }
}

/// Claims issued for a lifetime of at least one second are well formed.
pub proof fn lemma_issued_claims_are_well_formed(
    user_id: u128,
    email: Seq<char>,
    now: i64,
    ttl: i64,
    jti: u128,
)
    requires
        ttl > 0,
        expiry_fits(now, ttl),
    ensures
        access_claims(user_id, email, now, ttl).well_formed(),
        refresh_claims(user_id, email, now, ttl, jti).well_formed(),
        demo_claims(user_id, now, ttl).well_formed(),
{
}

/// What issuing `c` under `key` returns: a token, the signed form of
/// exactly `c`.
pub open spec fn issues(outcome: AppResult<String>, c: ClaimsView, key: Seq<u8>) -> bool {
    outcome matches Ok(token) && issued(token@, c, key)
}

/// Whether an outcome is an internal failure.
pub open spec fn fails_internally<T>(outcome: AppResult<T>) -> bool {
    outcome matches Err(AppError::Internal(_))
}

/// What issuing an access token at `now` returns: a token for exactly the
/// claims of that instant where the expiry is a time that `i64` holds, and
/// an internal failure where it is not.
pub open spec fn access_issue(
    outcome: AppResult<String>,
    user_id: u128,
    email: Seq<char>,
    config: Config,
    now: i64,
) -> bool {
    if expiry_fits(now, config.jwt_access_ttl_secs) {
        issues(outcome, access_claims(user_id, email, now, config.jwt_access_ttl_secs), signing_key(config))
    } else {
        fails_internally(outcome)
    }
}

/// What issuing a refresh token at `now` under `jti` returns: a token for
/// exactly the claims of that instant where the expiry is a time that `i64`
/// holds and the identifier is not the subject's, and an internal failure
/// otherwise.
pub open spec fn refresh_issue(
    outcome: AppResult<String>,
    user_id: u128,
    email: Seq<char>,
    config: Config,
    now: i64,
    jti: u128,
) -> bool {
    if expiry_fits(now, config.jwt_refresh_ttl_secs) && jti != user_id {
        issues(
            outcome,
            refresh_claims(user_id, email, now, config.jwt_refresh_ttl_secs, jti),
            signing_key(config),
        )
    } else {
        fails_internally(outcome)
    }
}

/// What issuing a demo token at `now` returns: a token for exactly the
/// claims of that instant where the expiry is a time that `i64` holds, and
/// an internal failure where it is not.
pub open spec fn demo_issue(
    outcome: AppResult<String>,
    user_id: u128,
    ttl_secs: i64,
    config: Config,
    now: i64,
) -> bool {
    if expiry_fits(now, ttl_secs) {
        issues(outcome, demo_claims(user_id, now, ttl_secs), signing_key(config))
    } else {
        fails_internally(outcome)
    }
}

fn expiry(now: i64, ttl: i64) -> (exp: AppResult<i64>)
    ensures
        expiry_fits(now, ttl) ==> exp == Ok::<i64, AppError>((now + ttl) as i64),
        !expiry_fits(now, ttl) ==> fails_internally(exp),
{
    match now.checked_add(ttl) {
        Some(exp) => Ok(exp),
        None => Err(AppError::Internal("Token lifetime is out of range".to_owned())),
    }
}

/// Issues an access token at time `now`, valid for the configured lifetime.
/// Verifying the token at any instant before its expiry yields its claims.
pub fn create_access_token_at(
    user_id: u128,
    email: &str,
    config: &Config,
    now: i64,
) -> (outcome: AppResult<String>)
    ensures
        access_issue(outcome, user_id, email@, *config, now),
        outcome matches Ok(token) ==> forall|at: i64|
            at < now + config.jwt_access_ttl_secs ==> #[trigger] verified_claims(
                token@,
                signing_key(*config),
                at,
            ) == Some(access_claims(user_id, email@, now, config.jwt_access_ttl_secs)),
{
    let exp = match expiry(now, config.jwt_access_ttl_secs) {
        Ok(exp) => exp,
        Err(e) => {
            return Err(e);
        },
    };
    let claims = Claims {
        sub: user_id,
        email: email.to_owned(),
        exp,
        iat: now,
        token_type: TokenType::Access,
        jti: None,
        is_demo: None,
    };
    let outcome = sign_claims(&claims, config, "access token");
    proof {
        if outcome is Ok {
            let token = outcome->Ok_0;
            assert forall|at: i64| at < now + config.jwt_access_ttl_secs implies #[trigger] verified_claims(
                token@,
                signing_key(*config),
                at,
            ) == Some(claims@) by {
                lemma_issued_token_verifies(token@, claims@, signing_key(*config), at);
            }
        }
    }
    outcome
}

/// Issues a refresh token at time `now` under the identifier `jti`, valid for
/// the configured lifetime. An identifier equal to the subject is refused, so
/// that every refresh token names itself apart from its owner.
pub fn create_refresh_token_at(
    user_id: u128,
    email: &str,
    config: &Config,
    now: i64,
    jti: u128,
) -> (outcome: AppResult<String>)
    ensures
        refresh_issue(outcome, user_id, email@, *config, now, jti),
        outcome matches Ok(token) ==> forall|at: i64|
            at < now + config.jwt_refresh_ttl_secs ==> #[trigger] verified_claims(
                token@,
                signing_key(*config),
                at,
            ) == Some(refresh_claims(user_id, email@, now, config.jwt_refresh_ttl_secs, jti)),
{
    if jti == user_id {
        return Err(AppError::Internal("Token identifier equals the subject".to_owned()));
    }
    let exp = match expiry(now, config.jwt_refresh_ttl_secs) {
        Ok(exp) => exp,
        Err(e) => {
            return Err(e);
        },
    };
    let claims = Claims {
        sub: user_id,
        email: email.to_owned(),
        exp,
        iat: now,
        token_type: TokenType::Refresh,
        jti: Some(jti),
        is_demo: None,
    };
    let outcome = sign_claims(&claims, config, "refresh token");
    proof {
        if outcome is Ok {
            let token = outcome->Ok_0;
            assert forall|at: i64| at < now + config.jwt_refresh_ttl_secs implies #[trigger] verified_claims(
                token@,
                signing_key(*config),
                at,
            ) == Some(claims@) by {
                lemma_issued_token_verifies(token@, claims@, signing_key(*config), at);
            }
        }
    }
    outcome
}

/// Issues a demo session's access token at time `now`, valid for `ttl_secs`:
/// it carries no address and has the demo flag set.
pub fn create_demo_access_token_at(
    user_id: u128,
    ttl_secs: i64,
    config: &Config,
    now: i64,
) -> (outcome: AppResult<String>)
    ensures
        demo_issue(outcome, user_id, ttl_secs, *config, now),
        outcome matches Ok(token) ==> forall|at: i64|
            at < now + ttl_secs ==> #[trigger] verified_claims(token@, signing_key(*config), at) == Some(
                demo_claims(user_id, now, ttl_secs),
            ),
{
    let exp = match expiry(now, ttl_secs) {
        Ok(exp) => exp,
        Err(e) => {
            return Err(e);
        },
    };
    let claims = Claims {
        sub: user_id,
        email: String::new(),
        exp,
        iat: now,
        token_type: TokenType::Access,
        jti: None,
        is_demo: Some(true),
    };
    let outcome = sign_claims(&claims, config, "demo token");
    proof {
        if outcome is Ok {
            let token = outcome->Ok_0;
            assert forall|at: i64| at < now + ttl_secs implies #[trigger] verified_claims(
                token@,
                signing_key(*config),
                at,
            ) == Some(claims@) by {
                lemma_issued_token_verifies(token@, claims@, signing_key(*config), at);
            }
        }
    }
    outcome
}

/// Whether a pair can be issued at `now` under `jti`: both expiries are
/// times that `i64` holds, and the identifier is not the subject's.
pub open spec fn pair_can_be_issued(user_id: u128, config: Config, now: i64, jti: u128) -> bool {
    &&& expiry_fits(now, config.jwt_access_ttl_secs)
    &&& expiry_fits(now, config.jwt_refresh_ttl_secs)
    &&& jti != user_id
}

/// `pair` holds the two tokens issued for one subject at `now`.
pub open spec fn is_pair(
    pair: TokenPair,
    user_id: u128,
    email: Seq<char>,
    config: Config,
    now: i64,
    jti: u128,
) -> bool {
    &&& issued(
        pair.access_token@,
        access_claims(user_id, email, now, config.jwt_access_ttl_secs),
        signing_key(config),
    )
    &&& issued(
        pair.refresh_token@,
        refresh_claims(user_id, email, now, config.jwt_refresh_ttl_secs, jti),
        signing_key(config),
    )
    &&& pair.expires_in == config.jwt_access_ttl_secs
}

/// What [`create_token_pair_at`] returns: both tokens for the same subject
/// and instant where a pair can be issued, and an internal failure where it
/// cannot.
pub open spec fn issues_pair(
    outcome: AppResult<TokenPair>,
    user_id: u128,
    email: Seq<char>,
    config: Config,
    now: i64,
    jti: u128,
) -> bool {
    if pair_can_be_issued(user_id, config, now, jti) {
        outcome matches Ok(pair) && is_pair(pair, user_id, email, config, now, jti)
    } else {
        fails_internally(outcome)
    }
}

/// Issues an access token and a refresh token for one subject at one instant.
pub fn create_token_pair_at(
    user_id: u128,
    email: &str,
    config: &Config,
    now: i64,
    jti: u128,
) -> (outcome: AppResult<TokenPair>)
    ensures
        issues_pair(outcome, user_id, email@, *config, now, jti),
{
    let access_token = match create_access_token_at(user_id, email, config, now) {
        Ok(token) => token,
        Err(e) => {
            return Err(e);
        },
    };
    let refresh_token = match create_refresh_token_at(user_id, email, config, now, jti) {
        Ok(token) => token,
        Err(e) => {
            return Err(e);
        },
    };
    Ok(TokenPair { access_token, refresh_token, expires_in: config.jwt_access_ttl_secs })
}

/// Whether a token carries an access token's claims for this subject and
/// lifetime, whenever it was issued.
pub open spec fn carries_access(
    token: Seq<char>,
    user_id: u128,
    email: Seq<char>,
    ttl: i64,
    key: Seq<u8>,
) -> bool {
    decoded_claims(token, key) matches Some(c) && c.sub == user_id && c.email == email && c.exp == c.iat
        + ttl && c.token_type == TokenType::Access && c.jti is None && c.is_demo is None
}

/// Whether a token carries a refresh token's claims for this subject and
/// lifetime, with an identifier of its own.
pub open spec fn carries_refresh(
    token: Seq<char>,
    user_id: u128,
    email: Seq<char>,
    ttl: i64,
    key: Seq<u8>,
) -> bool {
    decoded_claims(token, key) matches Some(c) && c.sub == user_id && c.email == email && c.exp == c.iat
        + ttl && c.token_type == TokenType::Refresh && c.is_demo is None && (c.jti matches Some(id)
        && id != user_id)
}

/// Whether a token carries a demo session's claims for this subject and
/// lifetime.
pub open spec fn carries_demo(token: Seq<char>, user_id: u128, ttl: i64, key: Seq<u8>) -> bool {
    decoded_claims(token, key) matches Some(c) && c.sub == user_id && c.email == Seq::<char>::empty()
        && c.exp == c.iat + ttl && c.token_type == TokenType::Access && c.jti is None && c.is_demo
        == Some(true)
}

/// Issues an access token now: whatever time the clock shows, the token of
/// [`create_access_token_at`] for that time.
pub fn create_access_token(user_id: u128, email: &str, config: &Config) -> (outcome: AppResult<String>)
    ensures
        exists|now: i64| access_issue(outcome, user_id, email@, *config, now),
        outcome matches Ok(token) ==> carries_access(
            token@,
            user_id,
            email@,
            config.jwt_access_ttl_secs,
            signing_key(*config),
        ),
        outcome matches Err(e) ==> e is Internal,
{
    let now = unix_now();
    let outcome = create_access_token_at(user_id, email, config, now);
    proof {
        assert(access_issue(outcome, user_id, email@, *config, now));
        if outcome is Ok {
            lemma_payload_reads_back(access_claims(user_id, email@, now, config.jwt_access_ttl_secs));
        }
    }
    outcome
}

/// Issues a refresh token now, under a fresh random identifier: whatever the
/// clock shows and whatever is drawn, the token of
/// [`create_refresh_token_at`] for that time and identifier.
pub fn create_refresh_token(user_id: u128, email: &str, config: &Config) -> (outcome: AppResult<String>)
    ensures
        exists|now: i64, jti: u128| refresh_issue(outcome, user_id, email@, *config, now, jti),
        outcome matches Ok(token) ==> carries_refresh(
            token@,
            user_id,
            email@,
            config.jwt_refresh_ttl_secs,
            signing_key(*config),
        ),
        outcome matches Err(e) ==> e is Internal,
{
    let now = unix_now();
    let jti = fresh_uuid();
    let outcome = create_refresh_token_at(user_id, email, config, now, jti);
    proof {
        assert(refresh_issue(outcome, user_id, email@, *config, now, jti));
        if outcome is Ok {
            lemma_payload_reads_back(
                refresh_claims(user_id, email@, now, config.jwt_refresh_ttl_secs, jti),
            );
        }
    }
    outcome
}

/// Issues an access token and a refresh token now: whatever the clock shows
/// and whatever is drawn, the pair of [`create_token_pair_at`] for that time
/// and identifier.
pub fn create_token_pair(user_id: u128, email: &str, config: &Config) -> (outcome: AppResult<TokenPair>)
    ensures
        exists|now: i64, jti: u128| issues_pair(outcome, user_id, email@, *config, now, jti),
        outcome matches Ok(pair) ==> {
            &&& carries_access(
                pair.access_token@,
                user_id,
                email@,
                config.jwt_access_ttl_secs,
                signing_key(*config),
            )
            &&& carries_refresh(
                pair.refresh_token@,
                user_id,
                email@,
                config.jwt_refresh_ttl_secs,
                signing_key(*config),
            )
            &&& pair.expires_in == config.jwt_access_ttl_secs
        },
        outcome matches Err(e) ==> e is Internal,
{
    let now = unix_now();
    let jti = fresh_uuid();
    let outcome = create_token_pair_at(user_id, email, config, now, jti);
    proof {
        assert(issues_pair(outcome, user_id, email@, *config, now, jti));
        if outcome is Ok {
            lemma_payload_reads_back(access_claims(user_id, email@, now, config.jwt_access_ttl_secs));
            lemma_payload_reads_back(
                refresh_claims(user_id, email@, now, config.jwt_refresh_ttl_secs, jti),
            );
        }
    }
    outcome
}

/// Issues a demo session's access token now, valid for `ttl_secs`: whatever
/// time the clock shows, the token of [`create_demo_access_token_at`] for
/// that time.
pub fn create_demo_access_token(user_id: u128, ttl_secs: i64, config: &Config) -> (outcome: AppResult<String>)
    ensures
        exists|now: i64| demo_issue(outcome, user_id, ttl_secs, *config, now),
        outcome matches Ok(token) ==> carries_demo(token@, user_id, ttl_secs, signing_key(*config)),
        outcome matches Err(e) ==> e is Internal,
{
    let now = unix_now();
    let outcome = create_demo_access_token_at(user_id, ttl_secs, config, now);
    proof {
        assert(demo_issue(outcome, user_id, ttl_secs, *config, now));
        if outcome is Ok {
            lemma_payload_reads_back(demo_claims(user_id, now, ttl_secs));
        }
    }
    outcome
}

// ---------------------------------------------------------------------------
// The digest of a refresh token
// ---------------------------------------------------------------------------

/// The SHA-256 digest of a byte string.
pub uninterp spec fn sha256_of(data: Seq<u8>) -> Seq<u8>;

/// `sha2::Sha256::digest`: the 32 bytes of the SHA-256 digest.
#[verifier::external_body]
fn sha256(data: &[u8]) -> (digest: Vec<u8>)
    ensures
        digest@ == sha256_of(data@),
        digest@.len() == 32,
{
    <sha2::Sha256 as sha2::Digest>::digest(data).to_vec()
}

/// The digest under which a raw token is filed: the SHA-256 of its UTF-8
/// bytes in lower-case hexadecimal.
pub open spec fn token_digest(raw: Seq<char>) -> Seq<char> {
    hex_lower(sha256_of(vstd::utf8::encode_utf8(raw)))
}

/// Computes the digest of a raw token: 64 lower-case hexadecimal characters
/// that depend on the token alone.
pub fn hash_token(raw_token: &str) -> (digest: String)
    ensures
        digest@ == token_digest(raw_token@),
        digest@.len() == 64,
        forall|i: int| 0 <= i < 64 ==> is_lower_hex(#[trigger] digest@[i]),
{
    let bytes = sha256(raw_token.as_bytes());
    proof {
        lemma_hex_lower_shape(bytes@);
    }
    hex_encode(bytes.as_slice())
}

/// The same raw token always has the same digest.
pub proof fn lemma_digest_is_deterministic(a: Seq<char>, b: Seq<char>)
    requires
        a == b,
    ensures
        token_digest(a) == token_digest(b),
{
}

} // verus!
