//! Subscriptions: the checkout, and the payment provider's webhook with its
//! signed payloads.
//!
//! A webhook carries a `Stripe-Signature` header of the form
//! `t=<timestamp>,v1=<signature>[,v1=<signature>...]`. A signature is the
//! HMAC-SHA256 of `<timestamp>.<payload>` under the webhook secret, in
//! lower-case hexadecimal.

use vstd::prelude::*;
use crate::error::{invalid_with, AppError, AppResult};
use crate::models::user::{SubscriptionStatus, SubscriptionTier};
use crate::platform::unix_now;
use crate::text::{
    chars_of, find_char, hex_encode, hex_lower, index_of, parsed_signed, read_signed, same_text,
};

verus! {

/// Where the customer goes to pay.
#[derive(Debug)]
pub struct CheckoutResponse {
    pub checkout_url: String,
}

/// Body of a checkout.
#[derive(Debug)]
pub struct CreateCheckoutRequest {
    pub price_id: String,
}

/// The subscription of the caller.
#[derive(Debug)]
pub struct SubscriptionInfo {
    pub tier: SubscriptionTier,
    pub status: SubscriptionStatus,
    pub stripe_customer_id: Option<String>,
}

/// Seconds that a webhook's timestamp may differ from the clock.
pub const TIMESTAMP_TOLERANCE_SECS: i64 = 300;

// ---------------------------------------------------------------------------
// The signature header
// ---------------------------------------------------------------------------

/// The name of a `name=value` element; none where it has no `=`.
pub open spec fn element_key(part: Seq<char>) -> Option<Seq<char>> {
    let i = find_char(part, '=');
    if 0 <= i < part.len() {
        Some(part.take(i))
    } else {
        None
    }
}

/// What stands behind the first `=` of an element.
pub open spec fn element_value(part: Seq<char>) -> Seq<char> {
    part.skip(find_char(part, '=') + 1)
}

/// The first of two options that is there, the left one first.
pub open spec fn first_of(a: Option<Seq<char>>, b: Option<Seq<char>>) -> Option<Seq<char>> {
    match a {
        Some(t) => Some(t),
        None => b,
    }
}

/// The timestamp of a header: the value of its last `t` element.
pub open spec fn header_timestamp(header: Seq<char>) -> Option<Seq<char>>
    decreases header.len(),
{
    let i = find_char(header, ',');
    let part = header.take(i);
    let here = if element_key(part) == Some("t"@) {
        Some(element_value(part))
    } else {
        None
    };
    if 0 <= i < header.len() {
        first_of(header_timestamp(header.skip(i + 1)), here)
    } else {
        here
    }
}

/// The signatures of a header: the values of its `v1` elements, in order.
pub open spec fn header_signatures(header: Seq<char>) -> Seq<Seq<char>>
    decreases header.len(),
{
    let i = find_char(header, ',');
    let part = header.take(i);
    let here = if element_key(part) == Some("v1"@) {
        seq![element_value(part)]
    } else {
        Seq::empty()
    };
    if 0 <= i < header.len() {
        here + header_signatures(header.skip(i + 1))
    } else {
        here
    }
}

/// What a signature header says.
#[derive(Debug)]
pub struct SignatureHeader {
    pub timestamp: Option<String>,
    pub signatures: Vec<String>,
}

/// The texts of a list of strings.
pub open spec fn texts(strings: Seq<String>) -> Seq<Seq<char>> {
    Seq::new(strings.len(), |i: int| strings[i]@)
}

/// What an optional string stands for in contracts.
pub open spec fn text_of(s: Option<String>) -> Option<Seq<char>> {
    match s {
        Some(s) => Some(s@),
        None => None,
    }
}

/// Reads a signature header: elements are parted by commas, name and value
/// by the first `=`; elements of other names, or without `=`, are skipped.
pub fn parse_signature_header(header: &str) -> (parsed: SignatureHeader)
    ensures
        text_of(parsed.timestamp) == header_timestamp(header@),
        texts(parsed.signatures@) == header_signatures(header@),
{
    let chars = chars_of(header);
    let n = chars.len();
    let mut timestamp: Option<String> = None;
    let mut signatures: Vec<String> = Vec::new();
    let mut start: usize = 0;
    let mut done = false;
    proof {
        reveal_strlit("t");
        reveal_strlit("v1");
        assert(header@.skip(0) =~= header@);
        assert(texts(signatures@) =~= Seq::<Seq<char>>::empty());
        assert(Seq::<Seq<char>>::empty() + header_signatures(header@) =~= header_signatures(header@));
    }
    while !done
        invariant
            n == chars@.len(),
            chars@ == header@,
            start <= n,
            "t"@ == seq!['t'],
            "v1"@ == seq!['v', '1'],
            !done ==> header_timestamp(header@) == first_of(
                header_timestamp(header@.skip(start as int)),
                text_of(timestamp),
            ),
            !done ==> header_signatures(header@) == texts(signatures@) + header_signatures(
                header@.skip(start as int),
            ),
            done ==> header_timestamp(header@) == text_of(timestamp),
            done ==> header_signatures(header@) == texts(signatures@),
        decreases
                (if done {
                    0
                } else {
                    n - start + 1
                }),
    {
        let ghost rest = header@.skip(start as int);
        let ghost before = texts(signatures@);
        let ghost earlier = text_of(timestamp);
        let end = index_of(&chars, start, n, ',');
        let eq = index_of(&chars, start, end, '=');
        let ghost part = rest.take(end - start);
        proof {
            assert(rest =~= chars@.subrange(start as int, n as int));
            assert(part =~= chars@.subrange(start as int, end as int));
            assert(find_char(rest, ',') == end - start);
            assert(find_char(part, '=') == eq - start);
            assert(part.take(eq - start) =~= chars@.subrange(start as int, eq as int));
            if eq < end {
                assert(element_value(part) =~= header@.subrange(eq as int + 1, end as int));
            }
        }
        if eq < end {
            let is_timestamp = eq - start == 1 && chars[start] == 't';
            let is_signature = eq - start == 2 && chars[start] == 'v' && chars[start + 1] == '1';
            proof {
                let key = chars@.subrange(start as int, eq as int);
                if is_timestamp {
                    assert(key =~= "t"@);
                } else if key == "t"@ {
                    assert(key.len() == 1 && key[0] == 't');
                }
                if is_signature {
                    assert(key =~= "v1"@);
                } else if key == "v1"@ {
                    assert(key.len() == 2 && key[0] == 'v' && key[1] == '1');
                }
            }
            if is_timestamp {
                timestamp = Some(header.substring_char(eq + 1, end).to_owned());
            } else if is_signature {
                signatures.push(header.substring_char(eq + 1, end).to_owned());
            }
        }
        proof {
            let here_t = if element_key(part) == Some("t"@) {
                Some(element_value(part))
            } else {
                None
            };
            let here_s = if element_key(part) == Some("v1"@) {
                seq![element_value(part)]
            } else {
                Seq::<Seq<char>>::empty()
            };
            assert(text_of(timestamp) == first_of(here_t, earlier));
            assert(texts(signatures@) =~= before + here_s);
            if end < n {
                assert(rest.skip(end - start + 1) =~= header@.skip(end as int + 1));
                assert(header_timestamp(rest) == first_of(
                    header_timestamp(header@.skip(end as int + 1)),
                    here_t,
                ));
                assert(header_signatures(rest) == here_s + header_signatures(header@.skip(end as int + 1)));
                assert(before + (here_s + header_signatures(header@.skip(end as int + 1))) =~= (before
                    + here_s) + header_signatures(header@.skip(end as int + 1)));
            } else {
                assert(header_timestamp(rest) == here_t);
                assert(header_signatures(rest) == here_s);
            }
        }
        if end == n {
            done = true;
        } else {
            start = end + 1;
        }
    }
    SignatureHeader { timestamp, signatures }
}

// ---------------------------------------------------------------------------
// The signature
// ---------------------------------------------------------------------------

/// The HMAC-SHA256 code of a message under a key.
pub uninterp spec fn hmac_sha256_of(key: Seq<u8>, message: Seq<u8>) -> Seq<u8>;

/// The text that `String::from_utf8_lossy` reads from bytes.
pub uninterp spec fn utf8_lossy_of(bytes: Seq<u8>) -> Seq<char>;

/// `Hmac::<Sha256>`: keys the code with `key`, feeds it `message` and
/// returns the 32 bytes of the result. It always returns them: HMAC takes a
/// key of any length, so that `new_from_slice` refuses none.
#[verifier::external_body]
fn hmac_sha256(key: &[u8], message: &[u8]) -> (code: Option<Vec<u8>>)
    ensures
        code is Some,
        code matches Some(bytes) ==> bytes@ == hmac_sha256_of(key@, message@),
        code matches Some(bytes) ==> bytes@.len() == 32,
{
    let mut mac = <hmac::Hmac<sha2::Sha256> as hmac::Mac>::new_from_slice(key).ok()?;
    hmac::Mac::update(&mut mac, message);
    Some(hmac::Mac::finalize(mac).into_bytes().to_vec())
}

/// `String::from_utf8_lossy`: the bytes as text, with the replacement
/// character where they are no UTF-8.
#[verifier::external_body]
fn utf8_lossy(bytes: &[u8]) -> (text: String)
    ensures
        text@ == utf8_lossy_of(bytes@),
{
    String::from_utf8_lossy(bytes).into_owned()
}

/// The bytes that are signed: the timestamp, a dot, and the payload as text.
pub open spec fn signed_payload(timestamp: Seq<char>, payload: Seq<u8>) -> Seq<u8> {
    vstd::utf8::encode_utf8(timestamp + seq!['.'] + utf8_lossy_of(payload))
}

/// The code that signs a payload received with a timestamp.
pub open spec fn payload_code(timestamp: Seq<char>, payload: Seq<u8>, secret: Seq<char>) -> Seq<u8> {
    hmac_sha256_of(vstd::utf8::encode_utf8(secret), signed_payload(timestamp, payload))
}

/// Whether one of the signatures is, byte for byte, the expected one.
pub open spec fn listed(signatures: Seq<Seq<char>>, expected: Seq<char>) -> bool {
    exists|i: int|
        0 <= i < signatures.len() && vstd::utf8::encode_utf8(#[trigger] signatures[i])
            == vstd::utf8::encode_utf8(expected)
}

/// Whether a timestamp that reads as a number of seconds differs from `now`
/// by more than the tolerance. One that does not read as a number is never
/// stale.
pub open spec fn stale(timestamp: Seq<char>, now: i64) -> bool {
    parsed_signed(timestamp, i64::MAX as nat) matches Some(t) && (now - t > TIMESTAMP_TOLERANCE_SECS || t
        - now > TIMESTAMP_TOLERANCE_SECS)
}

/// Compares two byte strings without stopping at the first difference.
pub fn constant_time_eq(a: &[u8], b: &[u8]) -> (same: bool)
    ensures
        same == (a@ == b@),
{
    if a.len() != b.len() {
        return false;
    }
    let mut acc: u8 = 0;
    let mut i: usize = 0;
    while i < a.len()
        invariant
            a@.len() == b@.len(),
            i <= a@.len(),
            acc == 0 <==> (forall|j: int| 0 <= j < i ==> a@[j] == b@[j]),
        decreases a@.len() - i,
    {
        let x: u8 = a[i];
        let y: u8 = b[i];
        let ghost earlier = acc;
        acc = acc | (x ^ y);
        proof {
            assert((earlier | (x ^ y)) == 0 <==> (earlier == 0 && x == y)) by (bit_vector);
            if acc == 0 {
                assert forall|j: int| 0 <= j < i + 1 implies a@[j] == b@[j] by {}
            } else {
                if earlier == 0 {
                    assert(a@[i as int] != b@[i as int]);
                }
            }
        }
        i += 1;
    }
    if acc == 0 {
        assert(a@ =~= b@);
        true
    } else {
        false
    }
}

fn any_matches(signatures: &Vec<String>, expected: &String) -> (found: bool)
    ensures
        found == listed(texts(signatures@), expected@),
{
    let mut found = false;
    let mut i: usize = 0;
    while i < signatures.len()
        invariant
            i <= signatures@.len(),
            found <==> (exists|j: int|
                0 <= j < i && vstd::utf8::encode_utf8(#[trigger] texts(signatures@)[j])
                    == vstd::utf8::encode_utf8(expected@)),
        decreases signatures@.len() - i,
    {
        assert(texts(signatures@)[i as int] == signatures@[i as int]@);
        if constant_time_eq(signatures[i].as_str().as_bytes(), expected.as_str().as_bytes()) {
            found = true;
        }
        i += 1;
    }
    found
}

/// What a signature check comes to, once the code is computed.
pub open spec fn judged(
    outcome: Result<(), AppError>,
    code: Option<Seq<u8>>,
    signatures: Seq<Seq<char>>,
    timestamp: Seq<char>,
    now: i64,
) -> bool {
    match code {
        None => outcome matches Err(AppError::Internal(_)),
        Some(bytes) => if !listed(signatures, hex_lower(bytes)) {
            invalid_with(outcome, "Invalid Stripe webhook signature"@)
        } else if stale(timestamp, now) {
            invalid_with(outcome, "Stripe webhook timestamp outside tolerance"@)
        } else {
            outcome is Ok
        },
    }
}

/// What a computed code stands for in contracts.
pub open spec fn code_bytes(code: Option<Vec<u8>>) -> Option<Seq<u8>> {
    match code {
        Some(bytes) => Some(bytes@),
        None => None,
    }
}

/// Judges a webhook once its code is computed: a code that could not be
/// computed is an internal failure; then one of the signatures has to be the
/// code in hexadecimal; then a timestamp that reads as seconds has to be
/// within the tolerance of `now`.
pub fn judge_signature(
    code: Option<Vec<u8>>,
    signatures: &Vec<String>,
    timestamp: &str,
    now: i64,
) -> (outcome: Result<(), AppError>)
    ensures
        judged(outcome, code_bytes(code), texts(signatures@), timestamp@, now),
{
    let bytes = match code {
        Some(bytes) => bytes,
        None => {
            return Err(AppError::Internal("Invalid webhook secret".to_owned()));
        },
    };
    let expected = hex_encode(bytes.as_slice());
    if !any_matches(signatures, &expected) {
        return Err(AppError::Validation("Invalid Stripe webhook signature".to_owned()));
    }
    let digits = chars_of(timestamp);
    match read_signed(&digits, 9223372036854775807u128) {
        Some(seconds) => {
            let apart: i128 = now as i128 - seconds;
            if apart > TIMESTAMP_TOLERANCE_SECS as i128 || -apart > TIMESTAMP_TOLERANCE_SECS as i128 {
                return Err(AppError::Validation("Stripe webhook timestamp outside tolerance".to_owned()));
            }
        },
        None => {},
    }
    Ok(())
}

/// What the verification of a webhook comes to at time `now`: a header
/// without timestamp is refused as such, then one without signature; then
/// the signatures are judged against the code of the timestamp, a dot and
/// the payload under the secret.
pub open spec fn webhook_verified(
    outcome: Result<(), AppError>,
    payload: Seq<u8>,
    header: Seq<char>,
    secret: Seq<char>,
    now: i64,
) -> bool {
    match header_timestamp(header) {
        None => invalid_with(outcome, "Missing timestamp in Stripe-Signature"@),
        Some(timestamp) => if header_signatures(header).len() == 0 {
            invalid_with(outcome, "Missing v1 signature in Stripe-Signature"@)
        } else {
            judged(
                outcome,
                Some(payload_code(timestamp, payload, secret)),
                header_signatures(header),
                timestamp,
                now,
            )
        },
    }
}

/// Verifies the signature of a webhook at time `now`.
pub fn verify_stripe_signature_at(
    payload: &[u8],
    signature_header: &str,
    secret: &str,
    now: i64,
) -> (outcome: Result<(), AppError>)
    ensures
        webhook_verified(outcome, payload@, signature_header@, secret@, now),
{
    let parsed = parse_signature_header(signature_header);
    let timestamp = match parsed.timestamp {
        Some(timestamp) => timestamp,
        None => {
            return Err(AppError::Validation("Missing timestamp in Stripe-Signature".to_owned()));
        },
    };
    if parsed.signatures.len() == 0 {
        return Err(AppError::Validation("Missing v1 signature in Stripe-Signature".to_owned()));
    }
    proof {
        reveal_strlit(".");
    }
    let body = utf8_lossy(payload);
    let message = timestamp.clone().concat(".").concat(body.as_str());
    assert(message@ =~= timestamp@ + seq!['.'] + utf8_lossy_of(payload@));
    let code = hmac_sha256(secret.as_bytes(), message.as_str().as_bytes());
    judge_signature(code, &parsed.signatures, timestamp.as_str(), now)
}

/// Verifies the signature of a webhook against the clock: whatever time it
/// shows, the outcome is the one of [`verify_stripe_signature_at`] at that
/// time. So a header without timestamp or signature is refused as such, and
/// nothing is accepted unless one of its signatures is the payload's code.
pub fn verify_stripe_signature(
    payload: &[u8],
    signature_header: &str,
    secret: &str,
) -> (outcome: Result<(), AppError>)
    ensures
        exists|now: i64| webhook_verified(outcome, payload@, signature_header@, secret@, now),
        header_timestamp(signature_header@) is None ==> invalid_with(
            outcome,
            "Missing timestamp in Stripe-Signature"@,
        ),
        outcome is Ok ==> (header_timestamp(signature_header@) matches Some(timestamp) && listed(
            header_signatures(signature_header@),
            hex_lower(payload_code(timestamp, payload@, secret@)),
        )),
        outcome matches Err(e) ==> e is Validation,
{
    let now = unix_now();
    let outcome = verify_stripe_signature_at(payload, signature_header, secret, now);
    assert(webhook_verified(outcome, payload@, signature_header@, secret@, now));
    outcome
}

// ---------------------------------------------------------------------------
// What a webhook asks for
// ---------------------------------------------------------------------------

/// What is done for an event of the payment provider.
#[derive(Debug, Clone, Copy, PartialEq, Eq, Structural)]
pub enum WebhookAction {
    /// A checkout was completed: the customer gets the tier and is active.
    Activate { tier: SubscriptionTier },
    /// A subscription changed: the customer gets the status.
    SetStatus { status: SubscriptionStatus },
    /// A subscription ended: the customer is on the free tier, canceled.
    Cancel,
    /// Nothing is done for events of other kinds.
    Ignore,
}

/// The tier that a completed checkout names: `pro` for `pro`, the plus tier
/// for every other name and where none is given.
pub open spec fn checkout_tier_of(tier: Option<Seq<char>>) -> SubscriptionTier {
    match tier {
        Some(name) => if name == "pro"@ {
            SubscriptionTier::Pro
        } else {
            SubscriptionTier::Plus
        },
        None => SubscriptionTier::Plus,
    }
}

/// The status that a changed subscription names: active where none is
/// given, inactive for a name that is not known.
pub open spec fn subscription_status_of(status: Option<Seq<char>>) -> SubscriptionStatus {
    match status {
        None => SubscriptionStatus::Active,
        Some(name) => if name == "active"@ {
            SubscriptionStatus::Active
        } else if name == "trialing"@ {
            SubscriptionStatus::Trialing
        } else if name == "past_due"@ {
            SubscriptionStatus::PastDue
        } else if name == "canceled"@ {
            SubscriptionStatus::Canceled
        } else {
            SubscriptionStatus::Inactive
        },
    }
}

/// What is done for an event, by its type and what it carries.
pub open spec fn webhook_action_of(
    event_type: Seq<char>,
    tier: Option<Seq<char>>,
    status: Option<Seq<char>>,
) -> WebhookAction {
    if event_type == "checkout.session.completed"@ {
        WebhookAction::Activate { tier: checkout_tier_of(tier) }
    } else if event_type == "customer.subscription.updated"@ {
        WebhookAction::SetStatus { status: subscription_status_of(status) }
    } else if event_type == "customer.subscription.deleted"@ {
        WebhookAction::Cancel
    } else {
        WebhookAction::Ignore
    }
}

/// What an optional text stands for in contracts.
pub open spec fn opt_text(s: Option<&str>) -> Option<Seq<char>> {
    match s {
        Some(s) => Some(s@),
        None => None,
    }
}

/// The tier that a completed checkout names.
pub fn checkout_tier(tier: Option<&str>) -> (chosen: SubscriptionTier)
    ensures
        chosen == checkout_tier_of(opt_text(tier)),
{
    match tier {
        Some(name) => {
            if same_text(name, "pro") {
                SubscriptionTier::Pro
            } else {
                SubscriptionTier::Plus
            }
        },
        None => SubscriptionTier::Plus,
    }
}

/// The status that a changed subscription names.
pub fn subscription_status(status: Option<&str>) -> (chosen: SubscriptionStatus)
    ensures
        chosen == subscription_status_of(opt_text(status)),
{
    match status {
        None => SubscriptionStatus::Active,
        Some(name) => {
            if same_text(name, "active") {
                SubscriptionStatus::Active
            } else if same_text(name, "trialing") {
                SubscriptionStatus::Trialing
            } else if same_text(name, "past_due") {
                SubscriptionStatus::PastDue
            } else if same_text(name, "canceled") {
                SubscriptionStatus::Canceled
            } else {
                SubscriptionStatus::Inactive
            }
        },
    }
}

/// Decides what is done for an event of the payment provider.
pub fn webhook_action(event_type: &str, tier: Option<&str>, status: Option<&str>) -> (action: WebhookAction)
    ensures
        action == webhook_action_of(event_type@, opt_text(tier), opt_text(status)),
{
    if same_text(event_type, "checkout.session.completed") {
        WebhookAction::Activate { tier: checkout_tier(tier) }
    } else if same_text(event_type, "customer.subscription.updated") {
        WebhookAction::SetStatus { status: subscription_status(status) }
    } else if same_text(event_type, "customer.subscription.deleted") {
        WebhookAction::Cancel
    } else {
        WebhookAction::Ignore
    }
}

/// Whether an event was handled before: one without identifier never
/// counts as a duplicate.
pub fn is_duplicate_event(event_id: &str, times_seen: i64) -> (duplicate: bool)
    ensures
        duplicate == (event_id@.len() > 0 && times_seen > 0),
{
    !event_id.is_empty() && times_seen > 0
}

/// The name of a tier in the store.
pub fn tier_name(tier: SubscriptionTier) -> (name: &'static str)
    ensures
        name@ == (match tier {
            SubscriptionTier::Free => "free"@,
            SubscriptionTier::Plus => "plus"@,
            SubscriptionTier::Pro => "pro"@,
        }),
{
    match tier {
        SubscriptionTier::Free => "free",
        SubscriptionTier::Plus => "plus",
        SubscriptionTier::Pro => "pro",
    }
}

/// The name of a status in the store.
pub fn status_name(status: SubscriptionStatus) -> (name: &'static str)
    ensures
        name@ == (match status {
            SubscriptionStatus::Active => "active"@,
            SubscriptionStatus::Trialing => "trialing"@,
            SubscriptionStatus::PastDue => "past_due"@,
            SubscriptionStatus::Canceled => "canceled"@,
            SubscriptionStatus::Inactive => "inactive"@,
        }),
{
    match status {
        SubscriptionStatus::Active => "active",
        SubscriptionStatus::Trialing => "trialing",
        SubscriptionStatus::PastDue => "past_due",
        SubscriptionStatus::Canceled => "canceled",
        SubscriptionStatus::Inactive => "inactive",
    }
}

// ---------------------------------------------------------------------------
// The checkout
// ---------------------------------------------------------------------------

/// Whether a checkout may begin: never for a demo session, and only where
/// the payment provider is configured.
pub fn checkout_allowed(is_demo: bool, stripe_secret_key: &str) -> (outcome: AppResult<()>)
    ensures
        is_demo ==> outcome matches Err(AppError::Forbidden),
        !is_demo && stripe_secret_key@.len() == 0 ==> outcome matches Err(AppError::Internal(_)),
        !is_demo && stripe_secret_key@.len() > 0 ==> outcome is Ok,
{
    if is_demo {
        return Err(AppError::Forbidden);
    }
    if stripe_secret_key.is_empty() {
        return Err(AppError::Internal("Stripe not configured".to_owned()));
    }
    Ok(())
}

/// Where the payment provider sends the customer after a checkout.
pub fn success_url(frontend_url: &str) -> (url: String)
    ensures
        url@ == frontend_url@ + "/billing?success=true"@,
{
    frontend_url.to_owned().concat("/billing?success=true")
}

/// Where the payment provider sends the customer who gave up a checkout.
pub fn cancel_url(frontend_url: &str) -> (url: String)
    ensures
        url@ == frontend_url@ + "/billing?canceled=true"@,
{
    frontend_url.to_owned().concat("/billing?canceled=true")
}

/// The `Authorization` header for a secret key.
pub fn bearer(secret_key: &str) -> (value: String)
    ensures
        value@ == "Bearer "@ + secret_key@,
{
    "Bearer ".to_owned().concat(secret_key)
}

} // verus!
