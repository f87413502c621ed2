//! Sessions: issuing a token pair, rotating a refresh token, and ending every
//! session of a subject.
//!
//! A refresh token is good for one rotation. Presenting one whose record is
//! revoked already means that the raw token has leaked, so every record of
//! its owner is revoked and the request is refused.

use vstd::prelude::*;
use crate::auth::jwt::{
    claims_members, create_token_pair_at, decoded_claims, fails_internally, is_pair, jwt_encoded,
    pair_can_be_issued, refresh_claims, signing_key, token_digest, verified_claims,
    verify_token_at, Claims, ClaimsView, TokenPair, TokenType,
};
use crate::auth::ledger::{
    can_store, filed_under, has_digest, has_id, lemma_subject_revoking_keeps_order, new_record,
    place_of_digest, stored_at, subject_is_revoked, well_kept, with_revoked, with_subject_revoked,
    Records, RecordView, RefreshLedger, RefreshRecord,
};
use crate::config::Config;
use crate::error::{invalid_with, AppError, AppResult};
use crate::models::user::User;
use crate::platform::{fresh_uuid, unix_now};

verus! {

/// Body of a registration.
#[derive(Debug)]
pub struct RegisterRequest {
    pub email: String,
    pub password: String,
    pub name: String,
    /// Names the guest account that becomes the registered one.
    pub guest_token: Option<u128>,
}

/// Body of a login.
#[derive(Debug)]
pub struct LoginRequest {
    pub email: String,
    pub password: String,
}

/// Body of a rotation.
#[derive(Debug)]
pub struct RefreshRequest {
    pub refresh_token: String,
}

/// Body of a guest session's creation.
#[derive(Debug)]
pub struct GuestRequest {
    pub timezone: Option<String>,
}

/// What is done with a presented refresh token.
#[derive(Debug, Clone, Copy, PartialEq, Eq, Structural)]
pub enum RefreshVerdict {
    /// Refuse, and change nothing.
    Reject,
    /// The token was used before: revoke every record of `user_id`, then
    /// refuse.
    RevokeFamily { user_id: u128 },
    /// Revoke the record `record_id` and issue a new pair for `user_id`,
    /// filed as the child of that record.
    Rotate { record_id: u128, user_id: u128 },
}

/// The verdict on a refresh token, from the claims that its verification
/// yielded and the record filed under its digest. Only a verified refresh
/// token reaches the ledger; a revoked record outweighs everything else; a
/// record of another subject than the token names is refused.
pub open spec fn refresh_verdict(claims: Option<ClaimsView>, stored: Option<RecordView>) -> RefreshVerdict {
    match claims {
        None => RefreshVerdict::Reject,
        Some(c) => if c.token_type != TokenType::Refresh {
            RefreshVerdict::Reject
        } else {
            match stored {
                None => RefreshVerdict::Reject,
                Some(r) => if r.revoked {
                    RefreshVerdict::RevokeFamily { user_id: r.user_id }
                } else if r.user_id != c.sub {
                    RefreshVerdict::Reject
                } else {
                    RefreshVerdict::Rotate { record_id: r.id, user_id: c.sub }
                },
            }
        },
    }
}

/// What an optional record stands for in contracts.
pub open spec fn record_seen(stored: Option<RefreshRecord>) -> Option<RecordView> {
    match stored {
        Some(r) => Some(r@),
        None => None,
    }
}

/// Decides what is done with a refresh token whose verification yielded
/// `claims`, given the record filed under its digest.
pub fn decide_refresh(claims: &Claims, stored: &Option<RefreshRecord>) -> (verdict: RefreshVerdict)
    ensures
        verdict == refresh_verdict(Some(claims@), record_seen(*stored)),
{
    match claims.token_type {
        TokenType::Access => RefreshVerdict::Reject,
        TokenType::Refresh => match stored {
            None => RefreshVerdict::Reject,
            Some(record) => {
                if record.revoked {
                    RefreshVerdict::RevokeFamily { user_id: record.user_id }
                } else if record.user_id != claims.sub {
                    RefreshVerdict::Reject
                } else {
                    RefreshVerdict::Rotate { record_id: record.id, user_id: claims.sub }
                }
            },
        },
    }
}

/// The verdict on a raw token presented to a ledger at time `now`.
pub open spec fn presented(records: Records, token: Seq<char>, key: Seq<u8>, now: i64) -> RefreshVerdict {
    refresh_verdict(verified_claims(token, key, now), filed_under(records, token_digest(token)))
}

/// The refresh token of the pair that is issued for `user_id` at `now`
/// under `jti`.
pub open spec fn refresh_token_of(user_id: u128, email: Seq<char>, config: Config, now: i64, jti: u128) -> Seq<char> {
    jwt_encoded(
        claims_members(refresh_claims(user_id, email, now, config.jwt_refresh_ttl_secs, jti)),
        signing_key(config),
    )
}

/// Whether the record of the pair's refresh token can be filed under
/// `record_id`: neither the identifier nor the token's digest is in the
/// ledger yet.
pub open spec fn can_file(
    before: Records,
    user_id: u128,
    email: Seq<char>,
    config: Config,
    now: i64,
    jti: u128,
    record_id: u128,
) -> bool {
    can_store(
        before,
        record_id,
        token_digest(refresh_token_of(user_id, email, config, now, jti)),
        config.jwt_refresh_ttl_secs,
        now,
    )
}

/// A pair issued at `now` for `user_id` and filed in `after`, which is
/// `before` with one record added for the refresh token.
pub open spec fn pair_filed(
    before: Records,
    after: Records,
    pair: TokenPair,
    user_id: u128,
    email: Seq<char>,
    config: Config,
    parent_id: Option<u128>,
    now: i64,
    jti: u128,
    record_id: u128,
) -> bool {
    &&& is_pair(pair, user_id, email, config, now, jti)
    &&& pair.refresh_token@ == refresh_token_of(user_id, email, config, now, jti)
    &&& after == before.push(
        new_record(
            record_id,
            user_id,
            token_digest(pair.refresh_token@),
            (now + config.jwt_refresh_ttl_secs) as i64,
            parent_id,
            now,
        ),
    )
}

/// What issuing a pair does to a ledger. Where a pair can be issued and the
/// record of its refresh token can be filed, the pair is returned and the
/// record is added behind all others. Otherwise the ledger is as before:
/// the failure is internal where no pair can be issued, and the store's
/// where the record's identifier or the token's digest is in the ledger
/// already.
pub open spec fn issue_effect(
    before: Records,
    after: Records,
    outcome: AppResult<TokenPair>,
    user_id: u128,
    email: Seq<char>,
    config: Config,
    parent_id: Option<u128>,
    now: i64,
    jti: u128,
    record_id: u128,
) -> bool {
    if !pair_can_be_issued(user_id, config, now, jti) {
        fails_internally(outcome) && after == before
    } else if !can_file(before, user_id, email, config, now, jti, record_id) {
        (outcome matches Err(AppError::Database(_))) && after == before
    } else {
        outcome matches Ok(pair) && pair_filed(
            before,
            after,
            pair,
            user_id,
            email,
            config,
            parent_id,
            now,
            jti,
            record_id,
        )
    }
}

/// Files the digest of a raw refresh token under a fresh identifier:
/// whatever the clock shows and whatever is drawn, the store of
/// [`RefreshLedger::store_at`] for that time and identifier.
pub fn store_refresh_token_pub(
    ledger: &mut RefreshLedger,
    user_id: u128,
    raw_refresh_token: &str,
    ttl_secs: i64,
    parent_token_id: Option<u128>,
) -> (outcome: AppResult<u128>)
    ensures
        exists|id: u128, now: i64|
            stored_at(
                old(ledger)@,
                final(ledger)@,
                outcome,
                user_id,
                token_digest(raw_refresh_token@),
                ttl_secs,
                parent_token_id,
                id,
                now,
            ),
        outcome matches Ok(id) ==> crate::auth::ledger::filed_last(
            old(ledger)@,
            final(ledger)@,
            id,
            user_id,
            token_digest(raw_refresh_token@),
            parent_token_id,
        ),
        outcome matches Err(e) ==> e is Database && final(ledger)@ == old(ledger)@,
{
    ledger.store(user_id, raw_refresh_token, ttl_secs, parent_token_id)
}

/// Issues a token pair at time `now` and files its refresh token under
/// `record_id`, as the child of `parent_token_id` where one is given.
pub fn issue_token_pair_at(
    ledger: &mut RefreshLedger,
    user_id: u128,
    email: &str,
    config: &Config,
    parent_token_id: Option<u128>,
    now: i64,
    jti: u128,
    record_id: u128,
) -> (outcome: AppResult<TokenPair>)
    ensures
        issue_effect(
            old(ledger)@,
            final(ledger)@,
            outcome,
            user_id,
            email@,
            *config,
            parent_token_id,
            now,
            jti,
            record_id,
        ),
{
    let tokens = match create_token_pair_at(user_id, email, config, now, jti) {
        Ok(tokens) => tokens,
        Err(e) => {
            return Err(e);
        },
    };
    match ledger.store_at(
        user_id,
        tokens.refresh_token.as_str(),
        config.jwt_refresh_ttl_secs,
        parent_token_id,
        record_id,
        now,
    ) {
        Ok(_) => Ok(tokens),
        Err(e) => Err(e),
    }
}

/// Issues a token pair now and files its refresh token: whatever the clock
/// shows and whatever is drawn, what [`issue_token_pair_at`] does for that
/// time and those identifiers.
pub fn issue_token_pair(
    ledger: &mut RefreshLedger,
    user_id: u128,
    email: &str,
    config: &Config,
    parent_token_id: Option<u128>,
) -> (outcome: AppResult<TokenPair>)
    ensures
        exists|now: i64, jti: u128, record_id: u128|
            issue_effect(
                old(ledger)@,
                final(ledger)@,
                outcome,
                user_id,
                email@,
                *config,
                parent_token_id,
                now,
                jti,
                record_id,
            ),
        outcome matches Ok(pair) ==> crate::auth::ledger::filed_last(
            old(ledger)@,
            final(ledger)@,
            final(ledger)@.last().id,
            user_id,
            token_digest(pair.refresh_token@),
            parent_token_id,
        ),
        outcome matches Err(e) ==> (e is Internal || e is Database) && final(ledger)@ == old(ledger)@,
{
    let now = unix_now();
    let jti = fresh_uuid();
    let record_id = fresh_uuid();
    let outcome = issue_token_pair_at(ledger, user_id, email, config, parent_token_id, now, jti, record_id);
    proof {
        assert(issue_effect(
            old(ledger)@,
            final(ledger)@,
            outcome,
            user_id,
            email@,
            *config,
            parent_token_id,
            now,
            jti,
            record_id,
        ));
        if outcome is Ok {
            assert(final(ledger)@.drop_last() =~= old(ledger)@);
        }
    }
    outcome
}

/// Revokes every record of `user_id` at time `now`.
pub fn revoke_all_user_tokens_at(ledger: &mut RefreshLedger, user_id: u128, now: i64)
    ensures
        final(ledger)@ == with_subject_revoked(old(ledger)@, user_id, now),
        subject_is_revoked(final(ledger)@, user_id),
{
    proof {
        use_type_invariant(&*ledger);
        lemma_subject_revoking_keeps_order(ledger@, user_id, now);
    }
    ledger.revoke_all_for_subject(user_id, now);
}

/// Revokes every record of `user_id` now.
pub fn revoke_all_user_tokens(ledger: &mut RefreshLedger, user_id: u128)
    ensures
        exists|now: i64| final(ledger)@ == #[trigger] with_subject_revoked(old(ledger)@, user_id, now),
        subject_is_revoked(final(ledger)@, user_id),
        final(ledger)@.len() == old(ledger)@.len(),
        forall|i: int|
            0 <= i < old(ledger)@.len() && old(ledger)@[i].user_id != user_id ==> #[trigger] final(ledger)@[i]
                == old(ledger)@[i],
{
    let now = unix_now();
    revoke_all_user_tokens_at(ledger, user_id, now);
}

/// What presenting a refresh token at `now` does to a ledger and returns.
///
/// A token that does not verify, is no refresh token, has no record, or
/// names another subject than its record is refused and nothing changes. A
/// token whose record is revoked is refused and every record of the record's
/// owner is revoked. Otherwise the record is revoked first; then a new pair
/// is issued for the same subject and address and filed as the record's
/// child. Where no pair can be issued, or the new record's identifier or the
/// new token's digest is in the ledger already, the failure is returned and
/// the old record stays revoked.
pub open spec fn refresh_effect(
    before: Records,
    after: Records,
    outcome: AppResult<TokenPair>,
    token: Seq<char>,
    config: Config,
    now: i64,
    jti: u128,
    record_id: u128,
) -> bool {
    match presented(before, token, signing_key(config), now) {
        RefreshVerdict::Reject => after == before && outcome matches Err(AppError::Unauthorized),
        RefreshVerdict::RevokeFamily { user_id } => after == with_subject_revoked(before, user_id, now)
            && outcome matches Err(AppError::Unauthorized),
        RefreshVerdict::Rotate { record_id: old_id, user_id } => issue_effect(
            with_revoked(before, old_id, now),
            after,
            outcome,
            user_id,
            verified_claims(token, signing_key(config), now)->Some_0.email,
            config,
            Some(old_id),
            now,
            jti,
            record_id,
        ),
    }
}

/// Presents a refresh token at time `now`; `jti` and `record_id` are the
/// identifiers of the pair that a rotation issues.
pub fn refresh_at(
    ledger: &mut RefreshLedger,
    body: &RefreshRequest,
    config: &Config,
    now: i64,
    jti: u128,
    record_id: u128,
) -> (outcome: AppResult<TokenPair>)
    ensures
        refresh_effect(
            old(ledger)@,
            final(ledger)@,
            outcome,
            body.refresh_token@,
            *config,
            now,
            jti,
            record_id,
        ),
{
    let claims = match verify_token_at(body.refresh_token.as_str(), config, now) {
        Ok(claims) => claims,
        Err(_) => {
            return Err(AppError::Unauthorized);
        },
    };
    let stored = ledger.lookup(body.refresh_token.as_str());
    match decide_refresh(&claims, &stored) {
        RefreshVerdict::Reject => Err(AppError::Unauthorized),
        RefreshVerdict::RevokeFamily { user_id } => {
            ledger.revoke_all_for_subject(user_id, now);
            Err(AppError::Unauthorized)
        },
        RefreshVerdict::Rotate { record_id: old_id, user_id } => {
            ledger.revoke(old_id, now);
            issue_token_pair_at(
                ledger,
                user_id,
                claims.email.as_str(),
                config,
                Some(old_id),
                now,
                jti,
                record_id,
            )
        },
    }
}

/// Presents a refresh token now: whatever the clock shows and whatever is
/// drawn, what [`refresh_at`] does for that time and those identifiers. So a
/// failure that is not internal or the store's is `Unauthorized`, and after a
/// success the ledger holds one record more, filed for the new refresh
/// token.
pub fn refresh(
    ledger: &mut RefreshLedger,
    body: &RefreshRequest,
    config: &Config,
) -> (outcome: AppResult<TokenPair>)
    ensures
        exists|now: i64, jti: u128, record_id: u128|
            refresh_effect(
                old(ledger)@,
                final(ledger)@,
                outcome,
                body.refresh_token@,
                *config,
                now,
                jti,
                record_id,
            ),
        outcome matches Ok(pair) ==> final(ledger)@.len() == old(ledger)@.len() + 1 && final(ledger)@.last().token_hash
            == token_digest(pair.refresh_token@) && !final(ledger)@.last().revoked,
        outcome matches Err(e) ==> (e is Unauthorized || e is Internal || e is Database) && final(ledger)@.len()
            == old(ledger)@.len(),
        decoded_claims(body.refresh_token@, signing_key(*config)) is None ==> outcome is Err && final(ledger)@
            == old(ledger)@,
{
    let now = unix_now();
    let jti = fresh_uuid();
    let record_id = fresh_uuid();
    let outcome = refresh_at(ledger, body, config, now, jti, record_id);
    assert(refresh_effect(
        old(ledger)@,
        final(ledger)@,
        outcome,
        body.refresh_token@,
        *config,
        now,
        jti,
        record_id,
    ));
    outcome
}

/// Ends every session of `user_id` at time `now`.
pub fn logout_at(ledger: &mut RefreshLedger, user_id: u128, now: i64) -> (message: String)
    ensures
        final(ledger)@ == with_subject_revoked(old(ledger)@, user_id, now),
        subject_is_revoked(final(ledger)@, user_id),
        message@ == "Logged out successfully"@,
{
    revoke_all_user_tokens_at(ledger, user_id, now);
    "Logged out successfully".to_owned()
}

/// Ends every session of `user_id` now.
pub fn logout(ledger: &mut RefreshLedger, user_id: u128) -> (message: String)
    ensures
        exists|now: i64| final(ledger)@ == #[trigger] with_subject_revoked(old(ledger)@, user_id, now),
        subject_is_revoked(final(ledger)@, user_id),
        message@ == "Logged out successfully"@,
{
    revoke_all_user_tokens(ledger, user_id);
    "Logged out successfully".to_owned()
}

/// A refresh token is good for one rotation. Once a presentation of `token`
/// has rotated it, no later presentation of the same token rotates again;
/// and as long as the token still verifies, the later presentation revokes
/// every record of its owner, the pair issued in between included.
pub proof fn lemma_replay_revokes_family(
    before: Records,
    after: Records,
    outcome: AppResult<TokenPair>,
    token: Seq<char>,
    config: Config,
    now: i64,
    jti: u128,
    record_id: u128,
    later: i64,
)
    requires
        well_kept(before),
        well_kept(after),
        refresh_effect(before, after, outcome, token, config, now, jti, record_id),
        outcome is Ok,
    ensures
        !(presented(after, token, signing_key(config), later) is Rotate),
        verified_claims(token, signing_key(config), later) is Some ==> {
            let owner = verified_claims(token, signing_key(config), now)->Some_0.sub;
            &&& presented(after, token, signing_key(config), later) == RefreshVerdict::RevokeFamily {
                user_id: owner,
            }
            &&& subject_is_revoked(with_subject_revoked(after, owner, later), owner)
            &&& after.last().user_id == owner
            &&& with_subject_revoked(after, owner, later).last().revoked
        },
{
    let key = signing_key(config);
    let digest = token_digest(token);
    let first = presented(before, token, key, now);
    assert(first is Rotate);
    let old_id = first->Rotate_record_id;
    let owner = first->Rotate_user_id;
    let p = place_of_digest(before, digest);
    assert(has_digest(before, digest));
    assert(before[p].id == old_id && !before[p].revoked && before[p].user_id == owner);
    let revoked = with_revoked(before, old_id, now);
    assert(revoked[p].revoked && revoked[p].token_hash == digest && revoked[p].user_id == owner);
    assert(after[p] == revoked[p]);
    assert(has_digest(after, digest));
    let q = place_of_digest(after, digest);
    assert(q == p);
    lemma_subject_revoking_keeps_order(after, owner, later);
}

/// Revoking a record changes neither which identifiers nor which digests a
/// ledger holds.
pub proof fn lemma_revoking_keeps_what_is_filed(records: Records, id: u128, now: i64, other: u128, digest: Seq<char>)
    ensures
        has_id(with_revoked(records, id, now), other) == has_id(records, other),
        has_digest(with_revoked(records, id, now), digest) == has_digest(records, digest),
{
    let after = with_revoked(records, id, now);
    if has_id(records, other) {
        let i = choose|i: int| 0 <= i < records.len() && #[trigger] records[i].id == other;
        assert(after[i].id == other);
    }
    if has_id(after, other) {
        let i = choose|i: int| 0 <= i < after.len() && #[trigger] after[i].id == other;
        assert(records[i].id == other);
    }
    if has_digest(records, digest) {
        let i = choose|i: int| 0 <= i < records.len() && #[trigger] records[i].token_hash == digest;
        assert(after[i].token_hash == digest);
    }
    if has_digest(after, digest) {
        let i = choose|i: int| 0 <= i < after.len() && #[trigger] after[i].token_hash == digest;
        assert(records[i].token_hash == digest);
    }
}

/// A refresh token in order rotates. Where the token verifies as a refresh
/// token, its record is not revoked and belongs to the subject that the
/// token names, a pair can be issued, and neither the new record's
/// identifier nor the new token's digest is in the ledger, the presentation
/// returns the pair. Afterwards the token's record is revoked at `now`, one
/// record is added behind all others, filed for the new refresh token as
/// the child of the old record and not revoked, and every other record is as
/// it was.
pub proof fn lemma_token_in_order_rotates(
    before: Records,
    after: Records,
    outcome: AppResult<TokenPair>,
    token: Seq<char>,
    config: Config,
    now: i64,
    jti: u128,
    record_id: u128,
)
    requires
        well_kept(before),
        verified_claims(token, signing_key(config), now) matches Some(c) && c.token_type == TokenType::Refresh
            && (filed_under(before, token_digest(token)) matches Some(r) && !r.revoked && r.user_id == c.sub
            && pair_can_be_issued(c.sub, config, now, jti) && can_file(
            before,
            c.sub,
            c.email,
            config,
            now,
            jti,
            record_id,
        )),
        refresh_effect(before, after, outcome, token, config, now, jti, record_id),
    ensures
        ({
            let c = verified_claims(token, signing_key(config), now)->Some_0;
            let r = filed_under(before, token_digest(token))->Some_0;
            &&& outcome matches Ok(pair) && is_pair(pair, c.sub, c.email, config, now, jti) && after.last()
                == new_record(
                record_id,
                c.sub,
                token_digest(pair.refresh_token@),
                (now + config.jwt_refresh_ttl_secs) as i64,
                Some(r.id),
                now,
            )
            &&& after.len() == before.len() + 1
            &&& forall|i: int|
                0 <= i < before.len() ==> #[trigger] after[i] == (if before[i].id == r.id {
                    RecordView { revoked: true, revoked_at: Some(now), ..before[i] }
                } else {
                    before[i]
                })
        }),
{
    let c = verified_claims(token, signing_key(config), now)->Some_0;
    let r = filed_under(before, token_digest(token))->Some_0;
    let revoked = with_revoked(before, r.id, now);
    let new_digest = token_digest(refresh_token_of(c.sub, c.email, config, now, jti));
    lemma_revoking_keeps_what_is_filed(before, r.id, now, record_id, new_digest);
    let p = place_of_digest(before, token_digest(token));
    assert(before[p] == r);
    assert forall|i: int| 0 <= i < before.len() && before[i].id == r.id implies i == p by {}
    assert forall|i: int| 0 <= i < before.len() implies #[trigger] after[i] == (if before[i].id == r.id {
        RecordView { revoked: true, revoked_at: Some(now), ..before[i] }
    } else {
        before[i]
    }) by {
        assert(after[i] == revoked[i]);
    }
}

/// Presenting the same refresh token twice: where the first presentation
/// rotated it, the second is refused, whenever it comes and whatever
/// identifiers are drawn for it. As long as the token still verifies, the
/// second presentation leaves every record of the token's owner revoked; once
/// the token has expired it is refused before the ledger is looked at, and
/// the ledger stays as it is.
pub proof fn lemma_second_presentation_is_refused(
    before: Records,
    between: Records,
    first: AppResult<TokenPair>,
    token: Seq<char>,
    config: Config,
    now: i64,
    jti: u128,
    record_id: u128,
    after: Records,
    second: AppResult<TokenPair>,
    later: i64,
    later_jti: u128,
    later_record_id: u128,
)
    requires
        well_kept(before),
        well_kept(between),
        refresh_effect(before, between, first, token, config, now, jti, record_id),
        first is Ok,
        refresh_effect(between, after, second, token, config, later, later_jti, later_record_id),
    ensures
        second matches Err(AppError::Unauthorized),
        verified_claims(token, signing_key(config), later) is Some ==> {
            let owner = verified_claims(token, signing_key(config), now)->Some_0.sub;
            &&& after == with_subject_revoked(between, owner, later)
            &&& subject_is_revoked(after, owner)
            &&& after.last().revoked
        },
        verified_claims(token, signing_key(config), later) is None ==> after == between,
{
    lemma_replay_revokes_family(before, between, first, token, config, now, jti, record_id, later);
}

/// After every record of a subject has been revoked, no refresh token filed
/// for that subject rotates: whichever of them is presented, and whenever,
/// it is refused.
pub proof fn lemma_revoked_family_never_rotates(
    records: Records,
    user_id: u128,
    now: i64,
    token: Seq<char>,
    key: Seq<u8>,
    later: i64,
)
    requires
        well_kept(records),
        filed_under(records, token_digest(token)) matches Some(r) && r.user_id == user_id,
    ensures
        !(presented(with_subject_revoked(records, user_id, now), token, key, later) is Rotate),
{
    let after = with_subject_revoked(records, user_id, now);
    let digest = token_digest(token);
    let p = place_of_digest(records, digest);
    assert(after[p].token_hash == digest && after[p].revoked);
    lemma_subject_revoking_keeps_order(records, user_id, now);
    let q = place_of_digest(after, digest);
    assert(has_digest(after, digest));
    assert(q == p);
}

/// Once a subject's records are all revoked, presenting any refresh token
/// that is filed for the subject fails with `Unauthorized`, whenever it is
/// presented and whatever identifiers are drawn for it.
pub proof fn lemma_revoked_family_is_refused(
    records: Records,
    user_id: u128,
    now: i64,
    token: Seq<char>,
    config: Config,
    after: Records,
    outcome: AppResult<TokenPair>,
    later: i64,
    jti: u128,
    record_id: u128,
)
    requires
        well_kept(records),
        filed_under(records, token_digest(token)) matches Some(r) && r.user_id == user_id,
        refresh_effect(
            with_subject_revoked(records, user_id, now),
            after,
            outcome,
            token,
            config,
            later,
            jti,
            record_id,
        ),
    ensures
        outcome matches Err(AppError::Unauthorized),
        subject_is_revoked(after, user_id),
{
    let revoked = with_subject_revoked(records, user_id, now);
    lemma_revoked_family_never_rotates(records, user_id, now, token, signing_key(config), later);
    lemma_subject_revoking_keeps_order(records, user_id, now);
    let digest = token_digest(token);
    let p = place_of_digest(records, digest);
    assert(revoked[p].token_hash == digest && revoked[p].revoked && revoked[p].user_id == user_id);
    assert(has_digest(revoked, digest));
    let q = place_of_digest(revoked, digest);
    assert(q == p);
    match presented(revoked, token, signing_key(config), later) {
        RefreshVerdict::RevokeFamily { user_id: owner } => {
            assert(owner == user_id);
            lemma_subject_revoking_keeps_order(revoked, user_id, later);
        },
        _ => {},
    }
}

/// Rotation and revocation never touch the records of another subject than
/// the one they act for.
pub proof fn lemma_other_subjects_untouched(records: Records, user_id: u128, now: i64, i: int)
    requires
        0 <= i < records.len(),
        records[i].user_id != user_id,
    ensures
        with_subject_revoked(records, user_id, now)[i] == records[i],
{
}

// ---------------------------------------------------------------------------
// Who gets a session
// ---------------------------------------------------------------------------

/// Number of bytes that a text takes in UTF-8.
pub open spec fn byte_len(text: Seq<char>) -> nat {
    vstd::utf8::encode_utf8(text).len()
}

/// Checks a registration before anything is looked up: it needs an address,
/// and a password of eight bytes or more.
pub fn validate_registration(body: &RegisterRequest) -> (outcome: AppResult<()>)
    ensures
        body.email@.len() == 0 || byte_len(body.password@) < 8 ==> invalid_with(
            outcome,
            "Email required and password must be at least 8 characters"@,
        ),
        body.email@.len() > 0 && byte_len(body.password@) >= 8 ==> outcome is Ok,
{
    if body.email.as_str().is_empty() || body.password.as_str().as_bytes().len() < 8 {
        return Err(
            AppError::Validation("Email required and password must be at least 8 characters".to_owned()),
        );
    }
    Ok(())
}

/// An address can be registered once.
pub fn email_available(accounts_with_email: i64) -> (outcome: AppResult<()>)
    ensures
        accounts_with_email > 0 ==> (outcome matches Err(AppError::Conflict(text)) && text@
            == "Email already registered"@),
        accounts_with_email <= 0 ==> outcome is Ok,
{
    if accounts_with_email > 0 {
        return Err(AppError::Conflict("Email already registered".to_owned()));
    }
    Ok(())
}

/// The account that a registration fills: the guest account that the
/// request names, where there is one, and otherwise a new account.
#[derive(Debug, Clone, Copy, PartialEq, Eq, Structural)]
pub enum RegistrationTarget {
    UpgradeGuest { user_id: u128 },
    NewAccount { user_id: u128 },
}

/// Decides which account a registration fills.
pub fn registration_target(guest: Option<u128>, fresh_id: u128) -> (target: RegistrationTarget)
    ensures
        target == (match guest {
            Some(id) => RegistrationTarget::UpgradeGuest { user_id: id },
            None => RegistrationTarget::NewAccount { user_id: fresh_id },
        }),
{
    match guest {
        Some(id) => RegistrationTarget::UpgradeGuest { user_id: id },
        None => RegistrationTarget::NewAccount { user_id: fresh_id },
    }
}

/// The stored password hash of the account that a login names. Without an
/// account, or without a password on it, nobody logs in.
pub fn login_hash(user: &Option<User>) -> (outcome: AppResult<String>)
    ensures
        match *user {
            Some(u) => match u.password_hash {
                Some(hash) => outcome matches Ok(found) && found@ == hash@,
                None => outcome matches Err(AppError::Unauthorized),
            },
            None => outcome matches Err(AppError::Unauthorized),
        },
{
    match user {
        Some(u) => match &u.password_hash {
            Some(hash) => Ok(hash.clone()),
            None => Err(AppError::Unauthorized),
        },
        None => Err(AppError::Unauthorized),
    }
}

/// A login whose password does not match is refused like every other
/// failed login.
pub fn password_verdict(password_matches: bool) -> (outcome: AppResult<()>)
    ensures
        password_matches ==> outcome is Ok,
        !password_matches ==> outcome matches Err(AppError::Unauthorized),
{
    if password_matches {
        Ok(())
    } else {
        Err(AppError::Unauthorized)
    }
}

/// The address that goes into the tokens of an account: its own, or the
/// empty one where it has none.
pub fn session_email(user: &User) -> (email: String)
    ensures
        email@ == (match user.email {
            Some(e) => e@,
            None => Seq::<char>::empty(),
        }),
{
    match &user.email {
        Some(e) => e.clone(),
        None => String::new(),
    }
}

/// The time zone of a guest: the one the request names, or UTC.
pub fn guest_timezone(body: &GuestRequest) -> (timezone: String)
    ensures
        timezone@ == (match body.timezone {
            Some(tz) => tz@,
            None => "UTC"@,
        }),
{
    match &body.timezone {
        Some(tz) => tz.clone(),
        None => "UTC".to_owned(),
    }
}

} // verus!
