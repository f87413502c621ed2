//! The refresh ledger: one record for every refresh token ever issued, filed
//! under the token's digest. The raw token is never kept.
//!
//! A record is created when a token is minted and changes once, when it is
//! revoked: by the rotation that replaces it, by a logout, or because one
//! token of its owner was presented again after it had been revoked. Records
//! are kept in the order in which they were stored and are never removed
//! here, so a record may outlive its expiry.

use vstd::prelude::*;
use crate::auth::jwt::{hash_token, token_digest};
use crate::error::{AppError, AppResult};
use crate::platform::{fresh_uuid, unix_now};

verus! {

/// One issued refresh token as the ledger keeps it.
#[derive(Debug)]
pub struct RefreshRecord {
    pub id: u128,
    /// The subject that the token was issued to.
    pub user_id: u128,
    /// Digest of the raw token.
    pub token_hash: String,
    /// Unix time in seconds after which the token is expired.
    pub expires_at: i64,
    pub revoked: bool,
    /// When the record was revoked, if it was.
    pub revoked_at: Option<i64>,
    /// The record that this one replaced in a rotation.
    pub parent_token_id: Option<u128>,
    /// Unix time in seconds at which the record was stored.
    pub created_at: i64,
}

/// A [`RefreshRecord`] as contracts speak of it.
pub struct RecordView {
    pub id: u128,
    pub user_id: u128,
    pub token_hash: Seq<char>,
    pub expires_at: i64,
    pub revoked: bool,
    pub revoked_at: Option<i64>,
    pub parent_token_id: Option<u128>,
    pub created_at: i64,
}

impl View for RefreshRecord {
    type V = RecordView;

    open spec fn view(&self) -> RecordView {
        RecordView {
            id: self.id,
            user_id: self.user_id,
            token_hash: self.token_hash@,
            expires_at: self.expires_at,
            revoked: self.revoked,
            revoked_at: self.revoked_at,
            parent_token_id: self.parent_token_id,
            created_at: self.created_at,
        }
    }
}

impl RefreshRecord {
    /// A copy of the record.
    pub fn duplicate(&self) -> (copy: RefreshRecord)
        ensures
            copy@ == self@,
    {
        RefreshRecord {
            id: self.id,
            user_id: self.user_id,
            token_hash: self.token_hash.clone(),
            expires_at: self.expires_at,
            revoked: self.revoked,
            revoked_at: self.revoked_at,
            parent_token_id: self.parent_token_id,
            created_at: self.created_at,
        }
    }
}

/// The records of a ledger in contracts, oldest first.
pub type Records = Seq<RecordView>;

/// No two records share an identifier or a digest, and a record carries a
/// revocation time exactly when it is revoked.
pub open spec fn well_kept(records: Records) -> bool {
    &&& forall|i: int, j: int|
        0 <= i < records.len() && 0 <= j < records.len() && i != j ==> records[i].id != records[j].id
    &&& forall|i: int, j: int|
        0 <= i < records.len() && 0 <= j < records.len() && i != j ==> records[i].token_hash
            != records[j].token_hash
    &&& forall|i: int| 0 <= i < records.len() ==> (#[trigger] records[i].revoked <==> records[i].revoked_at is Some)
}

/// Whether some record has the identifier `id`.
pub open spec fn has_id(records: Records, id: u128) -> bool {
    exists|i: int| 0 <= i < records.len() && #[trigger] records[i].id == id
}

/// The place of the record with identifier `id`.
pub open spec fn place_of_id(records: Records, id: u128) -> int {
    choose|i: int| 0 <= i < records.len() && #[trigger] records[i].id == id
}

/// The record with identifier `id`, if there is one.
pub open spec fn with_id(records: Records, id: u128) -> Option<RecordView> {
    if has_id(records, id) {
        Some(records[place_of_id(records, id)])
    } else {
        None
    }
}

/// Whether some record is filed under `digest`.
pub open spec fn has_digest(records: Records, digest: Seq<char>) -> bool {
    exists|i: int| 0 <= i < records.len() && #[trigger] records[i].token_hash == digest
}

/// The place of the record filed under `digest`.
pub open spec fn place_of_digest(records: Records, digest: Seq<char>) -> int {
    choose|i: int| 0 <= i < records.len() && #[trigger] records[i].token_hash == digest
}

/// The record filed under `digest`, if there is one.
pub open spec fn filed_under(records: Records, digest: Seq<char>) -> Option<RecordView> {
    if has_digest(records, digest) {
        Some(records[place_of_digest(records, digest)])
    } else {
        None
    }
}

/// A record as it is after a revocation at `now`: one that was revoked
/// before keeps the time of its first revocation.
pub open spec fn revoked_record(r: RecordView, now: i64) -> RecordView {
    if r.revoked {
        r
    } else {
        RecordView { revoked: true, revoked_at: Some(now), ..r }
    }
}

/// The records after the one with identifier `id` was revoked at `now`.
pub open spec fn with_revoked(records: Records, id: u128, now: i64) -> Records {
    Seq::new(
        records.len(),
        |i: int| if records[i].id == id {
            revoked_record(records[i], now)
        } else {
            records[i]
        },
    )
}

/// The records after every record of `user_id` was revoked at `now`.
pub open spec fn with_subject_revoked(records: Records, user_id: u128, now: i64) -> Records {
    Seq::new(
        records.len(),
        |i: int| if records[i].user_id == user_id {
            revoked_record(records[i], now)
        } else {
            records[i]
        },
    )
}

/// The record that [`RefreshLedger::store_at`] files.
pub open spec fn new_record(
    id: u128,
    user_id: u128,
    digest: Seq<char>,
    expires_at: i64,
    parent_id: Option<u128>,
    now: i64,
) -> RecordView {
    RecordView {
        id,
        user_id,
        token_hash: digest,
        expires_at,
        revoked: false,
        revoked_at: None,
        parent_token_id: parent_id,
        created_at: now,
    }
}

/// Whether a record can be filed: its lifetime ends at a time that `i64`
/// holds, and neither its identifier nor its digest is in use.
pub open spec fn can_store(records: Records, id: u128, digest: Seq<char>, ttl_secs: i64, now: i64) -> bool {
    &&& i64::MIN <= now + ttl_secs <= i64::MAX
    &&& !has_id(records, id)
    &&& !has_digest(records, digest)
}

/// `after` is `before` with one more record at its end: not revoked, with
/// this identifier, owner, digest and parent.
pub open spec fn filed_last(
    before: Records,
    after: Records,
    id: u128,
    user_id: u128,
    digest: Seq<char>,
    parent_id: Option<u128>,
) -> bool {
    &&& after.len() == before.len() + 1
    &&& after.drop_last() == before
    &&& after.last().id == id
    &&& after.last().user_id == user_id
    &&& after.last().token_hash == digest
    &&& !after.last().revoked
    &&& after.last().parent_token_id == parent_id
}

/// The outcome of a store that filed a record under `id`.
pub open spec fn ok_id(id: u128) -> AppResult<u128> {
    Ok(id)
}

/// A store at time `now` under the identifier `id` led from `before` to
/// `after` and returned `outcome`: the record is filed behind all others, or
/// nothing is filed and the store fails, exactly when it cannot be stored.
pub open spec fn stored_at(
    before: Records,
    after: Records,
    outcome: AppResult<u128>,
    user_id: u128,
    digest: Seq<char>,
    ttl_secs: i64,
    parent_id: Option<u128>,
    id: u128,
    now: i64,
) -> bool {
    if can_store(before, id, digest, ttl_secs, now) {
        outcome == ok_id(id) && after == before.push(
            new_record(id, user_id, digest, (now + ttl_secs) as i64, parent_id, now),
        )
    } else {
        (outcome matches Err(AppError::Database(_))) && after == before
    }
}

/// Whether every record of `user_id` is revoked.
pub open spec fn subject_is_revoked(records: Records, user_id: u128) -> bool {
    forall|i: int| 0 <= i < records.len() && #[trigger] records[i].user_id == user_id ==> records[i].revoked
}

/// The ledger.
pub struct RefreshLedger {
    records: Vec<RefreshRecord>,
}

spec fn views(records: Seq<RefreshRecord>) -> Records {
    Seq::new(records.len(), |i: int| records[i]@)
}

impl View for RefreshLedger {
    type V = Records;

    closed spec fn view(&self) -> Records {
        views(self.records@)
    }
}

impl Default for RefreshLedger {
    fn default() -> (ledger: Self)
        ensures
            ledger@ == Seq::<RecordView>::empty(),
    {
        RefreshLedger::new()
    }
}

fn find_digest(records: &Vec<RefreshRecord>, digest: &String) -> (place: Option<usize>)
    ensures
        place matches Some(i) ==> i < records@.len() && views(records@)[i as int].token_hash == digest@,
        place is Some ==> has_digest(views(records@), digest@),
        place is None ==> !has_digest(views(records@), digest@),
{
    let mut i: usize = 0;
    while i < records.len()
        invariant
            i <= records@.len(),
            forall|j: int| 0 <= j < i ==> records@[j].token_hash@ != digest@,
        decreases records@.len() - i,
    {
        if records[i].token_hash == *digest {
            assert(views(records@)[i as int].token_hash == digest@);
            return Some(i);
        }
        i += 1;
    }
    assert forall|j: int| 0 <= j < views(records@).len() implies views(records@)[j].token_hash != digest@ by {
        assert(views(records@)[j] == records@[j]@);
    }
    None
}

fn find_id(records: &Vec<RefreshRecord>, id: u128) -> (place: Option<usize>)
    ensures
        place matches Some(i) ==> i < records@.len() && views(records@)[i as int].id == id,
        place is Some ==> has_id(views(records@), id),
        place is None ==> !has_id(views(records@), id),
{
    let mut i: usize = 0;
    while i < records.len()
        invariant
            i <= records@.len(),
            forall|j: int| 0 <= j < i ==> records@[j].id != id,
        decreases records@.len() - i,
    {
        if records[i].id == id {
            assert(views(records@)[i as int].id == id);
            return Some(i);
        }
        i += 1;
    }
    assert forall|j: int| 0 <= j < views(records@).len() implies views(records@)[j].id != id by {
        assert(views(records@)[j] == records@[j]@);
    }
    None
}

impl RefreshLedger {
    /// What holds of every ledger at all times.
    #[verifier::type_invariant]
    pub open spec fn kept_well(&self) -> bool {
        well_kept(self@)
    }

    /// A ledger without records.
    pub fn new() -> (ledger: Self)
        ensures
            ledger@ == Seq::<RecordView>::empty(),
    {
        let ledger = RefreshLedger { records: Vec::new() };
        assert(ledger@ =~= Seq::<RecordView>::empty());
        ledger
    }

    /// Number of records.
    pub fn len(&self) -> (n: usize)
        ensures
            n == self@.len(),
    {
        self.records.len()
    }

    /// A copy of the record at place `i`, counted from the oldest.
    pub fn record_at(&self, i: usize) -> (record: Option<RefreshRecord>)
        ensures
            i < self@.len() ==> (record matches Some(r) && r@ == self@[i as int]),
            i >= self@.len() ==> record is None,
    {
        if i < self.records.len() {
            assert(views(self.records@)[i as int] == self.records@[i as int]@);
            Some(self.records[i].duplicate())
        } else {
            None
        }
    }

    /// A copy of the record with identifier `id`, if there is one.
    pub fn get(&self, id: u128) -> (record: Option<RefreshRecord>)
        ensures
            match with_id(self@, id) {
                Some(r) => record matches Some(found) && found@ == r,
                None => record is None,
            },
    {
        proof {
            use_type_invariant(self);
        }
        match find_id(&self.records, id) {
            Some(i) => {
                proof {
                    let recs = views(self.records@);
                    assert(recs[i as int] == self.records@[i as int]@);
                    let p = place_of_id(recs, id);
                    assert(p == i);
                }
                Some(self.records[i].duplicate())
            },
            None => None,
        }
    }

    /// Files a record for a raw refresh token that lives `ttl_secs` seconds
    /// from now, under a fresh random identifier: whatever the clock shows
    /// and whatever is drawn, the store of [`RefreshLedger::store_at`] for
    /// that time and identifier.
    pub fn store(
        &mut self,
        user_id: u128,
        raw_refresh_token: &str,
        ttl_secs: i64,
        parent_id: Option<u128>,
    ) -> (outcome: AppResult<u128>)
        ensures
            exists|id: u128, now: i64|
                stored_at(
                    old(self)@,
                    final(self)@,
                    outcome,
                    user_id,
                    token_digest(raw_refresh_token@),
                    ttl_secs,
                    parent_id,
                    id,
                    now,
                ),
            outcome matches Ok(id) ==> filed_last(
                old(self)@,
                final(self)@,
                id,
                user_id,
                token_digest(raw_refresh_token@),
                parent_id,
            ),
            outcome matches Err(e) ==> e is Database && final(self)@ == old(self)@,
    {
        let now = unix_now();
        let id = fresh_uuid();
        let outcome = self.store_at(user_id, raw_refresh_token, ttl_secs, parent_id, id, now);
        proof {
            assert(stored_at(
                old(self)@,
                final(self)@,
                outcome,
                user_id,
                token_digest(raw_refresh_token@),
                ttl_secs,
                parent_id,
                id,
                now,
            ));
            if outcome is Ok {
                assert(final(self)@.drop_last() =~= old(self)@);
            }
        }
        outcome
    }

    /// Files a record at time `now` under the identifier `id`: not revoked,
    /// expiring `ttl_secs` after `now`, placed after all earlier records. It
    /// fails, and files nothing, exactly when the expiry is out of range or
    /// the identifier or the token's digest is already in the ledger.
    pub fn store_at(
        &mut self,
        user_id: u128,
        raw_refresh_token: &str,
        ttl_secs: i64,
        parent_id: Option<u128>,
        id: u128,
        now: i64,
    ) -> (outcome: AppResult<u128>)
        ensures
            stored_at(
                old(self)@,
                final(self)@,
                outcome,
                user_id,
                token_digest(raw_refresh_token@),
                ttl_secs,
                parent_id,
                id,
                now,
            ),
    {
        proof {
            use_type_invariant(&*self);
        }
        let token_hash = hash_token(raw_refresh_token);
        let expires_at = match now.checked_add(ttl_secs) {
            Some(t) => t,
            None => {
                return Err(AppError::Database("expiry of the refresh token is out of range".to_owned()));
            },
        };
        if find_id(&self.records, id).is_some() {
            return Err(AppError::Database("duplicate refresh token identifier".to_owned()));
        }
        if find_digest(&self.records, &token_hash).is_some() {
            return Err(AppError::Database("duplicate refresh token digest".to_owned()));
        }
        let record = RefreshRecord {
            id,
            user_id,
            token_hash,
            expires_at,
            revoked: false,
            revoked_at: None,
            parent_token_id: parent_id,
            created_at: now,
        };
        let mut records: Vec<RefreshRecord> = Vec::new();
        std::mem::swap(&mut self.records, &mut records);
        let ghost before = records@;
        records.push(record);
        proof {
            let after = views(records@);
            assert(after =~= views(before).push(record@));
            assert forall|i: int, j: int| 0 <= i < after.len() && 0 <= j < after.len() && i != j implies after[i].id
                != after[j].id && after[i].token_hash != after[j].token_hash by {
                if i < before.len() {
                    assert(views(before)[i].id == after[i].id);
                }
                if j < before.len() {
                    assert(views(before)[j].id == after[j].id);
                }
            }
        }
        self.records = records;
        Ok(id)
    }

    /// A copy of the record filed for a raw refresh token, if there is one.
    pub fn lookup(&self, raw_refresh_token: &str) -> (record: Option<RefreshRecord>)
        ensures
            match filed_under(self@, token_digest(raw_refresh_token@)) {
                Some(r) => record matches Some(found) && found@ == r,
                None => record is None,
            },
    {
        let digest = hash_token(raw_refresh_token);
        self.lookup_digest(&digest)
    }

    /// A copy of the record filed under `digest`, if there is one.
    pub fn lookup_digest(&self, digest: &String) -> (record: Option<RefreshRecord>)
        ensures
            match filed_under(self@, digest@) {
                Some(r) => record matches Some(found) && found@ == r,
                None => record is None,
            },
    {
        proof {
            use_type_invariant(self);
        }
        match find_digest(&self.records, digest) {
            Some(i) => {
                proof {
                    let recs = views(self.records@);
                    assert(recs[i as int] == self.records@[i as int]@);
                    assert(recs[i as int].token_hash == digest@);
                    let p = place_of_digest(recs, digest@);
                    assert(p == i);
                }
                Some(self.records[i].duplicate())
            },
            None => None,
        }
    }

    /// Revokes the record with identifier `id` at time `now`. A record that
    /// is revoked already stays as it is, and so does the ledger where no
    /// record has the identifier.
    pub fn revoke(&mut self, id: u128, now: i64)
        ensures
            final(self)@ == with_revoked(old(self)@, id, now),
    {
        proof {
            use_type_invariant(&*self);
        }
        let mut records: Vec<RefreshRecord> = Vec::new();
        std::mem::swap(&mut self.records, &mut records);
        let ghost before = records@;
        match find_id(&records, id) {
            Some(i) => {
                assert(views(before)[i as int] == before[i as int]@);
                if !records[i].revoked {
                    let mut record = records[i].duplicate();
                    record.revoked = true;
                    record.revoked_at = Some(now);
                    records[i] = record;
                }
                proof {
                    let old_views = views(before);
                    let new_views = views(records@);
                    assert forall|j: int| 0 <= j < new_views.len() implies new_views[j] == with_revoked(
                        old_views,
                        id,
                        now,
                    )[j] by {
                        assert(old_views[j] == before[j]@);
                        assert(new_views[j] == records@[j]@);
                        if j != i {
                            assert(old_views[j].id != old_views[i as int].id);
                        }
                    }
                    assert(new_views =~= with_revoked(old_views, id, now));
                    lemma_revoking_keeps_order(old_views, id, now);
                }
            },
            None => {
                proof {
                    let old_views = views(before);
                    assert forall|j: int| 0 <= j < old_views.len() implies old_views[j] == with_revoked(
                        old_views,
                        id,
                        now,
                    )[j] by {
                        assert(old_views[j].id != id);
                    }
                    assert(old_views =~= with_revoked(old_views, id, now));
                }
            },
        }
        self.records = records;
    }

    /// Revokes every record of `user_id` that is not revoked yet, at time
    /// `now`. Records of other subjects stay as they are.
    pub fn revoke_all_for_subject(&mut self, user_id: u128, now: i64)
        ensures
            final(self)@ == with_subject_revoked(old(self)@, user_id, now),
    {
        proof {
            use_type_invariant(&*self);
        }
        let mut records: Vec<RefreshRecord> = Vec::new();
        std::mem::swap(&mut self.records, &mut records);
        let ghost before = records@;
        let mut i: usize = 0;
        while i < records.len()
            invariant
                i <= records@.len(),
                records@.len() == before.len(),
                forall|j: int| 0 <= j < i ==> #[trigger] records@[j]@ == with_subject_revoked(views(before), user_id, now)[j],
                forall|j: int| i <= j < records@.len() ==> #[trigger] records@[j]@ == before[j]@,
            decreases records@.len() - i,
        {
            assert(views(before)[i as int] == before[i as int]@);
            if records[i].user_id == user_id && !records[i].revoked {
                let mut record = records[i].duplicate();
                record.revoked = true;
                record.revoked_at = Some(now);
                records[i] = record;
            }
            i += 1;
        }
        proof {
            let old_views = views(before);
            assert(views(records@) =~= with_subject_revoked(old_views, user_id, now));
            lemma_subject_revoking_keeps_order(old_views, user_id, now);
        }
        self.records = records;
    }
}

/// A record changes once: revoking it again, whenever, leaves the ledger as
/// the first revocation left it.
pub proof fn lemma_revocation_is_idempotent(records: Records, id: u128, first: i64, second: i64)
    ensures
        with_revoked(with_revoked(records, id, first), id, second) == with_revoked(records, id, first),
        forall|i: int|
            0 <= i < records.len() ==> (#[trigger] records[i]).revoked ==> with_revoked(records, id, first)[i]
                == records[i],
{
    assert(with_revoked(with_revoked(records, id, first), id, second) =~= with_revoked(records, id, first));
}

/// Revoking one record keeps a ledger well kept.
pub proof fn lemma_revoking_keeps_order(records: Records, id: u128, now: i64)
    requires
        well_kept(records),
    ensures
        well_kept(with_revoked(records, id, now)),
{
    let after = with_revoked(records, id, now);
    assert forall|i: int, j: int| 0 <= i < after.len() && 0 <= j < after.len() && i != j implies after[i].id
        != after[j].id && after[i].token_hash != after[j].token_hash by {
        assert(after[i].id == records[i].id && after[j].id == records[j].id);
        assert(after[i].token_hash == records[i].token_hash && after[j].token_hash == records[j].token_hash);
    }
    assert forall|i: int| 0 <= i < after.len() implies (#[trigger] after[i].revoked <==> after[i].revoked_at is Some) by {
        assert(records[i].revoked <==> records[i].revoked_at is Some);
    }
}

/// Revoking a subject's records keeps a ledger well kept, and leaves every
/// record of the subject revoked.
pub proof fn lemma_subject_revoking_keeps_order(records: Records, user_id: u128, now: i64)
    requires
        well_kept(records),
    ensures
        well_kept(with_subject_revoked(records, user_id, now)),
        subject_is_revoked(with_subject_revoked(records, user_id, now), user_id),
{
    let after = with_subject_revoked(records, user_id, now);
    assert forall|i: int, j: int| 0 <= i < after.len() && 0 <= j < after.len() && i != j implies after[i].id
        != after[j].id && after[i].token_hash != after[j].token_hash by {
        assert(after[i].id == records[i].id && after[j].id == records[j].id);
        assert(after[i].token_hash == records[i].token_hash && after[j].token_hash == records[j].token_hash);
    }
    assert forall|i: int| 0 <= i < after.len() implies (#[trigger] after[i].revoked <==> after[i].revoked_at is Some) by {
        assert(records[i].revoked <==> records[i].revoked_at is Some);
    }
}

} // verus!
