//! The refresh-token store: long-lived opaque tokens, one row per login,
//! each tied to a user. A token string identifies at most one row.
//!
//! Instants are seconds since the Unix epoch; user identifiers are the 128
//! bits of a UUID.

use crate::ids::new_uuid;
use crate::text::same_text;
use crate::validators::is_alphanumeric;
use vstd::prelude::*;

verus! {

/// Length of a refresh-token string.
pub const REFRESH_TOKEN_LEN: usize = 64;

/// Seconds in a day.
pub const SECS_PER_DAY: i64 = 86_400;

/// A row of the store.
pub struct RefreshToken {
    pub id: u128,
    pub user_id: u128,
    pub token: String,
    pub created_at: i64,
    pub expires_at: i64,
    pub revoked: bool,
}

/// A row, with its token as characters.
pub ghost struct RefreshTokenView {
    pub id: u128,
    pub user_id: u128,
    pub token: Seq<char>,
    pub created_at: i64,
    pub expires_at: i64,
    pub revoked: bool,
}

impl View for RefreshToken {
    type V = RefreshTokenView;

    open spec fn view(&self) -> RefreshTokenView {
        RefreshTokenView {
            id: self.id,
            user_id: self.user_id,
            token: self.token@,
            created_at: self.created_at,
            expires_at: self.expires_at,
            revoked: self.revoked,
        }
    }
}

impl Clone for RefreshToken {
    fn clone(&self) -> (r: Self)
        ensures
            r == *self,
    {
        RefreshToken {
            id: self.id,
            user_id: self.user_id,
            token: self.token.clone(),
            created_at: self.created_at,
            expires_at: self.expires_at,
            revoked: self.revoked,
        }
    }
}

/// Why a row could not be stored.
#[derive(PartialEq, Eq, Structural, Clone, Copy, Debug)]
pub enum StoreError {
    /// The token string is already held by a row.
    DuplicateToken,
}

/// Some row holds the token `t`.
pub open spec fn has_token(rows: Seq<RefreshTokenView>, t: Seq<char>) -> bool {
    exists|i: int| 0 <= i < rows.len() && (#[trigger] rows[i]).token == t
}

/// The row `r` with `revoked` set.
pub open spec fn revoked_row(r: RefreshTokenView) -> RefreshTokenView {
    RefreshTokenView { revoked: true, ..r }
}

/// The rows after revoking the token `t`.
pub open spec fn revoke_token(rows: Seq<RefreshTokenView>, t: Seq<char>) -> Seq<RefreshTokenView> {
    rows.map_values(|r: RefreshTokenView| if r.token == t { revoked_row(r) } else { r })
}

/// The rows after revoking every token of `user`.
pub open spec fn revoke_user(rows: Seq<RefreshTokenView>, user: u128) -> Seq<RefreshTokenView> {
    rows.map_values(|r: RefreshTokenView| if r.user_id == user { revoked_row(r) } else { r })
}

/// The number of rows of `user`.
pub open spec fn rows_of_user(rows: Seq<RefreshTokenView>, user: u128) -> nat
    decreases rows.len(),
{
    if rows.len() == 0 {
        0
    } else {
        rows_of_user(rows.drop_last(), user) + if rows.last().user_id == user { 1nat } else { 0nat }
    }
}

/// A row that the sweep removes: expired before `now`, or revoked.
pub open spec fn stale(r: RefreshTokenView, now: i64) -> bool {
    r.expires_at < now || r.revoked
}

/// The rows that the sweep keeps, in their order.
pub open spec fn fresh_rows(rows: Seq<RefreshTokenView>, now: i64) -> Seq<RefreshTokenView>
    decreases rows.len(),
{
    if rows.len() == 0 {
        Seq::empty()
    } else {
        let rest = fresh_rows(rows.drop_last(), now);
        if stale(rows.last(), now) {
            rest
        } else {
            rest.push(rows.last())
        }
    }
}

/// The string is a refresh token in form: its length, and ASCII letters and digits only.
pub open spec fn token_shape(t: Seq<char>) -> bool {
    t.len() == REFRESH_TOKEN_LEN && forall|i: int| 0 <= i < t.len() ==> is_alphanumeric(#[trigger] t[i])
}

/// Relies on `rand::rng()` sampling `rand::distr::Alphanumeric`: 64 draws
/// from `A-Z`, `a-z` and `0-9`.
#[verifier::external_body]
pub fn generate_refresh_token() -> (r: String)
    ensures
        token_shape(r@),
{
    rand::Rng::sample_iter(rand::rng(), &rand::distr::Alphanumeric).take(REFRESH_TOKEN_LEN).map(char::from).collect()
}

/// The rows of the store, in the order of insertion.
pub struct RefreshTokenStore {
    rows: Vec<RefreshToken>,
}

impl RefreshTokenStore {
    pub closed spec fn view(&self) -> Seq<RefreshTokenView> {
        self.rows@.map_values(|r: RefreshToken| r@)
    }

    /// No two rows hold the same token.
    pub open spec fn wf(&self) -> bool {
        forall|i: int, j: int|
            0 <= i < j < self@.len() ==> (#[trigger] self@[i]).token != (#[trigger] self@[j]).token
    }

    /// An empty store.
    pub fn new() -> (r: Self)
        ensures
            r.wf(),
            r@ == Seq::<RefreshTokenView>::empty(),
    {
        let r = RefreshTokenStore { rows: Vec::new() };
        assert(r@ =~= Seq::<RefreshTokenView>::empty());
        r
    }

    fn find(&self, token: &str) -> (r: Option<usize>)
        requires
            self.wf(),
        ensures
            r is Some <==> has_token(self@, token@),
            r matches Some(i) ==> i < self@.len() && self@[i as int].token == token@,
    {
        let mut i: usize = 0;
        while i < self.rows.len()
            invariant
                i <= self.rows@.len(),
                forall|j: int| 0 <= j < i ==> self@[j].token != token@,
            decreases self.rows.len() - i,
        {
            if same_text(self.rows[i].token.as_str(), token) {
                assert(self@[i as int] == self.rows@[i as int]@);
                return Some(i);
            }
            i = i + 1;
        }
        None
    }

    /// Stores a new, unrevoked row `id` for `user_id` with the given token and
    /// instants; refused when a row already holds the token.
    pub fn insert_refresh_token(&mut self, id: u128, user_id: u128, token: String, created_at: i64, expires_at: i64) -> (r: Result<RefreshToken, StoreError>)
        requires
            old(self).wf(),
        ensures
            final(self).wf(),
            r is Err <==> has_token(old(self)@, token@),
            r matches Err(e) ==> e == StoreError::DuplicateToken && final(self)@ == old(self)@,
            r matches Ok(row) ==> {
                &&& row@ == (RefreshTokenView {
                    id,
                    user_id,
                    token: token@,
                    created_at,
                    expires_at,
                    revoked: false,
                })
                &&& final(self)@ == old(self)@.push(row@)
            },
    {
        if self.find(token.as_str()).is_some() {
            return Err(StoreError::DuplicateToken);
        }
        let row = RefreshToken { id, user_id, token, created_at, expires_at, revoked: false };
        let out = row.clone();
        let ghost before = self@;
        self.rows.push(row);
        assert(self@ =~= before.push(out@));
        Ok(out)
    }

    /// Creates a row for `user_id` with a fresh random token that expires
    /// `expires_in_days` days after `now`. A token that some row already
    /// holds is refused, and the store is left as it was; so where no row
    /// holds a token of the generated shape, creation succeeds.
    pub fn create_refresh_token(&mut self, user_id: u128, expires_in_days: i64, now: i64) -> (r: Result<RefreshToken, StoreError>)
        requires
            old(self).wf(),
            i64::MIN <= expires_in_days * SECS_PER_DAY <= i64::MAX,
            i64::MIN <= now + expires_in_days * SECS_PER_DAY <= i64::MAX,
        ensures
            final(self).wf(),
            r matches Err(e) ==> e == StoreError::DuplicateToken && final(self)@ == old(self)@,
            r is Err ==> exists|i: int| 0 <= i < old(self)@.len() && token_shape(#[trigger] old(self)@[i].token),
            r matches Ok(row) ==> {
                &&& row.user_id == user_id
                &&& row.created_at == now
                &&& row.expires_at == now + expires_in_days * SECS_PER_DAY
                &&& !row.revoked
                &&& token_shape(row.token@)
                &&& !has_token(old(self)@, row.token@)
                &&& final(self)@ == old(self)@.push(row@)
            },
    {
        let token = generate_refresh_token();
        let expires_at = now + expires_in_days * SECS_PER_DAY;
        let id = new_uuid();
        self.insert_refresh_token(id, user_id, token, now, expires_at)
    }

    /// The row that holds `token`, if any; expiry and revocation are not
    /// looked at.
    pub fn get_refresh_token(&self, token: &str) -> (r: Option<RefreshToken>)
        requires
            self.wf(),
        ensures
            r is Some <==> has_token(self@, token@),
            r matches Some(row) ==> exists|i: int| 0 <= i < self@.len() && self@[i] == row@ && row@.token == token@,
    {
        match self.find(token) {
            Some(i) => {
                let row = self.rows[i].clone();
                assert(self@[i as int] == self.rows@[i as int]@);
                Some(row)
            },
            None => None,
        }
    }

    /// Whether the row that holds `token` belongs to `user_id`.
    pub fn token_belongs_to_user(&self, token: &str, user_id: u128) -> (r: bool)
        requires
            self.wf(),
        ensures
            r == exists|i: int| 0 <= i < self@.len() && (#[trigger] self@[i]).token == token@ && self@[i].user_id == user_id,
    {
        match self.find(token) {
            Some(i) => {
                assert(self@[i as int] == self.rows@[i as int]@);
                self.rows[i].user_id == user_id
            },
            None => false,
        }
    }

    /// Marks the row that holds `token` revoked. Revoking a token that is
    /// already revoked, or that no row holds, changes nothing.
    pub fn revoke_refresh_token(&mut self, token: &str)
        requires
            old(self).wf(),
        ensures
            final(self).wf(),
            final(self)@ == revoke_token(old(self)@, token@),
    {
        let ghost before = self@;
        let mut i: usize = 0;
        while i < self.rows.len()
            invariant
                i <= self.rows@.len(),
                self@.len() == before.len(),
                forall|j: int| 0 <= j < i ==> self@[j] == revoke_token(before, token@)[j],
                forall|j: int| i <= j < self@.len() ==> self@[j] == before[j],
            decreases self.rows.len() - i,
        {
            assert(self@[i as int] == self.rows@[i as int]@);
            let ghost s0 = self@;
            if same_text(self.rows[i].token.as_str(), token) {
                let mut row = self.rows[i].clone();
                row.revoked = true;
                self.rows.set(i, row);
                assert(self@[i as int] == self.rows@[i as int]@);
            }
            assert(self@[i as int] == revoke_token(before, token@)[i as int]);
            assert forall|j: int| 0 <= j < self@.len() && j != i implies self@[j] == s0[j] by {
                assert(self@[j] == self.rows@[j]@);
            }
            assert forall|j: int| 0 <= j < i implies self@[j] == revoke_token(before, token@)[j] by {
                assert(s0[j] == revoke_token(before, token@)[j]);
            }
            i = i + 1;
        }
        assert(self@ =~= revoke_token(before, token@));
    }

    /// Marks every row of `user_id` revoked and returns how many rows that
    /// user has.
    pub fn revoke_all_refresh_tokens_for_user(&mut self, user_id: u128) -> (r: u64)
        requires
            old(self).wf(),
        ensures
            final(self).wf(),
            final(self)@ == revoke_user(old(self)@, user_id),
            r == rows_of_user(old(self)@, user_id),
    {
        let ghost before = self@;
        let mut count: u64 = 0;
        let mut i: usize = 0;
        while i < self.rows.len()
            invariant
                i <= self.rows@.len(),
                self@.len() == before.len(),
                count <= i,
                count == rows_of_user(before.subrange(0, i as int), user_id),
                forall|j: int| 0 <= j < i ==> self@[j] == revoke_user(before, user_id)[j],
                forall|j: int| i <= j < self@.len() ==> self@[j] == before[j],
            decreases self.rows.len() - i,
        {
            assert(self@[i as int] == self.rows@[i as int]@);
            assert(before.subrange(0, i + 1).drop_last() =~= before.subrange(0, i as int));
            if self.rows[i].user_id == user_id {
                let mut row = self.rows[i].clone();
                row.revoked = true;
                self.rows.set(i, row);
                count = count + 1;
            }
            i = i + 1;
        }
        assert(before.subrange(0, before.len() as int) =~= before);
        assert(self@ =~= revoke_user(before, user_id));
        count
    }

    /// Deletes the rows that expired before `now` or are revoked, and returns
    /// how many were deleted.
    pub fn cleanup_expired_refresh_tokens(&mut self, now: i64) -> (r: u64)
        requires
            old(self).wf(),
        ensures
            final(self).wf(),
            final(self)@ == fresh_rows(old(self)@, now),
            r == old(self)@.len() - final(self)@.len(),
    {
        let ghost before = self@;
        let mut kept: Vec<RefreshToken> = Vec::new();
        let mut i: usize = 0;
        while i < self.rows.len()
            invariant
                i <= self.rows@.len(),
                self@ == before,
                kept@.map_values(|r: RefreshToken| r@) == fresh_rows(before.subrange(0, i as int), now),
                kept@.len() <= i,
            decreases self.rows.len() - i,
        {
            assert(self@[i as int] == self.rows@[i as int]@);
            assert(before.subrange(0, i + 1).drop_last() =~= before.subrange(0, i as int));
            let ghost k0 = kept@;
            if !(self.rows[i].expires_at < now || self.rows[i].revoked) {
                kept.push(self.rows[i].clone());
                assert(kept@.map_values(|r: RefreshToken| r@) =~= k0.map_values(|r: RefreshToken| r@).push(before[i as int]));
            }
            i = i + 1;
        }
        assert(before.subrange(0, before.len() as int) =~= before);
        let removed = (self.rows.len() - kept.len()) as u64;
        self.rows = kept;
        proof {
            lemma_fresh_rows(before, now);
            assert(unique_tokens(before));
        }
        removed
    }
}

/// No two rows hold the same token.
pub open spec fn unique_tokens(rows: Seq<RefreshTokenView>) -> bool {
    forall|i: int, j: int| 0 <= i < j < rows.len() ==> (#[trigger] rows[i]).token != (#[trigger] rows[j]).token
}

/// The rows that the sweep keeps are rows of the store, so a store without
/// repeated tokens stays so.
pub proof fn lemma_fresh_rows(rows: Seq<RefreshTokenView>, now: i64)
    ensures
        fresh_rows(rows, now).len() <= rows.len(),
        forall|i: int| 0 <= i < fresh_rows(rows, now).len() ==> rows.contains(#[trigger] fresh_rows(rows, now)[i]),
        unique_tokens(rows) ==> unique_tokens(fresh_rows(rows, now)),
    decreases rows.len(),
{
    if rows.len() > 0 {
        let d = rows.drop_last();
        let rest = fresh_rows(d, now);
        let f = fresh_rows(rows, now);
        lemma_fresh_rows(d, now);
        assert forall|i: int| 0 <= i < rest.len() implies rows.contains(#[trigger] rest[i]) by {
            let j = choose|j: int| 0 <= j < d.len() && d[j] == rest[i];
            assert(rows[j] == rest[i]);
        }
        if !stale(rows.last(), now) {
            assert(rows[rows.len() - 1] == rows.last());
            assert forall|i: int| 0 <= i < f.len() implies rows.contains(#[trigger] f[i]) by {
                if i < rest.len() {
                    assert(f[i] == rest[i]);
                }
            }
            if unique_tokens(rows) {
                assert(unique_tokens(d));
                assert forall|i: int, j: int| 0 <= i < j < f.len() implies (#[trigger] f[i]).token != (#[trigger] f[j]).token by {
                    if j == f.len() - 1 {
                        assert(f[i] == rest[i]);
                        let k = choose|k: int| 0 <= k < d.len() && d[k] == rest[i];
                        assert(rows[k] == d[k]);
                    } else {
                        assert(f[i] == rest[i] && f[j] == rest[j]);
                    }
                }
            }
        } else {
            if unique_tokens(rows) {
                assert(unique_tokens(d));
            }
        }
    }
}

} // verus!
