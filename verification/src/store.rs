//! The persisted state of the gateway, modeled as plain rows: user accounts,
//! linked external identities, encrypted provider-token snapshots, and
//! hashed refresh tokens. Every operation is atomic with respect to the
//! store value it is given, and each one preserves the uniqueness
//! invariants: one user per email, one identity per (provider, external id),
//! one refresh record per token hash.

use vstd::prelude::*;

use crate::strutil::str_eq;

verus! {

/// An identity-independent account, created the first time a login resolves
/// an email not yet on file.
pub struct User {
    pub id: u64,
    pub email: String,
    pub display_name: Option<String>,
}

/// One external provider account linked to one user; (provider, uid) is
/// globally unique.
pub struct UserIdentity {
    pub id: u64,
    pub user_id: u64,
    pub provider: String,
    pub uid: String,
    pub slack_id: Option<String>,
}

/// An encrypted snapshot of the provider's tokens for one identity at one
/// point in time; appended on every successful login, never updated.
pub struct ProviderTokenRecord {
    pub identity_id: u64,
    pub encrypted_access_token: Vec<u8>,
    pub nonce: Vec<u8>,
    pub encrypted_refresh_token: Option<Vec<u8>>,
    pub nonce_refresh: Option<Vec<u8>>,
    pub created_at: u64,
}

/// The capability for obtaining a new session: only the one-way hash of the
/// raw token is stored, with its absolute expiry.
pub struct RefreshTokenRecord {
    pub user_id: u64,
    pub token_hash: String,
    pub expires_at: u64,
}

/// The view of an optional owned string.
pub open spec fn opt_text(o: Option<String>) -> Option<Seq<char>> {
    match o {
        Some(s) => Some(s@),
        None => None,
    }
}

pub open spec fn has_user_email(users: Seq<User>, email: Seq<char>) -> bool {
    exists|i: int| 0 <= i < users.len() && #[trigger] users[i].email@ == email
}

pub open spec fn user_index_of_email(users: Seq<User>, email: Seq<char>) -> int {
    choose|i: int| 0 <= i < users.len() && #[trigger] users[i].email@ == email
}

/// The id of the (unique) user row carrying this email.
pub open spec fn user_id_for_email(users: Seq<User>, email: Seq<char>) -> u64 {
    users[user_index_of_email(users, email)].id
}

pub open spec fn user_emails_unique(users: Seq<User>) -> bool {
    forall|i: int, j: int|
        0 <= i < j < users.len() ==> #[trigger] users[i].email@ != #[trigger] users[j].email@
}

pub open spec fn user_ids_unique(users: Seq<User>) -> bool {
    forall|i: int, j: int|
        0 <= i < j < users.len() ==> #[trigger] users[i].id != #[trigger] users[j].id
}

/// `post` is `pre` with one user row appended.
pub open spec fn user_created(
    pre: Seq<User>,
    post: Seq<User>,
    id: u64,
    email: Seq<char>,
    dn: Option<Seq<char>>,
) -> bool {
    &&& post.len() == pre.len() + 1
    &&& post.subrange(0, pre.len() as int) == pre
    &&& post.last().id == id
    &&& post.last().email@ == email
    &&& opt_text(post.last().display_name) == dn
}

/// Find-or-create of a user row keyed by email: either the store part is
/// unchanged and `r` is the id already on file, or exactly one row with the
/// fresh id was appended.
pub open spec fn user_upsert_seq(
    pre: Seq<User>,
    post: Seq<User>,
    email: Seq<char>,
    dn: Option<Seq<char>>,
    r: u64,
    fresh_id: u64,
) -> bool {
    if has_user_email(pre, email) {
        post == pre && r == user_id_for_email(pre, email)
    } else {
        user_created(pre, post, fresh_id, email, dn) && r == fresh_id
    }
}

pub open spec fn has_identity_key(
    ids: Seq<UserIdentity>,
    provider: Seq<char>,
    ext: Seq<char>,
) -> bool {
    exists|i: int|
        0 <= i < ids.len() && #[trigger] ids[i].provider@ == provider && #[trigger] ids[i].uid@
            == ext
}

pub open spec fn identity_index_of(
    ids: Seq<UserIdentity>,
    provider: Seq<char>,
    ext: Seq<char>,
) -> int {
    choose|i: int|
        0 <= i < ids.len() && #[trigger] ids[i].provider@ == provider && #[trigger] ids[i].uid@
            == ext
}

/// The id of the (unique) identity row carrying this (provider, uid) key.
pub open spec fn identity_id_for(
    ids: Seq<UserIdentity>,
    provider: Seq<char>,
    ext: Seq<char>,
) -> u64 {
    ids[identity_index_of(ids, provider, ext)].id
}

pub open spec fn identity_keys_unique(ids: Seq<UserIdentity>) -> bool {
    forall|i: int, j: int|
        0 <= i < j < ids.len() ==> !(#[trigger] ids[i].provider@ == #[trigger] ids[j].provider@
            && ids[i].uid@ == ids[j].uid@)
}

pub open spec fn identity_ids_unique(ids: Seq<UserIdentity>) -> bool {
    forall|i: int, j: int|
        0 <= i < j < ids.len() ==> #[trigger] ids[i].id != #[trigger] ids[j].id
}

/// `post` is `pre` with one identity row appended.
pub open spec fn identity_created(
    pre: Seq<UserIdentity>,
    post: Seq<UserIdentity>,
    id: u64,
    owner: u64,
    provider: Seq<char>,
    ext: Seq<char>,
    slack: Option<Seq<char>>,
) -> bool {
    &&& post.len() == pre.len() + 1
    &&& post.subrange(0, pre.len() as int) == pre
    &&& post.last().id == id
    &&& post.last().user_id == owner
    &&& post.last().provider@ == provider
    &&& post.last().uid@ == ext
    &&& opt_text(post.last().slack_id) == slack
}

/// Find-or-create of an identity row keyed by (provider, uid).
pub open spec fn identity_upsert_seq(
    pre: Seq<UserIdentity>,
    post: Seq<UserIdentity>,
    provider: Seq<char>,
    ext: Seq<char>,
    slack: Option<Seq<char>>,
    owner: u64,
    r: u64,
    fresh_id: u64,
) -> bool {
    if has_identity_key(pre, provider, ext) {
        post == pre && r == identity_id_for(pre, provider, ext)
    } else {
        identity_created(pre, post, fresh_id, owner, provider, ext, slack) && r == fresh_id
    }
}

pub open spec fn has_refresh_hash(toks: Seq<RefreshTokenRecord>, h: Seq<char>) -> bool {
    exists|i: int| 0 <= i < toks.len() && #[trigger] toks[i].token_hash@ == h
}

/// Some stored record carries this hash and is not yet expired at `now`.
pub open spec fn live_refresh_at(toks: Seq<RefreshTokenRecord>, h: Seq<char>, now: u64) -> bool {
    exists|i: int|
        0 <= i < toks.len() && #[trigger] toks[i].token_hash@ == h && toks[i].expires_at > now
}

pub open spec fn refresh_index_of(toks: Seq<RefreshTokenRecord>, h: Seq<char>) -> int {
    choose|i: int| 0 <= i < toks.len() && #[trigger] toks[i].token_hash@ == h
}

/// The owner of the (unique) record carrying this hash.
pub open spec fn refresh_owner_for(toks: Seq<RefreshTokenRecord>, h: Seq<char>) -> u64 {
    toks[refresh_index_of(toks, h)].user_id
}

pub open spec fn refresh_hashes_unique(toks: Seq<RefreshTokenRecord>) -> bool {
    forall|i: int, j: int|
        0 <= i < j < toks.len() ==> #[trigger] toks[i].token_hash@ != #[trigger] toks[j].token_hash@
}

/// `post` is `pre` with one refresh record appended.
pub open spec fn refresh_created(
    pre: Seq<RefreshTokenRecord>,
    post: Seq<RefreshTokenRecord>,
    owner: u64,
    h: Seq<char>,
    exp: u64,
) -> bool {
    &&& post.len() == pre.len() + 1
    &&& post.subrange(0, pre.len() as int) == pre
    &&& post.last().user_id == owner
    &&& post.last().token_hash@ == h
    &&& post.last().expires_at == exp
}

/// Conditional insert of a refresh record: refused when the hash is already
/// on file, so that hashes stay unique.
pub open spec fn refresh_insert_seq(
    pre: Seq<RefreshTokenRecord>,
    post: Seq<RefreshTokenRecord>,
    owner: u64,
    h: Seq<char>,
    exp: u64,
    r: bool,
) -> bool {
    if has_refresh_hash(pre, h) {
        post == pre && r == false
    } else {
        refresh_created(pre, post, owner, h, exp) && r == true
    }
}

/// Single-use redemption: exactly the matched, unexpired record is removed
/// and its owner returned; when no live record matches, nothing changes.
pub open spec fn refresh_take_seq(
    pre: Seq<RefreshTokenRecord>,
    post: Seq<RefreshTokenRecord>,
    h: Seq<char>,
    now: u64,
    r: Option<u64>,
) -> bool {
    match r {
        Some(uid) => exists|i: int|
            #![trigger pre[i]]
            0 <= i < pre.len() && pre[i].token_hash@ == h && pre[i].expires_at > now
                && pre[i].user_id == uid && post == pre.remove(i),
        None => post == pre && !live_refresh_at(pre, h, now),
    }
}

/// Revocation: any record carrying the hash is removed, expired or not, and
/// afterwards none does; revoking an absent hash changes nothing.
pub open spec fn refresh_delete_seq(
    pre: Seq<RefreshTokenRecord>,
    post: Seq<RefreshTokenRecord>,
    h: Seq<char>,
) -> bool {
    &&& if has_refresh_hash(pre, h) {
        exists|i: int|
            #![trigger pre[i]]
            0 <= i < pre.len() && pre[i].token_hash@ == h && post == pre.remove(i)
    } else {
        post == pre
    }
    &&& !has_refresh_hash(post, h)
}

/// The whole persisted state. `next_id` is the source of fresh row ids.
pub struct Store {
    pub users: Vec<User>,
    pub identities: Vec<UserIdentity>,
    pub token_records: Vec<ProviderTokenRecord>,
    pub refresh_tokens: Vec<RefreshTokenRecord>,
    pub next_id: u64,
}

impl Store {
    /// The uniqueness invariants the persistence layer owes: at most one
    /// user per email, one identity per (provider, external id), one
    /// refresh record per hash; ids are unique and below `next_id`.
    pub open spec fn wf(self) -> bool {
        &&& user_emails_unique(self.users@)
        &&& user_ids_unique(self.users@)
        &&& (forall|i: int| 0 <= i < self.users@.len() ==> #[trigger] self.users@[i].id
            < self.next_id)
        &&& identity_keys_unique(self.identities@)
        &&& identity_ids_unique(self.identities@)
        &&& (forall|i: int| 0 <= i < self.identities@.len() ==> #[trigger] self.identities@[i].id
            < self.next_id)
        &&& refresh_hashes_unique(self.refresh_tokens@)
    }

    /// An empty store, well-formed by construction.
    pub fn new() -> (r: Store)
        ensures
            r.wf(),
            r.users@.len() == 0,
            r.identities@.len() == 0,
            r.token_records@.len() == 0,
            r.refresh_tokens@.len() == 0,
            r.next_id == 1,
    {
        Store {
            users: Vec::new(),
            identities: Vec::new(),
            token_records: Vec::new(),
            refresh_tokens: Vec::new(),
            next_id: 1,
        }
    }

    fn find_user_index(&self, email: &str) -> (r: Option<usize>)
        ensures
            match r {
                Some(i) => i < self.users@.len() && self.users@[i as int].email@ == email@,
                None => !has_user_email(self.users@, email@),
            },
    {
        let mut i: usize = 0;
        while i < self.users.len()
            invariant
                i <= self.users@.len(),
                forall|k: int| 0 <= k < i ==> #[trigger] self.users@[k].email@ != email@,
            decreases self.users@.len() - i,
        {
            if str_eq(self.users[i].email.as_str(), email) {
                return Some(i);
            }
            i += 1;
        }
        None
    }

    /// Look up the user by email, creating one with the profile's display
    /// name if absent; returns the user id either way. Safe to repeat: a
    /// second call with the same email finds the same row.
    pub fn find_or_create_user(&mut self, email: &str, display_name: Option<String>) -> (r: u64)
        requires
            old(self).wf(),
            old(self).next_id < u64::MAX,
        ensures
            final(self).wf(),
            user_upsert_seq(
                old(self).users@,
                final(self).users@,
                email@,
                opt_text(display_name),
                r,
                old(self).next_id,
            ),
            final(self).identities == old(self).identities,
            final(self).token_records == old(self).token_records,
            final(self).refresh_tokens == old(self).refresh_tokens,
            final(self).next_id == if has_user_email(old(self).users@, email@) {
                old(self).next_id
            } else {
                (old(self).next_id + 1) as u64
            },
    {
        match self.find_user_index(email) {
            Some(i) => {
                let id = self.users[i].id;
                proof {
                    let j = user_index_of_email(self.users@, email@);
                    assert(0 <= j < self.users@.len() && self.users@[j].email@ == email@);
                    if j != i as int {
                        assert(false);
                    }
                }
                id
            },
            None => {
                let id = self.next_id;
                let row = User { id, email: row_text(email), display_name };
                self.users.push(row);
                self.next_id = id + 1;
                proof {
                    let pre = old(self).users@;
                    let post = self.users@;
                    assert(post.subrange(0, pre.len() as int) =~= pre);
                    assert(!has_user_email(pre, email@));
                    assert forall|p: int, q: int| 0 <= p < q < post.len() implies #[trigger] post[p].email@
                        != #[trigger] post[q].email@ by {
                        if q == pre.len() as int {
                            assert(post[p] == pre[p]);
                            assert(post[q] == row);
                            if pre[p].email@ == email@ {
                                assert(has_user_email(pre, email@));
                            }
                        } else {
                            assert(post[p] == pre[p]);
                            assert(post[q] == pre[q]);
                            assert(pre[p].email@ != pre[q].email@);
                        }
                    }
                    assert forall|p: int, q: int| 0 <= p < q < post.len() implies #[trigger] post[p].id
                        != #[trigger] post[q].id by {
                        if q == pre.len() as int {
                            assert(post[p] == pre[p]);
                            assert(post[q] == row);
                            assert(pre[p].id < old(self).next_id);
                        } else {
                            assert(post[p] == pre[p]);
                            assert(post[q] == pre[q]);
                            assert(pre[p].id != pre[q].id);
                        }
                    }
                    assert forall|p: int| 0 <= p < post.len() implies #[trigger] post[p].id
                        < self.next_id by {
                        if p < pre.len() as int {
                            assert(post[p] == pre[p]);
                        } else {
                            assert(post[p] == row);
                        }
                    }
                }
                id
            },
        }
    }

    fn find_identity_index(&self, provider: &str, ext: &str) -> (r: Option<usize>)
        ensures
            match r {
                Some(i) => i < self.identities@.len() && self.identities@[i as int].provider@
                    == provider@ && self.identities@[i as int].uid@ == ext@,
                None => !has_identity_key(self.identities@, provider@, ext@),
            },
    {
        let mut i: usize = 0;
        while i < self.identities.len()
            invariant
                i <= self.identities@.len(),
                forall|k: int|
                    0 <= k < i ==> !(#[trigger] self.identities@[k].provider@ == provider@
                        && self.identities@[k].uid@ == ext@),
            decreases self.identities@.len() - i,
        {
            if str_eq(self.identities[i].provider.as_str(), provider) && str_eq(
                self.identities[i].uid.as_str(),
                ext,
            ) {
                return Some(i);
            }
            i += 1;
        }
        None
    }

    /// Look up the identity by (provider, external id), creating one linked
    /// to `owner` and carrying the secondary id if absent; returns the
    /// identity id either way.
    pub fn find_or_create_identity(
        &mut self,
        provider: &str,
        ext: &str,
        owner: u64,
        slack_id: Option<String>,
    ) -> (r: u64)
        requires
            old(self).wf(),
            old(self).next_id < u64::MAX,
        ensures
            final(self).wf(),
            identity_upsert_seq(
                old(self).identities@,
                final(self).identities@,
                provider@,
                ext@,
                opt_text(slack_id),
                owner,
                r,
                old(self).next_id,
            ),
            final(self).users == old(self).users,
            final(self).token_records == old(self).token_records,
            final(self).refresh_tokens == old(self).refresh_tokens,
            final(self).next_id == if has_identity_key(old(self).identities@, provider@, ext@) {
                old(self).next_id
            } else {
                (old(self).next_id + 1) as u64
            },
    {
        match self.find_identity_index(provider, ext) {
            Some(i) => {
                let id = self.identities[i].id;
                proof {
                    let j = identity_index_of(self.identities@, provider@, ext@);
                    assert(0 <= j < self.identities@.len() && self.identities@[j].provider@
                        == provider@ && self.identities@[j].uid@ == ext@);
                    if j != i as int {
                        assert(false);
                    }
                }
                id
            },
            None => {
                let id = self.next_id;
                let row = UserIdentity {
                    id,
                    user_id: owner,
                    provider: row_text(provider),
                    uid: row_text(ext),
                    slack_id,
                };
                self.identities.push(row);
                self.next_id = id + 1;
                proof {
                    let pre = old(self).identities@;
                    let post = self.identities@;
                    assert(post.subrange(0, pre.len() as int) =~= pre);
                    assert(!has_identity_key(pre, provider@, ext@));
                    assert forall|p: int, q: int| 0 <= p < q < post.len() implies !(
                    #[trigger] post[p].provider@ == #[trigger] post[q].provider@ && post[p].uid@
                        == post[q].uid@) by {
                        if q == pre.len() as int {
                            assert(post[p] == pre[p]);
                            assert(post[q] == row);
                            if pre[p].provider@ == provider@ && pre[p].uid@ == ext@ {
                                assert(has_identity_key(pre, provider@, ext@));
                            }
                        } else {
                            assert(post[p] == pre[p]);
                            assert(post[q] == pre[q]);
                            assert(!(pre[p].provider@ == pre[q].provider@ && pre[p].uid@
                                == pre[q].uid@));
                        }
                    }
                    assert forall|p: int, q: int| 0 <= p < q < post.len() implies #[trigger] post[p].id
                        != #[trigger] post[q].id by {
                        if q == pre.len() as int {
                            assert(post[p] == pre[p]);
                            assert(post[q] == row);
                            assert(pre[p].id < old(self).next_id);
                        } else {
                            assert(post[p] == pre[p]);
                            assert(post[q] == pre[q]);
                            assert(pre[p].id != pre[q].id);
                        }
                    }
                    assert forall|p: int| 0 <= p < post.len() implies #[trigger] post[p].id
                        < self.next_id by {
                        if p < pre.len() as int {
                            assert(post[p] == pre[p]);
                        } else {
                            assert(post[p] == row);
                        }
                    }
                }
                id
            },
        }
    }

    /// Append one encrypted provider-token snapshot. Records are only ever
    /// appended, never updated or pruned.
    pub fn append_token_record(&mut self, rec: ProviderTokenRecord)
        requires
            old(self).wf(),
        ensures
            final(self).wf(),
            final(self).token_records@ == old(self).token_records@.push(rec),
            final(self).users == old(self).users,
            final(self).identities == old(self).identities,
            final(self).refresh_tokens == old(self).refresh_tokens,
            final(self).next_id == old(self).next_id,
    {
        self.token_records.push(rec);
    }

    fn find_refresh_index(&self, token_hash: &str) -> (r: Option<usize>)
        ensures
            match r {
                Some(i) => i < self.refresh_tokens@.len() && self.refresh_tokens@[i as int].token_hash@
                    == token_hash@,
                None => !has_refresh_hash(self.refresh_tokens@, token_hash@),
            },
    {
        let mut i: usize = 0;
        while i < self.refresh_tokens.len()
            invariant
                i <= self.refresh_tokens@.len(),
                forall|k: int|
                    0 <= k < i ==> #[trigger] self.refresh_tokens@[k].token_hash@ != token_hash@,
            decreases self.refresh_tokens@.len() - i,
        {
            if str_eq(self.refresh_tokens[i].token_hash.as_str(), token_hash) {
                return Some(i);
            }
            i += 1;
        }
        None
    }

    /// Store the hash and expiry of a freshly issued refresh token. Refused
    /// (returning false, changing nothing) when the hash is already on
    /// file, which keeps stored hashes unique.
    pub fn insert_refresh_token(&mut self, owner: u64, token_hash: String, expires_at: u64) -> (r:
        bool)
        requires
            old(self).wf(),
        ensures
            final(self).wf(),
            refresh_insert_seq(
                old(self).refresh_tokens@,
                final(self).refresh_tokens@,
                owner,
                token_hash@,
                expires_at,
                r,
            ),
            r == false ==> final(self).refresh_tokens == old(self).refresh_tokens,
            final(self).users == old(self).users,
            final(self).identities == old(self).identities,
            final(self).token_records == old(self).token_records,
            final(self).next_id == old(self).next_id,
    {
        match self.find_refresh_index(token_hash.as_str()) {
            Some(_) => false,
            None => {
                let row = RefreshTokenRecord { user_id: owner, token_hash, expires_at };
                self.refresh_tokens.push(row);
                proof {
                    let pre = old(self).refresh_tokens@;
                    let post = self.refresh_tokens@;
                    assert(post.subrange(0, pre.len() as int) =~= pre);
                    assert forall|p: int, q: int| 0 <= p < q < post.len() implies #[trigger] post[p].token_hash@
                        != #[trigger] post[q].token_hash@ by {
                        if q == pre.len() as int {
                            assert(post[p] == pre[p]);
                            assert(post[q] == row);
                            if pre[p].token_hash@ == post[q].token_hash@ {
                                assert(has_refresh_hash(pre, post[q].token_hash@));
                            }
                        } else {
                            assert(post[p] == pre[p]);
                            assert(post[q] == pre[q]);
                            assert(pre[p].token_hash@ != pre[q].token_hash@);
                        }
                    }
                }
                true
            },
        }
    }

    /// Atomically redeem a refresh token: remove the record matching this
    /// hash if it exists and is unexpired at `now`, returning its owner.
    /// "Not found" and "expired" are indistinguishable in the result, and
    /// of two racing redemptions of one hash exactly one can win, because
    /// the winner removes the row the loser would need.
    pub fn take_refresh_token(&mut self, token_hash: &str, now: u64) -> (r: Option<u64>)
        requires
            old(self).wf(),
        ensures
            final(self).wf(),
            refresh_take_seq(
                old(self).refresh_tokens@,
                final(self).refresh_tokens@,
                token_hash@,
                now,
                r,
            ),
            r is None ==> *final(self) == *old(self),
            final(self).users == old(self).users,
            final(self).identities == old(self).identities,
            final(self).token_records == old(self).token_records,
            final(self).next_id == old(self).next_id,
    {
        match self.find_refresh_index(token_hash) {
            Some(i) => {
                if self.refresh_tokens[i].expires_at > now {
                    let removed = self.refresh_tokens.remove(i);
                    proof {
                        lemma_remove_keeps_hashes_unique(old(self).refresh_tokens@, i as int);
                    }
                    Some(removed.user_id)
                } else {
                    proof {
                        let toks = self.refresh_tokens@;
                        if live_refresh_at(toks, token_hash@, now) {
                            let j = choose|j: int|
                                0 <= j < toks.len() && #[trigger] toks[j].token_hash@
                                    == token_hash@ && toks[j].expires_at > now;
                            if j != i as int {
                                assert(false);
                            }
                        }
                    }
                    None
                }
            },
            None => None,
        }
    }

    /// Revoke: delete any record carrying this hash. Idempotent — whether
    /// or not a record existed, afterwards none does.
    pub fn delete_refresh_token(&mut self, token_hash: &str)
        requires
            old(self).wf(),
        ensures
            final(self).wf(),
            refresh_delete_seq(
                old(self).refresh_tokens@,
                final(self).refresh_tokens@,
                token_hash@,
            ),
            final(self).users == old(self).users,
            final(self).identities == old(self).identities,
            final(self).token_records == old(self).token_records,
            final(self).next_id == old(self).next_id,
    {
        match self.find_refresh_index(token_hash) {
            Some(i) => {
                let _removed = self.refresh_tokens.remove(i);
                proof {
                    let pre = old(self).refresh_tokens@;
                    let post = self.refresh_tokens@;
                    lemma_remove_keeps_hashes_unique(pre, i as int);
                    assert forall|j: int| 0 <= j < post.len() implies #[trigger] post[j].token_hash@
                        != token_hash@ by {
                        if j < i as int {
                            assert(post[j] == pre[j]);
                        } else {
                            assert(post[j] == pre[j + 1]);
                        }
                    }
                }
            },
            None => {},
        }
    }

    /// Look up a user row by id.
    pub fn get_user(&self, user_id: u64) -> (r: Option<&User>)
        ensures
            match r {
                Some(u) => exists|i: int|
                    0 <= i < self.users@.len() && #[trigger] self.users@[i] == *u && u.id
                        == user_id,
                None => forall|i: int| 0 <= i < self.users@.len() ==> #[trigger] self.users@[i].id
                    != user_id,
            },
    {
        let mut i: usize = 0;
        while i < self.users.len()
            invariant
                i <= self.users@.len(),
                forall|k: int| 0 <= k < i ==> #[trigger] self.users@[k].id != user_id,
            decreases self.users@.len() - i,
        {
            if self.users[i].id == user_id {
                return Some(&self.users[i]);
            }
            i += 1;
        }
        None
    }
}

/// An owned copy of a text value for a new row.
fn row_text(s: &str) -> (r: String)
    ensures
        r@ == s@,
{
    String::from_str(s)
}

/// Removing one record keeps the remaining hashes pairwise distinct.
proof fn lemma_remove_keeps_hashes_unique(pre: Seq<RefreshTokenRecord>, i: int)
    requires
        refresh_hashes_unique(pre),
        0 <= i < pre.len(),
    ensures
        refresh_hashes_unique(pre.remove(i)),
{
    let post = pre.remove(i);
    assert forall|p: int, q: int| 0 <= p < q < post.len() implies #[trigger] post[p].token_hash@
        != #[trigger] post[q].token_hash@ by {
        let p0 = if p < i {
            p
        } else {
            p + 1
        };
        let q0 = if q < i {
            q
        } else {
            q + 1
        };
        assert(post[p] == pre[p0]);
        assert(post[q] == pre[q0]);
    }
}

/// Law: in a well-formed store the find-or-create key lookups are
/// unambiguous — two user rows sharing an email are the same row, and two
/// identity rows sharing a (provider, external id) are the same row. This
/// is what makes racing first-time logins converge on one row each.
pub proof fn lemma_at_most_one_row_per_key(users: Seq<User>, ids: Seq<UserIdentity>)
    requires
        user_emails_unique(users),
        identity_keys_unique(ids),
    ensures
        forall|i: int, j: int|
            0 <= i < users.len() && 0 <= j < users.len() && #[trigger] users[i].email@
                == #[trigger] users[j].email@ ==> i == j,
        forall|i: int, j: int|
            0 <= i < ids.len() && 0 <= j < ids.len() && #[trigger] ids[i].provider@
                == #[trigger] ids[j].provider@ && ids[i].uid@ == ids[j].uid@ ==> i == j,
{
}

/// Law: a login repeated with the same email and the same (provider,
/// external id) creates no additional rows and resolves to the same user
/// and identity ids as the first login.
pub proof fn lemma_repeat_login_creates_nothing(
    u0: Seq<User>,
    u1: Seq<User>,
    u2: Seq<User>,
    i0: Seq<UserIdentity>,
    i1: Seq<UserIdentity>,
    i2: Seq<UserIdentity>,
    email: Seq<char>,
    dn1: Option<Seq<char>>,
    dn2: Option<Seq<char>>,
    provider: Seq<char>,
    ext: Seq<char>,
    slack1: Option<Seq<char>>,
    slack2: Option<Seq<char>>,
    ru1: u64,
    ru2: u64,
    ri1: u64,
    ri2: u64,
    f1: u64,
    f2: u64,
    g1: u64,
    g2: u64,
)
    requires
        user_emails_unique(u1),
        identity_keys_unique(i1),
        user_upsert_seq(u0, u1, email, dn1, ru1, f1),
        user_upsert_seq(u1, u2, email, dn2, ru2, f2),
        identity_upsert_seq(i0, i1, provider, ext, slack1, ru1, ri1, g1),
        identity_upsert_seq(i1, i2, provider, ext, slack2, ru2, ri2, g2),
    ensures
        u2 == u1,
        i2 == i1,
        ru2 == ru1,
        ri2 == ri1,
{
    if has_user_email(u0, email) {
        let j = user_index_of_email(u0, email);
        assert(u1 == u0);
        assert(0 <= j < u1.len() && u1[j].email@ == email);
        assert(has_user_email(u1, email));
        let k = user_index_of_email(u1, email);
        assert(0 <= k < u1.len() && u1[k].email@ == email);
        if k != j {
            assert(false);
        }
    } else {
        let n = u0.len() as int;
        assert(u1.last().email@ == email);
        assert(has_user_email(u1, email));
        let k = user_index_of_email(u1, email);
        assert(0 <= k < u1.len() && u1[k].email@ == email);
        if k != n {
            assert(false);
        }
        assert(ru2 == u1[n].id);
        assert(ru1 == f1 && u1.last().id == f1);
    }
    if has_identity_key(i0, provider, ext) {
        let j = identity_index_of(i0, provider, ext);
        assert(i1 == i0);
        assert(0 <= j < i1.len() && i1[j].provider@ == provider && i1[j].uid@ == ext);
        assert(has_identity_key(i1, provider, ext));
        let k = identity_index_of(i1, provider, ext);
        assert(0 <= k < i1.len() && i1[k].provider@ == provider && i1[k].uid@ == ext);
        if k != j {
            assert(false);
        }
    } else {
        let n = i0.len() as int;
        assert(i1.last().provider@ == provider && i1.last().uid@ == ext);
        assert(has_identity_key(i1, provider, ext));
        let k = identity_index_of(i1, provider, ext);
        assert(0 <= k < i1.len() && i1[k].provider@ == provider && i1[k].uid@ == ext);
        if k != n {
            assert(false);
        }
        assert(ri2 == i1[n].id);
        assert(ri1 == g1 && i1.last().id == g1);
    }
}

/// Law: a freshly created refresh record is live until its expiry, so the
/// raw token whose hash it stores is redeemable until that instant.
pub proof fn lemma_created_token_is_live(
    pre: Seq<RefreshTokenRecord>,
    post: Seq<RefreshTokenRecord>,
    owner: u64,
    h: Seq<char>,
    exp: u64,
    at: u64,
)
    requires
        refresh_created(pre, post, owner, h, exp),
        at < exp,
    ensures
        live_refresh_at(post, h, at),
{
    assert(post[post.len() - 1].token_hash@ == h && post[post.len() - 1].expires_at > at);
}

/// Law: a refresh record created under a hash not yet on file is the one
/// the hash resolves to — the session a later rotation issues for that
/// hash belongs to this owner.
pub proof fn lemma_created_token_owner(
    pre: Seq<RefreshTokenRecord>,
    post: Seq<RefreshTokenRecord>,
    owner: u64,
    h: Seq<char>,
    exp: u64,
)
    requires
        refresh_created(pre, post, owner, h, exp),
        !has_refresh_hash(pre, h),
    ensures
        refresh_owner_for(post, h) == owner,
{
    let n = pre.len() as int;
    assert(post[n].token_hash@ == h);
    assert(has_refresh_hash(post, h));
    let j = refresh_index_of(post, h);
    if j != n {
        assert(post.subrange(0, n)[j] == post[j]);
        assert(pre[j].token_hash@ == h);
        assert(has_refresh_hash(pre, h));
    }
}

/// Law: a refresh token redeemed once cannot be redeemed again — after a
/// successful take of a hash, any further take of the same hash finds no
/// record, reports no owner and changes nothing, whatever clock it reads.
pub proof fn lemma_refresh_single_use(
    pre: Seq<RefreshTokenRecord>,
    mid: Seq<RefreshTokenRecord>,
    post: Seq<RefreshTokenRecord>,
    h: Seq<char>,
    now1: u64,
    now2: u64,
    winner: u64,
    r2: Option<u64>,
)
    requires
        refresh_hashes_unique(pre),
        refresh_take_seq(pre, mid, h, now1, Some(winner)),
        refresh_take_seq(mid, post, h, now2, r2),
    ensures
        r2 is None,
        post == mid,
{
    let i = choose|i: int|
        #![trigger pre[i]]
        0 <= i < pre.len() && pre[i].token_hash@ == h && pre[i].expires_at > now1
            && pre[i].user_id == winner && mid == pre.remove(i);
    assert forall|j: int| 0 <= j < mid.len() implies #[trigger] mid[j].token_hash@ != h by {
        let j0 = if j < i {
            j
        } else {
            j + 1
        };
        assert(mid[j] == pre[j0]);
        if mid[j].token_hash@ == h {
            assert(pre[j0].token_hash@ == pre[i].token_hash@);
            assert(false);
        }
    }
    if r2 is Some {
        let k = choose|k: int|
            #![trigger mid[k]]
            0 <= k < mid.len() && mid[k].token_hash@ == h && mid[k].expires_at > now2
                && mid[k].user_id == r2->0 && post == mid.remove(k);
        assert(false);
    }
}

/// Law: revocation is idempotent — a second revocation of the same hash
/// changes nothing, because the first left no record carrying it.
pub proof fn lemma_revoke_idempotent(
    pre: Seq<RefreshTokenRecord>,
    mid: Seq<RefreshTokenRecord>,
    post: Seq<RefreshTokenRecord>,
    h: Seq<char>,
)
    requires
        refresh_delete_seq(pre, mid, h),
        refresh_delete_seq(mid, post, h),
    ensures
        post == mid,
{
}

} // verus!
