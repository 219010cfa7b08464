//! The request-level flows: login (code already exchanged, profile in
//! hand), refresh-token rotation, revocation, and bearer-token profile
//! lookup. Each flow is a function from the store and plain inputs to the
//! next store and a result; each persistence step commits independently, so
//! a failure mid-flow leaves the earlier steps committed — a preserved
//! design note, stated precisely in the contracts below.

use vstd::prelude::*;

use crate::client::HcaIdentity;
use crate::errors::{LoginError, MeError, RotateError};
use crate::state::AppState;
use crate::store::{
    has_identity_key, has_user_email, identity_id_for, identity_upsert_seq, live_refresh_at,
    opt_text, refresh_created, refresh_take_seq, user_id_for_email, user_upsert_seq,
    ProviderTokenRecord, RefreshTokenRecord, Store, User,
};
use crate::token::{jwt_claims_of, token_hash_of, verify_decision};
use crate::vault::{b64_of, gcm_open};

verus! {

/// Query parameters of the provider's callback redirect.
pub struct OAuthQuery {
    pub code: String,
    pub state: Option<String>,
}

/// Body of a magic-link request (plumbing outside this core).
pub struct MagicRequest {
    pub email: String,
}

/// Body of a refresh request.
pub struct RefreshRequest {
    pub refresh_token: String,
}

/// Body of a logout request.
pub struct LogoutRequest {
    pub refresh_token: String,
}

/// The profile carries both fields the resolver requires.
pub open spec fn profile_complete(p: HcaIdentity) -> bool {
    p.email is Some && p.slack_id is Some
}

/// Both absolute expiries a login mints fit the representation.
pub open spec fn expiries_fit(now: u64, refresh_ttl: u64) -> bool {
    now + 3600 <= u64::MAX && now + refresh_ttl <= u64::MAX
}

/// The user id a login resolves to: the row already keyed by this email,
/// or the fresh id the created row receives.
pub open spec fn resolved_user_id(pre: Store, email: Seq<char>) -> u64 {
    if has_user_email(pre.users@, email) {
        user_id_for_email(pre.users@, email)
    } else {
        pre.next_id
    }
}

/// The id counter after the user step.
pub open spec fn next_id_after_user(pre: Store, email: Seq<char>) -> u64 {
    if has_user_email(pre.users@, email) {
        pre.next_id
    } else {
        (pre.next_id + 1) as u64
    }
}

/// The identity id a login resolves to.
pub open spec fn resolved_identity_id(pre: Store, email: Seq<char>, ext: Seq<char>) -> u64 {
    if has_identity_key(pre.identities@, "hack_club"@, ext) {
        identity_id_for(pre.identities@, "hack_club"@, ext)
    } else {
        next_id_after_user(pre, email)
    }
}

/// The account rows after the resolver ran: user and identity each found or
/// created under their unique keys, with the deterministic resolved ids.
pub open spec fn login_rows_resolved(
    pre: Store,
    post: Store,
    email: Seq<char>,
    ext: Seq<char>,
    slack: Option<Seq<char>>,
    dn: Option<Seq<char>>,
) -> bool {
    &&& user_upsert_seq(
        pre.users@,
        post.users@,
        email,
        dn,
        resolved_user_id(pre, email),
        pre.next_id,
    )
    &&& identity_upsert_seq(
        pre.identities@,
        post.identities@,
        "hack_club"@,
        ext,
        slack,
        resolved_user_id(pre, email),
        resolved_identity_id(pre, email, ext),
        next_id_after_user(pre, email),
    )
}

/// One encrypted snapshot of the provider's tokens was appended: the last
/// record decrypts, under the master key and its own nonces, to exactly the
/// tokens the provider handed over. Plaintext tokens never persist.
pub open spec fn token_snapshot_appended(
    pre: Store,
    post: Store,
    iid: u64,
    key: Seq<u8>,
    access: Seq<char>,
    refresh: Option<Seq<char>>,
    now: u64,
) -> bool {
    &&& post.token_records@.len() == pre.token_records@.len() + 1
    &&& post.token_records@.subrange(0, pre.token_records@.len() as int) == pre.token_records@
    &&& ({
        let rec = post.token_records@.last();
        &&& rec.identity_id == iid
        &&& rec.created_at == now
        &&& rec.nonce@.len() == 12
        &&& gcm_open(key, rec.encrypted_access_token@, rec.nonce@) == Some(
            vstd::utf8::encode_utf8(access),
        )
        &&& match refresh {
            Some(rt) => {
                &&& rec.encrypted_refresh_token is Some
                &&& rec.nonce_refresh is Some
                &&& rec.nonce_refresh->0@.len() == 12
                &&& gcm_open(key, rec.encrypted_refresh_token->0@, rec.nonce_refresh->0@) == Some(
                    vstd::utf8::encode_utf8(rt),
                )
            },
            None => rec.encrypted_refresh_token is None && rec.nonce_refresh is None,
        }
    })
}

/// Exchange results and profile in hand, run the whole login: resolve and
/// link the account rows, vault the provider tokens, and issue the session
/// credentials — a signed access token with expiry `now + 3600` and a raw
/// refresh token whose hash alone is stored, expiring after the configured
/// lifetime. Failures past the two input gates leave the steps already
/// taken committed, exactly as stated per error.
pub fn oauth_exchange_and_upsert(
    app: &AppState,
    store: &mut Store,
    access_token: &str,
    refresh_token: &Option<String>,
    profile: &HcaIdentity,
    now: u64,
) -> (r: Result<(String, String), LoginError>)
    requires
        app.wf(),
        old(store).wf(),
        old(store).next_id + 2 <= u64::MAX,
    ensures
        final(store).wf(),
        final(store).next_id <= old(store).next_id + 2,
        (!profile_complete(*profile)) <==> r == Err::<(String, String), LoginError>(
            LoginError::IncompleteProfile,
        ),
        r == Err::<(String, String), LoginError>(LoginError::IncompleteProfile) ==> *final(store)
            == *old(store),
        profile_complete(*profile) ==> ((!expiries_fit(now, app.refresh_token_expiry_seconds))
            <==> r == Err::<(String, String), LoginError>(LoginError::Config)),
        r == Err::<(String, String), LoginError>(LoginError::Config) ==> *final(store) == *old(store),
        profile_complete(*profile) && expiries_fit(now, app.refresh_token_expiry_seconds)
            ==> login_rows_resolved(
            *old(store),
            *final(store),
            profile.email->0@,
            profile.id@,
            opt_text(profile.slack_id),
            opt_text(profile.display_name),
        ),
        r == Err::<(String, String), LoginError>(LoginError::Crypto) ==> final(store).token_records
            == old(store).token_records && final(store).refresh_tokens == old(store).refresh_tokens,
        r == Err::<(String, String), LoginError>(LoginError::Storage) ==> token_snapshot_appended(
            *old(store),
            *final(store),
            resolved_identity_id(*old(store), profile.email->0@, profile.id@),
            app.master_key@,
            access_token@,
            opt_text(*refresh_token),
            now,
        ) && final(store).refresh_tokens == old(store).refresh_tokens,
        r matches Ok(cred) ==> ({
            let uid = resolved_user_id(*old(store), profile.email->0@);
            &&& token_snapshot_appended(
                *old(store),
                *final(store),
                resolved_identity_id(*old(store), profile.email->0@, profile.id@),
                app.master_key@,
                access_token@,
                opt_text(*refresh_token),
                now,
            )
            &&& refresh_created(
                old(store).refresh_tokens@,
                final(store).refresh_tokens@,
                uid,
                token_hash_of(cred.1@),
                (now + app.refresh_token_expiry_seconds) as u64,
            )
            &&& jwt_claims_of(cred.0@, app.jwt_secret@) == Some((uid, (now + 3600) as u64))
            &&& exists|b: Seq<u8>| b.len() == 32 && cred.1@ == #[trigger] b64_of(b)
        }),
{
    let email = match &profile.email {
        Some(e) => e,
        None => {
            return Err(LoginError::IncompleteProfile);
        },
    };
    let slack = match &profile.slack_id {
        Some(s) => s,
        None => {
            return Err(LoginError::IncompleteProfile);
        },
    };
    let access_exp = match now.checked_add(3600) {
        Some(e) => e,
        None => {
            return Err(LoginError::Config);
        },
    };
    let refresh_exp = match now.checked_add(app.refresh_token_expiry_seconds) {
        Some(e) => e,
        None => {
            return Err(LoginError::Config);
        },
    };
    let dn: Option<String> = match &profile.display_name {
        Some(d) => Some(d.clone()),
        None => None,
    };
    let user_id = store.find_or_create_user(email.as_str(), dn);
    let identity_id = store.find_or_create_identity(
        "hack_club",
        profile.id.as_str(),
        user_id,
        Some(slack.clone()),
    );
    let sealed_access = match crate::vault::encrypt(
        app.master_key.as_slice(),
        access_token.as_bytes(),
    ) {
        Ok(p) => p,
        Err(_) => {
            return Err(LoginError::Crypto);
        },
    };
    let sealed_refresh: Option<(Vec<u8>, Vec<u8>)> = match refresh_token {
        Some(rt) => {
            match crate::vault::encrypt(app.master_key.as_slice(), rt.as_str().as_bytes()) {
                Ok(p) => Some(p),
                Err(_) => {
                    return Err(LoginError::Crypto);
                },
            }
        },
        None => None,
    };
    let (enc_refresh, nonce_refresh) = match sealed_refresh {
        Some((c, n)) => (Some(c), Some(n)),
        None => (None, None),
    };
    let rec = ProviderTokenRecord {
        identity_id,
        encrypted_access_token: sealed_access.0,
        nonce: sealed_access.1,
        encrypted_refresh_token: enc_refresh,
        nonce_refresh,
        created_at: now,
    };
    store.append_token_record(rec);
    proof {
        let pre = old(store).token_records@;
        let post = store.token_records@;
        assert(post.subrange(0, pre.len() as int) =~= pre);
    }
    let raw_refresh = crate::token::generate_refresh_token();
    let refresh_hash = crate::token::hash_token(raw_refresh.as_str());
    if !store.insert_refresh_token(user_id, refresh_hash, refresh_exp) {
        return Err(LoginError::Storage);
    }
    let jwt = match crate::token::create_jwt(user_id, app.jwt_secret.as_str(), now, 3600) {
        Ok(t) => t,
        Err(_) => vstd::pervasive::unreached(),
    };
    Ok((jwt, raw_refresh))
}

/// The rotation's success shape: the presented hash's record removed and
/// one fresh record appended for the same owner.
pub open spec fn rotate_committed(
    pre: Seq<RefreshTokenRecord>,
    post: Seq<RefreshTokenRecord>,
    h: Seq<char>,
    now: u64,
    uid: u64,
    new_hash: Seq<char>,
    new_exp: u64,
) -> bool {
    exists|mid: Seq<RefreshTokenRecord>|
        #![trigger refresh_take_seq(pre, mid, h, now, Some(uid))]
        refresh_take_seq(pre, mid, h, now, Some(uid)) && refresh_created(
            mid,
            post,
            uid,
            new_hash,
            new_exp,
        )
}

/// Redeem a refresh token: atomically remove the matched, unexpired record
/// — "not found" and "expired" are reported identically — and, in the same
/// step, mint a new refresh token and a new signed access token for the
/// record's owner. Exactly one of two racing redemptions can win, since
/// the winner removes the row the loser needs.
pub fn rotate(app: &AppState, store: &mut Store, presented: &str, now: u64) -> (r: Result<
    (String, String),
    RotateError,
>)
    requires
        old(store).wf(),
    ensures
        final(store).wf(),
        final(store).users == old(store).users,
        final(store).identities == old(store).identities,
        final(store).token_records == old(store).token_records,
        final(store).next_id == old(store).next_id,
        (!expiries_fit(now, app.refresh_token_expiry_seconds)) <==> r == Err::<
            (String, String),
            RotateError,
        >(RotateError::Config),
        r == Err::<(String, String), RotateError>(RotateError::Config) ==> *final(store) == *old(store),
        expiries_fit(now, app.refresh_token_expiry_seconds) ==> (r == Err::<
            (String, String),
            RotateError,
        >(RotateError::InvalidRefreshToken) <==> !live_refresh_at(
            old(store).refresh_tokens@,
            token_hash_of(presented@),
            now,
        )),
        r == Err::<(String, String), RotateError>(RotateError::InvalidRefreshToken) ==> *final(store) == *old(store),
        r == Err::<(String, String), RotateError>(RotateError::Storage) ==> refresh_take_seq(
            old(store).refresh_tokens@,
            final(store).refresh_tokens@,
            token_hash_of(presented@),
            now,
            Some(crate::store::refresh_owner_for(
                old(store).refresh_tokens@,
                token_hash_of(presented@),
            )),
        ),
        r matches Ok(cred) ==> ({
            let uid = crate::store::refresh_owner_for(
                old(store).refresh_tokens@,
                token_hash_of(presented@),
            );
            &&& rotate_committed(
                old(store).refresh_tokens@,
                final(store).refresh_tokens@,
                token_hash_of(presented@),
                now,
                uid,
                token_hash_of(cred.1@),
                (now + app.refresh_token_expiry_seconds) as u64,
            )
            &&& jwt_claims_of(cred.0@, app.jwt_secret@) == Some((uid, (now + 3600) as u64))
            &&& exists|b: Seq<u8>| b.len() == 32 && cred.1@ == #[trigger] b64_of(b)
        }),
{
    let access_exp = match now.checked_add(3600) {
        Some(e) => e,
        None => {
            return Err(RotateError::Config);
        },
    };
    let refresh_exp = match now.checked_add(app.refresh_token_expiry_seconds) {
        Some(e) => e,
        None => {
            return Err(RotateError::Config);
        },
    };
    let presented_hash = crate::token::hash_token(presented);
    let user_id = match store.take_refresh_token(presented_hash.as_str(), now) {
        Some(uid) => uid,
        None => {
            return Err(RotateError::InvalidRefreshToken);
        },
    };
    proof {
        let pre = old(store).refresh_tokens@;
        let h = token_hash_of(presented@);
        let i = choose|i: int|
            #![trigger pre[i]]
            0 <= i < pre.len() && pre[i].token_hash@ == h && pre[i].expires_at > now
                && pre[i].user_id == user_id && self_removed(pre, store.refresh_tokens@, i);
        let j = crate::store::refresh_index_of(pre, h);
        assert(0 <= j < pre.len() && pre[j].token_hash@ == h);
        if i != j {
            assert(false);
        }
    }
    let ghost mid = store.refresh_tokens@;
    let raw_refresh = crate::token::generate_refresh_token();
    let new_hash = crate::token::hash_token(raw_refresh.as_str());
    if !store.insert_refresh_token(user_id, new_hash, refresh_exp) {
        return Err(RotateError::Storage);
    }
    let jwt = match crate::token::create_jwt(user_id, app.jwt_secret.as_str(), now, 3600) {
        Ok(t) => t,
        Err(_) => vstd::pervasive::unreached(),
    };
    proof {
        let pre = old(store).refresh_tokens@;
        let h = token_hash_of(presented@);
        assert(refresh_take_seq(pre, mid, h, now, Some(user_id)));
    }
    Ok((jwt, raw_refresh))
}

/// Whether `post` is `pre` with the record at `i` removed.
spec fn self_removed(
    pre: Seq<RefreshTokenRecord>,
    post: Seq<RefreshTokenRecord>,
    i: int,
) -> bool {
    post == pre.remove(i)
}

/// Revoke a refresh token: delete any record matching its hash. Idempotent
/// — whether or not a record existed, the operation succeeds, and no record
/// with this hash remains.
pub fn revoke(store: &mut Store, presented: &str)
    requires
        old(store).wf(),
    ensures
        final(store).wf(),
        crate::store::refresh_delete_seq(
            old(store).refresh_tokens@,
            final(store).refresh_tokens@,
            token_hash_of(presented@),
        ),
        final(store).users == old(store).users,
        final(store).identities == old(store).identities,
        final(store).token_records == old(store).token_records,
        final(store).next_id == old(store).next_id,
{
    let h = crate::token::hash_token(presented);
    store.delete_refresh_token(h.as_str());
}

/// The bearer token of an authorization header: the rest after exactly one
/// `Bearer ` marker.
pub open spec fn bearer_of(header: Seq<char>) -> Option<Seq<char>> {
    if header.len() >= 7 && header.subrange(0, 7) == "Bearer "@ {
        Some(header.subrange(7, header.len() as int))
    } else {
        None
    }
}

/// Look up the authenticated user's own record from a bearer access token:
/// header present and well-shaped, signature and expiry valid under the
/// caller's clock, and the subject on file.
pub fn me<'a>(store: &'a Store, authorization: Option<&str>, jwt_secret: &str, now: u64) -> (r:
    Result<&'a User, MeError>)
    ensures
        match authorization {
            None => r == Err::<&'a User, MeError>(MeError::MissingAuthorization),
            Some(h) => match bearer_of(h@) {
                None => r == Err::<&'a User, MeError>(MeError::MalformedAuthorization),
                Some(tok) => match verify_decision(jwt_claims_of(tok, jwt_secret@), now) {
                    None => r == Err::<&'a User, MeError>(MeError::InvalidToken),
                    Some(Err(_)) => r == Err::<&'a User, MeError>(MeError::InvalidToken),
                    Some(Ok(uid)) => match r {
                        Ok(u) => exists|i: int|
                            0 <= i < store.users@.len() && #[trigger] store.users@[i] == *u && u.id
                                == uid,
                        Err(e) => e == MeError::NotFound && forall|i: int|
                            0 <= i < store.users@.len() ==> #[trigger] store.users@[i].id != uid,
                    },
                },
            },
        },
{
    let header = match authorization {
        Some(h) => h,
        None => {
            return Err(MeError::MissingAuthorization);
        },
    };
    proof {
        reveal_strlit("Bearer ");
    }
    let n = header.unicode_len();
    let shaped = n >= 7 && header.get_char(0) == 'B' && header.get_char(1) == 'e'
        && header.get_char(2) == 'a' && header.get_char(3) == 'r' && header.get_char(4) == 'e'
        && header.get_char(5) == 'r' && header.get_char(6) == ' ';
    if !shaped {
        proof {
            if header@.len() >= 7 && header@.subrange(0, 7) == "Bearer "@ {
                assert(header@.subrange(0, 7)[0] == 'B');
                assert(header@.subrange(0, 7)[1] == 'e');
                assert(header@.subrange(0, 7)[2] == 'a');
                assert(header@.subrange(0, 7)[3] == 'r');
                assert(header@.subrange(0, 7)[4] == 'e');
                assert(header@.subrange(0, 7)[5] == 'r');
                assert(header@.subrange(0, 7)[6] == ' ');
            }
        }
        return Err(MeError::MalformedAuthorization);
    }
    proof {
        assert(header@.subrange(0, 7) =~= "Bearer "@);
    }
    let token = header.substring_char(7, n);
    let user_id = match crate::token::verify_jwt(token, jwt_secret, now) {
        Ok(uid) => uid,
        Err(_) => {
            return Err(MeError::InvalidToken);
        },
    };
    match store.get_user(user_id) {
        Some(u) => Ok(u),
        None => Err(MeError::NotFound),
    }
}

} // verus!
