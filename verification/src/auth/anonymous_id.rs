//! The anonymous id and the local user id, both persisted in user preferences.
//!
//! Reading and writing the preferences is the caller's part: these functions take what was
//! stored (or `None`) and say which id to use and what, if anything, to store.

use vstd::arithmetic::power2::pow2;
use vstd::prelude::*;

use crate::auth::UserUid;

verus! {

/// The preferences key of the anonymous id. It is named after experiments because the id
/// picks experiment groups and is kept apart from telemetry.
pub const ANONYMOUS_ID_KEY: &'static str = "ExperimentId";

/// The preferences key of the local user id.
pub const LOCAL_USER_ID_KEY: &'static str = "LocalUserId";

/// The lowercase hexadecimal digit of `n`, for `0 <= n < 16`.
pub open spec fn hex_digit_lower(n: int) -> char {
    if n < 10 {
        (n + 48) as char
    } else {
        (n - 10 + 97) as char
    }
}

/// The `k`-th of the 32 hexadecimal digits of a 128-bit value, most significant first.
pub open spec fn uuid_nibble(u: u128, k: int) -> int {
    (u as int / pow2((4 * (31 - k)) as nat) as int) % 16
}

/// How many of the hyphens of the hyphenated form stand before position `p`.
pub open spec fn hyphens_before(p: int) -> int {
    if p < 8 {
        0
    } else if p < 13 {
        1
    } else if p < 18 {
        2
    } else if p < 23 {
        3
    } else {
        4
    }
}

/// The hyphenated lowercase form of a UUID, as in `67e55044-10b1-426f-9247-bb680e5fe0c8`:
/// the 32 hexadecimal digits of its 128-bit value, most significant first, with hyphens at
/// positions 8, 13, 18 and 23.
pub open spec fn uuid_hyphenated_text(u: u128) -> Seq<char> {
    Seq::new(
        36,
        |p: int|
            if p == 8 || p == 13 || p == 18 || p == 23 {
                '-'
            } else {
                hex_digit_lower(uuid_nibble(u, p - hyphens_before(p)))
            },
    )
}

/// A version-4 UUID of the RFC 4122 variant: version nibble 4 and variant bits `10`.
pub open spec fn uuid_is_random_v4(u: u128) -> bool {
    &&& (u >> 76u128) & 0xfu128 == 4
    &&& (u >> 62u128) & 0x3u128 == 2
}

/// What `uuid::Uuid::parse_str` gives for a text, as a 128-bit value.
pub uninterp spec fn uuid_parse(text: Seq<char>) -> Option<u128>;

/// Parses a UUID with `uuid::Uuid::parse_str` and returns its 128-bit value.
/// Claims: the result is the named `uuid_parse` of the text, and the hyphenated lowercase form
/// of any UUID parses back to that UUID (the crate accepts hyphenated input).
#[verifier::external_body]
fn parse_uuid(text: &str) -> (r: Option<u128>)
    ensures
        r == uuid_parse(text@),
        forall|u: u128| text@ == #[trigger] uuid_hyphenated_text(u) ==> r == Some(u),
{
    match uuid::Uuid::parse_str(text) {
        Ok(parsed) => Some(parsed.as_u128()),
        Err(_) => None,
    }
}

/// Prints a UUID with `uuid::Uuid::to_string`.
/// Claims: the text is the hyphenated lowercase form (the crate's `Display`).
#[verifier::external_body]
fn uuid_to_string(u: u128) -> (r: String)
    ensures
        r@ == uuid_hyphenated_text(u),
{
    uuid::Uuid::from_u128(u).to_string()
}

/// Draws a fresh UUID with `uuid::Uuid::new_v4`.
/// Claims only what holds of every draw: it is a random version-4 UUID.
#[verifier::external_body]
fn new_uuid_v4() -> (r: u128)
    ensures
        uuid_is_random_v4(r),
{
    uuid::Uuid::new_v4().as_u128()
}

/// The id in what was stored under the anonymous-id key: none when nothing was stored or
/// what was stored is not a UUID.
pub open spec fn stored_anonymous_id(stored: Option<Seq<char>>) -> Option<u128> {
    match stored {
        Some(text) => uuid_parse(text),
        None => None,
    }
}

/// The anonymous id persisted under `ANONYMOUS_ID_KEY`, given what the preferences hold
/// there; a value that is not a UUID counts as none.
pub fn get_persisted_anonymous_id(stored: Option<String>) -> (r: Option<u128>)
    ensures
        r == stored_anonymous_id(stored.deep_view()),
        forall|u: u128|
            stored.deep_view() == Some(#[trigger] uuid_hyphenated_text(u)) ==> r == Some(u),
{
    match stored {
        Some(text) => parse_uuid(text.as_str()),
        None => None,
    }
}

/// Which anonymous id to use, and what to store under `ANONYMOUS_ID_KEY` first, if anything.
#[derive(Clone, Debug)]
pub struct AnonymousIdOutcome {
    pub id: u128,
    pub to_persist: Option<String>,
}

/// The outcome for a freshly drawn id: use it, and store its hyphenated form.
pub fn anonymous_id_from_fresh(fresh: u128) -> (r: AnonymousIdOutcome)
    ensures
        r.id == fresh,
        r.to_persist.deep_view() == Some(uuid_hyphenated_text(fresh)),
{
    AnonymousIdOutcome { id: fresh, to_persist: Some(uuid_to_string(fresh)) }
}

/// The outcome when an id was persisted: keep it and store nothing. When none was, there is
/// no outcome yet: a fresh id has to be drawn.
pub fn reuse_persisted_anonymous_id(persisted: Option<u128>) -> (r: Option<AnonymousIdOutcome>)
    ensures
        persisted matches Some(id) ==> r matches Some(o) && o.id == id && o.to_persist is None,
        persisted is None ==> r is None,
{
    match persisted {
        Some(id) => Some(AnonymousIdOutcome { id, to_persist: None }),
        None => None,
    }
}

/// The persisted anonymous id if there is one; otherwise a fresh random id, to be stored.
pub fn get_or_create_anonymous_id(stored: Option<String>) -> (r: AnonymousIdOutcome)
    ensures
        stored_anonymous_id(stored.deep_view()) matches Some(u) ==> r.id == u && r.to_persist
            is None,
        stored_anonymous_id(stored.deep_view()) is None ==> uuid_is_random_v4(r.id)
            && r.to_persist.deep_view() == Some(uuid_hyphenated_text(r.id)),
{
    match reuse_persisted_anonymous_id(get_persisted_anonymous_id(stored)) {
        Some(outcome) => outcome,
        None => anonymous_id_from_fresh(new_uuid_v4()),
    }
}

/// The OS user name, or `user` when it is unknown.
pub open spec fn os_user_or_default(os_user: Option<Seq<char>>) -> Seq<char> {
    match os_user {
        Some(name) => name,
        None => "user"@,
    }
}

/// The printed form of a new local user id: `local:<user>:<uuid>`.
pub open spec fn local_user_uid_text(user: Seq<char>, id: u128) -> Seq<char> {
    "local:"@ + user + ":"@ + uuid_hyphenated_text(id)
}

/// Which local user id to use, and what to store under `LOCAL_USER_ID_KEY` first, if anything.
#[derive(Clone, Debug)]
pub struct LocalUserIdOutcome {
    pub uid: UserUid,
    pub to_persist: Option<String>,
}

/// The outcome for a freshly drawn UUID: the uid `local:<user>:<uuid>`, to be stored.
pub fn local_user_id_from_fresh(os_user: Option<String>, fresh: u128) -> (r: LocalUserIdOutcome)
    ensures
        r.uid@ == local_user_uid_text(os_user_or_default(os_user.deep_view()), fresh),
        r.to_persist.deep_view() == Some(r.uid@),
{
    let mut text = String::from_str("local:");
    match &os_user {
        Some(name) => text.append(name.as_str()),
        None => text.append("user"),
    }
    text.append(":");
    let uuid_text = uuid_to_string(fresh);
    text.append(uuid_text.as_str());
    let uid = UserUid::new(text.as_str());
    LocalUserIdOutcome { uid, to_persist: Some(text) }
}

/// The persisted local user id if there is one; otherwise a new one of the form
/// `local:<user>:<uuid>` with a fresh random UUID, to be stored so it survives restarts.
pub fn get_or_create_local_user_id(stored: Option<String>, os_user: Option<String>) -> (r:
    LocalUserIdOutcome)
    ensures
        stored.deep_view() matches Some(text) ==> r.uid@ == text && r.to_persist is None,
        stored is None ==> exists|u: u128|
            uuid_is_random_v4(u) && r.uid@ == #[trigger] local_user_uid_text(
                os_user_or_default(os_user.deep_view()),
                u,
            ),
        stored is None ==> r.to_persist.deep_view() == Some(r.uid@),
{
    match stored {
        Some(text) => LocalUserIdOutcome { uid: UserUid::new(text.as_str()), to_persist: None },
        None => {
            let fresh = new_uuid_v4();
            let r = local_user_id_from_fresh(os_user, fresh);
            assert(r.uid@ == local_user_uid_text(os_user_or_default(os_user.deep_view()), fresh));
            r
        },
    }
}

/// A new local user id carries the OS user name verbatim: it is `local:`, then the whole
/// name, then `:`, then the 36 characters of the hyphenated UUID, so the name and the UUID can
/// be read back from it. Only a missing name becomes `user`.
pub proof fn lemma_local_uid_keeps_user_name(name: Seq<char>, id: u128)
    ensures
        local_user_uid_text(os_user_or_default(Some(name)), id) == "local:"@ + name + ":"@
            + uuid_hyphenated_text(id),
        local_user_uid_text(os_user_or_default(Some(name)), id).len() == name.len() + 43,
        local_user_uid_text(os_user_or_default(Some(name)), id).subrange(6, 6 + name.len() as int)
            == name,
        local_user_uid_text(os_user_or_default(Some(name)), id).skip(7 + name.len() as int)
            == uuid_hyphenated_text(id),
        local_user_uid_text(os_user_or_default(None), id) == "local:user:"@ + uuid_hyphenated_text(
            id,
        ),
{
    reveal_strlit("local:");
    reveal_strlit(":");
    reveal_strlit("user");
    reveal_strlit("local:user:");
    let t = local_user_uid_text(os_user_or_default(Some(name)), id);
    assert(t.subrange(6, 6 + name.len() as int) =~= name);
    assert(t.skip(7 + name.len() as int) =~= uuid_hyphenated_text(id));
    assert(local_user_uid_text(os_user_or_default(None), id) =~= "local:user:"@
        + uuid_hyphenated_text(id));
}

} // verus!
