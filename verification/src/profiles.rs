//! The rules of the list of profiles: there is always one, one of them is
//! active, and the last one cannot be deleted.

use crate::state::{Profile, ProfileView, ProfilesStore, ProfilesStoreView};
use crate::text::{push_signed_decimal, signed_decimal, str_eq, trim, trimmed};
use vstd::prelude::*;
use vstd::string::*;

verus! {

/// Why an operation on profiles was refused.
#[derive(Debug, Clone, Copy, PartialEq, Eq, Structural)]
pub enum ProfileError {
    /// The name is blank.
    NameRequired,
    /// No profile has the identifier.
    NotFound,
    /// The profile is the only one.
    LastProfile,
}

impl ProfileError {
    /// The message shown for the error.
    pub open spec fn spec_message(self) -> Seq<char> {
        match self {
            ProfileError::NameRequired => "name required"@,
            ProfileError::NotFound => "profile not found"@,
            ProfileError::LastProfile => "cannot delete last profile"@,
        }
    }

    /// The message shown for the error.
    pub fn message(self) -> (r: String)
        ensures
            r@ == self.spec_message(),
    {
        match self {
            ProfileError::NameRequired => String::from_str("name required"),
            ProfileError::NotFound => String::from_str("profile not found"),
            ProfileError::LastProfile => String::from_str("cannot delete last profile"),
        }
    }
}

/// The identifier of a profile made at `now_ms`.
pub open spec fn profile_id_text(now_ms: i64) -> Seq<char> {
    "p_"@ + signed_decimal(now_ms as int)
}

/// The identifier of a profile made at `now_ms`.
pub fn new_id(now_ms: i64) -> (r: String)
    ensures
        r@ == profile_id_text(now_ms),
{
    let mut s = String::from_str("p_");
    push_signed_decimal(&mut s, now_ms);
    s
}

/// The service under which the secrets of a profile are kept.
pub fn secret_service(profile_id: &str) -> (r: String)
    ensures
        r@ == "openclaw-desktop:"@ + profile_id@,
{
    let mut s = String::from_str("openclaw-desktop:");
    s.append(profile_id);
    s
}

/// Whether some profile has the identifier.
pub open spec fn has_profile(profiles: Seq<ProfileView>, id: Seq<char>) -> bool {
    exists|j: int| 0 <= j < profiles.len() && profiles[j].id == id
}

/// Whether `at` is the first index of a profile with the identifier.
pub open spec fn first_profile_with(profiles: Seq<ProfileView>, id: Seq<char>, at: int) -> bool {
    0 <= at < profiles.len() && profiles[at].id == id && forall|j: int|
        0 <= j < at ==> profiles[j].id != id
}

/// The index of the first profile with the identifier; only meaningful
/// where `has_profile` holds.
pub open spec fn profile_position(profiles: Seq<ProfileView>, id: Seq<char>) -> int {
    choose|i: int| first_profile_with(profiles, id, i)
}

/// The profiles whose identifier differs from `id`, in their order.
pub open spec fn profiles_without(profiles: Seq<ProfileView>, id: Seq<char>) -> Seq<ProfileView>
    decreases profiles.len(),
{
    if profiles.len() == 0 {
        Seq::empty()
    } else if profiles.last().id == id {
        profiles_without(profiles.drop_last(), id)
    } else {
        profiles_without(profiles.drop_last(), id).push(profiles.last())
    }
}

/// The store with one more profile, which becomes the active one.
pub open spec fn with_profile(store: ProfilesStoreView, name: Seq<char>, now_ms: i64) -> ProfilesStoreView {
    ProfilesStoreView {
        profiles: store.profiles.push(
            ProfileView { id: profile_id_text(now_ms), name, created_at_ms: now_ms },
        ),
        active_profile_id: Some(profile_id_text(now_ms)),
        ..store
    }
}

/// The store with a first profile, `Default`, where it has none.
pub open spec fn with_default_profile(store: ProfilesStoreView, now_ms: i64) -> ProfilesStoreView {
    if store.profiles.len() == 0 {
        with_profile(store, "Default"@, now_ms)
    } else {
        store
    }
}

fn position(store: &ProfilesStore, profile_id: &str) -> (r: Option<usize>)
    ensures
        r is Some == has_profile(store@.profiles, profile_id@),
        r matches Some(i) ==> i as int == profile_position(store@.profiles, profile_id@)
            && first_profile_with(store@.profiles, profile_id@, i as int),
{
    let n = store.profiles.len();
    let mut i: usize = 0;
    while i < n
        invariant
            n == store.profiles@.len(),
            i <= n,
            forall|j: int| 0 <= j < i ==> store@.profiles[j].id != profile_id@,
        decreases n - i,
    {
        if str_eq(store.profiles[i].id.as_str(), profile_id) {
            proof {
                assert(first_profile_with(store@.profiles, profile_id@, i as int));
            }
            return Some(i);
        }
        i = i + 1;
    }
    None
}

fn add_profile(store: &mut ProfilesStore, name: String, now_ms: i64)
    ensures
        final(store)@ == with_profile(old(store)@, name@, now_ms),
{
    let id = new_id(now_ms);
    let ghost before = store.profiles.deep_view();
    store.profiles.push(Profile { id: id.clone(), name, created_at_ms: now_ms });
    assert(store.profiles.deep_view() =~= before.push(
        ProfileView { id: profile_id_text(now_ms), name: name@, created_at_ms: now_ms },
    ));
    store.active_profile_id = Some(id);
}

/// Gives a store without profiles its first one, named `Default`, and
/// makes it the active one. Returns whether the store was changed and is
/// to be stored.
pub fn ensure_default_profile(store: &mut ProfilesStore, now_ms: i64) -> (changed: bool)
    ensures
        final(store)@ == with_default_profile(old(store)@, now_ms),
        changed == (old(store)@.profiles.len() == 0),
{
    if store.profiles.len() == 0 {
        add_profile(store, String::from_str("Default"), now_ms);
        true
    } else {
        false
    }
}

/// Adds a profile with the trimmed name and makes it the active one. A
/// blank name is refused.
pub fn profiles_create(store: &mut ProfilesStore, name: &str, now_ms: i64) -> (r: Result<
    (),
    ProfileError,
>)
    ensures
        r is Ok == (trimmed(name@).len() > 0),
        r is Err ==> r == Err::<(), ProfileError>(ProfileError::NameRequired) && final(store)@
            == old(store)@,
        r is Ok ==> final(store)@ == with_profile(old(store)@, trimmed(name@), now_ms),
{
    let t = trim(name);
    if t.as_str().unicode_len() == 0 {
        return Err(ProfileError::NameRequired);
    }
    add_profile(store, t, now_ms);
    Ok(())
}

/// Makes a profile the active one. An identifier that no profile has is
/// refused.
pub fn profiles_set_active(store: &mut ProfilesStore, profile_id: String) -> (r: Result<
    (),
    ProfileError,
>)
    ensures
        r is Ok == has_profile(old(store)@.profiles, profile_id@),
        r is Err ==> r == Err::<(), ProfileError>(ProfileError::NotFound) && final(store)@ == old(
            store,
        )@,
        r is Ok ==> final(store)@ == (ProfilesStoreView {
            active_profile_id: Some(profile_id@),
            ..old(store)@
        }),
{
    match position(store, profile_id.as_str()) {
        Some(_) => {
            store.active_profile_id = Some(profile_id);
            Ok(())
        },
        None => Err(ProfileError::NotFound),
    }
}

/// Gives a profile a new name, trimmed. A blank name is refused before
/// the profile is looked up.
pub fn profiles_rename(store: &mut ProfilesStore, profile_id: &str, name: &str) -> (r: Result<
    (),
    ProfileError,
>)
    ensures
        trimmed(name@).len() == 0 ==> r == Err::<(), ProfileError>(ProfileError::NameRequired),
        trimmed(name@).len() > 0 && !has_profile(old(store)@.profiles, profile_id@) ==> r == Err::<
            (),
            ProfileError,
        >(ProfileError::NotFound),
        trimmed(name@).len() > 0 && has_profile(old(store)@.profiles, profile_id@) ==> r is Ok,
        r is Err ==> final(store)@ == old(store)@,
        r is Ok ==> final(store)@ == (ProfilesStoreView {
            profiles: old(store)@.profiles.update(
                profile_position(old(store)@.profiles, profile_id@),
                ProfileView {
                    name: trimmed(name@),
                    ..old(store)@.profiles[profile_position(old(store)@.profiles, profile_id@)]
                },
            ),
            ..old(store)@
        }),
{
    let t = trim(name);
    if t.as_str().unicode_len() == 0 {
        return Err(ProfileError::NameRequired);
    }
    match position(store, profile_id) {
        Some(i) => {
            store.profiles[i].name = t;
            assert(store@.profiles =~= old(store)@.profiles.update(
                i as int,
                ProfileView { name: trimmed(name@), ..old(store)@.profiles[i as int] },
            ));
            Ok(())
        },
        None => Err(ProfileError::NotFound),
    }
}

/// The store after a profile was deleted: every profile with the
/// identifier is gone, and where the deleted one was active, the first
/// that is left is active, or none where none is left.
pub open spec fn with_profile_deleted(store: ProfilesStoreView, id: Seq<char>) -> ProfilesStoreView {
    let left = profiles_without(store.profiles, id);
    ProfilesStoreView {
        profiles: left,
        active_profile_id: if store.active_profile_id == Some(id) {
            if left.len() > 0 {
                Some(left[0].id)
            } else {
                None
            }
        } else {
            store.active_profile_id
        },
        ..store
    }
}

/// Deletes a profile. The only profile of a store cannot be deleted.
pub fn profiles_delete(store: &mut ProfilesStore, profile_id: &str) -> (r: Result<(), ProfileError>)
    ensures
        r is Ok == (old(store)@.profiles.len() != 1),
        r is Err ==> r == Err::<(), ProfileError>(ProfileError::LastProfile) && final(store)@
            == old(store)@,
        r is Ok ==> final(store)@ == with_profile_deleted(old(store)@, profile_id@),
{
    if store.profiles.len() == 1 {
        return Err(ProfileError::LastProfile);
    }
    let mut kept: Vec<Profile> = Vec::new();
    let n = store.profiles.len();
    let mut i: usize = 0;
    while i < n
        invariant
            n == store.profiles@.len(),
            i <= n,
            store == old(store),
            kept.deep_view() == profiles_without(store@.profiles.subrange(0, i as int), profile_id@),
        decreases n - i,
    {
        assert(store@.profiles.subrange(0, i + 1).drop_last() =~= store@.profiles.subrange(
            0,
            i as int,
        ));
        if !str_eq(store.profiles[i].id.as_str(), profile_id) {
            let p = store.profiles[i].clone();
            kept.push(p);
        }
        i = i + 1;
    }
    assert(store@.profiles.subrange(0, n as int) =~= store@.profiles);
    let was_active = match &store.active_profile_id {
        Some(a) => str_eq(a.as_str(), profile_id),
        None => false,
    };
    store.profiles = kept;
    if was_active {
        store.active_profile_id = if store.profiles.len() > 0 {
            Some(store.profiles[0].id.clone())
        } else {
            None
        };
    }
    Ok(())
}

} // verus!
