//! The profiles of an installation.

use crate::text::clone_optional;
use vstd::prelude::*;
use vstd::string::*;

verus! {

/// One profile.
#[derive(Debug)]
pub struct Profile {
    pub id: String,
    pub name: String,
    pub created_at_ms: i64,
}

/// `Profile` with its texts as sequences of characters.
pub ghost struct ProfileView {
    pub id: Seq<char>,
    pub name: Seq<char>,
    pub created_at_ms: i64,
}

impl View for Profile {
    type V = ProfileView;

    open spec fn view(&self) -> ProfileView {
        ProfileView { id: self.id@, name: self.name@, created_at_ms: self.created_at_ms }
    }
}

impl DeepView for Profile {
    type V = ProfileView;

    open spec fn deep_view(&self) -> ProfileView {
        self@
    }
}

impl Clone for Profile {
    fn clone(&self) -> (r: Self)
        ensures
            r == *self,
    {
        Profile {
            id: self.id.clone(),
            name: self.name.clone(),
            created_at_ms: self.created_at_ms,
        }
    }
}

/// The profiles, and which of them is active.
#[derive(Debug)]
pub struct ProfilesStore {
    pub version: i32,
    pub active_profile_id: Option<String>,
    pub profiles: Vec<Profile>,
}

/// `ProfilesStore` as a mathematical value.
pub ghost struct ProfilesStoreView {
    pub version: i32,
    pub active_profile_id: Option<Seq<char>>,
    pub profiles: Seq<ProfileView>,
}

impl View for ProfilesStore {
    type V = ProfilesStoreView;

    open spec fn view(&self) -> ProfilesStoreView {
        ProfilesStoreView {
            version: self.version,
            active_profile_id: self.active_profile_id.deep_view(),
            profiles: self.profiles.deep_view(),
        }
    }
}

impl Default for ProfilesStore {
    fn default() -> (r: Self)
        ensures
            r@ == (ProfilesStoreView {
                version: 1,
                active_profile_id: None,
                profiles: Seq::empty(),
            }),
    {
        let r = ProfilesStore { version: 1, active_profile_id: None, profiles: Vec::new() };
        assert(r.profiles.deep_view() =~= Seq::empty());
        r
    }
}

impl Clone for ProfilesStore {
    fn clone(&self) -> (r: Self)
        ensures
            r@ == self@,
    {
        let mut profiles: Vec<Profile> = Vec::new();
        let n = self.profiles.len();
        let mut i: usize = 0;
        while i < n
            invariant
                n == self.profiles@.len(),
                i <= n,
                profiles.deep_view() == self.profiles.deep_view().subrange(0, i as int),
            decreases n - i,
        {
            let ghost before = profiles.deep_view();
            let p = self.profiles[i].clone();
            profiles.push(p);
            assert(profiles.deep_view() =~= before.push(p@));
            i = i + 1;
        }
        assert(profiles.deep_view() =~= self.profiles.deep_view());
        ProfilesStore {
            version: self.version,
            active_profile_id: clone_optional(&self.active_profile_id),
            profiles,
        }
    }
}

} // verus!
