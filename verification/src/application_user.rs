//! Application users: the registration lookup the request context uses.

use crate::error::ServiceError;
use crate::storage::ApplicationUserStatus;
use vstd::prelude::*;

verus! {

/// One stored application user row.
#[derive(Debug, PartialEq, Eq)]
pub struct ApplicationUser {
    pub id: u128,
    pub status: ApplicationUserStatus,
    pub email: String,
    pub first_name: Option<String>,
    pub last_name: Option<String>,
}

/// Ghost mirror of [`ApplicationUser`].
#[verifier::ext_equal]
pub ghost struct ApplicationUserView {
    pub id: u128,
    pub status: ApplicationUserStatus,
    pub email: Seq<char>,
    pub first_name: Option<Seq<char>>,
    pub last_name: Option<Seq<char>>,
}

impl DeepView for ApplicationUser {
    type V = ApplicationUserView;

    open spec fn deep_view(&self) -> ApplicationUserView {
        ApplicationUserView {
            id: self.id,
            status: self.status,
            email: self.email.deep_view(),
            first_name: self.first_name.deep_view(),
            last_name: self.last_name.deep_view(),
        }
    }
}

impl Clone for ApplicationUser {
    fn clone(&self) -> (r: Self)
        ensures
            r.deep_view() == self.deep_view(),
    {
        ApplicationUser {
            id: self.id,
            status: self.status,
            email: self.email.clone(),
            first_name: self.first_name.clone(),
            last_name: self.last_name.clone(),
        }
    }
}

/// What a user lookup hands back.
#[derive(Debug, PartialEq, Eq)]
pub struct ApplicationUserServiceOutput {
    pub id: u128,
    pub first_name: Option<String>,
    pub last_name: Option<String>,
    pub email: String,
    pub status: ApplicationUserStatus,
}

/// Ghost mirror of [`ApplicationUserServiceOutput`].
#[verifier::ext_equal]
pub ghost struct ApplicationUserServiceOutputView {
    pub id: u128,
    pub first_name: Option<Seq<char>>,
    pub last_name: Option<Seq<char>>,
    pub email: Seq<char>,
    pub status: ApplicationUserStatus,
}

impl DeepView for ApplicationUserServiceOutput {
    type V = ApplicationUserServiceOutputView;

    open spec fn deep_view(&self) -> ApplicationUserServiceOutputView {
        ApplicationUserServiceOutputView {
            id: self.id,
            first_name: self.first_name.deep_view(),
            last_name: self.last_name.deep_view(),
            email: self.email.deep_view(),
            status: self.status,
        }
    }
}

/// The output a user row maps to.
pub open spec fn output_of_user(u: ApplicationUserView) -> ApplicationUserServiceOutputView {
    ApplicationUserServiceOutputView {
        id: u.id,
        first_name: u.first_name,
        last_name: u.last_name,
        email: u.email,
        status: u.status,
    }
}

impl ApplicationUserServiceOutput {
    /// The output carrying one user row's fields.
    pub fn from_user(user: ApplicationUser) -> (r: Self)
        ensures
            r.deep_view() == output_of_user(user.deep_view()),
    {
        ApplicationUserServiceOutput {
            id: user.id,
            first_name: user.first_name,
            last_name: user.last_name,
            email: user.email,
            status: user.status,
        }
    }
}

/// Index of the last user row with the given identity, or -1: the
/// lookup reads the matches in store order and keeps the last.
pub open spec fn user_index(s: Seq<ApplicationUserView>, id: u128) -> int
    decreases s.len(),
{
    if s.len() == 0 {
        -1
    } else if s.last().id == id {
        s.len() - 1
    } else {
        user_index(s.drop_last(), id)
    }
}

/// `user_index` returns -1 exactly when no row matches; otherwise it
/// returns the last matching index.
pub proof fn lemma_user_index(s: Seq<ApplicationUserView>, id: u128)
    ensures
        user_index(s, id) == -1 ==> forall|i: int| 0 <= i < s.len() ==> (#[trigger] s[i]).id != id,
        user_index(s, id) != -1 ==> {
            let i = user_index(s, id);
            &&& 0 <= i < s.len()
            &&& s[i].id == id
            &&& forall|j: int| i < j < s.len() ==> (#[trigger] s[j]).id != id
        },
    decreases s.len(),
{
    if s.len() > 0 && s.last().id != id {
        lemma_user_index(s.drop_last(), id);
        assert forall|i: int| 0 <= i < s.len() - 1 implies s.drop_last()[i] == s[i] by {}
    }
}

/// Looks up whether a registered user with the given identity exists,
/// returning the last matching row when several share the identity (as
/// a keyed table never has).
pub fn check_registered_user(
    supabase_id: u128,
    users: &Vec<ApplicationUser>,
) -> (r: Result<Option<ApplicationUserServiceOutput>, ServiceError>)
    ensures
        r.is_ok(),
        ({
            let i = user_index(users.deep_view(), supabase_id);
            match r->Ok_0 {
                Some(out) => i != -1 && out.deep_view() == output_of_user(users.deep_view()[i]),
                None => i == -1,
            }
        }),
{
    let ghost s = users.deep_view();
    proof {
        lemma_user_index(s, supabase_id);
    }
    let n = users.len();
    let mut j: usize = n;
    while j > 0
        invariant
            j <= n,
            n == users.len(),
            s == users.deep_view(),
            forall|k: int| j <= k < n ==> (#[trigger] s[k]).id != supabase_id,
        decreases j,
    {
        j = j - 1;
        if users[j].id == supabase_id {
            proof {
                assert(s[j as int].id == supabase_id);
                lemma_user_index(s, supabase_id);
            }
            let user = users[j].clone();
            return Ok(Some(ApplicationUserServiceOutput::from_user(user)));
        }
    }
    proof {
        lemma_user_index(s, supabase_id);
    }
    Ok(None)
}

} // verus!
