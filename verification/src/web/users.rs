use vstd::prelude::*;

use crate::text::{chars_of, push_char, trim, trim_chars};
use crate::web::helpers::{to_uppercase, uppercase_text};

verus! {

/// One row of the user list: the name of the user's default profile and whether the
/// account is active.
pub struct UserSummary {
    pub profile_name: String,
    pub is_active: bool,
}

/// Whether a profile is one of the administrator profiles.
pub open spec fn is_admin_profile(name: Seq<char>) -> bool {
    name == "Super-Admin"@ || name == "Admin"@
}

/// How many of `users` are active.
pub open spec fn active_count(users: Seq<UserSummary>) -> nat
    decreases users.len(),
{
    if users.len() == 0 {
        0
    } else {
        active_count(users.drop_last()) + if users.last().is_active {
            1nat
        } else {
            0nat
        }
    }
}

/// How many of `users` have the `Technician` profile.
pub open spec fn technician_count(users: Seq<UserSummary>) -> nat
    decreases users.len(),
{
    if users.len() == 0 {
        0
    } else {
        technician_count(users.drop_last()) + if users.last().profile_name@ == "Technician"@ {
            1nat
        } else {
            0nat
        }
    }
}

/// How many of `users` have an administrator profile.
pub open spec fn admin_count(users: Seq<UserSummary>) -> nat
    decreases users.len(),
{
    if users.len() == 0 {
        0
    } else {
        admin_count(users.drop_last()) + if is_admin_profile(users.last().profile_name@) {
            1nat
        } else {
            0nat
        }
    }
}

/// The figures shown above the user list.
pub struct UserCounts {
    pub total: usize,
    pub active: usize,
    pub technicians: usize,
    pub admins: usize,
}

proof fn lemma_counts_bounded(users: Seq<UserSummary>)
    ensures
        active_count(users) <= users.len(),
        technician_count(users) <= users.len(),
        admin_count(users) <= users.len(),
    decreases users.len(),
{
    if users.len() > 0 {
        lemma_counts_bounded(users.drop_last());
    }
}

/// The number of users listed, of active ones, of technicians and of administrators.
pub fn count_users(users: &[UserSummary]) -> (r: UserCounts)
    ensures
        r.total == users@.len(),
        r.active == active_count(users@),
        r.technicians == technician_count(users@),
        r.admins == admin_count(users@),
{
    let mut active: usize = 0;
    let mut technicians: usize = 0;
    let mut admins: usize = 0;
    let mut i: usize = 0;
    while i < users.len()
        invariant
            i <= users@.len(),
            active == active_count(users@.take(i as int)),
            technicians == technician_count(users@.take(i as int)),
            admins == admin_count(users@.take(i as int)),
        decreases users@.len() - i,
    {
        proof {
            let prefix = users@.take(i as int + 1);
            assert(prefix.drop_last() =~= users@.take(i as int));
            assert(prefix.last() == users@[i as int]);
            lemma_counts_bounded(prefix);
        }
        let u = &users[i];
        if u.is_active {
            active = active + 1;
        }
        let name = chars_of(u.profile_name.as_str());
        if crate::text::chars_are(name.as_slice(), "Technician") {
            technicians = technicians + 1;
        }
        if crate::text::chars_are(name.as_slice(), "Super-Admin") || crate::text::chars_are(
            name.as_slice(),
            "Admin",
        ) {
            admins = admins + 1;
        }
        i = i + 1;
    }
    assert(users@.take(users@.len() as int) =~= users@);
    UserCounts { total: users.len(), active, technicians, admins }
}

/// The letter shown for the signed-in user: the first character of the user name,
/// `U` for an empty name, upper-cased.
pub fn username_initial(username: &str) -> (r: String)
    ensures
        r@ == uppercase_text(
            if username@.len() == 0 {
                seq!['U']
            } else {
                seq![username@[0]]
            },
        ),
{
    let cs = chars_of(username);
    let c = if cs.len() == 0 {
        'U'
    } else {
        cs[0]
    };
    let mut one = String::new();
    push_char(&mut one, c);
    assert(one@ =~= seq![c]);
    to_uppercase(one.as_str())
}

/// The password of a new account: the one given, unless it is missing or blank, in
/// which case the default `ITILSuite2026!`.
pub fn initial_password(given: Option<&str>) -> (r: String)
    ensures
        r@ == match given {
            Some(p) => if trim(p@).len() > 0 {
                p@
            } else {
                "ITILSuite2026!"@
            },
            None => "ITILSuite2026!"@,
        },
{
    match given {
        Some(p) => {
            let t = trim_chars(p);
            if t.len() > 0 {
                p.to_string()
            } else {
                "ITILSuite2026!".to_string()
            }
        },
        None => "ITILSuite2026!".to_string(),
    }
}

} // verus!
