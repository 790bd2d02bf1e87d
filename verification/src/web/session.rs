use vstd::prelude::*;

use crate::numbers::{int_text, push_int};
use crate::text::{
    chars_are, chars_of, find_char, join2, push_char, slice_chars, string_of, trim, trim_chars,
};

verus! {

broadcast use vstd::string::group_string_axioms;

/// Why a login is refused.
#[derive(Clone, Copy, Debug, PartialEq, Eq, Structural)]
pub enum LoginRefusal {
    BadCredentials,
    AccountDisabled,
    NoProfile,
}

/// The decision on a login: an unknown user or a wrong password is refused with the same
/// answer, a disabled account before its password is checked, and a user without a profile
/// after it.
pub open spec fn login_decision(
    user_found: bool,
    is_active: bool,
    password_ok: bool,
    has_profile: bool,
) -> Result<(), LoginRefusal> {
    if !user_found {
        Err(LoginRefusal::BadCredentials)
    } else if !is_active {
        Err(LoginRefusal::AccountDisabled)
    } else if !password_ok {
        Err(LoginRefusal::BadCredentials)
    } else if !has_profile {
        Err(LoginRefusal::NoProfile)
    } else {
        Ok(())
    }
}

/// The name a session shows: first and last name, trimmed, when either is set; the user
/// name otherwise.
pub open spec fn session_display_name(firstname: Seq<char>, realname: Seq<char>, username: Seq<char>) -> Seq<
    char,
> {
    if firstname.len() > 0 || realname.len() > 0 {
        trim(firstname + seq![' '] + realname)
    } else {
        username
    }
}

/// The pieces of a cookie header split at `;`, scanning from `i` on.
pub open spec fn cookie_pieces(s: Seq<char>) -> Seq<Seq<char>>
    decreases s.len(),
{
    match crate::text::first_index(s, ';') {
        Some(i) => {
            proof {
                crate::text::lemma_first_index_bounds(s, ';');
            }
            seq![s.take(i)] + cookie_pieces(s.skip(i + 1))
        },
        None => seq![s],
    }
}

/// The value of a trimmed cookie piece named `itilsuite_session`, if it is one: the text
/// after the first `=`.
pub open spec fn session_value(piece: Seq<char>) -> Option<Seq<char>> {
    let p = trim(piece);
    match crate::text::first_index(p, '=') {
        Some(i) => if p.take(i) == "itilsuite_session"@ {
            Some(p.skip(i + 1))
        } else {
            None
        },
        None => None,
    }
}

/// The session tokens a cookie header offers, in order.
pub open spec fn session_candidates(pieces: Seq<Seq<char>>) -> Seq<Seq<char>>
    decreases pieces.len(),
{
    if pieces.len() == 0 {
        Seq::empty()
    } else {
        match session_value(pieces[0]) {
            Some(v) => seq![v] + session_candidates(pieces.drop_first()),
            None => session_candidates(pieces.drop_first()),
        }
    }
}

/// Sessions of the web interface.
pub struct SessionRules;

impl SessionRules {
    /// The decision on a login (see `login_decision`).
    pub fn check_login(user_found: bool, is_active: bool, password_ok: bool, has_profile: bool) -> (r:
        Result<(), LoginRefusal>)
        ensures
            r == login_decision(user_found, is_active, password_ok, has_profile),
    {
        if !user_found {
            Err(LoginRefusal::BadCredentials)
        } else if !is_active {
            Err(LoginRefusal::AccountDisabled)
        } else if !password_ok {
            Err(LoginRefusal::BadCredentials)
        } else if !has_profile {
            Err(LoginRefusal::NoProfile)
        } else {
            Ok(())
        }
    }

    /// What the login page says for a refusal.
    pub fn refusal_message(r: LoginRefusal) -> (m: String)
        ensures
            m@ == match r {
                LoginRefusal::BadCredentials => "Usuario o contraseña incorrectos"@,
                LoginRefusal::AccountDisabled => "La cuenta de usuario se encuentra deshabilitada"@,
                LoginRefusal::NoProfile => "El usuario no tiene asignado ningún perfil o entidad activa"@,
            },
    {
        match r {
            LoginRefusal::BadCredentials => "Usuario o contraseña incorrectos".to_string(),
            LoginRefusal::AccountDisabled => "La cuenta de usuario se encuentra deshabilitada".to_string(),
            LoginRefusal::NoProfile => "El usuario no tiene asignado ningún perfil o entidad activa".to_string(),
        }
    }

    /// The HTTP status of a refusal: 403 for a disabled account or a missing profile, 400
    /// for bad credentials.
    pub fn refusal_status(r: LoginRefusal) -> (s: u16)
        ensures
            s == match r {
                LoginRefusal::BadCredentials => 400u16,
                _ => 403u16,
            },
    {
        match r {
            LoginRefusal::BadCredentials => 400,
            _ => 403,
        }
    }

    /// The name a session shows (see `session_display_name`).
    pub fn display_name(firstname: &str, realname: &str, username: &str) -> (r: String)
        ensures
            r@ == session_display_name(firstname@, realname@, username@),
    {
        if chars_of(firstname).len() > 0 || chars_of(realname).len() > 0 {
            let mut full = firstname.to_string();
            push_char(&mut full, ' ');
            full.append(realname);
            assert(full@ =~= firstname@ + seq![' '] + realname@);
            string_of(trim_chars(full.as_str()).as_slice())
        } else {
            username.to_string()
        }
    }

    /// The session cookie for a token that lives `hours` hours.
    pub fn session_cookie(token: &str, hours: i64) -> (r: String)
        requires
            i64::MIN <= hours * 3600 <= i64::MAX,
        ensures
            r@ == "itilsuite_session="@ + token@ + "; Path=/; HttpOnly; SameSite=Lax; Max-Age="@
                + int_text(hours * 3600),
    {
        let mut s = join2("itilsuite_session=", token);
        s.append("; Path=/; HttpOnly; SameSite=Lax; Max-Age=");
        push_int(&mut s, hours * 3600);
        s
    }

    /// The session tokens a cookie header offers, in order (see `session_candidates`).
    pub fn session_tokens(cookie_header: &str) -> (r: Vec<String>)
        ensures
            r@.map_values(|s: String| s@) == session_candidates(cookie_pieces(cookie_header@)),
    {
        let cs = chars_of(cookie_header);
        let mut out: Vec<String> = Vec::new();
        let mut rest = cs;
        let ghost all = cookie_pieces(cookie_header@);
        assert(out@.map_values(|s: String| s@) =~= Seq::<Seq<char>>::empty());
        loop
            invariant
                session_candidates(cookie_pieces(cookie_header@)) == out@.map_values(|s: String| s@)
                    + session_candidates(cookie_pieces(rest@)),
            decreases rest.len(),
        {
            let (piece, next, done) = match find_char(rest.as_slice(), ';') {
                Some(i) => {
                    let p = slice_chars(rest.as_slice(), 0, i);
                    let n = slice_chars(rest.as_slice(), i + 1, rest.len());
                    assert(p@ =~= rest@.take(i as int));
                    assert(n@ =~= rest@.skip(i + 1));
                    (p, n, false)
                },
                None => {
                    let p = slice_chars(rest.as_slice(), 0, rest.len());
                    assert(p@ =~= rest@);
                    (p, Vec::new(), true)
                },
            };
            let ghost pieces = cookie_pieces(rest@);
            assert(pieces[0] == piece@);
            assert(done ==> pieces =~= seq![piece@]);
            assert(!done ==> pieces.drop_first() =~= cookie_pieces(next@));
            let value = Self::session_value_of(piece.as_slice());
            let ghost before = out@.map_values(|s: String| s@);
            match value {
                Some(v) => {
                    out.push(v);
                },
                None => {},
            }
            proof {
                if done {
                    assert(session_candidates(pieces.drop_first()) =~= Seq::<Seq<char>>::empty());
                }
            }
            assert(out@.map_values(|s: String| s@) =~= before + match session_value(piece@) {
                Some(v) => seq![v],
                None => Seq::<Seq<char>>::empty(),
            });
            if done {
                assert(session_candidates(cookie_pieces(cookie_header@)) =~= out@.map_values(
                    |s: String| s@,
                ));
                return out;
            }
            rest = next;
        }
    }

    fn session_value_of(piece: &[char]) -> (r: Option<String>)
        ensures
            crate::rules::patterns::opt_text(r) == session_value(piece@),
    {
        let s = string_of(piece);
        let p = trim_chars(s.as_str());
        match find_char(p.as_slice(), '=') {
            Some(i) => {
                let key = slice_chars(p.as_slice(), 0, i);
                assert(key@ =~= p@.take(i as int));
                if chars_are(key.as_slice(), "itilsuite_session") {
                    let v = slice_chars(p.as_slice(), i + 1, p.len());
                    assert(v@ =~= p@.skip(i + 1));
                    Some(string_of(v.as_slice()))
                } else {
                    None
                }
            },
            None => None,
        }
    }
}

} // verus!
