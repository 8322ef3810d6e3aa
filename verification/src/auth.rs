//! Authorization decisions: reading the bearer token from the
//! `Authorization` header, the login types, and which signed-in users each
//! protected endpoint admits.
use vstd::prelude::*;
use crate::models::User;
use crate::text::str_eq;
use vstd::string::StrSliceExecFns;

verus! {

/// A refused request: the HTTP status and the message sent back.
pub struct Rejection {
    pub status: u16,
    pub message: String,
}

/// Whether a rejection carries this status and message.
pub open spec fn rejects_with(r: Rejection, status: u16, message: Seq<char>) -> bool {
    r.status == status && r.message@ == message
}

fn rejection(status: u16, message: &str) -> (r: Rejection)
    ensures
        rejects_with(r, status, message@),
{
    Rejection { status, message: message.to_owned() }
}

// ---------------------------------------------------------------- header

/// The text before the first space (all of it when there is none).
pub open spec fn before_space(s: Seq<char>) -> Seq<char>
    decreases s.len(),
{
    if s.len() == 0 {
        s
    } else if s[0] == ' ' {
        Seq::<char>::empty()
    } else {
        seq![s[0]] + before_space(s.drop_first())
    }
}

/// The text after the first space (nothing when there is none).
pub open spec fn after_space(s: Seq<char>) -> Seq<char>
    decreases s.len(),
{
    if s.len() == 0 {
        s
    } else if s[0] == ' ' {
        s.drop_first()
    } else {
        after_space(s.drop_first())
    }
}

/// The scheme of an `Authorization` header: its first space-separated piece.
pub open spec fn header_scheme(header: Seq<char>) -> Seq<char> {
    before_space(header)
}

/// The token of an `Authorization` header: its second space-separated piece.
pub open spec fn header_token(header: Seq<char>) -> Seq<char> {
    before_space(after_space(header))
}

proof fn lemma_split_step(s: Seq<char>, i: int)
    requires
        0 <= i < s.len(),
        forall|j: int| 0 <= j < i ==> s[j] != ' ',
    ensures
        before_space(s) == s.take(i) + before_space(s.skip(i)),
        after_space(s) == after_space(s.skip(i)),
    decreases i,
{
    if i > 0 {
        lemma_split_step(s.drop_first(), i - 1);
        assert(s.drop_first().skip(i - 1) =~= s.skip(i));
        assert(seq![s[0]] + s.drop_first().take(i - 1) =~= s.take(i));
    } else {
        assert(s.skip(0) =~= s);
    }
}

/// The first space-separated piece of `s` from position `start`, and the
/// position just past the space that ends it (or the end).
fn split_at_space(s: &str, start: usize) -> (r: (String, usize))
    requires
        start <= s@.len(),
    ensures
        r.0@ == before_space(s@.skip(start as int)),
        start <= r.1 <= s@.len(),
        after_space(s@.skip(start as int)) == s@.skip(r.1 as int),
{
    let n = s.unicode_len();
    let mut piece = String::new();
    let mut i: usize = start;
    while i < n
        invariant
            n == s@.len(),
            start <= i <= n,
            piece@ == s@.subrange(start as int, i as int),
            forall|j: int| start <= j < i ==> s@[j] != ' ',
        decreases n - i,
    {
        let c = s.get_char(i);
        if c == ' ' {
            proof {
                let t = s@.skip(start as int);
                lemma_split_step(t, i - start);
                assert(t.take(i - start) =~= piece@);
                assert(t.skip(i - start)[0] == ' ');
                assert(t.skip(i - start).drop_first() =~= s@.skip(i + 1));
            }
            return (piece, i + 1);
        }
        crate::text::string_push(&mut piece, c);
        i = i + 1;
    }
    proof {
        let t = s@.skip(start as int);
        if t.len() > 0 {
            assert forall|j: int| 0 <= j < t.len() implies t[j] != ' ' by {
                assert(t[j] == s@[start + j]);
            }
            lemma_all_no_space(t);
        }
        assert(t.take(n - start) =~= piece@);
        assert(s@.skip(n as int).len() == 0);
    }
    (piece, n)
}

proof fn lemma_all_no_space(t: Seq<char>)
    requires
        forall|j: int| 0 <= j < t.len() ==> t[j] != ' ',
    ensures
        before_space(t) == t,
        after_space(t).len() == 0,
    decreases t.len(),
{
    if t.len() > 0 {
        assert forall|j: int| 0 <= j < t.drop_first().len() implies t.drop_first()[j] != ' ' by {
            assert(t.drop_first()[j] == t[j + 1]);
        }
        lemma_all_no_space(t.drop_first());
        assert(seq![t[0]] + t.drop_first() =~= t);
    }
}

/// Splits an `Authorization` header into its scheme and its token, the
/// first and second space-separated pieces. The service indexes the second
/// piece directly, so a header without a space is outside what it handles.
pub fn split_auth_header(header: &str) -> (r: (String, String))
    requires
        header@.contains(' '),
    ensures
        r.0@ == header_scheme(header@),
        r.1@ == header_token(header@),
{
    let (scheme, next) = split_at_space(header, 0);
    assert(header@.skip(0) =~= header@);
    let (token, _) = split_at_space(header, next);
    (scheme, token)
}

/// A header written as scheme, one space and token, with no space inside
/// either, reads back as that scheme and that token.
pub proof fn lemma_header_round_trip(scheme: Seq<char>, token: Seq<char>)
    requires
        !scheme.contains(' '),
        !token.contains(' '),
    ensures
        header_scheme(scheme + seq![' '] + token) == scheme,
        header_token(scheme + seq![' '] + token) == token,
{
    let h = scheme + seq![' '] + token;
    let i = scheme.len() as int;
    assert forall|j: int| 0 <= j < i implies h[j] != ' ' by {
        assert(h[j] == scheme[j]);
        if scheme[j] == ' ' {
            assert(scheme.contains(' '));
        }
    }
    lemma_split_step(h, i);
    assert(h.take(i) =~= scheme);
    assert(h.skip(i)[0] == ' ');
    assert(h.skip(i).drop_first() =~= token);
    assert forall|j: int| 0 <= j < token.len() implies token[j] != ' ' by {
        if token[j] == ' ' {
            assert(token.contains(' '));
        }
    }
    lemma_all_no_space(token);
}

/// The bearer token of a request: the second space-separated piece of its
/// `Authorization` header. A request without a readable header is refused
/// with 500 "Invalid Header"; the service indexes the second piece directly,
/// so a header without a space is outside what it handles.
pub fn bearer_token(header: Option<&str>) -> (r: Result<String, Rejection>)
    requires
        header matches Some(h) ==> h@.contains(' '),
    ensures
        header is None <==> r is Err,
        r matches Err(e) ==> rejects_with(e, 500, "Invalid Header"@),
        header matches Some(h) ==> (r matches Ok(t) && t@ == header_token(h@)),
{
    match header {
        None => Err(rejection(500, "Invalid Header")),
        Some(h) => {
            let (_scheme, token) = split_auth_header(h);
            Ok(token)
        },
    }
}

/// The answer when the token cannot be read.
pub fn invalid_token() -> (r: Rejection)
    ensures
        rejects_with(r, 400, "Invalid Token"@),
{
    rejection(400, "Invalid Token")
}

/// The answer when no user matches the token's id, name and e-mail.
pub fn token_user_not_found() -> (r: Rejection)
    ensures
        rejects_with(r, 404, "User not found"@),
{
    rejection(404, "User not found")
}

// ---------------------------------------------------------------- login types

/// The kinds of login a token records.
pub enum LoginType {
    Normal,
    Admin,
    Retreat,
}

/// The name of a login type in requests and tokens.
pub open spec fn login_type_name(t: LoginType) -> Seq<char> {
    match t {
        LoginType::Normal => "normal"@,
        LoginType::Admin => "admin"@,
        LoginType::Retreat => "retreat"@,
    }
}

impl LoginType {
    /// Reads a login type; any other word is refused.
    pub fn parse(s: &str) -> (r: Option<LoginType>)
        ensures
            r matches Some(t) ==> s@ == login_type_name(t),
            r is None ==> s@ != "normal"@ && s@ != "admin"@ && s@ != "retreat"@,
    {
        if str_eq(s, "normal") {
            Some(LoginType::Normal)
        } else if str_eq(s, "admin") {
            Some(LoginType::Admin)
        } else if str_eq(s, "retreat") {
            Some(LoginType::Retreat)
        } else {
            None
        }
    }
}

/// The answer to a login with an unknown login type.
pub fn invalid_login_type() -> (r: Rejection)
    ensures
        rejects_with(r, 400, "Invalid login type."@),
{
    rejection(400, "Invalid login type.")
}

/// The answer to a login whose password does not match.
pub fn invalid_password() -> (r: Rejection)
    ensures
        rejects_with(r, 400, "Invalid Password!"@),
{
    rejection(400, "Invalid Password!")
}

/// The last check of a login, after the password matched: an admin login
/// needs an admin record, a retreat login a retreat membership, a normal
/// login nothing more.
pub fn check_login_role(kind: &LoginType, role_record_found: bool) -> (r: Result<(), Rejection>)
    ensures
        r is Ok <==> (kind is Normal || role_record_found),
        r matches Err(e) ==> (kind is Admin ==> rejects_with(e, 403, "Not an admin user."@)) && (
        kind is Retreat ==> rejects_with(e, 403, "Not a retreat user."@)),
{
    match kind {
        LoginType::Normal => Ok(()),
        LoginType::Admin => {
            if role_record_found {
                Ok(())
            } else {
                Err(rejection(403, "Not an admin user."))
            }
        },
        LoginType::Retreat => {
            if role_record_found {
                Ok(())
            } else {
                Err(rejection(403, "Not a retreat user."))
            }
        },
    }
}

/// The decision of a login.
pub enum LoginOutcome {
    /// The login is refused with this status and message.
    Refused(Rejection),
    /// The login succeeds with this login type; tokens are issued.
    Granted(LoginType),
}

/// Whether a login of this kind needs a role record after the password
/// matched: an admin record for `admin`, a retreat membership for `retreat`.
pub fn login_needs_role_record(login_type: &str) -> (r: bool)
    ensures
        r <==> (login_type@ == "admin"@ || login_type@ == "retreat"@),
{
    proof {
        reveal_strlit("normal");
        reveal_strlit("admin");
        reveal_strlit("retreat");
        assert("normal"@ != "admin"@ && "normal"@ != "retreat"@ && "admin"@ != "retreat"@) by {
            assert("normal"@[0] != "admin"@[0] && "normal"@[0] != "retreat"@[0]);
            assert("admin"@[0] != "retreat"@[0]);
        }
    }
    match LoginType::parse(login_type) {
        Some(LoginType::Admin) => true,
        Some(LoginType::Retreat) => true,
        _ => false,
    }
}

/// The decision of a login, its checks taken in order: the account must
/// exist, then the password must match, then the login type must be known,
/// then an admin or retreat login needs its role record. The first failing
/// check decides the answer.
pub fn login_outcome(
    user_found: bool,
    password_matched: bool,
    login_type: &str,
    role_record_found: bool,
) -> (r: LoginOutcome)
    ensures
        !user_found ==> (r matches LoginOutcome::Refused(e) && rejects_with(
            e,
            404,
            "User not found."@,
        )),
        user_found && !password_matched ==> (r matches LoginOutcome::Refused(e) && rejects_with(
            e,
            400,
            "Invalid Password!"@,
        )),
        user_found && password_matched && login_type@ != "normal"@ && login_type@ != "admin"@
            && login_type@ != "retreat"@ ==> (r matches LoginOutcome::Refused(e) && rejects_with(
            e,
            400,
            "Invalid login type."@,
        )),
        user_found && password_matched && login_type@ == "admin"@ && !role_record_found ==> (
        r matches LoginOutcome::Refused(e) && rejects_with(e, 403, "Not an admin user."@)),
        user_found && password_matched && login_type@ == "retreat"@ && !role_record_found ==> (
        r matches LoginOutcome::Refused(e) && rejects_with(e, 403, "Not a retreat user."@)),
        r matches LoginOutcome::Granted(t) ==> login_type_name(t) == login_type@,
        r is Granted <==> (user_found && password_matched && (login_type@ == "normal"@ || (
        login_type@ == "admin"@ && role_record_found) || (login_type@ == "retreat"@
            && role_record_found))),
{
    proof {
        reveal_strlit("normal");
        reveal_strlit("admin");
        reveal_strlit("retreat");
        assert("normal"@ != "admin"@ && "normal"@ != "retreat"@ && "admin"@ != "retreat"@) by {
            assert("normal"@[0] != "admin"@[0] && "normal"@[0] != "retreat"@[0]);
            assert("admin"@[0] != "retreat"@[0]);
        }
    }
    if !user_found {
        return LoginOutcome::Refused(rejection(404, "User not found."));
    }
    if !password_matched {
        return LoginOutcome::Refused(invalid_password());
    }
    match LoginType::parse(login_type) {
        None => LoginOutcome::Refused(invalid_login_type()),
        Some(kind) => {
            match check_login_role(&kind, role_record_found) {
                Ok(()) => LoginOutcome::Granted(kind),
                Err(e) => LoginOutcome::Refused(e),
            }
        },
    }
}

/// What an access or refresh token says about its holder.
pub struct TokenClaim {
    pub user_id: i64,
    pub name: String,
    pub email: String,
    pub login_type: String,
}

impl TokenClaim {
    /// The claim issued to a user who logged in with `login_type`.
    pub fn for_login(user: &User, login_type: String) -> (r: TokenClaim)
        ensures
            r.user_id == user.user_id,
            r.name == user.name,
            r.email == user.email,
            r.login_type == login_type,
    {
        TokenClaim {
            user_id: user.user_id,
            name: user.name.clone(),
            email: user.email.clone(),
            login_type,
        }
    }
}

// ---------------------------------------------------------------- extractors

/// A signed-in user who logged in normally.
pub struct AuthUser(pub User);

/// A signed-in administrator.
pub struct AuthAdmin(pub User);

/// A signed-in member of a retreat's staff.
pub struct AuthRetreatUser(pub User);

impl AuthUser {
    /// The check of the token's login type: a normal login.
    pub fn accept_claim(claim_login_type: &str) -> (r: Result<(), Rejection>)
        ensures
            r is Ok <==> claim_login_type@ == "normal"@,
            r matches Err(e) ==> rejects_with(e, 403, "User access required"@),
    {
        if str_eq(claim_login_type, "normal") {
            Ok(())
        } else {
            Err(rejection(403, "User access required"))
        }
    }

    /// Accepts the holder of a normal login.
    pub fn accept(user: User, claim_login_type: &str) -> (r: Result<AuthUser, Rejection>)
        ensures
            r is Ok <==> claim_login_type@ == "normal"@,
            r matches Ok(a) ==> a.0 == user,
            r matches Err(e) ==> rejects_with(e, 403, "User access required"@),
    {
        if str_eq(claim_login_type, "normal") {
            Ok(AuthUser(user))
        } else {
            Err(rejection(403, "User access required"))
        }
    }
}

impl AuthAdmin {
    /// The check of the token's login type. The admin extractor is
    /// documented as identical to the user extractor: it asks for a normal
    /// login, as `AuthUser` does, and looks no admin record up.
    pub fn check_claim(claim_login_type: &str) -> (r: Result<(), Rejection>)
        ensures
            r is Ok <==> claim_login_type@ == "normal"@,
            r matches Err(e) ==> rejects_with(e, 403, "User access required"@),
    {
        match AuthUser::accept_claim(claim_login_type) {
            Ok(()) => Ok(()),
            Err(e) => Err(e),
        }
    }

    /// Accepts exactly the signed-in users that `AuthUser` accepts, with
    /// the same answer otherwise.
    pub fn accept(user: User, claim_login_type: &str) -> (r: Result<AuthAdmin, Rejection>)
        ensures
            r is Ok <==> claim_login_type@ == "normal"@,
            r matches Ok(a) ==> a.0 == user,
            r matches Err(e) ==> rejects_with(e, 403, "User access required"@),
    {
        match AuthUser::accept(user, claim_login_type) {
            Ok(a) => Ok(AuthAdmin(a.0)),
            Err(e) => Err(e),
        }
    }
}

impl AuthRetreatUser {
    /// The check made before the membership is looked up.
    pub fn check_claim(claim_login_type: &str) -> (r: Result<(), Rejection>)
        ensures
            r is Ok <==> claim_login_type@ == "retreat"@,
            r matches Err(e) ==> rejects_with(e, 403, "Retreat user access required"@),
    {
        if str_eq(claim_login_type, "retreat") {
            Ok(())
        } else {
            Err(rejection(403, "Retreat user access required"))
        }
    }

    /// Accepts the holder of a retreat login who still works at a retreat.
    pub fn accept(user: User, claim_login_type: &str, membership_found: bool) -> (r: Result<
        AuthRetreatUser,
        Rejection,
    >)
        ensures
            r is Ok <==> claim_login_type@ == "retreat"@ && membership_found,
            r matches Ok(a) ==> a.0 == user,
            claim_login_type@ != "retreat"@ ==> (r matches Err(e) && rejects_with(
                e,
                403,
                "Retreat user access required"@,
            )),
            claim_login_type@ == "retreat"@ && !membership_found ==> (r matches Err(e)
                && rejects_with(e, 403, "Retreat user access revoked"@)),
    {
        match AuthRetreatUser::check_claim(claim_login_type) {
            Err(e) => Err(e),
            Ok(()) => {
                if membership_found {
                    Ok(AuthRetreatUser(user))
                } else {
                    Err(rejection(403, "Retreat user access revoked"))
                }
            },
        }
    }
}

/// Whether a signed-in user may edit a profile: an admin may edit any, a
/// user only their own.
pub fn may_edit_profile(is_admin: bool, actor_id: i64, target_id: i64) -> (r: Result<(), Rejection>)
    ensures
        r is Ok <==> (is_admin || actor_id == target_id),
        r matches Err(e) ==> rejects_with(e, 403, "You can only update your own profile."@),
{
    if !is_admin && actor_id != target_id {
        Err(rejection(403, "You can only update your own profile."))
    } else {
        Ok(())
    }
}

} // verus!
