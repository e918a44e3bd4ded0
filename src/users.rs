//! The user directory that the session flows consult: lookup by username or
//! email, insertion of new accounts, and updates of existing ones.

use vstd::prelude::*;
use crate::password::{bcrypt_accepts, hash_password_with_cost, verify_password, DEFAULT_COST};

verus! {

/// The access level of an account.
#[derive(Clone, Copy, Debug, PartialEq, Eq, Structural)]
pub enum UserLevel {
    User,
    Superuser,
    Mod,
    Admin,
}

/// The name of a level, as carried in the role claim.
pub open spec fn level_name(l: UserLevel) -> Seq<char> {
    match l {
        UserLevel::User => seq!['u', 's', 'e', 'r'],
        UserLevel::Superuser => seq!['s', 'u', 'p', 'e', 'r', 'u', 's', 'e', 'r'],
        UserLevel::Mod => seq!['m', 'o', 'd'],
        UserLevel::Admin => seq!['a', 'd', 'm', 'i', 'n'],
    }
}

impl UserLevel {
    /// The name of the level, as carried in the role claim.
    pub fn as_str(&self) -> (r: &'static str)
        ensures
            r@ == level_name(*self),
    {
        proof {
            reveal_strlit("user");
            reveal_strlit("superuser");
            reveal_strlit("mod");
            reveal_strlit("admin");
        }
        match self {
            UserLevel::User => "user",
            UserLevel::Superuser => "superuser",
            UserLevel::Mod => "mod",
            UserLevel::Admin => "admin",
        }
    }

    /// The name of the level.
    pub fn to_string(&self) -> (r: String)
        ensures
            r@ == level_name(*self),
    {
        self.as_str().to_owned()
    }
}

/// An account, as values.
pub ghost struct UserRecord {
    pub id: i32,
    pub username: Seq<char>,
    pub password: Seq<char>,
    pub email: Seq<char>,
    pub name: Seq<char>,
    pub verified: bool,
    pub level: UserLevel,
    pub enabled: bool,
    pub created: u64,
    pub last_login: u64,
}

/// An account. Timestamps are seconds since the Unix epoch; `password` is the
/// stored hash.
#[derive(Clone, Debug)]
pub struct User {
    pub id: i32,
    pub username: String,
    pub password: String,
    pub email: String,
    pub name: String,
    pub verified: bool,
    pub level: UserLevel,
    pub enabled: bool,
    pub created: u64,
    pub last_login: u64,
}

impl View for User {
    type V = UserRecord;

    open spec fn view(&self) -> UserRecord {
        UserRecord {
            id: self.id,
            username: self.username@,
            password: self.password@,
            email: self.email@,
            name: self.name@,
            verified: self.verified,
            level: self.level,
            enabled: self.enabled,
            created: self.created,
            last_login: self.last_login,
        }
    }
}

impl User {
    /// A copy with the same values.
    pub fn copy(&self) -> (r: User)
        ensures
            r@ == self@,
    {
        User {
            id: self.id,
            username: self.username.clone(),
            password: self.password.clone(),
            email: self.email.clone(),
            name: self.name.clone(),
            verified: self.verified,
            level: self.level,
            enabled: self.enabled,
            created: self.created,
            last_login: self.last_login,
        }
    }

    /// Whether `password` matches the stored hash.
    pub fn verify_password(&self, password: &str) -> (r: bool)
        ensures
            r == bcrypt_accepts(password@, self.password@),
    {
        verify_password(password, self.password.as_str())
    }
}

/// An account not yet stored: the directory gives it its id and timestamps.
#[derive(Clone, Debug)]
pub struct NewUser {
    pub username: String,
    pub password: String,
    pub email: String,
    pub name: String,
    pub verified: bool,
    pub level: UserLevel,
}

impl NewUser {
    /// An unverified plain user whose password is hashed at the default cost;
    /// where hashing fails the stored hash stays empty, which no password
    /// matches.
    pub fn new(username: &str, password: &str, email: &str) -> (r: NewUser)
        ensures
            (bcrypt_accepts(password@, r.password@) && r.password@.len() == 60)
                || r.password@.len() == 0,
            password@.len() != 0 && password@.len() != 60 ==> r.password@ != password@,
            r.username@ == username@,
            r.email@ == email@,
            r.name@.len() == 0,
            !r.verified,
            r.level == UserLevel::User,
    {
        let mut user = NewUser {
            username: username.to_owned(),
            password: String::new(),
            email: email.to_owned(),
            name: String::new(),
            verified: false,
            level: UserLevel::User,
        };
        user.set_password(password, DEFAULT_COST);
        user
    }

    /// Replaces the stored hash by a hash of `password` at `cost`; where
    /// hashing fails nothing changes and the result is `false`.
    pub fn set_password(&mut self, password: &str, cost: u32) -> (r: bool)
        ensures
            final(self).username == old(self).username,
            final(self).email == old(self).email,
            final(self).name == old(self).name,
            final(self).verified == old(self).verified,
            final(self).level == old(self).level,
            r ==> bcrypt_accepts(password@, final(self).password@),
            r ==> final(self).password@.len() == 60,
            !r ==> final(self).password == old(self).password,
            !(4 <= cost <= 31) ==> !r,
    {
        match hash_password_with_cost(password, cost) {
            Some(hashed) => {
                self.password = hashed;
                true
            },
            None => false,
        }
    }

    /// Whether `password` matches the stored hash.
    pub fn verify_password(&self, password: &str) -> (r: bool)
        ensures
            r == bcrypt_accepts(password@, self.password@),
    {
        verify_password(password, self.password.as_str())
    }
}

/// Whether an account is found by a lookup on a username or an email.
pub open spec fn lookup_matches(
    u: UserRecord,
    username: Option<Seq<char>>,
    email: Option<Seq<char>>,
) -> bool {
    (username matches Some(n) && u.username == n) || (email matches Some(e) && u.email == e)
}

/// The first account found by a lookup on a username or an email.
pub open spec fn lookup(s: Seq<UserRecord>, username: Option<Seq<char>>, email: Option<Seq<char>>) -> Option<
    UserRecord,
>
    decreases s.len(),
{
    if s.len() == 0 {
        None
    } else {
        match lookup(s.drop_last(), username, email) {
            Some(u) => Some(u),
            None => if lookup_matches(s.last(), username, email) {
                Some(s.last())
            } else {
                None
            },
        }
    }
}

/// The first account with the given username.
pub open spec fn by_name(s: Seq<UserRecord>, username: Seq<char>) -> Option<UserRecord> {
    lookup(s, Some(username), None)
}

/// The accounts with every one of the given id replaced by `user`.
pub open spec fn replaced(s: Seq<UserRecord>, user: UserRecord) -> Seq<UserRecord> {
    s.map_values(|u: UserRecord| if u.id == user.id { user } else { u })
}

/// The record of a new account as the directory stores it.
pub open spec fn stored(n: NewUser, id: i32, now: u64) -> UserRecord {
    UserRecord {
        id,
        username: n.username@,
        password: n.password@,
        email: n.email@,
        name: n.name@,
        verified: n.verified,
        level: n.level,
        enabled: true,
        created: now,
        last_login: now,
    }
}

/// The accounts, in the order they were created; ids are handed out from 1 up.
pub struct UserDirectory {
    users: Vec<User>,
    next_id: i32,
}

impl View for UserDirectory {
    type V = Seq<UserRecord>;

    closed spec fn view(&self) -> Seq<UserRecord> {
        self.users@.map_values(|u: User| u@)
    }
}

impl UserDirectory {
    /// The id the next inserted account will get.
    pub closed spec fn next_id(&self) -> i32 {
        self.next_id
    }

    /// An empty directory.
    pub fn new() -> (r: UserDirectory)
        ensures
            r@ == Seq::<UserRecord>::empty(),
            r.next_id() == 1,
    {
        let r = UserDirectory { users: Vec::new(), next_id: 1 };
        proof {
            assert(r@ =~= Seq::<UserRecord>::empty());
        }
        r
    }

    /// The id the next inserted account will get.
    pub fn peek_next_id(&self) -> (r: i32)
        ensures
            r == self.next_id(),
    {
        self.next_id
    }

    /// The number of accounts.
    pub fn len(&self) -> (r: usize)
        ensures
            r == self@.len(),
    {
        self.users.len()
    }

    /// The first account whose username is `username` or whose email is
    /// `email`; a criterion left out matches nothing.
    pub fn find_user(&self, username: Option<&str>, email: Option<&str>) -> (r: Option<User>)
        ensures
            match r {
                Some(u) => lookup(self@, opt_view(username), opt_view(email)) == Some(u@),
                None => lookup(self@, opt_view(username), opt_view(email)) is None,
            },
    {
        let name: Option<String> = match username {
            Some(n) => Some(n.to_owned()),
            None => None,
        };
        let mail: Option<String> = match email {
            Some(e) => Some(e.to_owned()),
            None => None,
        };
        let mut i: usize = 0;
        while i < self.users.len()
            invariant
                i <= self.users@.len(),
                opt_string_view(name) == opt_view(username),
                opt_string_view(mail) == opt_view(email),
                lookup(self@.take(i as int), opt_view(username), opt_view(email)) is None,
            decreases self.users@.len() - i,
        {
            let u = &self.users[i];
            proof {
                assert(self@.take(i + 1).drop_last() =~= self@.take(i as int));
                assert(self@[i as int] == u@);
            }
            let hit_name = match &name {
                Some(n) => u.username == *n,
                None => false,
            };
            let hit_mail = match &mail {
                Some(e) => u.email == *e,
                None => false,
            };
            if hit_name || hit_mail {
                let found = u.copy();
                proof {
                    assert(self@.take(i + 1).last() == u@);
                    assert(lookup(self@.take(i + 1), opt_view(username), opt_view(email)) == Some(u@));
                    lemma_lookup_prefix(self@, (i + 1) as int, opt_view(username), opt_view(email));
                }
                return Some(found);
            }
            i = i + 1;
        }
        proof {
            assert(self@.take(i as int) =~= self@);
        }
        None
    }

    /// Stores a new account created at `now` under the next id, enabled, and
    /// returns it; `None`, with nothing stored, once the ids are used up.
    pub fn insert(&mut self, user: &NewUser, now: u64) -> (r: Option<User>)
        ensures
            r is None <==> old(self).next_id() == i32::MAX,
            match r {
                Some(u) => {
                    &&& u@ == stored(*user, old(self).next_id(), now)
                    &&& final(self)@ == old(self)@.push(u@)
                    &&& final(self).next_id() == old(self).next_id() + 1
                },
                None => final(self)@ == old(self)@ && final(self).next_id() == old(self).next_id(),
            },
    {
        if self.next_id == i32::MAX {
            return None;
        }
        let u = User {
            id: self.next_id,
            username: user.username.clone(),
            password: user.password.clone(),
            email: user.email.clone(),
            name: user.name.clone(),
            verified: user.verified,
            level: user.level,
            enabled: true,
            created: now,
            last_login: now,
        };
        let stored_user = u.copy();
        self.users.push(u);
        self.next_id = self.next_id + 1;
        proof {
            assert(self@ =~= old(self)@.push(stored_user@));
        }
        Some(stored_user)
    }

    /// Replaces every account that has the id of `user` by `user`.
    pub fn update(&mut self, user: &User)
        ensures
            final(self)@ == replaced(old(self)@, user@),
            final(self).next_id() == old(self).next_id(),
    {
        let mut out: Vec<User> = Vec::new();
        let mut i: usize = 0;
        while i < self.users.len()
            invariant
                i <= self.users@.len(),
                out@.map_values(|u: User| u@) =~= replaced(self@.take(i as int), user@),
            decreases self.users@.len() - i,
        {
            let next = if self.users[i].id == user.id {
                user.copy()
            } else {
                self.users[i].copy()
            };
            let ghost before = out@;
            out.push(next);
            proof {
                assert(self@[i as int] == self.users@[i as int]@);
                assert(out@.map_values(|u: User| u@) =~= before.map_values(|u: User| u@).push(
                    next@,
                ));
                assert(replaced(self@.take(i + 1), user@) =~= replaced(self@.take(i as int), user@).push(
                    next@,
                ));
            }
            i = i + 1;
        }
        proof {
            assert(self@.take(i as int) =~= self@);
        }
        self.users = out;
    }
}

/// The view of an optional text.
pub open spec fn opt_view(o: Option<&str>) -> Option<Seq<char>> {
    match o {
        Some(s) => Some(s@),
        None => None,
    }
}

/// The view of an optional owned text.
pub open spec fn opt_string_view(o: Option<String>) -> Option<Seq<char>> {
    match o {
        Some(s) => Some(s@),
        None => None,
    }
}

/// Where a prefix of the directory already answers a lookup, the whole
/// directory gives the same answer.
pub proof fn lemma_lookup_prefix(
    s: Seq<UserRecord>,
    k: int,
    username: Option<Seq<char>>,
    email: Option<Seq<char>>,
)
    requires
        0 <= k <= s.len(),
        lookup(s.take(k), username, email) is Some,
    ensures
        lookup(s, username, email) == lookup(s.take(k), username, email),
    decreases s.len() - k,
{
    if k < s.len() {
        assert(s.take(k + 1).drop_last() =~= s.take(k));
        lemma_lookup_prefix(s, k + 1, username, email);
    } else {
        assert(s.take(k) =~= s);
    }
}

/// A lookup by username finds an account with that username.
pub proof fn lemma_by_name_has_name(s: Seq<UserRecord>, username: Seq<char>)
    ensures
        by_name(s, username) matches Some(u) ==> u.username == username,
    decreases s.len(),
{
    if s.len() > 0 {
        lemma_by_name_has_name(s.drop_last(), username);
    }
}

} // verus!
