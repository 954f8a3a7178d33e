//! Roles, their default permissions, and the claims a token carries.

use vstd::prelude::*;
use vstd::string::*;

use crate::clock::{unix_now, TIMESTAMP_BOUND};
use crate::text::{list_contains, str_eq, string_views};

verus! {

/// Seconds a token stays valid after it is issued.
pub const TOKEN_LIFETIME_SECS: i64 = 86_400;

/// What a token says about its bearer.
#[derive(Debug)]
pub struct Claims {
    pub sub: String,
    pub exp: i64,
    pub iat: i64,
    pub role: String,
    pub permissions: Vec<String>,
}

impl Claims {
    /// Claims for `sub` in `role` with `permissions`, issued now and expiring
    /// a day later.
    pub fn new(sub: String, role: String, permissions: Vec<String>) -> (r: Claims)
        ensures
            r.sub@ == sub@,
            r.role@ == role@,
            r.permissions@ == permissions@,
            r.exp == r.iat + TOKEN_LIFETIME_SECS,
            0 <= r.iat < TIMESTAMP_BOUND,
    {
        let now = unix_now();
        Claims { sub, exp: now + TOKEN_LIFETIME_SECS, iat: now, role, permissions }
    }
}

/// A kind of principal.
#[derive(Debug, Clone, Copy, PartialEq, Eq, Structural)]
pub enum Role {
    Admin,
    Dispatcher,
    Worker,
    Client,
}

/// The name of a role.
pub open spec fn role_name(role: Role) -> Seq<char> {
    match role {
        Role::Admin => "admin"@,
        Role::Dispatcher => "dispatcher"@,
        Role::Worker => "worker"@,
        Role::Client => "client"@,
    }
}

/// The permissions a role starts with, in order.
pub open spec fn role_permissions(role: Role) -> Seq<Seq<char>> {
    match role {
        Role::Admin => seq![
            "create_task"@,
            "cancel_task"@,
            "manage_workers"@,
            "view_logs"@,
            "manage_users"@,
            "system_config"@,
            "*"@,
        ],
        Role::Dispatcher => seq![
            "create_task"@,
            "assign_task"@,
            "view_tasks"@,
            "manage_workers"@,
            "view_logs"@,
        ],
        Role::Worker => seq!["execute_task"@, "report_progress"@, "view_own_tasks"@],
        Role::Client => seq!["create_task"@, "view_own_tasks"@],
    }
}

impl Role {
    /// The role's name.
    pub fn to_string(&self) -> (r: String)
        ensures
            r@ == role_name(*self),
    {
        match self {
            Role::Admin => String::from_str("admin"),
            Role::Dispatcher => String::from_str("dispatcher"),
            Role::Worker => String::from_str("worker"),
            Role::Client => String::from_str("client"),
        }
    }

    /// The permissions the role starts with.
    pub fn default_permissions(&self) -> (r: Vec<String>)
        ensures
            string_views(r@) == role_permissions(*self),
    {
        let mut r: Vec<String> = Vec::new();
        match self {
            Role::Admin => {
                r.push(String::from_str("create_task"));
                r.push(String::from_str("cancel_task"));
                r.push(String::from_str("manage_workers"));
                r.push(String::from_str("view_logs"));
                r.push(String::from_str("manage_users"));
                r.push(String::from_str("system_config"));
                r.push(String::from_str("*"));
            },
            Role::Dispatcher => {
                r.push(String::from_str("create_task"));
                r.push(String::from_str("assign_task"));
                r.push(String::from_str("view_tasks"));
                r.push(String::from_str("manage_workers"));
                r.push(String::from_str("view_logs"));
            },
            Role::Worker => {
                r.push(String::from_str("execute_task"));
                r.push(String::from_str("report_progress"));
                r.push(String::from_str("view_own_tasks"));
            },
            Role::Client => {
                r.push(String::from_str("create_task"));
                r.push(String::from_str("view_own_tasks"));
            },
        }
        assert(string_views(r@) =~= role_permissions(*self));
        r
    }
}

/// Whether some entry of `tokens` is registered under `id`.
pub open spec fn is_registered(tokens: Seq<(Seq<char>, Claims)>, id: Seq<char>) -> bool {
    exists|i: int| 0 <= i < tokens.len() && (#[trigger] tokens[i]).0 == id
}

/// The position of the entry registered under `id`.
pub open spec fn token_index(tokens: Seq<(Seq<char>, Claims)>, id: Seq<char>) -> int {
    choose|i: int| 0 <= i < tokens.len() && (#[trigger] tokens[i]).0 == id
}

/// No two entries share an id.
pub open spec fn distinct_ids(tokens: Seq<(Seq<char>, Claims)>) -> bool {
    forall|i: int, j: int|
        0 <= i < tokens.len() && 0 <= j < tokens.len() && i != j ==> (#[trigger] tokens[i]).0
            != (#[trigger] tokens[j]).0
}

/// The secret that signs tokens, and the registry of tokens not revoked.
pub struct AuthManager {
    secret: String,
    tokens: Vec<(String, Claims)>,
}

impl AuthManager {
    /// The registered tokens, each under its id, in registration order.
    pub closed spec fn entries(&self) -> Seq<(Seq<char>, Claims)> {
        self.tokens@.map_values(|e: (String, Claims)| (e.0@, e.1))
    }

    /// The signing secret.
    pub closed spec fn spec_secret(&self) -> Seq<char> {
        self.secret@
    }

    /// Each token id is registered at most once.
    pub closed spec fn wf(&self) -> bool {
        distinct_ids(self.entries())
    }

    /// A manager signing with `secret` and no registered tokens.
    pub fn new(secret: String) -> (r: AuthManager)
        ensures
            r.wf(),
            r.spec_secret() == secret@,
            r.entries().len() == 0,
    {
        let r = AuthManager { secret, tokens: Vec::new() };
        assert(r.entries() =~= Seq::<(Seq<char>, Claims)>::empty());
        r
    }

    /// The signing secret.
    pub fn secret(&self) -> (r: &String)
        ensures
            r@ == self.spec_secret(),
    {
        &self.secret
    }

    /// The position of the token registered under `token_id`, if any.
    fn position_of(&self, token_id: &str) -> (r: Option<usize>)
        ensures
            match r {
                Some(i) => i < self.entries().len() && self.entries()[i as int].0 == token_id@,
                None => !is_registered(self.entries(), token_id@),
            },
    {
        let mut i: usize = 0;
        while i < self.tokens.len()
            invariant
                i <= self.tokens@.len(),
                forall|j: int| 0 <= j < i ==> (#[trigger] self.entries()[j]).0 != token_id@,
            decreases self.tokens@.len() - i,
        {
            if str_eq(self.tokens[i].0.as_str(), token_id) {
                return Some(i);
            }
            i = i + 1;
        }
        None
    }

    /// Registers `claims` under `token_id`, replacing an earlier registration
    /// under the same id.
    pub fn register_token(&mut self, token_id: String, claims: Claims)
        requires
            old(self).wf(),
        ensures
            final(self).wf(),
            final(self).spec_secret() == old(self).spec_secret(),
            final(self).entries() == if is_registered(old(self).entries(), token_id@) {
                old(self).entries().update(
                    token_index(old(self).entries(), token_id@),
                    (token_id@, claims),
                )
            } else {
                old(self).entries().push((token_id@, claims))
            },
    {
        let ghost e = (token_id@, claims);
        let ghost before = self.entries();
        match self.position_of(token_id.as_str()) {
            Some(i) => {
                assert(token_index(before, token_id@) == i) by {
                    let k = token_index(before, token_id@);
                    assert(before[i as int].0 == token_id@);
                    assert(0 <= k < before.len() && before[k].0 == token_id@);
                }
                self.tokens.set(i, (token_id, claims));
                assert(self.entries() =~= before.update(i as int, e));
            },
            None => {
                self.tokens.push((token_id, claims));
                assert(self.entries() =~= before.push(e));
            },
        }
    }

    /// Revokes the token registered under `token_id`, if any.
    pub fn revoke_token(&mut self, token_id: &str)
        requires
            old(self).wf(),
        ensures
            final(self).wf(),
            final(self).spec_secret() == old(self).spec_secret(),
            final(self).entries() == if is_registered(old(self).entries(), token_id@) {
                old(self).entries().remove(token_index(old(self).entries(), token_id@))
            } else {
                old(self).entries()
            },
    {
        let ghost before = self.entries();
        match self.position_of(token_id) {
            Some(i) => {
                assert(token_index(before, token_id@) == i) by {
                    let k = token_index(before, token_id@);
                    assert(before[i as int].0 == token_id@);
                    assert(0 <= k < before.len() && before[k].0 == token_id@);
                }
                self.tokens.remove(i);
                assert(self.entries() =~= before.remove(i as int));
            },
            None => {},
        }
    }

    /// Whether no token is registered under `token_id`.
    pub fn is_revoked(&self, token_id: &str) -> (r: bool)
        ensures
            r == !is_registered(self.entries(), token_id@),
    {
        self.position_of(token_id).is_none()
    }

    /// Whether `claims` grant `permission`, by name or by the wildcard `*`.
    pub fn has_permission(&self, claims: &Claims, permission: &str) -> (r: bool)
        ensures
            r == (string_views(claims.permissions@).contains(permission@) || string_views(
                claims.permissions@,
            ).contains("*"@)),
    {
        list_contains(&claims.permissions, permission) || list_contains(&claims.permissions, "*")
    }

    /// Whether `claims` are for `role`.
    pub fn has_role(&self, claims: &Claims, role: &str) -> (r: bool)
        ensures
            r == (claims.role@ == role@),
    {
        str_eq(claims.role.as_str(), role)
    }
}

impl Default for AuthManager {
    fn default() -> (r: AuthManager)
        ensures
            r.wf(),
            r.entries().len() == 0,
    {
        AuthManager::new(String::from_str("default-secret-key-change-in-production"))
    }
}

} // verus!
