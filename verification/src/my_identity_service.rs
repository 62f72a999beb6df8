//! The per-request session middleware and the identity slot it exposes.
//!
//! One request passes through four strictly ordered steps. Decoding
//! ([`IdentityService::begin_request`]) opens the namespace's cookie; a
//! request without a usable identity is answered with `AuthFail` and never
//! reaches a handler. Hydrating ([`IdentityService::hydrate`]) turns the
//! store's answer for the decoded username into the request's
//! [`IdentityItem`]; a role outside the namespace is refused. Dispatching is
//! the handler's turn: it sees the slot through [`Identity`] and may log the
//! session out. Finalizing ([`IdentityService::finalize`]) re-seals a changed
//! slot — a cleared one as the past-expiry clearing cookie — or refreshes the
//! visit timestamp under a sliding deadline, and otherwise leaves the
//! response untouched.
//!
//! The store lookup and the transport around these steps are asynchronous
//! I/O and live with the caller; each step here is a pure function of its
//! inputs.

use vstd::prelude::*;
use crate::errors::{DBError, HandlerError};
use crate::my_cookie_policy::{CookiePair, CookieSpec, DecodedIdentity, MyCookieIdentityPolicy,
    MyCookieIdentityPolicyView, login_payload, refresh_payload, sealed_cookie_ok};
use crate::user_models::{User, UserView};

verus! {

/// The per-request slot: the hydrated user, and whether a handler changed
/// the session (login or logout) so that finalizing must re-seal.
#[derive(Debug, Clone)]
pub struct IdentityItem {
    pub user: Option<User>,
    pub changed: bool,
}

pub ghost struct IdentityItemView {
    pub user: Option<UserView>,
    pub changed: bool,
}

impl View for IdentityItem {
    type V = IdentityItemView;

    open spec fn view(&self) -> IdentityItemView {
        IdentityItemView {
            user: match self.user {
                Some(u) => Some(u@),
                None => None,
            },
            changed: self.changed,
        }
    }
}

/// The accessor a handler sees: the request's slot, if the route is wrapped
/// by the middleware at all.
#[derive(Debug, Clone)]
pub struct Identity {
    item: Option<IdentityItem>,
}

impl View for Identity {
    type V = Option<IdentityItemView>;

    closed spec fn view(&self) -> Option<IdentityItemView> {
        match self.item {
            Some(it) => Some(it@),
            None => None,
        }
    }
}

/// Read access to the request's identity; only routes wrapped by the
/// middleware may assume it is there.
pub trait RequestIdentity {
    spec fn spec_user(&self) -> Option<UserView>;

    /// The authenticated user of this request. Calling this on a route the
    /// middleware has not populated is a programming error, which the
    /// precondition rules out.
    fn get_identity(&self) -> (r: User)
        requires
            self.spec_user() is Some,
        ensures
            r@ == self.spec_user()->Some_0,
    ;
}

impl Identity {
    /// The accessor over a populated slot, as the middleware builds it
    /// before dispatching.
    pub fn from_item(item: IdentityItem) -> (r: Identity)
        ensures
            r@ == Some(item@),
    {
        Identity { item: Some(item) }
    }

    /// The accessor of a route the middleware does not wrap.
    pub fn without_slot() -> (r: Identity)
        ensures
            r@ is None,
    {
        Identity { item: None }
    }

    /// Finalizing reads the slot back out.
    pub fn into_item(self) -> (r: Option<IdentityItem>)
        ensures
            match r {
                Some(it) => self@ == Some(it@),
                None => self@ is None,
            },
    {
        self.item
    }

    /// The claimed identity of the user associated with the request.
    pub fn identity(&self) -> (r: User)
        requires
            self@ matches Some(it) && it.user is Some,
        ensures
            r@ == self@->Some_0.user->Some_0,
    {
        match &self.item {
            Some(it) => match &it.user {
                Some(u) => User {
                    id: u.id,
                    username: u.username.clone(),
                    nickname: u.nickname.clone(),
                    password: u.password.clone(),
                    role: u.role.clone(),
                },
                None => unreached(),
            },
            None => unreached(),
        }
    }

    /// Forgets the current identity: the slot is cleared and marked changed,
    /// so finalizing emits the clearing cookie. Without a slot this does
    /// nothing, as on a route the middleware does not wrap.
    pub fn logout(&mut self)
        ensures
            match old(self)@ {
                Some(_) => final (self)@ == Some(
                    IdentityItemView { user: None, changed: true },
                ),
                None => final (self)@ == old(self)@,
            },
    {
        match &mut self.item {
            Some(it) => {
                it.user = None;
                it.changed = true;
            },
            None => {},
        }
    }
}

impl RequestIdentity for Identity {
    open spec fn spec_user(&self) -> Option<UserView> {
        match self@ {
            Some(it) => it.user,
            None => None,
        }
    }

    fn get_identity(&self) -> (r: User) {
        self.identity()
    }
}

/// Seals a fresh session for a just-authenticated user: the cookie is minted
/// under the namespace of the user's role, with both timestamps, where
/// configured, starting now. Used by the login handler, before any slot
/// exists.
pub fn login_user(cookie_factory: &MyCookieIdentityPolicy, user: User, now: u64) -> (r: CookieSpec)
    requires
        cookie_factory@.wf(),
    ensures
        sealed_cookie_ok(
            cookie_factory@,
            r,
            user.role@,
            Some(login_payload(cookie_factory@, user.username@, now)),
        ),
{
    let cookie_name = user.role.clone();
    let r = cookie_factory.to_response(Some(user), true, cookie_name.as_str(), None, now);
    match r {
        Some(cs) => cs,
        None => unreached(),
    }
}

/// One session namespace's middleware: the policy it decodes and re-seals
/// with. The store and the transport stay with the caller.
pub struct IdentityService {
    backend: MyCookieIdentityPolicy,
}

impl View for IdentityService {
    type V = MyCookieIdentityPolicyView;

    closed spec fn view(&self) -> MyCookieIdentityPolicyView {
        self.backend@
    }
}

impl IdentityService {
    /// A middleware over the given cookie policy.
    pub fn new(backend: MyCookieIdentityPolicy) -> (r: IdentityService)
        ensures
            r@ == backend@,
    {
        IdentityService { backend }
    }

    /// Decoding: opens the namespace's cookie among the request's cookies.
    /// Missing, forged, malformed and expired cookies all answer `AuthFail`;
    /// no route under the middleware passes through anonymously.
    pub fn begin_request(&self, cookies: &Vec<CookiePair>, now: u64) -> (r: Result<
        DecodedIdentity,
        HandlerError,
    >)
        requires
            self@.wf(),
        ensures
            match self@.load_spec(cookies.deep_view(), now) {
                Some(v) => match r {
                    Ok(d) => d.identity@ == v.identity && d.login_timestamp == (
                    if self@.requires_oob_data() {
                        v.login_timestamp
                    } else {
                        None
                    }),
                    Err(_) => false,
                },
                None => r matches Err(e) && e is AuthFail,
            },
    {
        match self.backend.from_request(cookies, now) {
            Some(d) => Ok(d),
            None => Err(HandlerError::AuthFail),
        }
    }

    /// Hydrating: turns the store's answer for the decoded username into the
    /// request's slot. A failed lookup answers `AuthFail`, alike for every
    /// cause; a user whose role is not this namespace's cookie name answers
    /// `PermissionDenied`. The store call itself is the caller's: a store
    /// that cannot even be reached is answered `InternalError` there, before
    /// this step.
    pub fn hydrate(&self, lookup: Result<User, DBError>) -> (r: Result<IdentityItem, HandlerError>)
        ensures
            match lookup {
                Ok(u) => if u.role@ == self@.name {
                    r matches Ok(it) && it.user == Some(u) && it.changed == false
                } else {
                    r matches Err(e) && e is PermissionDenied
                },
                Err(_) => r matches Err(e) && e is AuthFail,
            },
    {
        match lookup {
            Ok(u) => {
                if u.role == *self.backend.cookie_name() {
                    Ok(IdentityItem { user: Some(u), changed: false })
                } else {
                    Err(HandlerError::PermissionDenied)
                }
            },
            Err(_) => Err(HandlerError::AuthFail),
        }
    }

    /// Finalizing: re-seals a changed slot (a cleared one as the clearing
    /// cookie), refreshes the visit timestamp under a sliding deadline, and
    /// otherwise attaches nothing; the response's own status and body are
    /// never touched.
    pub fn finalize(
        &self,
        item: IdentityItem,
        cookie_name: &str,
        oob_login_timestamp: Option<u64>,
        now: u64,
    ) -> (r: Option<CookieSpec>)
        requires
            self@.wf(),
        ensures
            item.changed ==> match r {
                Some(cs) => sealed_cookie_ok(
                    self@,
                    cs,
                    cookie_name@,
                    match item.user {
                        Some(u) => Some(login_payload(self@, u.username@, now)),
                        None => None,
                    },
                ),
                None => false,
            },
            !item.changed && self@.always_update_cookie() && item.user is Some ==> match r {
                Some(cs) => sealed_cookie_ok(
                    self@,
                    cs,
                    cookie_name@,
                    Some(
                        refresh_payload(
                            self@,
                            item.user->Some_0.username@,
                            oob_login_timestamp,
                            now,
                        ),
                    ),
                ),
                None => false,
            },
            !(item.changed || (self@.always_update_cookie() && item.user is Some)) ==> r is None,
    {
        self.backend.to_response(item.user, item.changed, cookie_name, oob_login_timestamp, now)
    }
}

} // verus!
