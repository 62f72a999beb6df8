//! Sealing a session payload into a tamper-evident cookie and opening such
//! cookies again.
//!
//! A payload is the identity (username) plus optional login and visit
//! timestamps. When neither deadline policy is configured the payload is the
//! bare identity string, sealed under the legacy key (the legacy encoding);
//! otherwise it is a structured record, sealed under the current key. Both
//! keys are derived from one master secret: the current key from the master
//! bytes extended by a fixed generation suffix. Opening tries the legacy form
//! first, but only when no deadline policy is configured, then the structured
//! form; any failure yields "no identity".

use vstd::prelude::*;
use crate::digits::{all_hex, hex_chars, hex_chars_of, hex_value, hex16_value_at, pow16,
    lemma_hex_round_trip, lemma_hex_value_bound};
use crate::strutil::{chars_to_string, str_chars};
use crate::user_models::User;

verus! {

/// A cookie of the incoming request, as name and raw value.
#[derive(Debug, Clone)]
pub struct CookiePair {
    pub name: String,
    pub value: String,
}

pub ghost struct CookiePairView {
    pub name: Seq<char>,
    pub value: Seq<char>,
}

impl View for CookiePair {
    type V = CookiePairView;

    open spec fn view(&self) -> CookiePairView {
        CookiePairView { name: self.name@, value: self.value@ }
    }
}

impl DeepView for CookiePair {
    type V = CookiePairView;

    open spec fn deep_view(&self) -> CookiePairView {
        self@
    }
}

/// The data sealed into a session cookie.
#[derive(Debug, Clone)]
pub struct CookieValue {
    pub identity: String,
    pub login_timestamp: Option<u64>,
    pub visit_timestamp: Option<u64>,
}

pub ghost struct CookieValueView {
    pub identity: Seq<char>,
    pub login_timestamp: Option<u64>,
    pub visit_timestamp: Option<u64>,
}

impl View for CookieValue {
    type V = CookieValueView;

    open spec fn view(&self) -> CookieValueView {
        CookieValueView {
            identity: self.identity@,
            login_timestamp: self.login_timestamp,
            visit_timestamp: self.visit_timestamp,
        }
    }
}

impl DeepView for CookieValue {
    type V = CookieValueView;

    open spec fn deep_view(&self) -> CookieValueView {
        self@
    }
}

/// The `SameSite` attribute of an outgoing cookie.
#[derive(Debug, Clone, Copy, PartialEq, Eq, Structural)]
pub enum SameSite {
    Strict,
    Lax,
    Unrestricted,
}

/// Everything the transport needs to write one `Set-Cookie` header. A
/// cookie with `expires_in_past` carries an expiry far in the past, so the
/// client deletes it at once; that is the clearing form used for logout.
#[derive(Debug, Clone)]
pub struct CookieSpec {
    pub name: String,
    pub value: String,
    pub path: String,
    pub domain: Option<String>,
    pub secure: bool,
    pub http_only: bool,
    pub max_age: Option<i64>,
    pub same_site: Option<SameSite>,
    pub expires_in_past: bool,
}

// ---------------------------------------------------------------------------
// The structured payload encoding.
//
// A structured plaintext is `T1`, one presence flag per timestamp, the two
// timestamps as 16 hex digits each (zero when absent), then the identity:
// a fixed 36-character header, so decoding needs no delimiter that the
// identity would have to avoid.
// ---------------------------------------------------------------------------

pub open spec fn flag_char(present: bool) -> char {
    if present {
        '1'
    } else {
        '0'
    }
}

pub open spec fn opt_ts(o: Option<u64>) -> nat {
    match o {
        Some(t) => t as nat,
        None => 0,
    }
}

/// The structured plaintext for a payload.
pub open spec fn encode_structured(v: CookieValueView) -> Seq<char> {
    seq!['T', '1', flag_char(v.login_timestamp is Some), flag_char(v.visit_timestamp is Some)]
        + hex_chars_of(opt_ts(v.login_timestamp), 16) + hex_chars_of(opt_ts(v.visit_timestamp), 16)
        + v.identity
}

/// What decoding a structured plaintext yields, for every input.
pub open spec fn decode_structured(s: Seq<char>) -> Option<CookieValueView> {
    if s.len() < 36 {
        None
    } else if s[0] != 'T' || s[1] != '1' {
        None
    } else if !(s[2] == '0' || s[2] == '1') || !(s[3] == '0' || s[3] == '1') {
        None
    } else if !all_hex(s.subrange(4, 20)) || !all_hex(s.subrange(20, 36)) {
        None
    } else {
        Some(
            CookieValueView {
                identity: s.subrange(36, s.len() as int),
                login_timestamp: if s[2] == '1' {
                    Some(hex_value(s.subrange(4, 20)) as u64)
                } else {
                    None
                },
                visit_timestamp: if s[3] == '1' {
                    Some(hex_value(s.subrange(20, 36)) as u64)
                } else {
                    None
                },
            },
        )
    }
}

pub proof fn lemma_pow16_16()
    ensures
        pow16(16) == 0x1_0000_0000_0000_0000,
{
    reveal_with_fuel(pow16, 17);
}

/// Decoding a structured plaintext gives back the payload it encodes.
pub proof fn lemma_structured_round_trip(v: CookieValueView)
    ensures
        decode_structured(encode_structured(v)) == Some(v),
{
    let s = encode_structured(v);
    let lt = opt_ts(v.login_timestamp);
    let vt = opt_ts(v.visit_timestamp);
    lemma_pow16_16();
    lemma_hex_round_trip(lt, 16);
    lemma_hex_round_trip(vt, 16);
    let lh = hex_chars_of(lt, 16);
    let vh = hex_chars_of(vt, 16);
    assert(s.len() == 36 + v.identity.len());
    assert(s.subrange(4, 20) =~= lh);
    assert(s.subrange(20, 36) =~= vh);
    assert(s.subrange(36, s.len() as int) =~= v.identity);
    match v.login_timestamp {
        Some(t) => {
            assert(s[2] == '1');
            assert(hex_value(s.subrange(4, 20)) == t);
        },
        None => {
            assert(s[2] == '0');
        },
    }
    match v.visit_timestamp {
        Some(t) => {
            assert(s[3] == '1');
            assert(hex_value(s.subrange(20, 36)) == t);
        },
        None => {
            assert(s[3] == '0');
        },
    }
}

/// The structured plaintext of a payload.
pub fn encode_cookie_value(v: &CookieValue) -> (r: String)
    ensures
        r@ == encode_structured(v@),
{
    let mut cs: Vec<char> = Vec::new();
    cs.push('T');
    cs.push('1');
    match v.login_timestamp {
        Some(_) => cs.push('1'),
        None => cs.push('0'),
    };
    match v.visit_timestamp {
        Some(_) => cs.push('1'),
        None => cs.push('0'),
    };
    let lt: u64 = match v.login_timestamp {
        Some(t) => t,
        None => 0,
    };
    let vt: u64 = match v.visit_timestamp {
        Some(t) => t,
        None => 0,
    };
    let mut lh = hex_chars(lt, 16);
    cs.append(&mut lh);
    let mut vh = hex_chars(vt, 16);
    cs.append(&mut vh);
    assert(cs@ =~= seq![
        'T',
        '1',
        flag_char(v.login_timestamp is Some),
        flag_char(v.visit_timestamp is Some),
    ] + hex_chars_of(opt_ts(v.login_timestamp), 16) + hex_chars_of(opt_ts(v.visit_timestamp), 16));
    let mut out = chars_to_string(&cs);
    out.append(v.identity.as_str());
    assert(out@ =~= encode_structured(v@));
    out
}

/// Reads a structured plaintext back; `None` on anything not produced by
/// [`encode_cookie_value`]'s format.
pub fn decode_cookie_value(s: &str) -> (r: Option<CookieValue>)
    ensures
        match r {
            Some(v) => decode_structured(s@) == Some(v@),
            None => decode_structured(s@) is None,
        },
{
    let cs = str_chars(s);
    let n = cs.len();
    if n < 36 {
        return None;
    }
    if !(cs[0] == 'T' && cs[1] == '1') {
        return None;
    }
    let fl = cs[2];
    let fv = cs[3];
    if !(fl == '0' || fl == '1') || !(fv == '0' || fv == '1') {
        return None;
    }
    let lt = match hex16_value_at(&cs, 4) {
        Some(t) => t,
        None => {
            return None;
        },
    };
    let vt = match hex16_value_at(&cs, 20) {
        Some(t) => t,
        None => {
            return None;
        },
    };
    proof {
        lemma_hex_value_bound(s@.subrange(4, 20));
        lemma_hex_value_bound(s@.subrange(20, 36));
    }
    let identity = s.substring_char(36, n).to_owned();
    Some(
        CookieValue {
            identity,
            login_timestamp: if fl == '1' {
                Some(lt)
            } else {
                None
            },
            visit_timestamp: if fv == '1' {
                Some(vt)
            } else {
                None
            },
        },
    )
}

// ---------------------------------------------------------------------------
// Sealing: authenticated encryption by the cookie crate.
// ---------------------------------------------------------------------------

/// What the cookie crate's private-jar decryption yields for a sealed value,
/// under the keys derived from `key_master`, with the cookie name `name` as
/// associated data. Decryption is a function of these three alone.
pub uninterp spec fn unsealed_of(key_master: Seq<u8>, name: Seq<char>, sealed: Seq<char>) -> Option<
    Seq<char>,
>;

/// Relies on `cookie::Key::derive_from` (deterministic key derivation,
/// panics below 32 master bytes) and `PrivateJar::add`: a value sealed by the
/// private jar decrypts, under the same key and cookie name, to itself.
#[verifier::external_body]
fn encrypt_cookie_value(key_master: &[u8], name: &str, value: &str) -> (r: String)
    requires
        key_master@.len() >= 32,
    ensures
        unsealed_of(key_master@, name@, r@) == Some(value@),
{
    let key = cookie::Key::derive_from(key_master);
    let mut jar = cookie::CookieJar::new();
    jar.private_mut(&key).add(cookie::Cookie::new(name.to_owned(), value.to_owned()));
    jar.get(name).expect("the jar holds the cookie just added").value().to_owned()
}

/// Relies on `cookie::Key::derive_from` and `PrivateJar::decrypt`: returns
/// the authenticated plaintext, or `None` when the value fails to
/// authenticate or decrypt.
#[verifier::external_body]
fn decrypt_cookie_value(key_master: &[u8], name: &str, sealed: &str) -> (r: Option<String>)
    requires
        key_master@.len() >= 32,
    ensures
        r.deep_view() == unsealed_of(key_master@, name@, sealed@),
{
    let key = cookie::Key::derive_from(key_master);
    let jar = cookie::CookieJar::new();
    jar.private(&key).decrypt(cookie::Cookie::new(name.to_owned(), sealed.to_owned())).map(
        |c| c.value().to_owned(),
    )
}

// ---------------------------------------------------------------------------
// The policy.
// ---------------------------------------------------------------------------

/// The generation suffix appended to the master secret for the current key.
pub open spec fn key_suffix() -> Seq<u8> {
    seq![1u8, 0u8, 0u8, 0u8]
}

pub ghost struct MyCookieIdentityPolicyView {
    pub key_master: Seq<u8>,
    pub key_master_v2: Seq<u8>,
    pub name: Seq<char>,
    pub path: Seq<char>,
    pub domain: Option<Seq<char>>,
    pub secure: bool,
    pub max_age: Option<i64>,
    pub same_site: Option<SameSite>,
    pub visit_deadline: Option<u64>,
    pub login_deadline: Option<u64>,
}

impl MyCookieIdentityPolicyView {
    /// Constructors establish this and every builder step keeps it.
    pub open spec fn wf(self) -> bool {
        &&& self.key_master.len() >= 32
        &&& self.key_master_v2 == self.key_master + key_suffix()
    }

    /// The bare-identity encoding is only read or written when no deadline
    /// policy is configured.
    pub open spec fn legacy_supported(self) -> bool {
        self.visit_deadline is None && self.login_deadline is None
    }

    /// A visit deadline makes the cookie slide: it is re-sealed on every
    /// successful request.
    pub open spec fn always_update_cookie(self) -> bool {
        self.visit_deadline is Some
    }

    /// A login deadline makes the middleware carry the decoded login
    /// timestamp through to finalizing.
    pub open spec fn requires_oob_data(self) -> bool {
        self.login_deadline is Some
    }

    /// The master bytes new cookies are sealed under.
    pub open spec fn seal_key(self) -> Seq<u8> {
        if self.legacy_supported() {
            self.key_master
        } else {
            self.key_master_v2
        }
    }

    /// The plaintext sealed for a payload.
    pub open spec fn plaintext_of(self, v: CookieValueView) -> Seq<char> {
        if self.legacy_supported() {
            v.identity
        } else {
            encode_structured(v)
        }
    }

    /// A payload passes when each configured deadline has its timestamp, the
    /// timestamp is not in the future, and no more time than the deadline has
    /// passed since it.
    pub open spec fn validate(self, v: CookieValueView, now: u64) -> bool {
        &&& match self.visit_deadline {
            Some(d) => match v.visit_timestamp {
                Some(t) => t <= now && now - t <= d,
                None => false,
            },
            None => true,
        }
        &&& match self.login_deadline {
            Some(d) => match v.login_timestamp {
                Some(t) => t <= now && now - t <= d,
                None => false,
            },
            None => true,
        }
    }

    /// What parsing a decrypted structured plaintext yields.
    pub open spec fn parse_spec(self, s: Seq<char>, now: u64) -> Option<CookieValueView> {
        match decode_structured(s) {
            Some(v) => if self.validate(v, now) {
                Some(v)
            } else {
                None
            },
            None => None,
        }
    }

    /// What opening a raw cookie value yields: the legacy form first, but
    /// only when no deadline policy is configured, then the structured form.
    pub open spec fn open_spec(self, raw: Seq<char>, now: u64) -> Option<CookieValueView> {
        let legacy = if self.legacy_supported() {
            match unsealed_of(self.key_master, self.name, raw) {
                Some(id) => Some(
                    CookieValueView { identity: id, login_timestamp: None, visit_timestamp: None },
                ),
                None => None,
            }
        } else {
            None
        };
        match legacy {
            Some(v) => Some(v),
            None => match unsealed_of(self.key_master_v2, self.name, raw) {
                Some(p) => self.parse_spec(p, now),
                None => None,
            },
        }
    }

    /// What loading from a request yields: only the cookie bearing this
    /// policy's name is ever read.
    pub open spec fn load_spec(self, cookies: Seq<CookiePairView>, now: u64) -> Option<
        CookieValueView,
    > {
        match lookup_cookie_spec(cookies, self.name) {
            Some(raw) => self.open_spec(raw, now),
            None => None,
        }
    }
}

/// The value of the first cookie with the given name.
pub open spec fn lookup_cookie_spec(cookies: Seq<CookiePairView>, name: Seq<char>) -> Option<
    Seq<char>,
>
    decreases cookies.len(),
{
    if cookies.len() == 0 {
        None
    } else if cookies[0].name == name {
        Some(cookies[0].value)
    } else {
        lookup_cookie_spec(cookies.drop_first(), name)
    }
}

/// The payload sealed at login time: both timestamps, where configured,
/// start at the moment of authentication.
pub open spec fn login_payload(
    p: MyCookieIdentityPolicyView,
    username: Seq<char>,
    now: u64,
) -> CookieValueView {
    CookieValueView {
        identity: username,
        login_timestamp: if p.login_deadline is Some {
            Some(now)
        } else {
            None
        },
        visit_timestamp: if p.visit_deadline is Some {
            Some(now)
        } else {
            None
        },
    }
}

/// The payload sealed on a sliding refresh: the visit timestamp moves to
/// now, the login timestamp is the one decoded from the request.
pub open spec fn refresh_payload(
    p: MyCookieIdentityPolicyView,
    username: Seq<char>,
    oob_login_timestamp: Option<u64>,
    now: u64,
) -> CookieValueView {
    CookieValueView {
        identity: username,
        login_timestamp: if p.requires_oob_data() {
            oob_login_timestamp
        } else {
            None
        },
        visit_timestamp: if p.visit_deadline is Some {
            Some(now)
        } else {
            None
        },
    }
}

/// The attributes and sealed content of an outgoing cookie, as
/// [`MyCookieIdentityPolicy::set_cookie`] promises them: `None` content is
/// the clearing form (an encrypted empty value, expiring in the past).
pub open spec fn sealed_cookie_ok(
    p: MyCookieIdentityPolicyView,
    cs: CookieSpec,
    cookie_name: Seq<char>,
    content: Option<CookieValueView>,
) -> bool {
    &&& cs.name@ == cookie_name
    &&& cs.path@ == p.path
    &&& cs.domain.deep_view() == p.domain
    &&& cs.secure == p.secure
    &&& cs.http_only == true
    &&& cs.max_age == p.max_age
    &&& cs.same_site == p.same_site
    &&& match content {
        Some(v) => !cs.expires_in_past && unsealed_of(p.seal_key(), cookie_name, cs.value@)
            == Some(p.plaintext_of(v)),
        None => cs.expires_in_past && unsealed_of(p.seal_key(), cookie_name, cs.value@) == Some(
            Seq::<char>::empty(),
        ),
    }
}

/// The cookie-sealing policy of one session namespace: its cookie name and
/// attributes, its deadlines, and the keys derived from the master secret.
pub struct MyCookieIdentityPolicy {
    key_master: Vec<u8>,
    key_master_v2: Vec<u8>,
    name: String,
    path: String,
    domain: Option<String>,
    secure: bool,
    max_age: Option<i64>,
    same_site: Option<SameSite>,
    visit_deadline: Option<u64>,
    login_deadline: Option<u64>,
}

impl View for MyCookieIdentityPolicy {
    type V = MyCookieIdentityPolicyView;

    closed spec fn view(&self) -> MyCookieIdentityPolicyView {
        MyCookieIdentityPolicyView {
            key_master: self.key_master@,
            key_master_v2: self.key_master_v2@,
            name: self.name@,
            path: self.path@,
            domain: self.domain.deep_view(),
            secure: self.secure,
            max_age: self.max_age,
            same_site: self.same_site,
            visit_deadline: self.visit_deadline,
            login_deadline: self.login_deadline,
        }
    }
}

impl MyCookieIdentityPolicy {
    /// A policy over the given master secret, which must hold at least 32
    /// bytes, with the default cookie name and attributes.
    pub fn new(key: &[u8]) -> (r: MyCookieIdentityPolicy)
        requires
            key@.len() >= 32,
        ensures
            r@.wf(),
            r@.key_master == key@,
            r@.name == "actix-identity"@,
            r@.path == "/"@,
            r@.domain is None,
            r@.secure == true,
            r@.max_age is None,
            r@.same_site is None,
            r@.visit_deadline is None,
            r@.login_deadline is None,
    {
        let key_master = vstd::slice::slice_to_vec(key);
        let mut key_master_v2 = vstd::slice::slice_to_vec(key);
        key_master_v2.push(1u8);
        key_master_v2.push(0u8);
        key_master_v2.push(0u8);
        key_master_v2.push(0u8);
        assert(key_master_v2@ =~= key@ + key_suffix());
        MyCookieIdentityPolicy {
            key_master,
            key_master_v2,
            name: "actix-identity".to_owned(),
            path: "/".to_owned(),
            domain: None,
            secure: true,
            max_age: None,
            same_site: None,
            visit_deadline: None,
            login_deadline: None,
        }
    }

    /// Sets the `path` field in the session cookie being built.
    pub fn path(self, value: &str) -> (r: MyCookieIdentityPolicy)
        ensures
            r@ == (MyCookieIdentityPolicyView { path: value@, ..self@ }),
    {
        MyCookieIdentityPolicy { path: value.to_owned(), ..self }
    }

    /// Sets the `name` field in the session cookie being built.
    pub fn name(self, value: &str) -> (r: MyCookieIdentityPolicy)
        ensures
            r@ == (MyCookieIdentityPolicyView { name: value@, ..self@ }),
    {
        MyCookieIdentityPolicy { name: value.to_owned(), ..self }
    }

    /// Sets the `domain` field in the session cookie being built.
    pub fn domain(self, value: &str) -> (r: MyCookieIdentityPolicy)
        ensures
            r@ == (MyCookieIdentityPolicyView { domain: Some(value@), ..self@ }),
    {
        MyCookieIdentityPolicy { domain: Some(value.to_owned()), ..self }
    }

    /// Sets the `secure` field in the session cookie being built: a secure
    /// cookie is only transmitted over https.
    pub fn secure(self, value: bool) -> (r: MyCookieIdentityPolicy)
        ensures
            r@ == (MyCookieIdentityPolicyView { secure: value, ..self@ }),
    {
        MyCookieIdentityPolicy { secure: value, ..self }
    }

    /// Sets the `max-age` field, in seconds.
    pub fn max_age(self, seconds: i64) -> (r: MyCookieIdentityPolicy)
        ensures
            r@ == (MyCookieIdentityPolicyView { max_age: Some(seconds), ..self@ }),
    {
        self.max_age_time(seconds)
    }

    /// Sets the `max-age` field from a duration in seconds.
    pub fn max_age_time(self, value: i64) -> (r: MyCookieIdentityPolicy)
        ensures
            r@ == (MyCookieIdentityPolicyView { max_age: Some(value), ..self@ }),
    {
        MyCookieIdentityPolicy { max_age: Some(value), ..self }
    }

    /// Sets the `same_site` field in the session cookie being built.
    pub fn same_site(self, value: SameSite) -> (r: MyCookieIdentityPolicy)
        ensures
            r@ == (MyCookieIdentityPolicyView { same_site: Some(value), ..self@ }),
    {
        MyCookieIdentityPolicy { same_site: Some(value), ..self }
    }

    /// Accepts only users whose cookie has been seen within the given number
    /// of seconds; disabled by default.
    pub fn visit_deadline(self, value: u64) -> (r: MyCookieIdentityPolicy)
        ensures
            r@ == (MyCookieIdentityPolicyView { visit_deadline: Some(value), ..self@ }),
    {
        MyCookieIdentityPolicy { visit_deadline: Some(value), ..self }
    }

    /// Accepts only users authenticated within the given number of seconds;
    /// disabled by default.
    pub fn login_deadline(self, value: u64) -> (r: MyCookieIdentityPolicy)
        ensures
            r@ == (MyCookieIdentityPolicyView { login_deadline: Some(value), ..self@ }),
    {
        MyCookieIdentityPolicy { login_deadline: Some(value), ..self }
    }

    pub fn legacy_supported(&self) -> (r: bool)
        ensures
            r == self@.legacy_supported(),
    {
        self.visit_deadline.is_none() && self.login_deadline.is_none()
    }

    pub fn always_update_cookie(&self) -> (r: bool)
        ensures
            r == self@.always_update_cookie(),
    {
        self.visit_deadline.is_some()
    }

    pub fn requires_oob_data(&self) -> (r: bool)
        ensures
            r == self@.requires_oob_data(),
    {
        self.login_deadline.is_some()
    }

    /// Whether a decoded payload is still in date at `now`.
    pub fn validate(&self, v: &CookieValue, now: u64) -> (r: bool)
        ensures
            r == self@.validate(v@, now),
    {
        let visit_ok = match self.visit_deadline {
            Some(d) => match v.visit_timestamp {
                Some(t) => t <= now && now - t <= d,
                None => false,
            },
            None => true,
        };
        let login_ok = match self.login_deadline {
            Some(d) => match v.login_timestamp {
                Some(t) => t <= now && now - t <= d,
                None => false,
            },
            None => true,
        };
        visit_ok && login_ok
    }

    /// Decodes a decrypted structured plaintext and checks its deadlines.
    pub fn parse(&self, value: &str, now: u64) -> (r: Option<CookieValue>)
        ensures
            match r {
                Some(v) => self@.parse_spec(value@, now) == Some(v@),
                None => self@.parse_spec(value@, now) is None,
            },
    {
        match decode_cookie_value(value) {
            Some(v) => {
                if self.validate(&v, now) {
                    Some(v)
                } else {
                    None
                }
            },
            None => None,
        }
    }

    /// Opens one raw cookie value: the legacy bare-identity form first when
    /// no deadline policy is configured, then the structured form.
    pub fn open_value(&self, raw: &str, now: u64) -> (r: Option<CookieValue>)
        requires
            self@.wf(),
        ensures
            match r {
                Some(v) => self@.open_spec(raw@, now) == Some(v@),
                None => self@.open_spec(raw@, now) is None,
            },
    {
        if self.legacy_supported() {
            match decrypt_cookie_value(self.key_master.as_slice(), self.name.as_str(), raw) {
                Some(id) => {
                    return Some(
                        CookieValue { identity: id, login_timestamp: None, visit_timestamp: None },
                    );
                },
                None => {},
            }
        }
        match decrypt_cookie_value(self.key_master_v2.as_slice(), self.name.as_str(), raw) {
            Some(p) => self.parse(p.as_str(), now),
            None => None,
        }
    }

    /// Reads the cookie bearing this policy's name from the request's
    /// cookies and opens it.
    pub fn load(&self, cookies: &Vec<CookiePair>, now: u64) -> (r: Option<CookieValue>)
        requires
            self@.wf(),
        ensures
            match r {
                Some(v) => self@.load_spec(cookies.deep_view(), now) == Some(v@),
                None => self@.load_spec(cookies.deep_view(), now) is None,
            },
    {
        let n = cookies.len();
        let mut i: usize = 0;
        assert(cookies.deep_view().skip(0) =~= cookies.deep_view());
        while i < n
            invariant
                i <= n,
                n == cookies@.len(),
                self@.wf(),
                lookup_cookie_spec(cookies.deep_view(), self@.name) == lookup_cookie_spec(
                    cookies.deep_view().skip(i as int),
                    self@.name,
                ),
            decreases n - i,
        {
            assert(cookies.deep_view().skip(i as int)[0] == cookies[i as int]@);
            if cookies[i].name == self.name {
                return self.open_value(cookies[i].value.as_str(), now);
            }
            assert(cookies.deep_view().skip(i as int).drop_first() =~= cookies.deep_view().skip(
                i + 1,
            ));
            i = i + 1;
        }
        assert(cookies.deep_view().skip(n as int).len() == 0);
        None
    }

    /// Seals a payload (or the clearing form, for `None`) into a cookie with
    /// this policy's attributes under the given cookie name.
    pub fn set_cookie(&self, value: Option<&CookieValue>, cookie_name: &str) -> (r: CookieSpec)
        requires
            self@.wf(),
        ensures
            sealed_cookie_ok(
                self@,
                r,
                cookie_name@,
                match value {
                    Some(v) => Some(v@),
                    None => None,
                },
            ),
    {
        let plaintext: String = match value {
            Some(v) => {
                if !self.legacy_supported() {
                    encode_cookie_value(v)
                } else {
                    v.identity.clone()
                }
            },
            None => String::new(),
        };
        let key: &Vec<u8> = if self.legacy_supported() {
            &self.key_master
        } else {
            &self.key_master_v2
        };
        let sealed = encrypt_cookie_value(key.as_slice(), cookie_name, plaintext.as_str());
        let domain = match &self.domain {
            Some(d) => Some(d.clone()),
            None => None,
        };
        CookieSpec {
            name: cookie_name.to_owned(),
            value: sealed,
            path: self.path.clone(),
            domain,
            secure: self.secure,
            http_only: true,
            max_age: self.max_age,
            same_site: self.same_site,
            expires_in_past: value.is_none(),
        }
    }
}

/// What decoding hands the middleware: the claimed identity, and the login
/// timestamp where a login deadline makes finalizing need it.
#[derive(Debug, Clone)]
pub struct DecodedIdentity {
    pub identity: String,
    pub login_timestamp: Option<u64>,
}

impl MyCookieIdentityPolicy {
    /// The name of the cookie this policy reads and writes.
    pub fn cookie_name(&self) -> (r: &String)
        ensures
            r@ == self@.name,
    {
        &self.name
    }

    /// Parses the session from the request's cookies: the identity sealed
    /// into the cookie of this policy's name, if it opens and is in date.
    pub fn from_request(&self, cookies: &Vec<CookiePair>, now: u64) -> (r: Option<DecodedIdentity>)
        requires
            self@.wf(),
        ensures
            match self@.load_spec(cookies.deep_view(), now) {
                Some(v) => match r {
                    Some(d) => d.identity@ == v.identity && d.login_timestamp == (
                    if self@.requires_oob_data() {
                        v.login_timestamp
                    } else {
                        None
                    }),
                    None => false,
                },
                None => r is None,
            },
    {
        match self.load(cookies, now) {
            Some(v) => {
                let login_timestamp = if self.requires_oob_data() {
                    v.login_timestamp
                } else {
                    None
                };
                Some(DecodedIdentity { identity: v.identity, login_timestamp })
            },
            None => None,
        }
    }

    /// Writes the session's changes back: a changed slot is re-sealed (a
    /// cleared one as the past-expiry clearing cookie, so logout leaves no
    /// usable cookie behind), an unchanged one is re-sealed only under a
    /// sliding visit deadline, and otherwise the response is left untouched.
    pub fn to_response(
        &self,
        id: Option<User>,
        changed: bool,
        cookie_name: &str,
        oob_login_timestamp: Option<u64>,
        now: u64,
    ) -> (r: Option<CookieSpec>)
        requires
            self@.wf(),
        ensures
            changed ==> match r {
                Some(cs) => sealed_cookie_ok(
                    self@,
                    cs,
                    cookie_name@,
                    match id {
                        Some(u) => Some(login_payload(self@, u.username@, now)),
                        None => None,
                    },
                ),
                None => false,
            },
            !changed && self@.always_update_cookie() && id is Some ==> match r {
                Some(cs) => sealed_cookie_ok(
                    self@,
                    cs,
                    cookie_name@,
                    Some(
                        refresh_payload(self@, id->Some_0.username@, oob_login_timestamp, now),
                    ),
                ),
                None => false,
            },
            !(changed || (self@.always_update_cookie() && id is Some)) ==> r is None,
    {
        if changed {
            match id {
                Some(u) => {
                    let login_timestamp = if self.login_deadline.is_some() {
                        Some(now)
                    } else {
                        None
                    };
                    let visit_timestamp = if self.visit_deadline.is_some() {
                        Some(now)
                    } else {
                        None
                    };
                    let value = CookieValue {
                        identity: u.username,
                        login_timestamp,
                        visit_timestamp,
                    };
                    Some(self.set_cookie(Some(&value), cookie_name))
                },
                None => Some(self.set_cookie(None, cookie_name)),
            }
        } else if self.always_update_cookie() {
            match id {
                Some(u) => {
                    let login_timestamp = if self.requires_oob_data() {
                        oob_login_timestamp
                    } else {
                        None
                    };
                    let value = CookieValue {
                        identity: u.username,
                        login_timestamp,
                        visit_timestamp: Some(now),
                    };
                    Some(self.set_cookie(Some(&value), cookie_name))
                },
                None => None,
            }
        } else {
            None
        }
    }
}

// ---------------------------------------------------------------------------
// Laws of the codec.
// ---------------------------------------------------------------------------

/// Round trip: a payload that is in date at `now`, sealed under the policy's
/// sealing key (in the legacy form a payload carries no timestamps), opens
/// to exactly itself.
pub proof fn lemma_seal_open_round_trip(
    p: MyCookieIdentityPolicyView,
    v: CookieValueView,
    raw: Seq<char>,
    now: u64,
)
    requires
        p.wf(),
        p.validate(v, now),
        p.legacy_supported() ==> v.login_timestamp is None && v.visit_timestamp is None,
        unsealed_of(p.seal_key(), p.name, raw) == Some(p.plaintext_of(v)),
    ensures
        p.open_spec(raw, now) == Some(v),
{
    if p.legacy_supported() {
    } else {
        lemma_structured_round_trip(v);
    }
}

/// Legacy compatibility: where no deadline policy is configured, a cookie
/// whose value decrypts under the legacy key opens as a bare identity.
pub proof fn lemma_legacy_compatibility(
    p: MyCookieIdentityPolicyView,
    raw: Seq<char>,
    id: Seq<char>,
    now: u64,
)
    requires
        p.legacy_supported(),
        unsealed_of(p.key_master, p.name, raw) == Some(id),
    ensures
        p.open_spec(raw, now) == Some(
            CookieValueView { identity: id, login_timestamp: None, visit_timestamp: None },
        ),
{
}

/// Namespace isolation: a request carrying no cookie under this policy's
/// name loads no identity, whatever cookies of other names it carries.
pub proof fn lemma_namespace_isolation(
    p: MyCookieIdentityPolicyView,
    cookies: Seq<CookiePairView>,
    now: u64,
)
    requires
        forall|i: int| 0 <= i < cookies.len() ==> (#[trigger] cookies[i]).name != p.name,
    ensures
        p.load_spec(cookies, now) is None,
{
    lemma_lookup_none(cookies, p.name);
}

proof fn lemma_lookup_none(cookies: Seq<CookiePairView>, name: Seq<char>)
    requires
        forall|i: int| 0 <= i < cookies.len() ==> (#[trigger] cookies[i]).name != name,
    ensures
        lookup_cookie_spec(cookies, name) is None,
    decreases cookies.len(),
{
    if cookies.len() > 0 {
        assert(forall|i: int|
            0 <= i < cookies.drop_first().len() ==> (#[trigger] cookies.drop_first()[i]).name
                != name);
        lemma_lookup_none(cookies.drop_first(), name);
    }
}

/// Expiry under a login deadline: a payload authenticated longer ago than
/// the deadline fails validation; one within it (and not from the future)
/// passes, provided any visit deadline also passes.
pub proof fn lemma_login_deadline_expiry(
    p: MyCookieIdentityPolicyView,
    v: CookieValueView,
    now: u64,
    d: u64,
    t: u64,
)
    requires
        p.login_deadline == Some(d),
        v.login_timestamp == Some(t),
    ensures
        t + d < now ==> !p.validate(v, now),
        t <= now && now <= t + d && (match p.visit_deadline {
            Some(dv) => match v.visit_timestamp {
                Some(tv) => tv <= now && now - tv <= dv,
                None => false,
            },
            None => true,
        }) ==> p.validate(v, now),
{
}

} // verus!
