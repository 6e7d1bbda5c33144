use vstd::prelude::*;
use vstd::string::*;

verus! {

/// One capability that a script may ask for. Each variant carries the
/// concrete target it applies to.
#[derive(Debug, Clone, PartialEq, Eq, PartialOrd, Ord, Hash)]
pub enum Permission {
    /// An absolute, normalized file system path.
    Fs(String),
    /// A host name taken from a URL's authority.
    Http(String),
    /// A named script.
    Script(String),
    /// A named external command.
    Command(String),
}

/// `prefix` is a prefix of `s`, character by character.
pub fn starts_with(s: &str, prefix: &str) -> (r: bool)
    ensures
        r == prefix@.is_prefix_of(s@),
{
    let n = s.unicode_len();
    let m = prefix.unicode_len();
    if m > n {
        return false;
    }
    let mut i: usize = 0;
    while i < m
        invariant
            m == prefix@.len(),
            n == s@.len(),
            m <= n,
            i <= m,
            forall|j: int| 0 <= j < i ==> prefix@[j] == s@[j],
        decreases m - i,
    {
        if prefix.get_char(i) != s.get_char(i) {
            return false;
        }
        i = i + 1;
    }
    assert(prefix@ =~= s@.subrange(0, m as int));
    true
}

/// A stored permission covers a requested one when both are of the same
/// variant and the request's target starts with the stored target.
pub open spec fn covers(stored: Permission, request: Permission) -> bool {
    match (stored, request) {
        (Permission::Fs(a), Permission::Fs(b)) => a@.is_prefix_of(b@),
        (Permission::Http(a), Permission::Http(b)) => a@.is_prefix_of(b@),
        (Permission::Script(a), Permission::Script(b)) => a@.is_prefix_of(b@),
        (Permission::Command(a), Permission::Command(b)) => a@.is_prefix_of(b@),
        _ => false,
    }
}

/// Some entry of `entries` covers `request`.
pub open spec fn matches_any(entries: Seq<Permission>, request: Permission) -> bool {
    exists|i: int| 0 <= i < entries.len() && covers(#[trigger] entries[i], request)
}

/// `request` covers some entry of `entries`: it is at least as broad as
/// that entry.
pub open spec fn covers_some(request: Permission, entries: Seq<Permission>) -> bool {
    exists|i: int| 0 <= i < entries.len() && covers(request, #[trigger] entries[i])
}

/// The text that presents a permission to the operator.
pub open spec fn rendering(p: Permission) -> Seq<char> {
    match p {
        Permission::Fs(s) => "file system access @ "@ + s@,
        Permission::Http(s) => "access domain \""@ + s@ + "\""@,
        Permission::Script(s) => "script \""@ + s@ + "\""@,
        Permission::Command(s) => "command \""@ + s@ + "\""@,
    }
}

/// The question put to the operator for an unresolved request.
pub open spec fn prompt_text(p: Permission) -> Seq<char> {
    "The script wants to access\n"@ + rendering(p) + ".\ndo you want to grant access?"@
}

impl Permission {
    /// A copy of this permission, equal to it.
    pub fn duplicate(&self) -> (r: Permission)
        ensures
            r == *self,
    {
        match self {
            Permission::Fs(s) => Permission::Fs(s.clone()),
            Permission::Http(s) => Permission::Http(s.clone()),
            Permission::Script(s) => Permission::Script(s.clone()),
            Permission::Command(s) => Permission::Command(s.clone()),
        }
    }

    /// Whether this stored permission covers `request`.
    pub fn covers(&self, request: &Permission) -> (r: bool)
        ensures
            r == covers(*self, *request),
    {
        match (self, request) {
            (Permission::Fs(a), Permission::Fs(b)) => starts_with(b.as_str(), a.as_str()),
            (Permission::Http(a), Permission::Http(b)) => starts_with(b.as_str(), a.as_str()),
            (Permission::Script(a), Permission::Script(b)) => starts_with(b.as_str(), a.as_str()),
            (Permission::Command(a), Permission::Command(b)) => starts_with(
                b.as_str(),
                a.as_str(),
            ),
            _ => false,
        }
    }

    /// The human-readable form of this permission.
    pub fn describe(&self) -> (r: String)
        ensures
            r@ == rendering(*self),
    {
        match self {
            Permission::Fs(s) => {
                let mut out = String::from_str("file system access @ ");
                out.append(s.as_str());
                out
            },
            Permission::Http(s) => {
                let mut out = String::from_str("access domain \"");
                out.append(s.as_str());
                out.append("\"");
                out
            },
            Permission::Script(s) => {
                let mut out = String::from_str("script \"");
                out.append(s.as_str());
                out.append("\"");
                out
            },
            Permission::Command(s) => {
                let mut out = String::from_str("command \"");
                out.append(s.as_str());
                out.append("\"");
                out
            },
        }
    }

    /// The question shown to the operator when this permission is unresolved.
    pub fn prompt(&self) -> (r: String)
        ensures
            r@ == prompt_text(*self),
    {
        let mut out = String::from_str("The script wants to access\n");
        let d = self.describe();
        out.append(d.as_str());
        out.append(".\ndo you want to grant access?");
        out
    }
}

/// Whether some entry of `entries` covers `request`.
pub fn any_covers(entries: &Vec<Permission>, request: &Permission) -> (r: bool)
    ensures
        r == matches_any(entries@, *request),
{
    let mut i: usize = 0;
    while i < entries.len()
        invariant
            i <= entries@.len(),
            forall|j: int| 0 <= j < i ==> !covers(#[trigger] entries@[j], *request),
        decreases entries@.len() - i,
    {
        if entries[i].covers(request) {
            return true;
        }
        i = i + 1;
    }
    false
}

/// Whether `request` covers some entry of `entries`.
pub fn any_covered_by(request: &Permission, entries: &Vec<Permission>) -> (r: bool)
    ensures
        r == covers_some(*request, entries@),
{
    let mut i: usize = 0;
    while i < entries.len()
        invariant
            i <= entries@.len(),
            forall|j: int| 0 <= j < i ==> !covers(*request, #[trigger] entries@[j]),
        decreases entries@.len() - i,
    {
        if request.covers(&entries[i]) {
            return true;
        }
        i = i + 1;
    }
    false
}

/// Why a request was turned down: it carries the permission concerned.
#[derive(Debug, Clone, PartialEq, Eq)]
pub struct PermissionError(pub Permission);

impl PermissionError {
    /// The message a script sees for this refusal.
    pub fn message(&self) -> (r: String)
        ensures
            r@ == "Permission Error ("@ + rendering(self.0) + ")"@,
    {
        let mut out = String::from_str("Permission Error (");
        let d = self.0.describe();
        out.append(d.as_str());
        out.append(")");
        out
    }
}

/// The consent surface could not produce an answer (it failed or was
/// dismissed).
#[derive(Debug, Clone, Copy, PartialEq, Eq)]
pub struct ConsentFailure;

/// Asks the operator whether an unresolved request may be granted.
pub trait ConsentProvider {
    /// Shows `prompt` for `request` and reports the operator's answer.
    fn confirm(&mut self, request: &Permission, prompt: &str) -> Result<bool, ConsentFailure>;
}

/// The permissions resolved so far in one run: those granted and those
/// refused, each in the order they were recorded.
#[derive(Debug, Clone, PartialEq, Eq)]
pub struct Permissions {
    pub allowed: Vec<Permission>,
    pub denied: Vec<Permission>,
}

impl Permissions {
    /// What the store already says of `p`: `Some(true)` when a grant covers
    /// it, else `Some(false)` when a refusal covers it, else `None`: the
    /// operator is asked.
    pub open spec fn decision(self, p: Permission) -> Option<bool> {
        if matches_any(self.allowed@, p) {
            Some(true)
        } else if matches_any(self.denied@, p) {
            Some(false)
        } else {
            None
        }
    }

    /// Whether `answer` grants the unresolved `p`: it must be an approval,
    /// and no refusal may lie below `p`, since granting `p` would override
    /// that refusal.
    pub open spec fn grants(self, p: Permission, answer: Result<bool, ConsentFailure>) -> bool {
        answer == Ok::<bool, ConsentFailure>(true) && !covers_some(p, self.denied@)
    }

    /// Whether a refusal of the unresolved `p` can be recorded: no grant may
    /// lie below `p`, since the refusal would contradict that grant.
    pub open spec fn refusal_recordable(self, p: Permission) -> bool {
        !covers_some(p, self.allowed@)
    }

    /// No permission is covered both by a grant and by a refusal.
    pub open spec fn consistent(self) -> bool {
        forall|q: Permission|
            !(#[trigger] matches_any(self.allowed@, q) && matches_any(self.denied@, q))
    }

    /// `after` and `r` are what recording the operator's `answer` on the
    /// unresolved `p` gives from `before`. Only an explicit approval grants,
    /// and only where it contradicts no refusal (see `grants`); every other
    /// answer, and an approval that would contradict a refusal, refuses. A
    /// refusal is recorded where it contradicts no grant (see
    /// `refusal_recordable`); otherwise nothing is recorded.
    pub open spec fn record_post(
        before: Permissions,
        p: Permission,
        answer: Result<bool, ConsentFailure>,
        r: Result<(), PermissionError>,
        after: Permissions,
    ) -> bool {
        if before.grants(p, answer) {
            &&& r == Ok::<(), PermissionError>(())
            &&& after.allowed@ == before.allowed@.push(p)
            &&& after.denied@ == before.denied@
        } else if before.refusal_recordable(p) {
            &&& r == Err::<(), PermissionError>(PermissionError(p))
            &&& after.allowed@ == before.allowed@
            &&& after.denied@ == before.denied@.push(p)
        } else {
            &&& r == Err::<(), PermissionError>(PermissionError(p))
            &&& after == before
        }
    }

    /// `after` and `r` are what an access check of `p` may give from `before`:
    /// a covered request is answered from the store, unchanged; for an
    /// unresolved one the operator's answer is recorded (see `record_post`).
    pub open spec fn access_post(
        before: Permissions,
        p: Permission,
        r: Result<(), PermissionError>,
        after: Permissions,
    ) -> bool {
        match before.decision(p) {
            Some(true) => r == Ok::<(), PermissionError>(()) && after == before,
            Some(false) => r == Err::<(), PermissionError>(PermissionError(p)) && after == before,
            None => exists|answer: Result<bool, ConsentFailure>|
                Self::record_post(before, p, answer, r, after),
        }
    }

    /// An empty store.
    pub fn new() -> (r: Permissions)
        ensures
            r.allowed@ == Seq::<Permission>::empty(),
            r.denied@ == Seq::<Permission>::empty(),
    {
        Permissions { allowed: Vec::new(), denied: Vec::new() }
    }

    /// Records `p` as granted without asking, as done for the project root
    /// the operator named when the run began. A grant that a refusal covers,
    /// or that covers a refusal, would make the store contradict itself: it
    /// is not recorded, and `false` is returned.
    pub fn grant(&mut self, p: Permission) -> (r: bool)
        requires
            old(self).consistent(),
        ensures
            final(self).consistent(),
            r == !(matches_any(old(self).denied@, p) || covers_some(p, old(self).denied@)),
            r ==> final(self).allowed@ == old(self).allowed@.push(p),
            r ==> final(self).denied@ == old(self).denied@,
            !r ==> *final(self) == *old(self),
    {
        if self.is_denied(&p) || any_covered_by(&p, &self.denied) {
            return false;
        }
        let ghost prior = *self;
        self.allowed.push(p);
        proof {
            lemma_add_allowed(prior, p, *self);
        }
        true
    }

    /// Whether a grant covers `p`.
    pub fn is_allowed(&self, p: &Permission) -> (r: bool)
        ensures
            r == matches_any(self.allowed@, *p),
    {
        any_covers(&self.allowed, p)
    }

    /// Whether a refusal covers `p`.
    pub fn is_denied(&self, p: &Permission) -> (r: bool)
        ensures
            r == matches_any(self.denied@, *p),
    {
        any_covers(&self.denied, p)
    }

    /// What the store already answers for `p`, without asking anyone:
    /// `None` when `p` is unresolved.
    pub fn lookup(&self, p: &Permission) -> (r: Option<Result<(), PermissionError>>)
        ensures
            r == match self.decision(*p) {
                Some(true) => Some(Ok::<(), PermissionError>(())),
                Some(false) => Some(Err::<(), PermissionError>(PermissionError(*p))),
                None => None::<Result<(), PermissionError>>,
            },
    {
        if self.is_allowed(p) {
            Some(Ok(()))
        } else if self.is_denied(p) {
            Some(Err(PermissionError(p.duplicate())))
        } else {
            None
        }
    }

    /// Settles `p` with an answer obtained while the store was not held: a
    /// permission resolved in the meantime keeps the store's answer, and
    /// the late answer is dropped; otherwise the answer is recorded.
    pub fn settle(&mut self, p: &Permission, answer: Result<bool, ConsentFailure>) -> (r: Result<
        (),
        PermissionError,
    >)
        requires
            old(self).consistent(),
        ensures
            final(self).consistent(),
            old(self).decision(*p) is Some ==> *final(self) == *old(self) && Permissions::access_post(
                *old(self),
                *p,
                r,
                *final(self),
            ),
            old(self).decision(*p) is None ==> Self::record_post(
                *old(self),
                *p,
                answer,
                r,
                *final(self),
            ),
    {
        match self.lookup(p) {
            Some(known) => known,
            None => self.record_decision(p, answer),
        }
    }

    /// Records the operator's answer on an unresolved `p`, as `record_post`
    /// says: an approval grants it unless a refusal lies below it; anything
    /// else refuses it, and the refusal is kept unless a grant lies below it.
    fn record_decision(&mut self, p: &Permission, answer: Result<bool, ConsentFailure>) -> (r:
        Result<(), PermissionError>)
        requires
            old(self).consistent(),
            old(self).decision(*p) is None,
        ensures
            final(self).consistent(),
            Self::record_post(*old(self), *p, answer, r, *final(self)),
    {
        let ghost prior = *self;
        let approved = match answer {
            Ok(true) => true,
            _ => false,
        };
        if approved && !any_covered_by(p, &self.denied) {
            self.allowed.push(p.duplicate());
            proof {
                lemma_add_allowed(prior, *p, *self);
            }
            Ok(())
        } else if !any_covered_by(p, &self.allowed) {
            self.denied.push(p.duplicate());
            proof {
                lemma_add_denied(prior, *p, *self);
            }
            Err(PermissionError(p.duplicate()))
        } else {
            Err(PermissionError(p.duplicate()))
        }
    }

    /// Checks a request: a grant that covers it lets it through, else a
    /// refusal that covers it turns it down, else the operator is asked once
    /// through `consent` and the answer is recorded (see `record_post`).
    /// Where the answer would contradict the store (an approval over a
    /// refusal, a refusal over a grant) the request is refused, and the store
    /// never comes to grant and refuse one permission.
    pub fn ask_for_access<C: ConsentProvider>(&mut self, p: &Permission, consent: &mut C) -> (r:
        Result<(), PermissionError>)
        requires
            old(self).consistent(),
        ensures
            final(self).consistent(),
            Self::access_post(*old(self), *p, r, *final(self)),
            old(self).decision(*p) is Some ==> *final(consent) == *old(consent),
            r is Ok ==> final(self).decision(*p) == Some(true),
            r is Err ==> final(self).decision(*p) == Some(false) || (old(self).decision(*p) is None
                && !old(self).refusal_recordable(*p) && *final(self) == *old(self)),
    {
        if let Some(known) = self.lookup(p) {
            return known;
        }
        let text = p.prompt();
        let answer = consent.confirm(p, text.as_str());
        let ghost prior = *self;
        let r = self.record_decision(p, answer);
        proof {
            lemma_recorded_decides(prior, *p, answer, r, *self);
        }
        r
    }
}

/// Recording an answer on an unresolved request settles it the way the
/// result says, except a refusal that a grant below the request keeps from
/// being recorded.
pub proof fn lemma_recorded_decides(
    before: Permissions,
    p: Permission,
    answer: Result<bool, ConsentFailure>,
    r: Result<(), PermissionError>,
    after: Permissions,
)
    requires
        before.decision(p) is None,
        Permissions::record_post(before, p, answer, r, after),
    ensures
        r is Ok <==> before.grants(p, answer),
        r is Ok ==> after.decision(p) == Some(true),
        r is Err && before.refusal_recordable(p) ==> after.decision(p) == Some(false),
        r is Err && !before.refusal_recordable(p) ==> after == before,
{
    lemma_covers_self(p);
    if before.grants(p, answer) {
        assert(after.allowed@[before.allowed@.len() as int] == p);
    } else if before.refusal_recordable(p) {
        assert(after.denied@[before.denied@.len() as int] == p);
        assert forall|i: int| 0 <= i < after.allowed@.len() implies !covers(
            #[trigger] after.allowed@[i],
            p,
        ) by {
            assert(after.allowed@[i] == before.allowed@[i]);
        }
    }
}

/// Every permission covers itself.
pub proof fn lemma_covers_self(p: Permission)
    ensures
        covers(p, p),
{
    match p {
        Permission::Fs(s) => assert(s@ =~= s@.subrange(0, s@.len() as int)),
        Permission::Http(s) => assert(s@ =~= s@.subrange(0, s@.len() as int)),
        Permission::Script(s) => assert(s@ =~= s@.subrange(0, s@.len() as int)),
        Permission::Command(s) => assert(s@ =~= s@.subrange(0, s@.len() as int)),
    }
}

/// A grant of a path covers every path that literally starts with it: such
/// a request is let through from the store, without asking the operator.
pub proof fn lemma_prefix_containment(store: Permissions, granted: String, requested: String)
    requires
        store.allowed@.contains(Permission::Fs(granted)),
        granted@.is_prefix_of(requested@),
    ensures
        store.decision(Permission::Fs(requested)) == Some(true),
{
    let i = choose|i: int| 0 <= i < store.allowed@.len() && store.allowed@[i] == Permission::Fs(granted);
    assert(covers(store.allowed@[i], Permission::Fs(requested)));
}

/// After an access check settles a request, the store answers it the same
/// way: checking the same permission again returns the same result and
/// leaves the store as it was, so the operator is not asked again. The one
/// exception is a refusal of a request that covers a grant: keeping it would
/// contradict that grant, so it is not recorded.
pub proof fn lemma_decision_cached(
    s0: Permissions,
    p: Permission,
    r1: Result<(), PermissionError>,
    s1: Permissions,
    r2: Result<(), PermissionError>,
    s2: Permissions,
)
    requires
        Permissions::access_post(s0, p, r1, s1),
        Permissions::access_post(s1, p, r2, s2),
        !(s0.decision(p) is None && r1 is Err && !s0.refusal_recordable(p)),
    ensures
        s1.decision(p) is Some,
        r2 == r1,
        s2 == s1,
{
    if s0.decision(p) is None {
        let answer = choose|answer: Result<bool, ConsentFailure>|
            Permissions::record_post(s0, p, answer, r1, s1);
        lemma_recorded_decides(s0, p, answer, r1, s1);
    }
}

/// Once a permission is covered by a grant, no later access check takes
/// that away.
pub proof fn lemma_grant_persists(
    s0: Permissions,
    q: Permission,
    r: Result<(), PermissionError>,
    s1: Permissions,
    p: Permission,
)
    requires
        s0.decision(p) == Some(true),
        Permissions::access_post(s0, q, r, s1),
    ensures
        s1.decision(p) == Some(true),
{
    if s0.decision(q) is None {
        let answer = choose|answer: Result<bool, ConsentFailure>|
            Permissions::record_post(s0, q, answer, r, s1);
        assert(s0.allowed@ =~= s0.allowed@.subrange(0, s0.allowed@.len() as int));
        assert(s0.denied@ =~= s0.denied@.subrange(0, s0.denied@.len() as int));
        lemma_lists_grow(s0, s1, p);
    }
}

/// Once a permission is refused, every later access check leaves it
/// refused: no request that would cover it can be granted any more.
pub proof fn lemma_refusal_persists(
    s0: Permissions,
    q: Permission,
    r: Result<(), PermissionError>,
    s1: Permissions,
    p: Permission,
)
    requires
        s0.decision(p) == Some(false),
        Permissions::access_post(s0, q, r, s1),
    ensures
        s1.decision(p) == Some(false),
{
    if s0.decision(q) is None {
        let answer = choose|answer: Result<bool, ConsentFailure>|
            Permissions::record_post(s0, q, answer, r, s1);
        assert(s0.allowed@ =~= s0.allowed@.subrange(0, s0.allowed@.len() as int));
        assert(s0.denied@ =~= s0.denied@.subrange(0, s0.denied@.len() as int));
        lemma_lists_grow(s0, s1, p);
        if s0.grants(q, answer) && covers(q, p) {
            let i = choose|i: int| 0 <= i < s0.denied@.len() && covers(#[trigger] s0.denied@[i], p);
            lemma_covers_comparable(q, s0.denied@[i], p);
            if covers(q, s0.denied@[i]) {
                assert(covers_some(q, s0.denied@));
            } else {
                assert(matches_any(s0.denied@, q));
            }
        }
        assert forall|j: int| 0 <= j < s1.allowed@.len() implies !covers(
            #[trigger] s1.allowed@[j],
            p,
        ) by {
            if j < s0.allowed@.len() {
                assert(s1.allowed@[j] == s0.allowed@[j]);
            } else {
                assert(s1.allowed@[j] == q);
            }
        }
    }
}

/// Appending to the lists of a store keeps every match and every covered
/// entry.
pub proof fn lemma_lists_grow(s0: Permissions, s1: Permissions, p: Permission)
    requires
        s0.allowed@.is_prefix_of(s1.allowed@) || exists|x: Permission|
            s1.allowed@ == s0.allowed@.push(x),
        s0.denied@.is_prefix_of(s1.denied@) || exists|x: Permission|
            s1.denied@ == s0.denied@.push(x),
    ensures
        matches_any(s0.allowed@, p) ==> matches_any(s1.allowed@, p),
        matches_any(s0.denied@, p) ==> matches_any(s1.denied@, p),
        covers_some(p, s0.allowed@) ==> covers_some(p, s1.allowed@),
        covers_some(p, s0.denied@) ==> covers_some(p, s1.denied@),
{
    assert(s0.allowed@.len() <= s1.allowed@.len());
    assert(forall|i: int| 0 <= i < s0.allowed@.len() ==> s1.allowed@[i] == s0.allowed@[i]);
    assert(s0.denied@.len() <= s1.denied@.len());
    assert(forall|i: int| 0 <= i < s0.denied@.len() ==> s1.denied@[i] == s0.denied@[i]);
    if matches_any(s0.allowed@, p) {
        let i = choose|i: int| 0 <= i < s0.allowed@.len() && covers(#[trigger] s0.allowed@[i], p);
        assert(covers(s1.allowed@[i], p));
    }
    if matches_any(s0.denied@, p) {
        let i = choose|i: int| 0 <= i < s0.denied@.len() && covers(#[trigger] s0.denied@[i], p);
        assert(covers(s1.denied@[i], p));
    }
    if covers_some(p, s0.allowed@) {
        let i = choose|i: int| 0 <= i < s0.allowed@.len() && covers(p, #[trigger] s0.allowed@[i]);
        assert(covers(p, s1.allowed@[i]));
    }
    if covers_some(p, s0.denied@) {
        let i = choose|i: int| 0 <= i < s0.denied@.len() && covers(p, #[trigger] s0.denied@[i]);
        assert(covers(p, s1.denied@[i]));
    }
}

/// Two prefixes of one string are prefixes of each other, one way or the
/// other.
pub proof fn lemma_prefixes_comparable(a: Seq<char>, b: Seq<char>, c: Seq<char>)
    requires
        a.is_prefix_of(c),
        b.is_prefix_of(c),
    ensures
        a.is_prefix_of(b) || b.is_prefix_of(a),
{
    if a.len() <= b.len() {
        assert(a =~= b.subrange(0, a.len() as int));
    } else {
        assert(b =~= a.subrange(0, b.len() as int));
    }
}

/// Two permissions that cover one request cover each other, one way or the
/// other.
pub proof fn lemma_covers_comparable(x: Permission, y: Permission, q: Permission)
    requires
        covers(x, q),
        covers(y, q),
    ensures
        covers(x, y) || covers(y, x),
{
    match (x, y, q) {
        (Permission::Fs(a), Permission::Fs(b), Permission::Fs(c)) => lemma_prefixes_comparable(
            a@,
            b@,
            c@,
        ),
        (Permission::Http(a), Permission::Http(b), Permission::Http(c)) => lemma_prefixes_comparable(
            a@,
            b@,
            c@,
        ),
        (Permission::Script(a), Permission::Script(b), Permission::Script(c)) =>
            lemma_prefixes_comparable(a@, b@, c@),
        (Permission::Command(a), Permission::Command(b), Permission::Command(c)) =>
            lemma_prefixes_comparable(a@, b@, c@),
        _ => {},
    }
}

/// Granting a permission that no refusal covers, and that covers no
/// refusal, keeps a consistent store consistent.
pub proof fn lemma_add_allowed(before: Permissions, p: Permission, after: Permissions)
    requires
        before.consistent(),
        !matches_any(before.denied@, p),
        !covers_some(p, before.denied@),
        after.allowed@ == before.allowed@.push(p),
        after.denied@ == before.denied@,
    ensures
        after.consistent(),
{
    assert forall|q: Permission|
        !(#[trigger] matches_any(after.allowed@, q) && matches_any(after.denied@, q)) by {
        if matches_any(after.allowed@, q) && matches_any(after.denied@, q) {
            let i = choose|i: int|
                0 <= i < after.allowed@.len() && covers(#[trigger] after.allowed@[i], q);
            let j = choose|j: int|
                0 <= j < after.denied@.len() && covers(#[trigger] after.denied@[j], q);
            if i < before.allowed@.len() {
                assert(after.allowed@[i] == before.allowed@[i]);
                assert(matches_any(before.allowed@, q));
            } else {
                assert(after.allowed@[i] == p);
                lemma_covers_comparable(p, before.denied@[j], q);
            }
        }
    }
}

/// Refusing a permission that no grant covers, and that covers no grant,
/// keeps a consistent store consistent.
pub proof fn lemma_add_denied(before: Permissions, p: Permission, after: Permissions)
    requires
        before.consistent(),
        !matches_any(before.allowed@, p),
        !covers_some(p, before.allowed@),
        after.allowed@ == before.allowed@,
        after.denied@ == before.denied@.push(p),
    ensures
        after.consistent(),
{
    assert forall|q: Permission|
        !(#[trigger] matches_any(after.allowed@, q) && matches_any(after.denied@, q)) by {
        if matches_any(after.allowed@, q) && matches_any(after.denied@, q) {
            let i = choose|i: int|
                0 <= i < after.allowed@.len() && covers(#[trigger] after.allowed@[i], q);
            let j = choose|j: int|
                0 <= j < after.denied@.len() && covers(#[trigger] after.denied@[j], q);
            if j < before.denied@.len() {
                assert(after.denied@[j] == before.denied@[j]);
                assert(matches_any(before.denied@, q));
            } else {
                assert(after.denied@[j] == p);
                lemma_covers_comparable(p, before.allowed@[i], q);
            }
        }
    }
}

/// An access check keeps the store consistent: no permission ever comes to
/// be covered both by a grant and by a refusal.
pub proof fn lemma_access_keeps_consistent(
    s0: Permissions,
    p: Permission,
    r: Result<(), PermissionError>,
    s1: Permissions,
)
    requires
        s0.consistent(),
        Permissions::access_post(s0, p, r, s1),
    ensures
        s1.consistent(),
{
    if s0.decision(p) is None {
        let answer = choose|answer: Result<bool, ConsentFailure>|
            Permissions::record_post(s0, p, answer, r, s1);
        if s0.grants(p, answer) {
            lemma_add_allowed(s0, p, s1);
        } else if s0.refusal_recordable(p) {
            lemma_add_denied(s0, p, s1);
        }
    }
}

/// A stored permission never covers a request of another variant.
pub proof fn lemma_variant_isolation(stored: Permission, request: Permission)
    requires
        !(stored is Fs && request is Fs),
        !(stored is Http && request is Http),
        !(stored is Script && request is Script),
        !(stored is Command && request is Command),
    ensures
        !covers(stored, request),
{
}

/// Grants of paths alone never let through a host, a script or a command,
/// whatever its name.
pub proof fn lemma_path_grants_isolated(store: Permissions, name: String)
    requires
        forall|i: int| 0 <= i < store.allowed@.len() ==> (#[trigger] store.allowed@[i]) is Fs,
    ensures
        store.decision(Permission::Http(name)) != Some(true),
        store.decision(Permission::Script(name)) != Some(true),
        store.decision(Permission::Command(name)) != Some(true),
{
    assert forall|i: int| 0 <= i < store.allowed@.len() implies !covers(
        #[trigger] store.allowed@[i],
        Permission::Http(name),
    ) && !covers(store.allowed@[i], Permission::Script(name)) && !covers(
        store.allowed@[i],
        Permission::Command(name),
    ) by {
        assert(store.allowed@[i] is Fs);
    }
}

/// When the operator does not approve (refuses, dismisses the question, or
/// the question cannot be shown), the request is refused and recorded, and
/// the same request made again is refused from the store without asking;
/// this holds wherever the refusal contradicts no grant below the request.
pub proof fn lemma_fail_closed(
    s0: Permissions,
    p: Permission,
    answer: Result<bool, ConsentFailure>,
    r1: Result<(), PermissionError>,
    s1: Permissions,
    r2: Result<(), PermissionError>,
    s2: Permissions,
)
    requires
        s0.decision(p) is None,
        answer != Ok::<bool, ConsentFailure>(true),
        s0.refusal_recordable(p),
        Permissions::record_post(s0, p, answer, r1, s1),
        Permissions::access_post(s1, p, r2, s2),
    ensures
        r1 == Err::<(), PermissionError>(PermissionError(p)),
        s1.decision(p) == Some(false),
        r2 == Err::<(), PermissionError>(PermissionError(p)),
        s2 == s1,
{
    lemma_recorded_decides(s0, p, answer, r1, s1);
}

} // verus!
