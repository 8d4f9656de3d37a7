//! Credential storage: the names under which the agent files its secrets, the
//! errors a store reports, and the in-memory store used by development builds.
//! A store maps a `(service, user)` pair to a secret.

use vstd::prelude::*;

verus! {

/// The keyring service name for `name` in release builds.
pub open spec fn service_name(name: Seq<char>) -> Seq<char> {
    "io.goauthentik.agent."@ + name
}

/// The keyring service name for `name` in debug builds, kept apart from the
/// release entries.
pub open spec fn debug_service_name(name: Seq<char>) -> Seq<char> {
    "io.goauthentik.agent-debug."@ + name
}

/// The keyring service name under which the agent stores `name`.
pub fn service(name: &str) -> (r: String)
    ensures
        r@ == service_name(name@),
{
    let mut r = String::from_str("io.goauthentik.agent.");
    r.append(name);
    r
}

/// The keyring service name under which a debug build of the agent stores `name`.
pub fn debug_service(name: &str) -> (r: String)
    ensures
        r@ == debug_service_name(name@),
{
    let mut r = String::from_str("io.goauthentik.agent-debug.");
    r.append(name);
    r
}

/// Why a keyring operation failed.
#[derive(Debug)]
pub enum KeyringError {
    /// The backend failed; the text describes how.
    Other(String),
    /// There is no entry for the requested service and user.
    NotFound(),
    /// No usable credential backend exists on this machine.
    NotAvailable(),
}

impl KeyringError {
    pub open spec fn describe(&self) -> Seq<char> {
        match self {
            KeyringError::Other(e) => e@,
            KeyringError::NotFound() => "entry not found"@,
            KeyringError::NotAvailable() => "keyring backend not available"@,
        }
    }

    pub fn to_string(&self) -> (r: String)
        ensures
            r@ == self.describe(),
    {
        match self {
            KeyringError::Other(e) => e.clone(),
            KeyringError::NotFound() => String::from_str("entry not found"),
            KeyringError::NotAvailable() => String::from_str("keyring backend not available"),
        }
    }
}

/// When an entry may be read: at any time, or only while the user is logged in.
#[derive(Clone, Copy, Debug, PartialEq, Eq, Structural)]
pub enum Accessibility {
    Always,
    User,
}

/// A backend capable of storing, retrieving and deleting credentials.
///
/// A store holds a map from `(service, user)` to secrets. A read that
/// succeeds returns the secret stored for the key, and `NotFound` means there
/// is none; a write or delete that succeeds updates exactly that key. Real
/// backends may fail with `Other` or `NotAvailable` on any operation; a store
/// that is `infallible` (the in-memory store) never fails: its reads give the
/// stored secret or `NotFound`, and its writes and deletes succeed.
pub trait KeyringStore {
    /// The secrets the store holds.
    spec fn secrets(&self) -> Map<(Seq<char>, Seq<char>), Seq<char>>;

    /// Whether the store never fails: every read gives the stored secret or
    /// `NotFound`, and every write and delete succeeds.
    spec fn infallible(&self) -> bool;

    fn get(&self, service: &str, user: &str, access: Accessibility) -> (r: Result<String, KeyringError>)
        ensures
            r matches Ok(v) ==> self.secrets().contains_key((service@, user@)) && v@ == self.secrets()[(
                service@,
                user@,
            )],
            r matches Err(KeyringError::NotFound()) ==> !self.secrets().contains_key((service@, user@)),
            self.infallible() && self.secrets().contains_key((service@, user@)) ==> r is Ok,
            self.infallible() && !self.secrets().contains_key((service@, user@)) ==> r matches Err(
                KeyringError::NotFound(),
            ),
    ;

    fn set(&mut self, service: &str, user: &str, access: Accessibility, data: String) -> (r: Result<
        (),
        KeyringError,
    >)
        ensures
            old(self).infallible() ==> r is Ok,
            final(self).infallible() == old(self).infallible(),
            r is Ok ==> final(self).secrets() == old(self).secrets().insert((service@, user@), data@),
            r is Err ==> final(self).secrets() == old(self).secrets(),
    ;

    fn delete(&mut self, service: &str, user: &str, access: Accessibility) -> (r: Result<(), KeyringError>)
        ensures
            old(self).infallible() ==> r is Ok,
            final(self).infallible() == old(self).infallible(),
            r is Ok ==> final(self).secrets() == old(self).secrets().remove((service@, user@)),
            r is Err ==> final(self).secrets() == old(self).secrets(),
    ;
}

/// A read after a write gives what was written, and a write leaves every
/// other key as it was.
pub proof fn lemma_read_after_write(
    secrets: Map<(Seq<char>, Seq<char>), Seq<char>>,
    key: (Seq<char>, Seq<char>),
    data: Seq<char>,
    other: (Seq<char>, Seq<char>),
)
    ensures
        secrets.insert(key, data).contains_key(key),
        secrets.insert(key, data)[key] == data,
        other != key ==> (secrets.insert(key, data).contains_key(other) == secrets.contains_key(other)),
        other != key && secrets.contains_key(other) ==> secrets.insert(key, data)[other] == secrets[other],
{
}

/// After a delete, reading the key finds nothing, and every other key is as it was.
pub proof fn lemma_read_after_delete(
    secrets: Map<(Seq<char>, Seq<char>), Seq<char>>,
    key: (Seq<char>, Seq<char>),
    other: (Seq<char>, Seq<char>),
)
    ensures
        !secrets.remove(key).contains_key(key),
        other != key ==> (secrets.remove(key).contains_key(other) == secrets.contains_key(other)),
        other != key && secrets.contains_key(other) ==> secrets.remove(key)[other] == secrets[other],
{
}

/// One stored credential.
pub struct Entry {
    pub service: String,
    pub user: String,
    pub secret: String,
}

/// The key of an entry.
pub open spec fn key_of(e: Entry) -> (Seq<char>, Seq<char>) {
    (e.service@, e.user@)
}

/// Whether some entry of `s` has key `k`.
pub open spec fn has_key(s: Seq<Entry>, k: (Seq<char>, Seq<char>)) -> bool {
    exists|i: int| 0 <= i < s.len() && key_of(#[trigger] s[i]) == k
}

/// The secret stored under `k` in `s`.
pub open spec fn secret_at(s: Seq<Entry>, k: (Seq<char>, Seq<char>)) -> Seq<char> {
    s[choose|i: int| 0 <= i < s.len() && key_of(#[trigger] s[i]) == k].secret@
}

/// Whether no two entries of `s` share a key.
pub open spec fn keys_distinct(s: Seq<Entry>) -> bool {
    forall|i: int, j: int| 0 <= i < j < s.len() ==> key_of(#[trigger] s[i]) != key_of(#[trigger] s[j])
}

/// The map from keys to secrets that `s` holds.
pub open spec fn secrets_of(s: Seq<Entry>) -> Map<(Seq<char>, Seq<char>), Seq<char>> {
    Map::new(|k: (Seq<char>, Seq<char>)| has_key(s, k), |k: (Seq<char>, Seq<char>)| secret_at(s, k))
}

/// With distinct keys, the secret under the key of entry `a` is that entry's.
proof fn lemma_secret_at(s: Seq<Entry>, a: int)
    requires
        keys_distinct(s),
        0 <= a < s.len(),
    ensures
        has_key(s, key_of(s[a])),
        secret_at(s, key_of(s[a])) == s[a].secret@,
{
    let k = key_of(s[a]);
    assert(has_key(s, k));
    let b = choose|i: int| 0 <= i < s.len() && key_of(#[trigger] s[i]) == k;
    if b < a {
        assert(key_of(s[b]) != key_of(s[a]));
    } else if a < b {
        assert(key_of(s[a]) != key_of(s[b]));
    }
}

/// An in-memory credential store for development builds: entries are kept
/// for the life of the value and never reach the OS keychain or disk.
/// Accessibility is ignored.
pub struct MemoryStore {
    entries: Vec<Entry>,
}

impl View for MemoryStore {
    type V = Map<(Seq<char>, Seq<char>), Seq<char>>;

    closed spec fn view(&self) -> Map<(Seq<char>, Seq<char>), Seq<char>> {
        secrets_of(self.entries@)
    }
}

impl MemoryStore {
    #[verifier::type_invariant]
    closed spec fn well_formed(&self) -> bool {
        keys_distinct(self.entries@)
    }

    /// An empty store.
    pub fn new() -> (r: Self)
        ensures
            r@ == Map::<(Seq<char>, Seq<char>), Seq<char>>::empty(),
    {
        let r = MemoryStore { entries: Vec::new() };
        assert(r@ =~= Map::<(Seq<char>, Seq<char>), Seq<char>>::empty());
        r
    }

    /// The index of the entry for `(service, user)`.
    fn find(&self, service: &str, user: &str) -> (r: Option<usize>)
        ensures
            r matches Some(i) ==> i < self.entries@.len() && key_of(self.entries@[i as int]) == (
                service@,
                user@,
            ),
            r is None ==> !has_key(self.entries@, (service@, user@)),
    {
        let s = String::from_str(service);
        let u = String::from_str(user);
        let mut i: usize = 0;
        while i < self.entries.len()
            invariant
                i <= self.entries@.len(),
                s@ == service@,
                u@ == user@,
                forall|j: int| 0 <= j < i ==> key_of(#[trigger] self.entries@[j]) != (service@, user@),
            decreases self.entries@.len() - i,
        {
            if self.entries[i].service == s && self.entries[i].user == u {
                return Some(i);
            }
            i = i + 1;
        }
        None
    }

    /// The secret stored for `(service, user)`.
    pub fn get(&self, service: &str, user: &str, access: Accessibility) -> (r: Result<String, KeyringError>)
        ensures
            self@.contains_key((service@, user@)) ==> r is Ok && r->Ok_0@ == self@[(service@, user@)],
            !self@.contains_key((service@, user@)) ==> r matches Err(KeyringError::NotFound()),
    {
        proof {
            use_type_invariant(self);
        }
        match self.find(service, user) {
            Some(i) => {
                proof {
                    lemma_secret_at(self.entries@, i as int);
                }
                Ok(self.entries[i].secret.clone())
            },
            None => Err(KeyringError::NotFound()),
        }
    }

    /// Stores `data` for `(service, user)`, replacing any previous secret.
    pub fn set(&mut self, service: &str, user: &str, access: Accessibility, data: String) -> (r: Result<
        (),
        KeyringError,
    >)
        ensures
            r is Ok,
            final(self)@ == old(self)@.insert((service@, user@), data@),
    {
        proof {
            use_type_invariant(&*self);
        }
        let entry = Entry { service: String::from_str(service), user: String::from_str(user), secret: data };
        let ghost e = entry;
        let ghost old_entries = self.entries@;
        let mut entries: Vec<Entry> = Vec::new();
        std::mem::swap(&mut entries, &mut self.entries);
        match self.find_in(&entries, service, user) {
            Some(i) => {
                entries.set(i, entry);
                proof {
                    lemma_replace(old_entries, i as int, e);
                }
            },
            None => {
                entries.push(entry);
                proof {
                    lemma_append(old_entries, e);
                }
            },
        }
        self.entries = entries;
        Ok(())
    }

    /// The index of the entry for `(service, user)` in `entries`.
    fn find_in(&self, entries: &Vec<Entry>, service: &str, user: &str) -> (r: Option<usize>)
        ensures
            r matches Some(i) ==> i < entries@.len() && key_of(entries@[i as int]) == (service@, user@),
            r is None ==> !has_key(entries@, (service@, user@)),
    {
        let s = String::from_str(service);
        let u = String::from_str(user);
        let mut i: usize = 0;
        while i < entries.len()
            invariant
                i <= entries@.len(),
                s@ == service@,
                u@ == user@,
                forall|j: int| 0 <= j < i ==> key_of(#[trigger] entries@[j]) != (service@, user@),
            decreases entries@.len() - i,
        {
            if entries[i].service == s && entries[i].user == u {
                return Some(i);
            }
            i = i + 1;
        }
        None
    }

    /// Removes the secret for `(service, user)`; removing a missing entry succeeds.
    pub fn delete(&mut self, service: &str, user: &str, access: Accessibility) -> (r: Result<
        (),
        KeyringError,
    >)
        ensures
            r is Ok,
            final(self)@ == old(self)@.remove((service@, user@)),
    {
        proof {
            use_type_invariant(&*self);
        }
        let ghost old_entries = self.entries@;
        let mut entries: Vec<Entry> = Vec::new();
        std::mem::swap(&mut entries, &mut self.entries);
        match self.find_in(&entries, service, user) {
            Some(i) => {
                entries.remove(i);
                proof {
                    lemma_remove(old_entries, i as int);
                }
            },
            None => {
                assert(secrets_of(old_entries).remove((service@, user@)) =~= secrets_of(old_entries));
            },
        }
        self.entries = entries;
        Ok(())
    }
}

impl KeyringStore for MemoryStore {
    open spec fn secrets(&self) -> Map<(Seq<char>, Seq<char>), Seq<char>> {
        self@
    }

    /// The in-memory store never fails.
    open spec fn infallible(&self) -> bool {
        true
    }

    fn get(&self, service: &str, user: &str, access: Accessibility) -> (r: Result<String, KeyringError>) {
        MemoryStore::get(self, service, user, access)
    }

    fn set(&mut self, service: &str, user: &str, access: Accessibility, data: String) -> (r: Result<
        (),
        KeyringError,
    >)
        ensures
            r is Ok,
            final(self)@ == old(self)@.insert((service@, user@), data@),
    {
        MemoryStore::set(self, service, user, access, data)
    }

    fn delete(&mut self, service: &str, user: &str, access: Accessibility) -> (r: Result<
        (),
        KeyringError,
    >)
        ensures
            r is Ok,
            final(self)@ == old(self)@.remove((service@, user@)),
    {
        MemoryStore::delete(self, service, user, access)
    }
}

/// Replacing the entry at `i` by one with the same key updates that key only.
proof fn lemma_replace(s: Seq<Entry>, i: int, e: Entry)
    requires
        keys_distinct(s),
        0 <= i < s.len(),
        key_of(s[i]) == key_of(e),
    ensures
        keys_distinct(s.update(i, e)),
        secrets_of(s.update(i, e)) == secrets_of(s).insert(key_of(e), e.secret@),
{
    let t = s.update(i, e);
    assert(keys_distinct(t)) by {
        assert forall|a: int, b: int| 0 <= a < b < t.len() implies key_of(#[trigger] t[a]) != key_of(
            #[trigger] t[b],
        ) by {
            assert(key_of(t[a]) == key_of(s[a]));
            assert(key_of(t[b]) == key_of(s[b]));
        }
    }
    assert forall|k: (Seq<char>, Seq<char>)| has_key(t, k) == has_key(s, k) by {
        if has_key(s, k) {
            let a = choose|a: int| 0 <= a < s.len() && key_of(#[trigger] s[a]) == k;
            assert(key_of(t[a]) == k);
        }
        if has_key(t, k) {
            let a = choose|a: int| 0 <= a < t.len() && key_of(#[trigger] t[a]) == k;
            assert(key_of(s[a]) == k);
        }
    }
    assert forall|k: (Seq<char>, Seq<char>)| has_key(t, k) implies secret_at(t, k) == (if k == key_of(
        e,
    ) {
        e.secret@
    } else {
        secret_at(s, k)
    }) by {
        let a = choose|a: int| 0 <= a < t.len() && key_of(#[trigger] t[a]) == k;
        lemma_secret_at(t, a);
        if a != i {
            lemma_secret_at(s, a);
        }
    }
    lemma_secret_at(t, i);
    assert(secrets_of(t) =~= secrets_of(s).insert(key_of(e), e.secret@));
}

/// Appending an entry with a new key adds that key.
proof fn lemma_append(s: Seq<Entry>, e: Entry)
    requires
        keys_distinct(s),
        !has_key(s, key_of(e)),
    ensures
        keys_distinct(s.push(e)),
        secrets_of(s.push(e)) == secrets_of(s).insert(key_of(e), e.secret@),
{
    let t = s.push(e);
    assert(keys_distinct(t)) by {
        assert forall|a: int, b: int| 0 <= a < b < t.len() implies key_of(#[trigger] t[a]) != key_of(
            #[trigger] t[b],
        ) by {
            if b == s.len() {
                assert(key_of(s[a]) != key_of(e));
            } else {
                assert(key_of(s[a]) != key_of(s[b]));
            }
        }
    }
    assert forall|k: (Seq<char>, Seq<char>)| has_key(t, k) == (has_key(s, k) || k == key_of(e)) by {
        if has_key(s, k) {
            let a = choose|a: int| 0 <= a < s.len() && key_of(#[trigger] s[a]) == k;
            assert(key_of(t[a]) == k);
        }
        if k == key_of(e) {
            assert(key_of(t[s.len() as int]) == k);
        }
        if has_key(t, k) {
            let a = choose|a: int| 0 <= a < t.len() && key_of(#[trigger] t[a]) == k;
            if a < s.len() {
                assert(key_of(s[a]) == k);
            }
        }
    }
    assert forall|k: (Seq<char>, Seq<char>)| has_key(t, k) implies secret_at(t, k) == (if k == key_of(
        e,
    ) {
        e.secret@
    } else {
        secret_at(s, k)
    }) by {
        let a = choose|a: int| 0 <= a < t.len() && key_of(#[trigger] t[a]) == k;
        lemma_secret_at(t, a);
        if a < s.len() {
            lemma_secret_at(s, a);
        }
    }
    assert(secrets_of(t) =~= secrets_of(s).insert(key_of(e), e.secret@));
}

/// Removing the entry at `i` removes its key only.
proof fn lemma_remove(s: Seq<Entry>, i: int)
    requires
        keys_distinct(s),
        0 <= i < s.len(),
    ensures
        keys_distinct(s.remove(i)),
        secrets_of(s.remove(i)) == secrets_of(s).remove(key_of(s[i])),
{
    let t = s.remove(i);
    let ki = key_of(s[i]);
    assert(forall|a: int| 0 <= a < t.len() ==> #[trigger] t[a] == (if a < i { s[a] } else { s[a + 1] }));
    assert(keys_distinct(t)) by {
        assert forall|a: int, b: int| 0 <= a < b < t.len() implies key_of(#[trigger] t[a]) != key_of(
            #[trigger] t[b],
        ) by {
            let sa = if a < i { a } else { a + 1 };
            let sb = if b < i { b } else { b + 1 };
            assert(t[a] == s[sa]);
            assert(t[b] == s[sb]);
        }
    }
    assert forall|k: (Seq<char>, Seq<char>)| has_key(t, k) == (has_key(s, k) && k != ki) by {
        if has_key(t, k) {
            let a = choose|a: int| 0 <= a < t.len() && key_of(#[trigger] t[a]) == k;
            let sa = if a < i { a } else { a + 1 };
            assert(t[a] == s[sa]);
            assert(key_of(s[sa]) == k);
            assert(sa != i);
            if sa < i {
                assert(key_of(s[sa]) != key_of(s[i]));
            } else {
                assert(key_of(s[i]) != key_of(s[sa]));
            }
        }
        if has_key(s, k) && k != ki {
            let a = choose|a: int| 0 <= a < s.len() && key_of(#[trigger] s[a]) == k;
            assert(a != i);
            let ta = if a < i { a } else { a - 1 };
            assert(t[ta] == s[a]);
            assert(key_of(t[ta]) == k);
        }
    }
    assert forall|k: (Seq<char>, Seq<char>)| has_key(t, k) implies secret_at(t, k) == secret_at(s, k) by {
        let a = choose|a: int| 0 <= a < t.len() && key_of(#[trigger] t[a]) == k;
        let sa = if a < i { a } else { a + 1 };
        assert(t[a] == s[sa]);
        lemma_secret_at(t, a);
        lemma_secret_at(s, sa);
    }
    assert(secrets_of(t) =~= secrets_of(s).remove(ki));
}

} // verus!
