//! A typed cache kept in the credential store: each cache lives under a
//! service name derived from its identifying parts, in the entry of the
//! profile it belongs to. Values are stored in their serialized form and
//! carry an expiry time.

use vstd::prelude::*;
use core::marker::PhantomData;
use crate::keyring::{debug_service, debug_service_name, service, service_name, Accessibility, KeyringError, KeyringStore};
use crate::text::{chars_of, join_with, string_of};

verus! {

/// `s` with every `/` replaced by `_`.
pub open spec fn slashes_to_underscores(s: Seq<char>) -> Seq<char> {
    s.map_values(|c: char| if c == '/' { '_' } else { c })
}

/// The identifier of a cache built from `parts`: the parts joined with `-`,
/// with `/` replaced by `_`.
pub open spec fn cache_uid(parts: Seq<Seq<char>>) -> Seq<char> {
    slashes_to_underscores(join_with(parts, "-"@))
}

/// Why a cached value could not be produced.
#[derive(Debug)]
pub enum CacheError {
    /// Reading or decoding the entry failed; the text describes how.
    Other(String),
    /// The cached value has expired.
    Expired(),
    /// Nothing is cached.
    NotFound(),
}

/// Whether the instant `a` comes before `b`. An instant is the seconds since
/// the Unix epoch and the nanoseconds within the second.
pub open spec fn earlier(a: (i64, u32), b: (i64, u32)) -> bool {
    a.0 < b.0 || (a.0 == b.0 && a.1 < b.1)
}

/// Whether a value expiring at `expiry` has expired at `now`.
pub fn is_expired(expiry: (i64, u32), now: (i64, u32)) -> (r: bool)
    ensures
        r == earlier(expiry, now),
{
    expiry.0 < now.0 || (expiry.0 == now.0 && expiry.1 < now.1)
}

/// A cache of `T` values for one profile.
pub struct Cache<T> {
    uid: String,
    profile_name: String,
    debug_names: bool,
    _phantom: PhantomData<T>,
}

impl<T> Cache<T> {
    /// The identifier of this cache.
    pub closed spec fn uid(&self) -> Seq<char> {
        self.uid@
    }

    /// The profile this cache belongs to.
    pub closed spec fn profile(&self) -> Seq<char> {
        self.profile_name@
    }

    /// Whether this cache's entry is filed under the debug-build service
    /// names, kept apart from the release entries.
    pub closed spec fn debug_names(&self) -> bool {
        self.debug_names
    }

    /// The credential-store key of this cache's entry.
    pub open spec fn key(&self) -> (Seq<char>, Seq<char>) {
        (
            if self.debug_names() {
                debug_service_name(self.uid())
            } else {
                service_name(self.uid())
            },
            self.profile(),
        )
    }

    /// A cache for `profile_name`, identified by `uid_parts`.
    pub fn new(profile_name: String, uid_parts: Vec<String>) -> (r: Self)
        ensures
            r.uid() == cache_uid(uid_parts@.map_values(|s: String| s@)),
            r.profile() == profile_name@,
            !r.debug_names(),
    {
        let ghost views = uid_parts@.map_values(|s: String| s@);
        let mut out: Vec<char> = Vec::new();
        let mut i: usize = 0;
        while i < uid_parts.len()
            invariant
                i <= uid_parts@.len(),
                views == uid_parts@.map_values(|s: String| s@),
                out@ == slashes_to_underscores(join_with(views.subrange(0, i as int), "-"@)),
            decreases uid_parts@.len() - i,
        {
            let ghost before = out@;
            if i > 0 {
                out.push('-');
            }
            let part = chars_of(uid_parts[i].as_str());
            let ghost mid = out@;
            let mut j: usize = 0;
            while j < part.len()
                invariant
                    j <= part@.len(),
                    out@ == mid + slashes_to_underscores(part@.subrange(0, j as int)),
                decreases part@.len() - j,
            {
                let c = part[j];
                out.push(if c == '/' { '_' } else { c });
                j = j + 1;
                assert(slashes_to_underscores(part@.subrange(0, j as int)) =~= slashes_to_underscores(
                    part@.subrange(0, j - 1),
                ).push(if c == '/' { '_' } else { c }));
            }
            proof {
                reveal_strlit("-");
                let prev = views.subrange(0, i as int);
                let next = views.subrange(0, i + 1);
                assert(next.drop_last() =~= prev);
                assert(part@.subrange(0, part@.len() as int) =~= part@);
                if i == 0 {
                    assert(prev =~= Seq::<Seq<char>>::empty());
                    assert(out@ =~= slashes_to_underscores(join_with(next, "-"@)));
                } else {
                    assert(out@ =~= slashes_to_underscores(join_with(next, "-"@)));
                }
            }
            i = i + 1;
        }
        assert(views.subrange(0, i as int) =~= views);
        Cache { uid: string_of(out.as_slice()), profile_name, debug_names: false, _phantom: PhantomData }
    }

    /// The same cache, filed under the debug-build service names (as a
    /// debug build of the agent files its entries).
    pub fn with_debug_names(&self) -> (r: Self)
        ensures
            r.uid() == self.uid(),
            r.profile() == self.profile(),
            r.debug_names(),
    {
        Cache {
            uid: self.uid.clone(),
            profile_name: self.profile_name.clone(),
            debug_names: true,
            _phantom: PhantomData,
        }
    }

    /// The keyring service name of this cache's entry.
    pub fn entry_service(&self) -> (r: String)
        ensures
            r@ == self.key().0,
    {
        if self.debug_names {
            debug_service(self.uid.as_str())
        } else {
            service(self.uid.as_str())
        }
    }

    /// Writes the serialized value to the cache entry. A store that never
    /// fails (the in-memory store) always takes the write.
    pub fn store_serialized<S: KeyringStore>(&self, store: &mut S, serialized: String) -> (r: Result<
        (),
        KeyringError,
    >)
        ensures
            old(store).infallible() ==> r is Ok,
            r is Ok ==> final(store).secrets() == old(store).secrets().insert(self.key(), serialized@),
            r is Err ==> final(store).secrets() == old(store).secrets(),
    {
        let svc = self.entry_service();
        store.set(svc.as_str(), self.profile_name.as_str(), Accessibility::User, serialized)
    }

    /// Reads the serialized value from the cache entry: the stored text,
    /// `NotFound` when the entry is missing, and any other failure of the
    /// store as [`cache_read_outcome`] reports it. Of a store that never fails the
    /// read is decided by the entry alone.
    pub fn load_serialized<S: KeyringStore>(&self, store: &S) -> (r: Result<String, CacheError>)
        ensures
            r matches Ok(v) ==> store.secrets().contains_key(self.key()) && v@ == store.secrets()[self.key()],
            r matches Err(CacheError::NotFound()) ==> !store.secrets().contains_key(self.key()),
            !(r matches Err(CacheError::Expired())),
            store.infallible() && store.secrets().contains_key(self.key()) ==> r is Ok,
            store.infallible() && !store.secrets().contains_key(self.key()) ==> r matches Err(
                CacheError::NotFound(),
            ),
    {
        let svc = self.entry_service();
        let read = store.get(svc.as_str(), self.profile_name.as_str(), Accessibility::User);
        cache_read_outcome(read)
    }

    /// Removes the cache entry when the value read from it expired at
    /// `expiry` is past `now`; the value itself is still handed out. A failed
    /// delete is reported as [`cache_evict_outcome`] says, as `Other`.
    pub fn evict_if_expired<S: KeyringStore>(&self, store: &mut S, expiry: (i64, u32), now: (i64, u32)) -> (r:
        Result<(), CacheError>)
        ensures
            !earlier(expiry, now) ==> r is Ok && final(store).secrets() == old(store).secrets(),
            earlier(expiry, now) && r is Ok ==> final(store).secrets() == old(store).secrets().remove(
                self.key(),
            ),
            r is Err ==> final(store).secrets() == old(store).secrets(),
            r matches Err(e) ==> e is Other,
            old(store).infallible() ==> r is Ok,
    {
        if is_expired(expiry, now) {
            let svc = self.entry_service();
            let deleted = store.delete(svc.as_str(), self.profile_name.as_str(), Accessibility::User);
            cache_evict_outcome(deleted)
        } else {
            Ok(())
        }
    }

    /// The profile this cache belongs to.
    pub fn profile_name(&self) -> (r: &str)
        ensures
            r@ == self.profile(),
    {
        self.profile_name.as_str()
    }
}

/// What reading a cache entry reports, given what the credential store's read
/// of it gave: the stored text, `NotFound` for a missing entry, and `Other`
/// with the store's message for any other failure.
pub fn cache_read_outcome(read: Result<String, KeyringError>) -> (r: Result<String, CacheError>)
    ensures
        match read {
            Ok(v) => r matches Ok(w) && w@ == v@,
            Err(KeyringError::NotFound()) => r matches Err(CacheError::NotFound()),
            Err(e) => r matches Err(CacheError::Other(m)) && m@ == e.describe(),
        },
{
    match read {
        Ok(c) => Ok(c),
        Err(KeyringError::NotFound()) => Err(CacheError::NotFound()),
        Err(e) => Err(CacheError::Other(e.to_string())),
    }
}

/// What evicting a cache entry reports, given what the credential store's
/// delete of it gave: success, or `Other` with the store's message.
pub fn cache_evict_outcome(deleted: Result<(), KeyringError>) -> (r: Result<(), CacheError>)
    ensures
        match deleted {
            Ok(()) => r is Ok,
            Err(e) => r matches Err(CacheError::Other(m)) && m@ == e.describe(),
        },
{
    match deleted {
        Ok(()) => Ok(()),
        Err(e) => Err(CacheError::Other(e.to_string())),
    }
}

} // verus!
