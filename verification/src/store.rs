//! Durable string-to-string storage over one bucket of a `kv` store, with
//! the error taxonomy the command handlers consume.
//!
//! The engine itself is trusted: [`backend_contents`] names what the bucket
//! holds, and each wrapper below states, over that name, what the engine
//! call it makes does. Everything above the wrappers is verified. The model
//! assumes this handle is the bucket's only writer; sharing is the caller's
//! affair and races fall outside these contracts.

use vstd::prelude::*;

verus! {

/// The error of the `kv` engine, carried through but never inspected beyond
/// its presence.
#[verifier::external_type_specification]
#[verifier::external_body]
pub struct ExKvError(kv::Error);

/// The backing engine: one `kv` store and the bucket name used within it.
/// kv's typed bucket borrows the store and so cannot live in a field; each
/// wrapper reopens it, the way every operation of the engine is meant to
/// run. The pair is held behind one opaque handle.
#[verifier::external_body]
pub struct KvBackend {
    store: kv::Store,
    name: Option<String>,
}

/// What the backend's bucket currently holds, key to value.
pub uninterp spec fn backend_contents(b: &KvBackend) -> Map<Seq<char>, Seq<char>>;

/// Relies on kv::Config::new and kv::Store::new: opens the store at `path`,
/// creating it as needed. What the bucket then holds is whatever the disk
/// held, so nothing is promised of the contents.
#[verifier::external_body]
fn backend_open(path: &str, name: Option<&str>) -> (r: Result<KvBackend, kv::Error>) {
    let store = kv::Store::new(kv::Config::new(path))?;
    Ok(KvBackend { store, name: name.map(String::from) })
}

/// Relies on kv::Store::bucket and kv::Bucket::contains: whether the bucket
/// holds the key right now.
#[verifier::external_body]
fn backend_contains(b: &KvBackend, key: &str) -> (r: Result<bool, kv::Error>)
    ensures
        r matches Ok(present) ==> present == backend_contents(b).dom().contains(key@),
{
    let bucket = b.store.bucket::<&str, String>(b.name.as_deref())?;
    bucket.contains(&key)
}

/// Relies on kv::Store::bucket and kv::Bucket::get: the value the bucket
/// holds for the key, if any.
#[verifier::external_body]
fn backend_get(b: &KvBackend, key: &str) -> (r: Result<Option<String>, kv::Error>)
    ensures
        r matches Ok(v) ==> match v {
            Some(s) => backend_contents(b).dom().contains(key@) && s@ == backend_contents(b)[key@],
            None => !backend_contents(b).dom().contains(key@),
        },
{
    let bucket = b.store.bucket::<&str, String>(b.name.as_deref())?;
    bucket.get(&key)
}

/// Relies on kv::Store::bucket and kv::Bucket::set: writes the value under
/// the key, replacing what was there. On an engine error the bucket's state
/// is not promised.
#[verifier::external_body]
fn backend_set(b: &mut KvBackend, key: &str, value: &str) -> (r: Result<(), kv::Error>)
    ensures
        r is Ok ==> backend_contents(final(b)) == backend_contents(old(b)).insert(key@, value@),
{
    let bucket = b.store.bucket::<&str, String>(b.name.as_deref())?;
    bucket.set(&key, &value.to_owned())?;
    Ok(())
}

/// Relies on kv::Store::bucket and kv::Bucket::remove: takes the key out of
/// the bucket. On an engine error the bucket's state is not promised.
#[verifier::external_body]
fn backend_remove(b: &mut KvBackend, key: &str) -> (r: Result<(), kv::Error>)
    ensures
        r is Ok ==> backend_contents(final(b)) == backend_contents(old(b)).remove(key@),
{
    let bucket = b.store.bucket::<&str, String>(b.name.as_deref())?;
    bucket.remove(&key)?;
    Ok(())
}

/// Relies on kv::Store::bucket and kv::Bucket::flush: blocks until what was
/// written is on durable media. The contents do not change.
#[verifier::external_body]
fn backend_flush(b: &KvBackend) -> (r: Result<(), kv::Error>) {
    let bucket = b.store.bucket::<&str, String>(b.name.as_deref())?;
    bucket.flush()?;
    Ok(())
}

/// The order the engine hands keys out in, for a given bucket content: the
/// walk goes over the stored keys in their on-disk sort order, so for one
/// key set it is the same on every run and every machine.
pub uninterp spec fn engine_key_order(contents: Map<Seq<char>, Seq<char>>) -> Seq<Seq<char>>;

/// Relies on kv::Bucket::iter and kv::Item::key: every key the bucket holds
/// right now, each exactly once, walked in the engine's stored key order —
/// a function of the contents alone, named [`engine_key_order`].
#[verifier::external_body]
fn backend_keys(b: &KvBackend) -> (r: Result<Vec<String>, kv::Error>)
    ensures
        r matches Ok(keys) ==> {
            &&& keys@.map_values(|s: String| s@) == engine_key_order(backend_contents(b))
            &&& keys@.map_values(|s: String| s@).to_set() == backend_contents(b).dom()
            &&& keys@.map_values(|s: String| s@).no_duplicates()
        },
{
    let bucket = b.store.bucket::<&str, String>(b.name.as_deref())?;
    let mut keys = vec![];
    for item in bucket.iter() {
        let item = item?;
        let key: String = item.key()?;
        keys.push(key);
    }
    Ok(keys)
}

#[derive(Debug)]
pub enum ListError {
    Kv(kv::Error),
}

impl From<kv::Error> for ListError {
    fn from(e: kv::Error) -> (r: Self)
        ensures
            r == ListError::Kv(e),
    {
        ListError::Kv(e)
    }
}

impl vstd::std_specs::convert::FromSpecImpl<kv::Error> for ListError {
    open spec fn obeys_from_spec() -> bool {
        true
    }

    open spec fn from_spec(e: kv::Error) -> Self {
        ListError::Kv(e)
    }
}

#[derive(Debug)]
pub enum InsertError {
    ExistingKey,
    Kv(kv::Error),
}

impl From<kv::Error> for InsertError {
    fn from(e: kv::Error) -> (r: Self)
        ensures
            r == InsertError::Kv(e),
    {
        InsertError::Kv(e)
    }
}

impl vstd::std_specs::convert::FromSpecImpl<kv::Error> for InsertError {
    open spec fn obeys_from_spec() -> bool {
        true
    }

    open spec fn from_spec(e: kv::Error) -> Self {
        InsertError::Kv(e)
    }
}

#[derive(Debug)]
pub enum UpdateError {
    MissingKey,
    Kv(kv::Error),
}

impl From<kv::Error> for UpdateError {
    fn from(e: kv::Error) -> (r: Self)
        ensures
            r == UpdateError::Kv(e),
    {
        UpdateError::Kv(e)
    }
}

impl vstd::std_specs::convert::FromSpecImpl<kv::Error> for UpdateError {
    open spec fn obeys_from_spec() -> bool {
        true
    }

    open spec fn from_spec(e: kv::Error) -> Self {
        UpdateError::Kv(e)
    }
}

#[derive(Debug)]
pub enum UpsertError {
    Kv(kv::Error),
}

impl From<kv::Error> for UpsertError {
    fn from(e: kv::Error) -> (r: Self)
        ensures
            r == UpsertError::Kv(e),
    {
        UpsertError::Kv(e)
    }
}

impl vstd::std_specs::convert::FromSpecImpl<kv::Error> for UpsertError {
    open spec fn obeys_from_spec() -> bool {
        true
    }

    open spec fn from_spec(e: kv::Error) -> Self {
        UpsertError::Kv(e)
    }
}

#[derive(Debug)]
pub enum DeleteError {
    MissingKey,
    Kv(kv::Error),
}

impl From<kv::Error> for DeleteError {
    fn from(e: kv::Error) -> (r: Self)
        ensures
            r == DeleteError::Kv(e),
    {
        DeleteError::Kv(e)
    }
}

impl vstd::std_specs::convert::FromSpecImpl<kv::Error> for DeleteError {
    open spec fn obeys_from_spec() -> bool {
        true
    }

    open spec fn from_spec(e: kv::Error) -> Self {
        DeleteError::Kv(e)
    }
}

#[derive(Debug)]
pub enum ReadError {
    MissingKey,
    NoData,
    Kv(kv::Error),
}

impl From<kv::Error> for ReadError {
    fn from(e: kv::Error) -> (r: Self)
        ensures
            r == ReadError::Kv(e),
    {
        ReadError::Kv(e)
    }
}

impl vstd::std_specs::convert::FromSpecImpl<kv::Error> for ReadError {
    open spec fn obeys_from_spec() -> bool {
        true
    }

    open spec fn from_spec(e: kv::Error) -> Self {
        ReadError::Kv(e)
    }
}

/// Upserts under two different keys land in the same store whichever runs
/// first: what a listing shows afterwards does not depend on their order.
pub proof fn lemma_upsert_order_insensitive(
    m: Map<Seq<char>, Seq<char>>,
    k1: Seq<char>,
    v1: Seq<char>,
    k2: Seq<char>,
    v2: Seq<char>,
)
    requires
        k1 != k2,
    ensures
        m.insert(k1, v1).insert(k2, v2) == m.insert(k2, v2).insert(k1, v1),
{
    assert(m.insert(k1, v1).insert(k2, v2) =~= m.insert(k2, v2).insert(k1, v1));
}

/// Re-running an upsert on one key overwrites: only the last value remains.
pub proof fn lemma_upsert_overwrites(
    m: Map<Seq<char>, Seq<char>>,
    k: Seq<char>,
    v1: Seq<char>,
    v2: Seq<char>,
)
    ensures
        m.insert(k, v1).insert(k, v2) == m.insert(k, v2),
{
    assert(m.insert(k, v1).insert(k, v2) =~= m.insert(k, v2));
}

/// Durable string-keyed storage scoped to one named bucket. Writes return
/// only after the engine has acknowledged the flush.
pub struct Storage {
    backend: KvBackend,
}

impl Storage {
    /// What the bucket holds right now, key to value.
    pub closed spec fn contents(&self) -> Map<Seq<char>, Seq<char>> {
        backend_contents(&self.backend)
    }

    /// Opens the store at `path`, creating it as needed, scoped to the
    /// bucket `name` (or the engine's default bucket). The contents are
    /// whatever the disk already held.
    pub fn new(path: &str, name: Option<&str>) -> (r: Result<Self, kv::Error>) {
        match backend_open(path, name) {
            Ok(backend) => Ok(Storage { backend }),
            Err(e) => Err(e),
        }
    }

    /// Writes a fresh key. A key already present is refused as
    /// `ExistingKey` and nothing changes; on an engine error the contents
    /// are not promised.
    pub fn insert(&mut self, key: &str, value: &str) -> (r: Result<(), InsertError>)
        ensures
            r is Ok ==> !old(self).contents().dom().contains(key@) && final(self).contents()
                == old(self).contents().insert(key@, value@),
            r matches Err(InsertError::ExistingKey) ==> old(self).contents().dom().contains(key@)
                && final(self).contents() == old(self).contents(),
    {
        match backend_contains(&self.backend, key) {
            Ok(true) => {
                return Err(InsertError::ExistingKey);
            },
            Ok(false) => {},
            Err(e) => {
                return Err(InsertError::Kv(e));
            },
        }
        match backend_set(&mut self.backend, key, value) {
            Ok(()) => {},
            Err(e) => {
                return Err(InsertError::Kv(e));
            },
        }
        match backend_flush(&self.backend) {
            Ok(()) => Ok(()),
            Err(e) => Err(InsertError::Kv(e)),
        }
    }

    /// Overwrites a key already present. A key that is absent is refused as
    /// `MissingKey` and nothing changes; on an engine error the contents
    /// are not promised.
    pub fn update(&mut self, key: &str, value: &str) -> (r: Result<(), UpdateError>)
        ensures
            r is Ok ==> old(self).contents().dom().contains(key@) && final(self).contents()
                == old(self).contents().insert(key@, value@),
            r matches Err(UpdateError::MissingKey) ==> !old(self).contents().dom().contains(key@)
                && final(self).contents() == old(self).contents(),
    {
        match backend_contains(&self.backend, key) {
            Ok(false) => {
                return Err(UpdateError::MissingKey);
            },
            Ok(true) => {},
            Err(e) => {
                return Err(UpdateError::Kv(e));
            },
        }
        match backend_set(&mut self.backend, key, value) {
            Ok(()) => {},
            Err(e) => {
                return Err(UpdateError::Kv(e));
            },
        }
        match backend_flush(&self.backend) {
            Ok(()) => Ok(()),
            Err(e) => Err(UpdateError::Kv(e)),
        }
    }

    /// Writes the key whether or not it is present: prior presence never
    /// fails an upsert, the value is simply replaced. On an engine error
    /// the contents are not promised.
    pub fn upsert(&mut self, key: &str, value: &str) -> (r: Result<(), UpsertError>)
        ensures
            r is Ok ==> final(self).contents() == old(self).contents().insert(key@, value@),
    {
        match backend_set(&mut self.backend, key, value) {
            Ok(()) => {},
            Err(e) => {
                return Err(UpsertError::Kv(e));
            },
        }
        match backend_flush(&self.backend) {
            Ok(()) => Ok(()),
            Err(e) => Err(UpsertError::Kv(e)),
        }
    }

    /// Removes a key already present. A key that is absent is refused as
    /// `MissingKey` and nothing changes; on an engine error the contents
    /// are not promised.
    pub fn delete(&mut self, key: &str) -> (r: Result<(), DeleteError>)
        ensures
            r is Ok ==> old(self).contents().dom().contains(key@) && final(self).contents()
                == old(self).contents().remove(key@),
            r matches Err(DeleteError::MissingKey) ==> !old(self).contents().dom().contains(key@)
                && final(self).contents() == old(self).contents(),
    {
        match backend_contains(&self.backend, key) {
            Ok(false) => {
                return Err(DeleteError::MissingKey);
            },
            Ok(true) => {},
            Err(e) => {
                return Err(DeleteError::Kv(e));
            },
        }
        match backend_remove(&mut self.backend, key) {
            Ok(()) => {},
            Err(e) => {
                return Err(DeleteError::Kv(e));
            },
        }
        match backend_flush(&self.backend) {
            Ok(()) => Ok(()),
            Err(e) => Err(DeleteError::Kv(e)),
        }
    }

    /// Reads the value under a key. A key that is absent reads as `NoData`,
    /// never as `MissingKey`: the read path reports one missing-key outcome.
    pub fn read(&self, key: &str) -> (r: Result<String, ReadError>)
        ensures
            r matches Ok(v) ==> self.contents().dom().contains(key@) && v@
                == self.contents()[key@],
            r matches Err(ReadError::NoData) ==> !self.contents().dom().contains(key@),
            !(r matches Err(ReadError::MissingKey)),
    {
        match backend_get(&self.backend, key) {
            Ok(Some(v)) => Ok(v),
            Ok(None) => Err(ReadError::NoData),
            Err(e) => Err(ReadError::Kv(e)),
        }
    }

    /// Every key in the bucket, each exactly once. Callers are promised no
    /// particular order beyond this: the listing is a function of the
    /// current contents, so repeated calls between writes agree.
    pub fn list(&self) -> (r: Result<Vec<String>, ListError>)
        ensures
            r matches Ok(keys) ==> {
                &&& keys@.map_values(|s: String| s@) == engine_key_order(self.contents())
                &&& keys@.map_values(|s: String| s@).to_set() == self.contents().dom()
                &&& keys@.map_values(|s: String| s@).no_duplicates()
            },
    {
        match backend_keys(&self.backend) {
            Ok(keys) => Ok(keys),
            Err(e) => Err(ListError::Kv(e)),
        }
    }
}

} // verus!
