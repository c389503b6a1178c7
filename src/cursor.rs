//! The consumption cursor's store: buckets of byte values with a
//! compare-and-swap primitive, the lock cell that admits one poller at a
//! time, and the offset of the next chat update to read.

use vstd::prelude::*;
use crate::table::Table;
use crate::text::str_eq;

verus! {

/// Why a store operation failed.
#[derive(Debug)]
pub enum KvStoreError {
    KeyNotFound(String),
    BucketOpen { id: String, reason: String },
    ReadKey { bucket: String, key: String, reason: String },
    WriteKey { bucket: String, key: String, reason: String },
    MissingKey { bucket: String, key: String },
    AtomicSwap { bucket: String, key: String, reason: String },
    AtomicCasResource { bucket: String, key: String, reason: String },
    AtomicRead { bucket: String, key: String, reason: String },
}

pub type KvStoreResult<T> = Result<T, KvStoreError>;

pub open spec fn locks_bucket() -> Seq<char> {
    "locks"@
}

pub open spec fn lock_key() -> Seq<char> {
    "global_lock"@
}

pub open spec fn offset_bucket() -> Seq<char> {
    "offsets"@
}

pub open spec fn offset_key() -> Seq<char> {
    "latest_offset"@
}

/// The bytes of the text `locked`.
pub open spec fn locked() -> Seq<u8> {
    seq![108u8, 111u8, 99u8, 107u8, 101u8, 100u8]
}

/// Buckets by name, each a map from key to value.
pub type StoreView = Map<Seq<char>, Map<Seq<char>, Seq<u8>>>;

/// The value under `key` in `bucket`, if any.
pub open spec fn cell(m: StoreView, bucket: Seq<char>, key: Seq<char>) -> Option<Seq<u8>> {
    if m.contains_key(bucket) && m[bucket].contains_key(key) {
        Some(m[bucket][key])
    } else {
        None
    }
}

/// The store with `value` under `key` in `bucket`.
pub open spec fn set_cell(m: StoreView, bucket: Seq<char>, key: Seq<char>, value: Seq<u8>) -> StoreView {
    m.insert(
        bucket,
        if m.contains_key(bucket) {
            m[bucket].insert(key, value)
        } else {
            Map::empty().insert(key, value)
        },
    )
}

/// No poller holds the lock.
pub open spec fn lock_free(m: StoreView) -> bool {
    cell(m, locks_bucket(), lock_key()) != Some(locked())
}

/// A swap through a handle that saw `seen` goes through only while the cell
/// still holds what the handle saw.
pub open spec fn cas_succeeds(m: StoreView, bucket: Seq<char>, key: Seq<char>, seen: Option<Seq<u8>>) -> bool {
    cell(m, bucket, key) == seen
}

/// A key-value store held in memory.
#[derive(Debug)]
pub struct KvStore {
    buckets: Table<Table<Vec<u8>>>,
}

/// An opened bucket.
#[derive(Debug)]
pub struct Bucket {
    pub id: String,
}

/// A compare-and-swap handle on one cell: it remembers the value the cell
/// held when it was opened.
#[derive(Debug)]
pub struct Cas {
    pub bucket: String,
    pub key: String,
    pub seen: Option<Vec<u8>>,
}

pub open spec fn seen_view(c: Cas) -> Option<Seq<u8>> {
    match c.seen {
        Some(v) => Some(v@),
        None => None,
    }
}

impl View for KvStore {
    type V = StoreView;

    closed spec fn view(&self) -> StoreView {
        self.buckets@
    }
}

fn bytes_eq(a: &Vec<u8>, b: &Vec<u8>) -> (r: bool)
    ensures
        r == (a@ == b@),
{
    if a.len() != b.len() {
        return false;
    }
    let mut i: usize = 0;
    while i < a.len()
        invariant
            a@.len() == b@.len(),
            i <= a@.len(),
            forall|k: int| 0 <= k < i ==> a@[k] == b@[k],
        decreases a.len() - i,
    {
        if a[i] != b[i] {
            return false;
        }
        i = i + 1;
    }
    assert(a@ =~= b@);
    true
}

fn copy_bytes(a: &Vec<u8>) -> (r: Vec<u8>)
    ensures
        r@ == a@,
{
    let mut r: Vec<u8> = Vec::new();
    let mut i: usize = 0;
    while i < a.len()
        invariant
            i <= a@.len(),
            r@ == a@.subrange(0, i as int),
        decreases a.len() - i,
    {
        r.push(a[i]);
        i = i + 1;
        assert(r@ =~= a@.subrange(0, i as int));
    }
    assert(a@.subrange(0, i as int) =~= a@);
    r
}

fn locked_value() -> (r: Vec<u8>)
    ensures
        r@ == locked(),
{
    let r = vec![108u8, 111u8, 99u8, 107u8, 101u8, 100u8];
    assert(r@ =~= locked());
    r
}

fn text(s: &str) -> (r: String)
    ensures
        r@ == s@,
{
    String::from_str(s)
}

impl KvStore {
    pub closed spec fn wf(&self) -> bool {
        &&& self.buckets.wf()
        &&& forall|b: Seq<char>| #[trigger]
            self.buckets.values().contains_key(b) ==> self.buckets.values()[b].wf()
    }

    /// An empty store.
    pub fn new() -> (r: KvStore)
        ensures
            r.wf(),
            r@ == StoreView::empty(),
    {
        let r = KvStore { buckets: Table::new() };
        assert(r@ =~= StoreView::empty());
        r
    }

    /// The value under `key` in `bucket`, if any.
    pub fn get(&self, bucket: &str, key: &str) -> (r: Option<Vec<u8>>)
        requires
            self.wf(),
        ensures
            match r {
                Some(v) => cell(self@, bucket@, key@) == Some(v@),
                None => cell(self@, bucket@, key@) is None,
            },
    {
        match self.buckets.get(bucket) {
            Some(t) => {
                match t.get(key) {
                    Some(v) => Some(copy_bytes(v)),
                    None => None,
                }
            },
            None => None,
        }
    }

    /// Puts `value` under `key` in `bucket`.
    pub fn set(&mut self, bucket: &str, key: &str, value: Vec<u8>)
        requires
            old(self).wf(),
        ensures
            final(self).wf(),
            final(self)@ == set_cell(old(self)@, bucket@, key@, value@),
    {
        let ghost pre = self@;
        let ghost pre_values = self.buckets.values();
        let mut t = match self.buckets.remove(bucket) {
            Some(t) => t,
            None => Table::new(),
        };
        t.insert(text(key), value);
        self.buckets.insert(text(bucket), t);
        proof {
            assert forall|b: Seq<char>| #[trigger] self.buckets.values().contains_key(b) implies self.buckets.values()[b].wf() by {
                if b != bucket@ {
                    assert(pre_values.contains_key(b));
                }
            }
            assert(self@ =~= set_cell(pre, bucket@, key@, value@));
        }
    }
}

/// The eight little-endian bytes of `v`.
pub open spec fn le_bytes(v: u64) -> Seq<u8> {
    seq![
        (v & 0xff) as u8,
        ((v >> 8u64) & 0xff) as u8,
        ((v >> 16u64) & 0xff) as u8,
        ((v >> 24u64) & 0xff) as u8,
        ((v >> 32u64) & 0xff) as u8,
        ((v >> 40u64) & 0xff) as u8,
        ((v >> 48u64) & 0xff) as u8,
        ((v >> 56u64) & 0xff) as u8,
    ]
}

/// The number whose little-endian bytes are the eight bytes of `b`.
pub open spec fn from_le(b: Seq<u8>) -> u64 {
    (b[0] as u64) | ((b[1] as u64) << 8u64) | ((b[2] as u64) << 16u64) | ((b[3] as u64) << 24u64)
        | ((b[4] as u64) << 32u64) | ((b[5] as u64) << 40u64) | ((b[6] as u64) << 48u64) | ((
    b[7] as u64) << 56u64)
}

/// How an offset is stored: the little-endian bytes of its two's complement.
pub open spec fn offset_bytes(n: i64) -> Seq<u8> {
    le_bytes(n as u64)
}

/// What eight stored bytes read as.
pub open spec fn offset_of(b: Seq<u8>) -> i64 {
    from_le(b) as i64
}

/// Reading back a stored offset gives the offset.
pub proof fn lemma_offset_round_trip(n: i64)
    ensures
        offset_bytes(n).len() == 8,
        offset_of(offset_bytes(n)) == n,
{
    let v = n as u64;
    let b = offset_bytes(n);
    assert(from_le(b) == v) by {
        assert(((v & 0xff) as u8) as u64 | ((((v >> 8u64) & 0xff) as u8) as u64) << 8u64 | ((((v
            >> 16u64) & 0xff) as u8) as u64) << 16u64 | ((((v >> 24u64) & 0xff) as u8) as u64)
            << 24u64 | ((((v >> 32u64) & 0xff) as u8) as u64) << 32u64 | ((((v >> 40u64) & 0xff)
            as u8) as u64) << 40u64 | ((((v >> 48u64) & 0xff) as u8) as u64) << 48u64 | ((((v
            >> 56u64) & 0xff) as u8) as u64) << 56u64 == v) by (bit_vector);
    }
    assert((v as i64) == n) by (bit_vector)
        requires v == n as u64;
}

/// Opens a bucket; buckets come into being on first use.
pub fn open_bucket(store: &KvStore, id: &str) -> (r: KvStoreResult<Bucket>)
    ensures
        r matches Ok(b) && b.id@ == id@,
{
    Ok(Bucket { id: text(id) })
}

/// Opens a compare-and-swap handle on `key` in `bucket`.
pub fn open_cas(store: &KvStore, id: &str, key: &str) -> (r: KvStoreResult<Cas>)
    requires
        store.wf(),
    ensures
        r matches Ok(c) && c.bucket@ == id@ && c.key@ == key@ && seen_view(c) == cell(
            store@,
            id@,
            key@,
        ),
{
    let bucket = open_bucket(store, id)?;
    let seen = store.get(bucket.id.as_str(), key);
    Ok(Cas { bucket: bucket.id, key: text(key), seen })
}

impl Cas {
    /// The value the cell held when the handle was opened.
    pub fn current(&self) -> (r: Option<Vec<u8>>)
        ensures
            match r {
                Some(v) => seen_view(*self) == Some(v@),
                None => seen_view(*self) is None,
            },
    {
        match &self.seen {
            Some(v) => Some(copy_bytes(v)),
            None => None,
        }
    }
}

/// Writes `value` through the handle: it goes through only while the cell
/// still holds what the handle saw, and otherwise changes nothing.
pub fn swap(store: &mut KvStore, cas: Cas, value: Vec<u8>) -> (r: Result<(), String>)
    requires
        old(store).wf(),
    ensures
        final(store).wf(),
        r is Ok == cas_succeeds(old(store)@, cas.bucket@, cas.key@, seen_view(cas)),
        r is Ok ==> final(store)@ == set_cell(old(store)@, cas.bucket@, cas.key@, value@),
        r is Err ==> final(store)@ == old(store)@,
{
    let now = store.get(cas.bucket.as_str(), cas.key.as_str());
    let same = match (&now, &cas.seen) {
        (Some(a), Some(b)) => bytes_eq(a, b),
        (None, None) => true,
        _ => false,
    };
    if !same {
        return Err(text("the value changed since the handle was opened"));
    }
    store.set(cas.bucket.as_str(), cas.key.as_str(), value);
    Ok(())
}

/// The value under `key` in `bucket`; a missing key is an error.
pub fn read_value(store: &KvStore, bucket_id: &str, key: &str) -> (r: KvStoreResult<Vec<u8>>)
    requires
        store.wf(),
    ensures
        match r {
            Ok(v) => cell(store@, bucket_id@, key@) == Some(v@),
            Err(e) => cell(store@, bucket_id@, key@) is None && e is MissingKey,
        },
{
    let bucket = open_bucket(store, bucket_id)?;
    match store.get(bucket.id.as_str(), key) {
        Some(v) => Ok(v),
        None => Err(KvStoreError::MissingKey { bucket: text(bucket_id), key: text(key) }),
    }
}

/// Puts `value` under `key` in `bucket`.
pub fn write_value(store: &mut KvStore, bucket_id: &str, key: &str, value: &Vec<u8>) -> (r: KvStoreResult<()>)
    requires
        old(store).wf(),
    ensures
        final(store).wf(),
        r is Ok,
        final(store)@ == set_cell(old(store)@, bucket_id@, key@, value@),
{
    let bucket = open_bucket(store, bucket_id)?;
    store.set(bucket.id.as_str(), key, copy_bytes(value));
    Ok(())
}

/// Swaps `value` into `key` of `bucket` through a fresh handle.
pub fn atomic_swap(store: &mut KvStore, bucket_id: &str, key: &str, value: Vec<u8>) -> (r: KvStoreResult<()>)
    requires
        old(store).wf(),
    ensures
        final(store).wf(),
        r is Ok,
        final(store)@ == set_cell(old(store)@, bucket_id@, key@, value@),
{
    let cas = open_cas(store, bucket_id, key)?;
    match swap(store, cas, value) {
        Ok(()) => Ok(()),
        Err(e) => Err(KvStoreError::AtomicSwap { bucket: text(bucket_id), key: text(key), reason: e }),
    }
}

/// The value under `key` in `bucket`, read through a handle; a missing key
/// is an error.
pub fn atomic_read(store: &KvStore, bucket_id: &str, key: &str) -> (r: KvStoreResult<Vec<u8>>)
    requires
        store.wf(),
    ensures
        match r {
            Ok(v) => cell(store@, bucket_id@, key@) == Some(v@),
            Err(e) => cell(store@, bucket_id@, key@) is None && e is MissingKey,
        },
{
    let cas = open_cas(store, bucket_id, key)?;
    match cas.current() {
        Some(v) => Ok(v),
        None => Err(KvStoreError::MissingKey { bucket: text(bucket_id), key: text(key) }),
    }
}

/// Takes the lock if no poller holds it, and hands back a handle to release
/// it with. It never waits: when the lock is held it fails at once.
pub fn acquire_lock(store: &mut KvStore) -> (r: KvStoreResult<Cas>)
    requires
        old(store).wf(),
    ensures
        final(store).wf(),
        r is Ok == lock_free(old(store)@),
        r matches Ok(c) ==> {
            &&& final(store)@ == set_cell(old(store)@, locks_bucket(), lock_key(), locked())
            &&& c.bucket@ == locks_bucket()
            &&& c.key@ == lock_key()
            &&& seen_view(c) == Some(locked())
        },
        r is Err ==> final(store)@ == old(store)@,
{
    proof {
        reveal_strlit("locks");
        reveal_strlit("global_lock");
    }
    let cas = open_cas(store, "locks", "global_lock")?;
    let held = match cas.current() {
        Some(v) => bytes_eq(&v, &locked_value()),
        None => false,
    };
    if held {
        return Err(KvStoreError::KeyNotFound(text("Lock already acquired")));
    }
    match swap(store, cas, locked_value()) {
        Ok(()) => {
            let r = open_cas(store, "locks", "global_lock");
            proof {
                assert(cell(store@, locks_bucket(), lock_key()) == Some(locked()));
            }
            r
        },
        Err(e) => Err(KvStoreError::AtomicSwap { bucket: text("locks"), key: text("global_lock"), reason: e }),
    }
}

/// Releases the lock through the handle `acquire_lock` gave: the cell is
/// emptied while it still holds what the handle saw.
pub fn release_lock(store: &mut KvStore, cas: Cas) -> (r: KvStoreResult<()>)
    requires
        old(store).wf(),
    ensures
        final(store).wf(),
        r is Ok == cas_succeeds(old(store)@, cas.bucket@, cas.key@, seen_view(cas)),
        r is Ok ==> final(store)@ == set_cell(old(store)@, cas.bucket@, cas.key@, Seq::empty()),
        r is Err ==> final(store)@ == old(store)@,
{
    let empty: Vec<u8> = Vec::new();
    assert(empty@ =~= Seq::<u8>::empty());
    match swap(store, cas, empty) {
        Ok(()) => Ok(()),
        Err(e) => Err(KvStoreError::AtomicSwap { bucket: text("locks"), key: text("global_lock"), reason: e }),
    }
}

/// The stored offset of the next update to read: none when nothing was
/// stored yet; an error when what is stored is not eight bytes.
pub fn get_offset(store: &KvStore) -> (r: KvStoreResult<Option<i64>>)
    requires
        store.wf(),
    ensures
        match cell(store@, offset_bucket(), offset_key()) {
            None => r == Ok::<Option<i64>, KvStoreError>(None),
            Some(b) => if b.len() == 8 {
                r == Ok::<Option<i64>, KvStoreError>(Some(offset_of(b)))
            } else {
                r matches Err(e) && e is ReadKey
            },
        },
{
    proof {
        reveal_strlit("offsets");
        reveal_strlit("latest_offset");
    }
    let value = match read_value(store, "offsets", "latest_offset") {
        Err(KvStoreError::MissingKey { .. }) => {
            return Ok(None);
        },
        Err(e) => {
            return Err(e);
        },
        Ok(value) => value,
    };
    if value.len() != 8 {
        return Err(
            KvStoreError::ReadKey {
                bucket: text("offsets"),
                key: text("latest_offset"),
                reason: text("Invalid data format: expected 8 bytes for i64"),
            },
        );
    }
    let v: u64 = (value[0] as u64) | ((value[1] as u64) << 8u64) | ((value[2] as u64) << 16u64) | ((
    value[3] as u64) << 24u64) | ((value[4] as u64) << 32u64) | ((value[5] as u64) << 40u64) | ((
    value[6] as u64) << 48u64) | ((value[7] as u64) << 56u64);
    assert(v == from_le(value@));
    #[verifier::truncate]
    let n = v as i64;
    Ok(Some(n))
}

/// Stores `offset` as the next update to read.
pub fn set_offset(store: &mut KvStore, offset: i64) -> (r: KvStoreResult<()>)
    requires
        old(store).wf(),
    ensures
        final(store).wf(),
        r is Ok,
        final(store)@ == set_cell(old(store)@, offset_bucket(), offset_key(), offset_bytes(offset)),
{
    proof {
        reveal_strlit("offsets");
        reveal_strlit("latest_offset");
    }
    #[verifier::truncate]
    let v = offset as u64;
    let value: Vec<u8> = vec![
        (v & 0xff) as u8,
        ((v >> 8u64) & 0xff) as u8,
        ((v >> 16u64) & 0xff) as u8,
        ((v >> 24u64) & 0xff) as u8,
        ((v >> 32u64) & 0xff) as u8,
        ((v >> 40u64) & 0xff) as u8,
        ((v >> 48u64) & 0xff) as u8,
        ((v >> 56u64) & 0xff) as u8,
    ];
    assert(value@ =~= offset_bytes(offset));
    write_value(store, "offsets", "latest_offset", &value)
}

/// Of any number of pollers that opened their handle on the lock cell in the
/// same free state, the first to swap in `locked` wins and every later swap
/// fails; and once the lock is taken, `acquire_lock` fails until it is
/// released.
pub proof fn lemma_lock_exclusive(m: StoreView, seen: Option<Seq<u8>>)
    requires
        cell(m, locks_bucket(), lock_key()) == seen,
        seen != Some(locked()),
    ensures
        cas_succeeds(m, locks_bucket(), lock_key(), seen),
        !cas_succeeds(set_cell(m, locks_bucket(), lock_key(), locked()), locks_bucket(), lock_key(), seen),
        !lock_free(set_cell(m, locks_bucket(), lock_key(), locked())),
{
}

/// How many of `n` pollers win the lock when each opened its handle and saw
/// `seen`, and they then swap in `locked` one after another, each through
/// its own handle.
pub open spec fn lock_winners(m: StoreView, seen: Option<Seq<u8>>, n: nat) -> nat
    decreases n,
{
    if n == 0 {
        0
    } else if cas_succeeds(m, locks_bucket(), lock_key(), seen) {
        1 + lock_winners(set_cell(m, locks_bucket(), lock_key(), locked()), seen, (n - 1) as nat)
    } else {
        lock_winners(m, seen, (n - 1) as nat)
    }
}

/// Any number `n >= 1` of pollers that all saw the lock free, in whatever
/// order their swaps land, have exactly one winner; a poller that saw the
/// lock taken does not swap at all (`acquire_lock` fails at once).
pub proof fn lemma_exactly_one_winner(m: StoreView, seen: Option<Seq<u8>>, n: nat)
    requires
        cell(m, locks_bucket(), lock_key()) == seen,
        seen != Some(locked()),
        n >= 1,
    ensures
        lock_winners(m, seen, n) == 1,
{
    let taken = set_cell(m, locks_bucket(), lock_key(), locked());
    lemma_no_winner_once_taken(taken, seen, (n - 1) as nat);
}

proof fn lemma_no_winner_once_taken(m: StoreView, seen: Option<Seq<u8>>, n: nat)
    requires
        cell(m, locks_bucket(), lock_key()) == Some(locked()),
        seen != Some(locked()),
    ensures
        lock_winners(m, seen, n) == 0,
    decreases n,
{
    if n > 0 {
        lemma_no_winner_once_taken(m, seen, (n - 1) as nat);
    }
}

} // verus!
