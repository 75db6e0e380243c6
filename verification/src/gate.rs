//! The concurrency gate: at most one generation per conversation, and one
//! lock slot per worker of a profile. Both are kept by the pair of the
//! profile and the conversation or worker, the two names apart.

use crate::text::str_eq;
use vstd::prelude::*;
use vstd::string::*;

verus! {

/// The key of an entry as a mathematical value: the two names.
pub type Key = (Seq<char>, Seq<char>);

/// The key of a pair of names: the pair itself.
pub open spec fn pair_key(first: Seq<char>, second: Seq<char>) -> Key {
    (first, second)
}

/// Two pairs have one key only where they are the same pair: no name of a
/// profile, conversation or worker, whatever characters it holds, makes
/// one entry stand for another.
pub proof fn law_keys_tell_pairs_apart(
    a: Seq<char>,
    b: Seq<char>,
    c: Seq<char>,
    d: Seq<char>,
)
    ensures
        pair_key(a, b) == pair_key(c, d) <==> a == c && b == d,
{
}

/// The key of an entry: the two names, each kept as it is.
#[derive(Debug)]
pub struct PairKey {
    pub first: String,
    pub second: String,
}

impl View for PairKey {
    type V = Key;

    open spec fn view(&self) -> Key {
        (self.first@, self.second@)
    }
}

/// The registry key of a conversation of a profile.
pub fn inflight_key(profile_id: &str, chat_id: &str) -> (r: PairKey)
    ensures
        r@ == pair_key(profile_id@, chat_id@),
{
    PairKey { first: String::from_str(profile_id), second: String::from_str(chat_id) }
}

/// The lock-table key of a worker of a profile.
pub fn worker_key(profile_id: &str, worker: &str) -> (r: PairKey)
    ensures
        r@ == pair_key(profile_id@, worker@),
{
    PairKey { first: String::from_str(profile_id), second: String::from_str(worker) }
}

/// The index of the pair among `keys`, if it is there.
fn find_key(keys: &Vec<PairKey>, first: &str, second: &str) -> (r: Option<usize>)
    ensures
        match r {
            Some(i) => i < keys@.len() && keys@[i as int]@ == pair_key(first@, second@)
                && forall|j: int| 0 <= j < i ==> keys@[j]@ != pair_key(first@, second@),
            None => forall|j: int|
                0 <= j < keys@.len() ==> keys@[j]@ != pair_key(first@, second@),
        },
{
    let n = keys.len();
    let mut i: usize = 0;
    while i < n
        invariant
            n == keys@.len(),
            i <= n,
            forall|j: int| 0 <= j < i ==> keys@[j]@ != pair_key(first@, second@),
        decreases n - i,
    {
        if str_eq(keys[i].first.as_str(), first) && str_eq(keys[i].second.as_str(), second) {
            return Some(i);
        }
        i = i + 1;
    }
    None
}

/// No key occurs twice.
pub open spec fn distinct_keys(keys: Seq<PairKey>) -> bool {
    forall|i: int, j: int| 0 <= i < j < keys.len() ==> keys[i]@ != keys[j]@
}

/// The conversations that are generating now. A pair is in the registry
/// from a successful `acquire` to the next `release` of it.
pub struct InflightRegistry {
    keys: Vec<PairKey>,
}

impl View for InflightRegistry {
    type V = Set<Key>;

    closed spec fn view(&self) -> Set<Key> {
        Set::new(|k: Key| exists|i: int| 0 <= i < self.keys@.len() && self.keys@[i]@ == k)
    }
}

impl InflightRegistry {
    #[verifier::type_invariant]
    spec fn inv(self) -> bool {
        distinct_keys(self.keys@)
    }

    /// A registry in which nothing is generating.
    pub fn new() -> (r: Self)
        ensures
            r@ == Set::<Key>::empty(),
    {
        let r = InflightRegistry { keys: Vec::new() };
        r
    }

    /// Whether the conversation is generating.
    pub fn is_inflight(&self, profile_id: &str, chat_id: &str) -> (r: bool)
        ensures
            r == self@.contains(pair_key(profile_id@, chat_id@)),
    {
        find_key(&self.keys, profile_id, chat_id).is_some()
    }

    /// Registers the conversation. Returns `false`, and changes nothing,
    /// where it is registered already.
    pub fn acquire(&mut self, profile_id: &str, chat_id: &str) -> (acquired: bool)
        ensures
            acquired == !old(self)@.contains(pair_key(profile_id@, chat_id@)),
            acquired ==> final(self)@ == old(self)@.insert(pair_key(profile_id@, chat_id@)),
            !acquired ==> final(self)@ == old(self)@,
    {
        proof {
            use_type_invariant(&*self);
        }
        match find_key(&self.keys, profile_id, chat_id) {
            Some(_) => false,
            None => {
                let key = inflight_key(profile_id, chat_id);
                let ghost before = self.keys@;
                let mut keys: Vec<PairKey> = Vec::new();
                core::mem::swap(&mut keys, &mut self.keys);
                keys.push(key);
                self.keys = keys;
                assert forall|k: Key| self@.contains(k) == old(self)@.insert(key@).contains(k) by {
                    if old(self)@.insert(key@).contains(k) {
                        if k == key@ {
                            assert(self.keys@[before.len() as int]@ == k);
                        } else {
                            let i = choose|i: int| 0 <= i < before.len() && before[i]@ == k;
                            assert(self.keys@[i]@ == k);
                        }
                    }
                }
                true
            },
        }
    }

    /// Removes the conversation from the registry; nothing changes where
    /// it is not registered.
    pub fn release(&mut self, profile_id: &str, chat_id: &str)
        ensures
            final(self)@ == old(self)@.remove(pair_key(profile_id@, chat_id@)),
    {
        proof {
            use_type_invariant(&*self);
        }
        let ghost key = pair_key(profile_id@, chat_id@);
        match find_key(&self.keys, profile_id, chat_id) {
            Some(i) => {
                let ghost before = self.keys@;
                let mut keys: Vec<PairKey> = Vec::new();
                core::mem::swap(&mut keys, &mut self.keys);
                keys.remove(i);
                self.keys = keys;
                assert forall|k: Key| self@.contains(k) == old(self)@.remove(key).contains(k) by {
                    if old(self)@.remove(key).contains(k) {
                        let j = choose|j: int| 0 <= j < before.len() && before[j]@ == k;
                        if j < i {
                            assert(self.keys@[j]@ == k);
                        } else {
                            assert(self.keys@[j - 1]@ == k);
                        }
                    }
                }
            },
            None => {},
        }
    }
}

/// The lock slots of the workers. A worker gets its slot when it is first
/// asked for and keeps it; the slot's number names the lock that callers
/// hold while the worker generates.
pub struct WorkerLockTable {
    keys: Vec<PairKey>,
}

impl View for WorkerLockTable {
    type V = Seq<Key>;

    /// The pair of each slot, by slot number.
    closed spec fn view(&self) -> Seq<Key> {
        Seq::new(self.keys@.len(), |i: int| self.keys@[i]@)
    }
}

/// No pair has two slots.
pub open spec fn distinct_slots(slots: Seq<Key>) -> bool {
    forall|i: int, j: int| 0 <= i < j < slots.len() ==> slots[i] != slots[j]
}

impl WorkerLockTable {
    #[verifier::type_invariant]
    spec fn inv(self) -> bool {
        distinct_keys(self.keys@)
    }

    /// A table without slots.
    pub fn new() -> (r: Self)
        ensures
            r@ == Seq::<Key>::empty(),
    {
        let r = WorkerLockTable { keys: Vec::new() };
        r
    }

    /// The number of slots.
    pub fn len(&self) -> (r: usize)
        ensures
            r == self@.len(),
    {
        self.keys.len()
    }

    /// The slot of the worker, made at the end of the table where the
    /// worker has none. Slots that exist stay as they are, so the same
    /// pair always gets the same slot, and another pair another one.
    pub fn get_worker_lock(&mut self, profile_id: &str, worker: &str) -> (slot: usize)
        ensures
            slot < final(self)@.len(),
            final(self)@[slot as int] == pair_key(profile_id@, worker@),
            old(self)@.contains(pair_key(profile_id@, worker@)) ==> final(self)@ == old(self)@,
            !old(self)@.contains(pair_key(profile_id@, worker@)) ==> final(self)@ == old(
                self,
            )@.push(pair_key(profile_id@, worker@)),
            distinct_slots(final(self)@),
            forall|i: int|
                0 <= i < final(self)@.len() && final(self)@[i] == pair_key(profile_id@, worker@)
                    ==> i == slot,
    {
        proof {
            use_type_invariant(&*self);
        }
        let ghost key = pair_key(profile_id@, worker@);
        match find_key(&self.keys, profile_id, worker) {
            Some(i) => {
                assert(self@[i as int] == key);
                i
            },
            None => {
                let n = self.keys.len();
                let mut keys: Vec<PairKey> = Vec::new();
                core::mem::swap(&mut keys, &mut self.keys);
                keys.push(worker_key(profile_id, worker));
                self.keys = keys;
                n
            },
        }
    }
}

/// Two workers share a slot only where they are the same pair: in a
/// table, the pairs of two different slots differ, and the slots of two
/// different pairs differ.
pub proof fn law_workers_get_their_own_slot(slots: Seq<Key>, i: int, j: int)
    requires
        distinct_slots(slots),
        0 <= i < slots.len(),
        0 <= j < slots.len(),
    ensures
        slots[i] == slots[j] <==> i == j,
        (slots[i].0 != slots[j].0 || slots[i].1 != slots[j].1) ==> i != j,
{
}

} // verus!
