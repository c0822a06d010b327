//! The operations that a driver works on, each found by its user data.
use vstd::prelude::*;

use crate::key::Key;
use crate::op::RawOp;
use crate::state::after_work;

verus! {

/// The operations in flight.
///
/// Each operation keeps its place in memory from the moment it is stored until
/// it is taken out, so that a driver may point into it.
pub struct Operations<T> {
    owner: u64,
    slots: Vec<Option<Box<RawOp<T>>>>,
    free: Vec<usize>,
}

impl<T> View for Operations<T> {
    type V = Map<usize, RawOp<T>>;

    /// The operations by their user data.
    closed spec fn view(&self) -> Map<usize, RawOp<T>> {
        Map::new(
            |k: usize| k < self.slots.len() && self.slots[k as int] is Some,
            |k: usize| *self.slots[k as int]->0,
        )
    }
}

impl<T> Operations<T> {
    /// The slots listed as free are the empty ones, and each is listed once.
    pub closed spec fn wf(&self) -> bool {
        &&& self.free@.no_duplicates()
        &&& forall|k: usize| #[trigger]
            self.free@.contains(k) <==> k < self.slots.len() && self.slots[k as int] is None
    }

    /// The proactor that the operations belong to.
    pub closed spec fn owner(&self) -> u64 {
        self.owner
    }

    /// There is an operation that the key is good for: it was made by the same
    /// proactor, and has this user data.
    pub open spec fn spec_owns(&self, key: &Key) -> bool {
        key.owner() == self.owner() && self@.contains_key(key.user_data())
    }

    /// No operations, of a proactor that is called `owner`.
    pub fn new(owner: u64) -> (ops: Operations<T>)
        ensures
            ops.wf(),
            ops.owner() == owner,
            ops@ == Map::<usize, RawOp<T>>::empty(),
    {
        let ops = Operations { owner, slots: Vec::new(), free: Vec::new() };
        assert(ops@ =~= Map::<usize, RawOp<T>>::empty());
        ops
    }

    /// Whether there is an operation that the key is good for.
    #[verifier::when_used_as_spec(spec_owns)]
    pub fn owns(&self, key: &Key) -> (owned: bool)
        ensures
            owned == self.owns(key),
    {
        key.owner() == self.owner && self.contains(key.user_data())
    }

    /// The key to an operation that was just stored.
    pub(crate) fn key(&self, user_data: usize) -> (key: Key)
        ensures
            key.owner() == self.owner(),
            key.user_data() == user_data,
    {
        Key::new(self.owner, user_data)
    }

    /// Whether there is an operation with this user data.
    pub fn contains(&self, user_data: usize) -> (found: bool)
        ensures
            found == self@.contains_key(user_data),
    {
        user_data < self.slots.len() && self.slots[user_data].is_some()
    }

    /// Whether the operation with this user data is completed.
    pub fn has_result(&self, user_data: usize) -> (completed: bool)
        requires
            self@.contains_key(user_data),
        ensures
            completed == self@[user_data].completed(),
    {
        self.get(user_data).has_result()
    }

    /// The operation with this user data, for a driver to work on.
    pub fn op_mut(&mut self, user_data: usize) -> (op: &mut T)
        requires
            old(self).wf(),
            old(self)@.contains_key(user_data),
        ensures
            *op == old(self)@[user_data].op,
            final(self).wf(),
            final(self).owner() == old(self).owner(),
            final(self)@ == after_work(old(self)@, user_data, *final(op)),
    {
        &mut self.get_mut(user_data).op
    }

    /// Store an operation. Its user data is one that no stored operation has.
    pub(crate) fn insert(&mut self, raw: RawOp<T>) -> (user_data: usize)
        requires
            old(self).wf(),
        ensures
            final(self).wf(),
            final(self).owner() == old(self).owner(),
            !old(self)@.contains_key(user_data),
            final(self)@ == old(self)@.insert(user_data, raw),
    {
        let ghost before = self@;
        let ghost free = self.free@;
        let user_data: usize = match self.free.pop() {
            Some(k) => {
                proof {
                    assert(free =~= self.free@.push(k));
                    lemma_push_contains(self.free@, k);
                    assert(free.contains(k));
                    assert(!self.free@.contains(k));
                    assert forall|j: usize| #[trigger] self.free@.contains(j) <==> free.contains(j)
                        && j != k by {
                        assert(free.contains(j) == self.free@.push(k).contains(j));
                    }
                }
                self.slots[k] = Some(Box::new(raw));
                k
            },
            None => {
                assert(!free.contains(self.slots.len()));
                let k: usize = self.slots.len();
                self.slots.push(Some(Box::new(raw)));
                k
            },
        };
        assert(self@ =~= before.insert(user_data, raw));
        user_data
    }

    /// Take an operation out.
    pub(crate) fn remove(&mut self, user_data: usize) -> (raw: RawOp<T>)
        requires
            old(self).wf(),
            old(self)@.contains_key(user_data),
        ensures
            final(self).wf(),
            final(self).owner() == old(self).owner(),
            raw == old(self)@[user_data],
            final(self)@ == old(self)@.remove(user_data),
    {
        let ghost before = self@;
        let raw = self.slots[user_data].take().unwrap();
        proof {
            assert(!self.free@.contains(user_data));
            lemma_push_contains(self.free@, user_data);
        }
        self.free.push(user_data);
        assert(self@ =~= before.remove(user_data));
        *raw
    }

    /// The stored operation.
    pub(crate) fn get(&self, user_data: usize) -> (raw: &RawOp<T>)
        requires
            self@.contains_key(user_data),
        ensures
            *raw == self@[user_data],
    {
        self.slots[user_data].as_ref().unwrap()
    }

    /// The stored operation, to be changed.
    pub(crate) fn get_mut(&mut self, user_data: usize) -> (raw: &mut RawOp<T>)
        requires
            old(self).wf(),
            old(self)@.contains_key(user_data),
        ensures
            *raw == old(self)@[user_data],
            final(self).wf(),
            final(self).owner() == old(self).owner(),
            final(self)@ == old(self)@.insert(user_data, *final(raw)),
    {
        self.slots[user_data].as_mut().unwrap()
    }
}

/// What a sequence contains after a push.
proof fn lemma_push_contains(s: Seq<usize>, k: usize)
    ensures
        forall|j: usize| #[trigger] s.push(k).contains(j) <==> s.contains(j) || j == k,
{
    assert forall|j: usize| s.contains(j) || j == k implies #[trigger] s.push(k).contains(j) by {
        if j == k {
            assert(s.push(k)[s.len() as int] == j);
        } else {
            let i = choose|i: int| 0 <= i < s.len() && s[i] == j;
            assert(s.push(k)[i] == j);
        }
    }
}

} // verus!
