//! The key to a pushed operation.
use vstd::prelude::*;

verus! {

/// The key to an operation in flight. Whoever holds it is the one who may pop or
/// cancel the operation; doing so gives up the key. A key is good only with the
/// proactor that made it, which it names as its owner.
pub struct Key {
    owner: u64,
    user_data: usize,
}

impl Key {
    /// The proactor that made the key.
    pub closed spec fn spec_owner(&self) -> u64 {
        self.owner
    }

    /// The user data of the operation.
    pub closed spec fn spec_user_data(&self) -> usize {
        self.user_data
    }

    pub(crate) fn new(owner: u64, user_data: usize) -> (key: Key)
        ensures
            key.owner() == owner,
            key.user_data() == user_data,
    {
        Key { owner, user_data }
    }

    /// The proactor that made the key.
    #[verifier::when_used_as_spec(spec_owner)]
    pub fn owner(&self) -> (owner: u64)
        ensures
            owner == self.owner(),
    {
        self.owner
    }

    /// The user data of the operation.
    #[verifier::when_used_as_spec(spec_user_data)]
    pub fn user_data(&self) -> (user_data: usize)
        ensures
            user_data == self.user_data(),
    {
        self.user_data
    }
}

} // verus!
