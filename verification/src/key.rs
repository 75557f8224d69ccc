use vstd::prelude::*;
use crate::params::KEY_LEN;

verus! {

broadcast use vstd::array::group_array_axioms;

/// Every byte of the string is zero.
pub open spec fn all_zero(s: Seq<u8>) -> bool {
    forall|i: int| 0 <= i < s.len() ==> s[i] == 0
}

/// AES-128 key for use with OCB-AES: `KEY_LEN` bytes of secret material.
///
/// The bytes are overwritten with zero when the value is destroyed, on
/// every exit path, so that no key material lingers in the storage that
/// held it. A context initialized from a key derives its own internal
/// schedule and is thereafter independent of the key value.
#[derive(Clone)]
pub struct Key(pub [u8; KEY_LEN]);

impl View for Key {
    type V = Seq<u8>;

    open spec fn view(&self) -> Seq<u8> {
        self.0@
    }
}

impl Key {
    /// Overwrite the secret bytes with zero.
    ///
    /// Destruction does this on its own; the method lets a holder retire
    /// the material early, and makes the wipe observable.
    pub fn wipe(&mut self)
        ensures
            all_zero(final(self)@),
        opens_invariants none
        no_unwind
    {
        let mut i: usize = 0;
        while i < KEY_LEN
            invariant
                i <= KEY_LEN,
                self.0@.len() == KEY_LEN,
                forall|j: int| 0 <= j < i ==> self.0@[j] == 0,
            decreases KEY_LEN - i,
        {
            self.0[i] = 0;
            i = i + 1;
        }
    }
}

impl Drop for Key {
    /// The secret bytes do not outlive the value that held them.
    fn drop(&mut self)
        ensures
            all_zero(final(self)@),
        opens_invariants none
        no_unwind
    {
        self.wipe();
    }
}

} // verus!
