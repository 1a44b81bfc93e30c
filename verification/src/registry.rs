use vstd::prelude::*;
use crate::errors::EnvError;
use crate::eq_bytes32;

verus! {

/// The set of record addresses this system has created. It models the
/// host's storage capability: a record can be allocated at an address at
/// most once, and an existing record proves that the creation that put it
/// there has happened.
pub struct AddressRegistry {
    addrs: Vec<[u8; 32]>,
}

impl View for AddressRegistry {
    type V = Set<Seq<u8>>;

    closed spec fn view(&self) -> Set<Seq<u8>> {
        Set::new(|a: Seq<u8>| exists|i: int| 0 <= i < self.addrs@.len() && self.addrs@[i]@ == a)
    }
}

impl AddressRegistry {
    /// A fresh deployment: no record exists yet.
    pub fn new() -> (r: AddressRegistry)
        ensures
            r@ == Set::<Seq<u8>>::empty(),
    {
        let r = AddressRegistry { addrs: Vec::new() };
        proof {
            assert(r@ =~= Set::<Seq<u8>>::empty());
        }
        r
    }

    /// Whether a record exists at the given address.
    pub fn contains(&self, addr: &[u8; 32]) -> (b: bool)
        ensures
            b == self@.contains(addr@),
    {
        let mut i: usize = 0;
        while i < self.addrs.len()
            invariant
                i <= self.addrs@.len(),
                forall|j: int| 0 <= j < i ==> self.addrs@[j]@ != addr@,
            decreases self.addrs@.len() - i,
        {
            if eq_bytes32(&self.addrs[i], addr) {
                return true;
            }
            i += 1;
        }
        false
    }

    /// Allocate a record at an address. Succeeds exactly when no record
    /// exists there yet; a second claim of the same address fails with
    /// `AlreadyExists` and changes nothing.
    pub fn claim(&mut self, addr: &[u8; 32]) -> (r: Result<(), EnvError>)
        ensures
            old(self)@.contains(addr@) ==> r == Err::<(), EnvError>(EnvError::AlreadyExists)
                && final(self)@ == old(self)@,
            !old(self)@.contains(addr@) ==> r == Ok::<(), EnvError>(())
                && final(self)@ == old(self)@.insert(addr@),
    {
        if self.contains(addr) {
            return Err(EnvError::AlreadyExists);
        }
        let ghost pre = self.addrs@;
        self.addrs.push(*addr);
        proof {
            assert forall|a: Seq<u8>| self@.contains(a) <==> (Set::new(
                |x: Seq<u8>| exists|i: int| 0 <= i < pre.len() && pre[i]@ == x,
            ).insert(addr@)).contains(a) by {
                if self@.contains(a) {
                    let i = choose|i: int| 0 <= i < self.addrs@.len() && self.addrs@[i]@ == a;
                    if i < pre.len() {
                        assert(pre[i]@ == a);
                    } else {
                        assert(self.addrs@[i] == *addr);
                    }
                }
                if a == addr@ {
                    assert(self.addrs@[pre.len() as int]@ == a);
                }
                if exists|i: int| 0 <= i < pre.len() && pre[i]@ == a {
                    let i = choose|i: int| 0 <= i < pre.len() && pre[i]@ == a;
                    assert(self.addrs@[i]@ == a);
                }
            }
            assert(final(self)@ =~= old(self)@.insert(addr@));
        }
        Ok(())
    }
}

} // verus!
