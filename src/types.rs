use vstd::prelude::*;

verus! {

/// A 20-byte account or contract address.
#[derive(Clone, Copy, Debug)]
pub struct Address(pub [u8; 20]);

/// A 32-byte hash or identifier.
#[derive(Clone, Copy, Debug)]
pub struct H256(pub [u8; 32]);

/// A 64-byte public key.
#[derive(Clone, Copy, Debug)]
pub struct Public(pub [u8; 64]);

impl View for Address {
    type V = Seq<u8>;

    open spec fn view(&self) -> Seq<u8> {
        self.0@
    }
}

impl View for H256 {
    type V = Seq<u8>;

    open spec fn view(&self) -> Seq<u8> {
        self.0@
    }
}

impl View for Public {
    type V = Seq<u8>;

    open spec fn view(&self) -> Seq<u8> {
        self.0@
    }
}

/// The all-zero address, which stands for "no contract installed".
pub open spec fn zero_address() -> Seq<u8> {
    Seq::new(20, |i: int| 0u8)
}

impl Address {
    /// The zero address.
    pub fn zero() -> (r: Address)
        ensures
            r@ == zero_address(),
    {
        let r = Address([0u8; 20]);
        assert(r@ =~= zero_address());
        r
    }

    /// Is this the zero address?
    pub fn is_zero(&self) -> (r: bool)
        ensures
            r == (self@ == zero_address()),
    {
        let mut i: usize = 0;
        while i < 20
            invariant
                i <= 20,
                forall|j: int| 0 <= j < i ==> self@[j] == 0u8,
            decreases 20 - i,
        {
            if self.0[i] != 0 {
                assert(self@ != zero_address()) by {
                    assert(zero_address()[i as int] == 0u8);
                }
                return false;
            }
            i = i + 1;
        }
        assert(self@ =~= zero_address());
        true
    }

    /// Byte-wise equality of two addresses.
    pub fn same_as(&self, other: &Address) -> (r: bool)
        ensures
            r == (self@ == other@),
    {
        let mut i: usize = 0;
        while i < 20
            invariant
                i <= 20,
                forall|j: int| 0 <= j < i ==> self@[j] == other@[j],
            decreases 20 - i,
        {
            if self.0[i] != other.0[i] {
                return false;
            }
            i = i + 1;
        }
        assert(self@ =~= other@);
        true
    }
}

impl H256 {
    /// Byte-wise equality of two hashes.
    pub fn same_as(&self, other: &H256) -> (r: bool)
        ensures
            r == (self@ == other@),
    {
        let mut i: usize = 0;
        while i < 32
            invariant
                i <= 32,
                forall|j: int| 0 <= j < i ==> self@[j] == other@[j],
            decreases 32 - i,
        {
            if self.0[i] != other.0[i] {
                return false;
            }
            i = i + 1;
        }
        assert(self@ =~= other@);
        true
    }
}

/// Work handed to the key server cluster.
#[derive(Clone, Copy, Debug)]
pub enum ServiceTask {
    /// Generate a server key with the given id and threshold.
    GenerateServerKey(H256, usize),
}

} // verus!
