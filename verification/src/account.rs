use vstd::prelude::*;

verus! {

/// A Solana account address: 32 bytes.
pub type Address = [u8; 32];

/// What the program reads of an account that a transaction hands it: its
/// address, the program that owns it, whether it signed the transaction, and
/// its data.
#[derive(Debug, Clone)]
pub struct AccountView {
    pub address: Address,
    pub owner: Address,
    pub is_signer: bool,
    pub data: Vec<u8>,
}

impl AccountView {
    /// Whether this account is owned by `program`.
    pub fn owned_by(&self, program: &Address) -> (r: bool)
        ensures
            r == (self.owner@ == program@),
    {
        pubkey_eq(&self.owner, program)
    }

    /// The number of bytes of the account's data.
    pub fn data_len(&self) -> (r: usize)
        ensures
            r == self.data@.len(),
    {
        self.data.len()
    }
}

/// A byte vector's deep view is its view.
pub proof fn lemma_bytes_deep_view(v: Vec<u8>)
    ensures
        v.deep_view() == v@,
{
    assert(v.deep_view() =~= v@);
}

/// The deep view of a vector of byte vectors is the sequence of their views.
pub proof fn lemma_seeds_deep_view(v: Vec<Vec<u8>>)
    ensures
        v.deep_view().len() == v@.len(),
        forall|i: int| 0 <= i < v@.len() ==> #[trigger] v.deep_view()[i] == v@[i]@,
{
    assert forall|i: int| 0 <= i < v@.len() implies #[trigger] v.deep_view()[i] == v@[i]@ by {
        lemma_bytes_deep_view(v@[i]);
    }
}

/// Compares two addresses byte by byte.
pub fn pubkey_eq(a: &Address, b: &Address) -> (r: bool)
    ensures
        r == (a@ == b@),
{
    let mut i: usize = 0;
    while i < 32
        invariant
            0 <= i <= 32,
            forall|j: int| 0 <= j < i ==> a@[j] == b@[j],
        decreases 32 - i,
    {
        if a[i] != b[i] {
            return false;
        }
        i = i + 1;
    }
    assert(a@ =~= b@);
    true
}

/// The bytes of an address, as a vector.
pub fn address_to_vec(a: &Address) -> (v: Vec<u8>)
    ensures
        v@ == a@,
{
    vstd::slice::slice_to_vec(vstd::array::array_as_slice(a))
}

/// Copies the 32 bytes of `data` that start at `offset` into an address.
pub fn read_address(data: &[u8], offset: usize) -> (a: Address)
    requires
        offset + 32 <= data.len(),
    ensures
        a@ == data@.subrange(offset as int, offset + 32),
{
    let mut a: Address = [0u8; 32];
    let mut i: usize = 0;
    while i < 32
        invariant
            0 <= i <= 32,
            offset + 32 <= data.len(),
            a@.len() == 32,
            forall|j: int| 0 <= j < i ==> a@[j] == data@[offset + j],
        decreases 32 - i,
    {
        a[i] = data[offset + i];
        i = i + 1;
    }
    assert(a@ =~= data@.subrange(offset as int, offset + 32));
    a
}

} // verus!
