use vstd::prelude::*;

verus! {

/// A 32-byte account identity, as the host chain addresses every account,
/// program and mint. The core only ever reads and compares these.
#[derive(Clone, Copy, Debug, PartialEq, Eq)]
pub struct AccountId {
    pub bytes: [u8; 32],
}

impl View for AccountId {
    type V = Seq<u8>;

    open spec fn view(&self) -> Seq<u8> {
        self.bytes@
    }
}

/// Byte-for-byte equality of two account identities.
pub fn account_id_eq(a: &AccountId, b: &AccountId) -> (r: bool)
    ensures
        r == (a@ == b@),
{
    let mut i: usize = 0;
    while i < 32
        invariant
            0 <= i <= 32,
            forall|j: int| 0 <= j < i ==> a.bytes@[j] == b.bytes@[j],
        decreases 32 - i,
    {
        if a.bytes[i] != b.bytes[i] {
            return false;
        }
        i += 1;
    }
    proof {
        assert(a@ =~= b@);
    }
    true
}

/// The identities of a token account that the core reads: its own address and
/// the wallet that owns it. All mutation of the underlying account happens
/// inside the invoked token program, never here.
#[derive(Clone, Copy, Debug, PartialEq, Eq)]
pub struct TokenAccountInfo {
    /// Address of the token account itself.
    pub address: AccountId,
    /// The wallet or record that owns the tokens held by this account.
    pub owner: AccountId,
}

} // verus!
