use vstd::prelude::*;

use crate::keys::AccountId;

verus! {

/// Label that prefixes the seed list of every dreamer record: the bytes of
/// `"dreamer"`.
pub open spec fn dreamer_label() -> Seq<u8> {
    seq![100u8, 114u8, 101u8, 97u8, 109u8, 101u8, 114u8]
}

/// Label that prefixes the seed list of every swap record: the bytes of
/// `"swapped"`.
pub open spec fn swap_label() -> Seq<u8> {
    seq![115u8, 119u8, 97u8, 112u8, 112u8, 101u8, 100u8]
}

/// A program-owned record holding one asset for an end user, addressed by
/// `["dreamer", id, authority, bump]`.
#[derive(Clone, Copy, Debug, PartialEq, Eq)]
pub struct DreamerRecord {
    /// Address of the record account itself; the custody authority.
    pub address: AccountId,
    /// Small integer discriminator, one byte of the seed list.
    pub id: u8,
    /// The end user's public identity.
    pub authority: AccountId,
    /// Derivation nonce chosen so that the seeds map to `address`.
    pub bump: u8,
}

/// A program-owned record holding one asset taken in swap, addressed by
/// `["swapped", authority, bump]`.
#[derive(Clone, Copy, Debug, PartialEq, Eq)]
pub struct SwapRecord {
    /// Address of the record account itself; the custody authority.
    pub address: AccountId,
    /// The end user's public identity.
    pub authority: AccountId,
    /// Derivation nonce chosen so that the seeds map to `address`.
    pub bump: u8,
}

/// The two custodial holding-record variants, each carrying its own
/// seed recipe.
#[derive(Clone, Copy, Debug, PartialEq, Eq)]
pub enum HoldingRecord {
    Dreamer(DreamerRecord),
    Swap(SwapRecord),
}

impl HoldingRecord {
    /// The ordered seed list that both names this record's address and
    /// authorizes signatures on its behalf.
    pub open spec fn seeds_spec(self) -> Seq<Seq<u8>> {
        match self {
            HoldingRecord::Dreamer(d) => seq![
                dreamer_label(),
                seq![d.id],
                d.authority@,
                seq![d.bump],
            ],
            HoldingRecord::Swap(s) => seq![swap_label(), s.authority@, seq![s.bump]],
        }
    }

    /// Address of the record account itself.
    pub open spec fn address_spec(self) -> AccountId {
        match self {
            HoldingRecord::Dreamer(d) => d.address,
            HoldingRecord::Swap(s) => s.address,
        }
    }

    pub fn address(&self) -> (r: AccountId)
        ensures
            r == self.address_spec(),
    {
        match self {
            HoldingRecord::Dreamer(d) => d.address,
            HoldingRecord::Swap(s) => s.address,
        }
    }

    /// Builds the seed list of this record, exactly as `seeds_spec` states it.
    pub fn derivation_seeds(&self) -> (r: Vec<Vec<u8>>)
        ensures
            r.deep_view() == self.seeds_spec(),
    {
        let mut seeds: Vec<Vec<u8>> = Vec::new();
        match self {
            HoldingRecord::Dreamer(d) => {
                seeds.push(dreamer_label_bytes());
                seeds.push(single_byte(d.id));
                seeds.push(account_id_bytes(&d.authority));
                seeds.push(single_byte(d.bump));
            },
            HoldingRecord::Swap(s) => {
                seeds.push(swap_label_bytes());
                seeds.push(account_id_bytes(&s.authority));
                seeds.push(single_byte(s.bump));
            },
        }
        proof {
            assert(seeds.deep_view() =~~= self.seeds_spec());
        }
        seeds
    }

    /// A record is well formed for a holding program when its stored address
    /// is exactly the one the host derives from its seeds.
    pub open spec fn wf(self, program_id: Seq<u8>) -> bool {
        derived_address(self.seeds_spec(), program_id) == Some(self.address_spec()@)
    }
}

fn dreamer_label_bytes() -> (r: Vec<u8>)
    ensures
        r@ == dreamer_label(),
{
    let mut v: Vec<u8> = Vec::new();
    v.push(100);
    v.push(114);
    v.push(101);
    v.push(97);
    v.push(109);
    v.push(101);
    v.push(114);
    proof {
        assert(v@ =~= dreamer_label());
    }
    v
}

fn swap_label_bytes() -> (r: Vec<u8>)
    ensures
        r@ == swap_label(),
{
    let mut v: Vec<u8> = Vec::new();
    v.push(115);
    v.push(119);
    v.push(97);
    v.push(112);
    v.push(112);
    v.push(101);
    v.push(100);
    proof {
        assert(v@ =~= swap_label());
    }
    v
}

fn single_byte(b: u8) -> (r: Vec<u8>)
    ensures
        r@ == seq![b],
{
    let mut v: Vec<u8> = Vec::new();
    v.push(b);
    proof {
        assert(v@ =~= seq![b]);
    }
    v
}

fn account_id_bytes(a: &AccountId) -> (r: Vec<u8>)
    ensures
        r@ == a@,
{
    let mut v: Vec<u8> = Vec::new();
    let mut i: usize = 0;
    while i < 32
        invariant
            0 <= i <= 32,
            v@.len() == i,
            forall|j: int| 0 <= j < i ==> v@[j] == a.bytes@[j],
        decreases 32 - i,
    {
        v.push(a.bytes[i]);
        i += 1;
    }
    proof {
        assert(v@ =~= a@);
    }
    v
}

/// The address the host chain derives from a seed list and a program
/// identity: a hash of both, refused when it lands on the curve or when the
/// seed list is over the host's limits. A pure function of its arguments.
pub uninterp spec fn derived_address(seeds: Seq<Seq<u8>>, program_id: Seq<u8>) -> Option<Seq<u8>>;

/// Relies on solana_program's `Pubkey::create_program_address`: the result is
/// a hash of the seeds and the program id alone, `Err` exactly when the hash
/// lands on the ed25519 curve or a seed is over the host's length limits.
#[verifier::external_body]
fn create_address(seeds: &Vec<Vec<u8>>, program_id: &AccountId) -> (r: Option<AccountId>)
    ensures
        (match r {
            Some(a) => Some(a@),
            None => None,
        }) == derived_address(seeds.deep_view(), program_id@),
        seeds.deep_view().len() > 16 ==> r is None,
{
    let refs: Vec<&[u8]> = seeds.iter().map(|s| s.as_slice()).collect();
    let pk = solana_program::pubkey::Pubkey::new_from_array(program_id.bytes);
    match solana_program::pubkey::Pubkey::create_program_address(&refs, &pk) {
        Ok(out) => Some(AccountId { bytes: out.to_bytes() }),
        Err(_) => None,
    }
}

/// Re-derives this record's address from its seeds and compares it with the
/// stored one: true exactly when the record is well formed for `program_id`.
/// A caller that sees `false` must not dispatch: the host would refuse the
/// derived signature.
pub fn authority_verifies(record: &HoldingRecord, program_id: &AccountId) -> (r: bool)
    ensures
        r == record.wf(program_id@),
{
    let seeds = record.derivation_seeds();
    let derived = create_address(&seeds, program_id);
    match derived {
        Some(a) => {
            let addr = record.address();
            crate::keys::account_id_eq(&a, &addr)
        },
        None => false,
    }
}

/// Round trip of derivation: a well-formed record's seeds, re-derived,
/// reproduce exactly the address the record stores.
pub proof fn lemma_rederivation_round_trip(record: HoldingRecord, program_id: Seq<u8>)
    requires
        record.wf(program_id),
    ensures
        derived_address(record.seeds_spec(), program_id) == Some(record.address_spec()@),
{
}

/// A record's address is fully determined by its seeds: two well-formed
/// records under the same holding program whose seed lists agree store the
/// same address, so records cannot collide or be forged.
pub proof fn lemma_address_determined_by_seeds(
    r1: HoldingRecord,
    r2: HoldingRecord,
    program_id: Seq<u8>,
)
    requires
        r1.wf(program_id),
        r2.wf(program_id),
        r1.seeds_spec() == r2.seeds_spec(),
    ensures
        r1.address_spec()@ == r2.address_spec()@,
{
}

/// A derivation for one variant can never authorize the other: the two seed
/// recipes differ in their leading label, whatever the records hold.
pub proof fn lemma_variant_seeds_disjoint(d: DreamerRecord, s: SwapRecord)
    ensures
        HoldingRecord::Dreamer(d).seeds_spec() != HoldingRecord::Swap(s).seeds_spec(),
{
    let ds = HoldingRecord::Dreamer(d).seeds_spec();
    let ss = HoldingRecord::Swap(s).seeds_spec();
    assert(ds[0][0] == 100u8);
    assert(ss[0][0] == 115u8);
    assert(ds[0] != ss[0]);
}

} // verus!
