use vstd::prelude::*;
use vstd::bytes::lemma_auto_spec_u64_to_from_le_bytes;
use vstd::bytes::spec_u64_from_le_bytes;
use vstd::bytes::spec_u64_to_le_bytes;
use vstd::bytes::u64_to_le_bytes;

use solana_program::pubkey::Pubkey;

use crate::errors::TransferError;
use crate::keys::AccountId;

verus! {

/// One entry of a wire instruction's ordered account list: the account's
/// identity with its mutability and signer flags.
#[derive(Clone, Copy, Debug, PartialEq, Eq)]
pub struct AccountSlot {
    pub key: AccountId,
    pub writable: bool,
    pub signer: bool,
}

/// A protocol instruction as it goes over the wire: the target program, the
/// ordered account list, and the serialized argument payload. Built,
/// dispatched and discarded within one transfer call.
#[derive(Clone, Debug, PartialEq, Eq)]
pub struct WireInstruction {
    pub program_id: AccountId,
    pub accounts: Vec<AccountSlot>,
    pub data: Vec<u8>,
}

/// The token program's published identity,
/// `TokenkegQfeZyiNwAJbNbGKPFXCWuBvf9Ss623VQ5DA` as bytes.
pub open spec fn token_program_id_bytes() -> Seq<u8> {
    seq![
        6u8, 221u8, 246u8, 225u8, 215u8, 101u8, 161u8, 147u8,
        217u8, 203u8, 225u8, 70u8, 206u8, 235u8, 121u8, 172u8,
        28u8, 180u8, 133u8, 237u8, 95u8, 91u8, 55u8, 145u8,
        58u8, 140u8, 245u8, 133u8, 126u8, 255u8, 0u8, 169u8,
    ]
}

/// The extended protocol's published program identity,
/// `metaqbxxUerdq28cj1RbAWkYQm3ybzjb6a8bt518x1s` as bytes.
pub open spec fn metadata_program_id_bytes() -> Seq<u8> {
    seq![
        11u8, 112u8, 101u8, 177u8, 227u8, 209u8, 124u8, 69u8,
        56u8, 157u8, 82u8, 127u8, 107u8, 4u8, 195u8, 205u8,
        88u8, 184u8, 108u8, 115u8, 26u8, 160u8, 253u8, 181u8,
        73u8, 182u8, 209u8, 188u8, 3u8, 248u8, 41u8, 70u8,
    ]
}

/// The token program's identity as an `AccountId`.
pub fn spl_token_program_id() -> (r: AccountId)
    ensures
        r@ == token_program_id_bytes(),
{
    let a = AccountId {
        bytes: [
            6u8, 221u8, 246u8, 225u8, 215u8, 101u8, 161u8, 147u8,
            217u8, 203u8, 225u8, 70u8, 206u8, 235u8, 121u8, 172u8,
            28u8, 180u8, 133u8, 237u8, 95u8, 91u8, 55u8, 145u8,
            58u8, 140u8, 245u8, 133u8, 126u8, 255u8, 0u8, 169u8,
        ],
    };
    proof {
        assert(a@ =~= token_program_id_bytes());
    }
    a
}

/// The extended protocol's program identity as an `AccountId`.
pub fn token_metadata_program_id() -> (r: AccountId)
    ensures
        r@ == metadata_program_id_bytes(),
{
    let a = AccountId {
        bytes: [
            11u8, 112u8, 101u8, 177u8, 227u8, 209u8, 124u8, 69u8,
            56u8, 157u8, 82u8, 127u8, 107u8, 4u8, 195u8, 205u8,
            88u8, 184u8, 108u8, 115u8, 26u8, 160u8, 253u8, 181u8,
            73u8, 182u8, 209u8, 188u8, 3u8, 248u8, 41u8, 70u8,
        ],
    };
    proof {
        assert(a@ =~= metadata_program_id_bytes());
    }
    a
}

/// The basic protocol's argument payload: the transfer opcode (tag 3)
/// followed by the amount in little-endian bytes.
pub open spec fn basic_payload_spec(amount: u64) -> Seq<u8> {
    seq![3u8] + spec_u64_to_le_bytes(amount)
}

/// The basic protocol's account list: source and destination writable, the
/// custody authority as the sole required signer.
pub open spec fn basic_account_list_spec(
    source: AccountId,
    destination: AccountId,
    authority: AccountId,
) -> Seq<AccountSlot> {
    seq![
        AccountSlot { key: source, writable: true, signer: false },
        AccountSlot { key: destination, writable: true, signer: false },
        AccountSlot { key: authority, writable: false, signer: true },
    ]
}

/// What a well-built basic transfer instruction looks like, field by field.
pub open spec fn is_basic_instruction(
    w: WireInstruction,
    program_token: AccountId,
    source: AccountId,
    destination: AccountId,
    authority: AccountId,
    amount: u64,
) -> bool {
    &&& w.program_id == program_token
    &&& w.accounts@ == basic_account_list_spec(source, destination, authority)
    &&& w.data@ == basic_payload_spec(amount)
}

/// Relies on `spl_token::instruction::transfer`: it returns `Ok` exactly when
/// the supplied program id is the token program's own, and the instruction it
/// builds targets that program with accounts
/// [source (writable), destination (writable), authority (readonly signer)]
/// and the payload tag 3 followed by the amount in little-endian bytes.
#[verifier::external_body]
fn spl_transfer_instruction(
    program_token: &AccountId,
    source: &AccountId,
    destination: &AccountId,
    authority: &AccountId,
    amount: u64,
) -> (r: Option<WireInstruction>)
    ensures
        r is Some <==> program_token@ == token_program_id_bytes(),
        r is Some ==> is_basic_instruction(
            r.unwrap(),
            *program_token,
            *source,
            *destination,
            *authority,
            amount,
        ),
{
    let pk = |a: &AccountId| Pubkey::new_from_array(a.bytes);
    let ins = spl_token::instruction::transfer(
        &pk(program_token), &pk(source), &pk(destination), &pk(authority), &[], amount,
    ).ok()?;
    let accounts = ins.accounts.iter().map(|m| AccountSlot {
        key: AccountId { bytes: m.pubkey.to_bytes() },
        writable: m.is_writable,
        signer: m.is_signer,
    }).collect();
    let program_id = AccountId { bytes: ins.program_id.to_bytes() };
    Some(WireInstruction { program_id, accounts, data: ins.data })
}

/// Builds the basic protocol's transfer instruction for one unit, exactly as
/// the token program expects it: `Err` exactly when the supplied token
/// program reference is not the token program's published identity.
pub fn build_basic_transfer(
    program_token: &AccountId,
    source: &AccountId,
    destination: &AccountId,
    authority: &AccountId,
) -> (r: Result<WireInstruction, TransferError>)
    ensures
        r is Ok <==> program_token@ == token_program_id_bytes(),
        r is Err ==> r.unwrap_err() == TransferError::IncorrectTokenProgram,
        r is Ok ==> is_basic_instruction(
            r.unwrap(),
            *program_token,
            *source,
            *destination,
            *authority,
            1,
        ),
{
    match spl_transfer_instruction(program_token, source, destination, authority, 1) {
        Some(w) => Ok(w),
        None => Err(TransferError::IncorrectTokenProgram),
    }
}

/// The extended protocol's argument payload: the Transfer opcode (49), the
/// argument-variant tag for version one (0), the amount in little-endian
/// bytes, and an absent authorization payload (0).
pub open spec fn extended_payload_spec(amount: u64) -> Seq<u8> {
    seq![49u8, 0u8] + spec_u64_to_le_bytes(amount) + seq![0u8]
}

/// Serializes the extended protocol's transfer arguments.
pub fn extended_transfer_payload(amount: u64) -> (r: Vec<u8>)
    ensures
        r@ == extended_payload_spec(amount),
{
    let mut v: Vec<u8> = Vec::new();
    v.push(49);
    v.push(0);
    let mut le = u64_to_le_bytes(amount);
    v.append(&mut le);
    v.push(0);
    proof {
        assert(v@ =~= extended_payload_spec(amount));
    }
    v
}

/// The full cast of an extended-protocol transfer, one named field per slot
/// so that a caller can never reorder the positional list by accident.
#[derive(Clone, Copy, Debug, PartialEq, Eq)]
pub struct ExtendedTransferAccounts {
    /// Source token account.
    pub token_account: AccountId,
    /// Owner of the source token account; also the transfer authority.
    pub owner: AccountId,
    /// Destination token account.
    pub destination_token_account: AccountId,
    /// Owner of the destination token account.
    pub destination: AccountId,
    /// Mint of the asset.
    pub mint: AccountId,
    /// Metadata account of the asset.
    pub metadata: AccountId,
    /// Edition account of the asset.
    pub edition: AccountId,
    /// Token record of the source token account.
    pub token_record: AccountId,
    /// Token record of the destination token account.
    pub destination_token_record: AccountId,
    /// Account paying for the call.
    pub payer: AccountId,
    /// The system program.
    pub system_program: AccountId,
    /// The instructions sysvar.
    pub sysvar_instructions: AccountId,
    /// The token program.
    pub token_program: AccountId,
    /// The associated-token-account program.
    pub associated_token_program: AccountId,
    /// The authorization-rules program.
    pub authorization_rules_program: AccountId,
    /// The authorization-rules account.
    pub authorization_rules: AccountId,
    /// The extended protocol's program, the instruction's target.
    pub token_metadata_program: AccountId,
}

/// The extended protocol's fixed 17-slot account list, in the exact order
/// the program indexes it.
pub open spec fn extended_account_list_spec(a: ExtendedTransferAccounts) -> Seq<AccountSlot> {
    seq![
        AccountSlot { key: a.token_account, writable: true, signer: false },
        AccountSlot { key: a.owner, writable: false, signer: false },
        AccountSlot { key: a.destination_token_account, writable: true, signer: false },
        AccountSlot { key: a.destination, writable: false, signer: false },
        AccountSlot { key: a.mint, writable: false, signer: false },
        AccountSlot { key: a.metadata, writable: true, signer: false },
        AccountSlot { key: a.edition, writable: false, signer: false },
        AccountSlot { key: a.token_record, writable: true, signer: false },
        AccountSlot { key: a.destination_token_record, writable: true, signer: false },
        AccountSlot { key: a.owner, writable: false, signer: true },
        AccountSlot { key: a.payer, writable: true, signer: true },
        AccountSlot { key: a.system_program, writable: false, signer: false },
        AccountSlot { key: a.sysvar_instructions, writable: false, signer: false },
        AccountSlot { key: a.token_program, writable: false, signer: false },
        AccountSlot { key: a.associated_token_program, writable: false, signer: false },
        AccountSlot { key: a.authorization_rules_program, writable: false, signer: false },
        AccountSlot { key: a.authorization_rules, writable: false, signer: false },
    ]
}

/// What a well-built extended transfer instruction looks like, field by field.
pub open spec fn is_extended_instruction(
    w: WireInstruction,
    a: ExtendedTransferAccounts,
    amount: u64,
) -> bool {
    &&& w.program_id == a.token_metadata_program
    &&& w.accounts@ == extended_account_list_spec(a)
    &&& w.data@ == extended_payload_spec(amount)
}

/// Builds the extended protocol's transfer instruction for one unit: the
/// fixed 17-slot account list in its exact order, and the version-one
/// argument payload with the amount set to one and no authorization data.
pub fn build_extended_transfer(a: &ExtendedTransferAccounts) -> (r: WireInstruction)
    ensures
        is_extended_instruction(r, *a, 1),
        r.accounts@.len() == 17,
{
    let mut accounts: Vec<AccountSlot> = Vec::new();
    accounts.push(AccountSlot { key: a.token_account, writable: true, signer: false });
    accounts.push(AccountSlot { key: a.owner, writable: false, signer: false });
    accounts.push(AccountSlot { key: a.destination_token_account, writable: true, signer: false });
    accounts.push(AccountSlot { key: a.destination, writable: false, signer: false });
    accounts.push(AccountSlot { key: a.mint, writable: false, signer: false });
    accounts.push(AccountSlot { key: a.metadata, writable: true, signer: false });
    accounts.push(AccountSlot { key: a.edition, writable: false, signer: false });
    accounts.push(AccountSlot { key: a.token_record, writable: true, signer: false });
    accounts.push(AccountSlot { key: a.destination_token_record, writable: true, signer: false });
    accounts.push(AccountSlot { key: a.owner, writable: false, signer: true });
    accounts.push(AccountSlot { key: a.payer, writable: true, signer: true });
    accounts.push(AccountSlot { key: a.system_program, writable: false, signer: false });
    accounts.push(AccountSlot { key: a.sysvar_instructions, writable: false, signer: false });
    accounts.push(AccountSlot { key: a.token_program, writable: false, signer: false });
    accounts.push(AccountSlot { key: a.associated_token_program, writable: false, signer: false });
    accounts.push(AccountSlot { key: a.authorization_rules_program, writable: false, signer: false });
    accounts.push(AccountSlot { key: a.authorization_rules, writable: false, signer: false });
    let data = extended_transfer_payload(1);
    proof {
        assert(accounts@ =~= extended_account_list_spec(*a));
    }
    WireInstruction { program_id: a.token_metadata_program, accounts, data }
}

/// The basic builder is pure and deterministic: two instructions built from
/// the same identities and amount are byte-identical — same target, same
/// account order, same payload bytes.
pub proof fn lemma_basic_builder_deterministic(
    w1: WireInstruction,
    w2: WireInstruction,
    program_token: AccountId,
    source: AccountId,
    destination: AccountId,
    authority: AccountId,
    amount: u64,
)
    requires
        is_basic_instruction(w1, program_token, source, destination, authority, amount),
        is_basic_instruction(w2, program_token, source, destination, authority, amount),
    ensures
        w1.program_id == w2.program_id,
        w1.accounts@ == w2.accounts@,
        w1.data@ == w2.data@,
{
}

/// The extended builder is pure and deterministic: two instructions built
/// from the same slot assignment and amount are byte-identical.
pub proof fn lemma_extended_builder_deterministic(
    w1: WireInstruction,
    w2: WireInstruction,
    a: ExtendedTransferAccounts,
    amount: u64,
)
    requires
        is_extended_instruction(w1, a, amount),
        is_extended_instruction(w2, a, amount),
    ensures
        w1.program_id == w2.program_id,
        w1.accounts@ == w2.accounts@,
        w1.data@ == w2.data@,
{
}

/// The amount field sits at bytes 1..9 of the basic payload and 2..10 of the
/// extended payload, little endian, and decodes back to the amount that was
/// written.
pub proof fn lemma_payload_amount_round_trip(amount: u64)
    ensures
        spec_u64_from_le_bytes(basic_payload_spec(amount).subrange(1, 9)) == amount,
        spec_u64_from_le_bytes(extended_payload_spec(amount).subrange(2, 10)) == amount,
{
    lemma_auto_spec_u64_to_from_le_bytes();
    assert(basic_payload_spec(amount).subrange(1, 9) =~= spec_u64_to_le_bytes(amount));
    assert(extended_payload_spec(amount).subrange(2, 10) =~= spec_u64_to_le_bytes(amount));
}

/// The extended account list has exactly 17 entries, whatever identities
/// fill its slots.
pub proof fn lemma_extended_account_list_len(a: ExtendedTransferAccounts)
    ensures
        extended_account_list_spec(a).len() == 17,
{
}

} // verus!
