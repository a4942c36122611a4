use vstd::prelude::*;

use crate::errors::TransferError;
use crate::instruction::ExtendedTransferAccounts;
use crate::instruction::WireInstruction;
use crate::instruction::build_basic_transfer;
use crate::instruction::build_extended_transfer;
use crate::instruction::is_basic_instruction;
use crate::instruction::is_extended_instruction;
use crate::instruction::metadata_program_id_bytes;
use crate::instruction::token_metadata_program_id;
use crate::instruction::token_program_id_bytes;
use crate::keys::AccountId;
use crate::keys::TokenAccountInfo;
use crate::keys::account_id_eq;
use crate::seeds::DreamerRecord;
use crate::seeds::HoldingRecord;
use crate::seeds::SwapRecord;

verus! {

/// Everything one transfer call hands to the host: the wire instruction, the
/// ordered list of account identities that accompany it, and, when a
/// program-owned record is the source, the seed list that authorizes the
/// derived signature. `signer_seeds` of `None` means unsigned passthrough:
/// the caller's own signature is already attached upstream.
#[derive(Clone, Debug, PartialEq, Eq)]
pub struct TransferPlan {
    pub instruction: WireInstruction,
    pub account_keys: Vec<AccountId>,
    pub signer_seeds: Option<Vec<Vec<u8>>>,
}

impl TransferPlan {
    /// The seed list as mathematical sequences, `None` for unsigned
    /// passthrough.
    pub open spec fn signer_seeds_spec(self) -> Option<Seq<Seq<u8>>> {
        match self.signer_seeds {
            Some(s) => Some(s.deep_view()),
            None => None,
        }
    }
}

/// Accounts of a basic-protocol transfer out of a dreamer record.
#[derive(Clone, Copy, Debug, PartialEq, Eq)]
pub struct TransferTokenDreamer {
    /// The end user driving the call.
    pub user: AccountId,
    /// The dreamer record holding the asset; the custody authority.
    pub pda_dreamer: DreamerRecord,
    /// Source token account.
    pub token_source: TokenAccountInfo,
    /// Destination token account.
    pub token_destination: TokenAccountInfo,
    /// The token program reference supplied by the caller.
    pub program_token: AccountId,
}

/// Accounts of a basic-protocol transfer out of a swap record.
#[derive(Clone, Copy, Debug, PartialEq, Eq)]
pub struct TransferTokenSwap {
    /// The end user driving the call.
    pub user: AccountId,
    /// The swap record holding the asset; the custody authority.
    pub pda_swapped: SwapRecord,
    /// Source token account.
    pub token_source: TokenAccountInfo,
    /// Destination token account.
    pub token_destination: TokenAccountInfo,
    /// The token program reference supplied by the caller.
    pub program_token: AccountId,
}

/// What a well-formed basic-protocol plan out of a holding record states:
/// the instruction targets the token program with the record's address as
/// authority, the account list is [program reference, source, destination,
/// record], and the record's seed list signs.
pub open spec fn is_basic_plan(
    p: TransferPlan,
    record: HoldingRecord,
    program_token: AccountId,
    source: TokenAccountInfo,
    destination: TokenAccountInfo,
) -> bool {
    &&& is_basic_instruction(
        p.instruction,
        program_token,
        source.address,
        destination.address,
        record.address_spec(),
        1,
    )
    &&& p.account_keys@ == seq![
        program_token,
        source.address,
        destination.address,
        record.address_spec(),
    ]
    &&& p.signer_seeds_spec() == Some(record.seeds_spec())
}

/// Plans a basic-protocol transfer of one unit out of a dreamer record,
/// signed by the record's derived authority.
pub fn transfer_nft_dreamer(ctx: &TransferTokenDreamer) -> (r: Result<
    TransferPlan,
    TransferError,
>)
    ensures
        r is Ok <==> ctx.program_token@ == token_program_id_bytes(),
        r is Err ==> r.unwrap_err() == TransferError::IncorrectTokenProgram,
        r is Ok ==> is_basic_plan(
            r.unwrap(),
            HoldingRecord::Dreamer(ctx.pda_dreamer),
            ctx.program_token,
            ctx.token_source,
            ctx.token_destination,
        ),
{
    let record = HoldingRecord::Dreamer(ctx.pda_dreamer);
    basic_plan(&record, &ctx.program_token, &ctx.token_source, &ctx.token_destination)
}

/// Plans a basic-protocol transfer of one unit out of a swap record, signed
/// by the record's derived authority.
pub fn transfer_nft_swap(ctx: &TransferTokenSwap) -> (r: Result<TransferPlan, TransferError>)
    ensures
        r is Ok <==> ctx.program_token@ == token_program_id_bytes(),
        r is Err ==> r.unwrap_err() == TransferError::IncorrectTokenProgram,
        r is Ok ==> is_basic_plan(
            r.unwrap(),
            HoldingRecord::Swap(ctx.pda_swapped),
            ctx.program_token,
            ctx.token_source,
            ctx.token_destination,
        ),
{
    let record = HoldingRecord::Swap(ctx.pda_swapped);
    basic_plan(&record, &ctx.program_token, &ctx.token_source, &ctx.token_destination)
}

/// Shared basic-protocol path: build the instruction, list the accounts in
/// the order the host receives them, and attach the record's seeds.
fn basic_plan(
    record: &HoldingRecord,
    program_token: &AccountId,
    source: &TokenAccountInfo,
    destination: &TokenAccountInfo,
) -> (r: Result<TransferPlan, TransferError>)
    ensures
        r is Ok <==> program_token@ == token_program_id_bytes(),
        r is Err ==> r.unwrap_err() == TransferError::IncorrectTokenProgram,
        r is Ok ==> is_basic_plan(r.unwrap(), *record, *program_token, *source, *destination),
{
    let authority = record.address();
    let instruction = match build_basic_transfer(
        program_token,
        &source.address,
        &destination.address,
        &authority,
    ) {
        Ok(w) => w,
        Err(e) => {
            return Err(e);
        },
    };
    let mut account_keys: Vec<AccountId> = Vec::new();
    account_keys.push(*program_token);
    account_keys.push(source.address);
    account_keys.push(destination.address);
    account_keys.push(authority);
    let seeds = record.derivation_seeds();
    proof {
        assert(account_keys@ =~= seq![
            *program_token,
            source.address,
            destination.address,
            record.address_spec(),
        ]);
    }
    Ok(TransferPlan { instruction, account_keys, signer_seeds: Some(seeds) })
}

/// Accounts of an extended-protocol transfer out of a dreamer record.
#[derive(Clone, Copy, Debug, PartialEq, Eq)]
pub struct RewardPNFTDreamer {
    /// The dreamer record holding the asset; owner of the source token
    /// account and the transfer authority.
    pub owner: DreamerRecord,
    /// Mint of the asset.
    pub mint: AccountId,
    /// Source token account.
    pub token_account: TokenAccountInfo,
    /// Account paying for the call.
    pub payer: AccountId,
    /// The wallet that is to receive the asset.
    pub destination: AccountId,
    /// The destination's token account; its owner must equal `destination`.
    pub destination_token_account: TokenAccountInfo,
    /// Token record of the source token account.
    pub token_record: AccountId,
    /// Token record of the destination token account.
    pub destination_token_record: AccountId,
    /// Metadata account of the asset.
    pub metadata: AccountId,
    /// Edition account of the asset.
    pub edition: AccountId,
    /// The authorization-rules account.
    pub authorization_rules: AccountId,
    /// The instructions sysvar.
    pub sysvar_instructions: AccountId,
    /// The token program.
    pub token_program: AccountId,
    /// The associated-token-account program.
    pub associated_token_program: AccountId,
    /// The extended protocol's program; must be its published identity.
    pub token_metadata_program: AccountId,
    /// The authorization-rules program.
    pub authorization_rules_program: AccountId,
    /// The system program.
    pub system_program: AccountId,
}

/// Accounts of an extended-protocol transfer out of a swap record.
#[derive(Clone, Copy, Debug, PartialEq, Eq)]
pub struct RewardPNFTSwap {
    /// The swap record holding the asset; owner of the source token account
    /// and the transfer authority.
    pub owner: SwapRecord,
    /// Mint of the asset.
    pub mint: AccountId,
    /// Source token account.
    pub token_account: TokenAccountInfo,
    /// Account paying for the call.
    pub payer: AccountId,
    /// The wallet that is to receive the asset.
    pub destination: AccountId,
    /// The destination's token account; its owner must equal `destination`.
    pub destination_token_account: TokenAccountInfo,
    /// Token record of the source token account.
    pub token_record: AccountId,
    /// Token record of the destination token account.
    pub destination_token_record: AccountId,
    /// Metadata account of the asset.
    pub metadata: AccountId,
    /// Edition account of the asset.
    pub edition: AccountId,
    /// The authorization-rules account.
    pub authorization_rules: AccountId,
    /// The instructions sysvar.
    pub sysvar_instructions: AccountId,
    /// The token program.
    pub token_program: AccountId,
    /// The associated-token-account program.
    pub associated_token_program: AccountId,
    /// The extended protocol's program; must be its published identity.
    pub token_metadata_program: AccountId,
    /// The authorization-rules program.
    pub authorization_rules_program: AccountId,
    /// The system program.
    pub system_program: AccountId,
}

/// Accounts of an extended-protocol transfer out of a wallet the caller
/// signs for directly: no holding record, no derived authority.
#[derive(Clone, Copy, Debug, PartialEq, Eq)]
pub struct RewardPNFTWallet {
    /// The wallet owning the source token account; it signs upstream.
    pub owner: AccountId,
    /// Mint of the asset.
    pub mint: AccountId,
    /// Source token account.
    pub token_account: TokenAccountInfo,
    /// Account paying for the call.
    pub payer: AccountId,
    /// The wallet that is to receive the asset.
    pub destination: AccountId,
    /// The destination's token account; its owner must equal `destination`.
    pub destination_token_account: TokenAccountInfo,
    /// Token record of the source token account.
    pub token_record: AccountId,
    /// Token record of the destination token account.
    pub destination_token_record: AccountId,
    /// Metadata account of the asset.
    pub metadata: AccountId,
    /// Edition account of the asset.
    pub edition: AccountId,
    /// The authorization-rules account.
    pub authorization_rules: AccountId,
    /// The instructions sysvar.
    pub sysvar_instructions: AccountId,
    /// The token program.
    pub token_program: AccountId,
    /// The associated-token-account program.
    pub associated_token_program: AccountId,
    /// The extended protocol's program; must be its published identity.
    pub token_metadata_program: AccountId,
    /// The authorization-rules program.
    pub authorization_rules_program: AccountId,
    /// The system program.
    pub system_program: AccountId,
}

/// The slots an extended-protocol call fills, gathered from the shared
/// account fields plus the resolved owner address.
pub open spec fn extended_accounts_spec(
    owner: AccountId,
    mint: AccountId,
    token_account: TokenAccountInfo,
    payer: AccountId,
    destination: AccountId,
    destination_token_account: TokenAccountInfo,
    token_record: AccountId,
    destination_token_record: AccountId,
    metadata: AccountId,
    edition: AccountId,
    authorization_rules: AccountId,
    sysvar_instructions: AccountId,
    token_program: AccountId,
    associated_token_program: AccountId,
    token_metadata_program: AccountId,
    authorization_rules_program: AccountId,
    system_program: AccountId,
) -> ExtendedTransferAccounts {
    ExtendedTransferAccounts {
        token_account: token_account.address,
        owner,
        destination_token_account: destination_token_account.address,
        destination,
        mint,
        metadata,
        edition,
        token_record,
        destination_token_record,
        payer,
        system_program,
        sysvar_instructions,
        token_program,
        associated_token_program,
        authorization_rules_program,
        authorization_rules,
        token_metadata_program,
    }
}

impl RewardPNFTDreamer {
    /// The slot assignment of this call, with the record's address as owner
    /// and authority.
    pub open spec fn protocol_accounts(self) -> ExtendedTransferAccounts {
        extended_accounts_spec(
            self.owner.address,
            self.mint,
            self.token_account,
            self.payer,
            self.destination,
            self.destination_token_account,
            self.token_record,
            self.destination_token_record,
            self.metadata,
            self.edition,
            self.authorization_rules,
            self.sysvar_instructions,
            self.token_program,
            self.associated_token_program,
            self.token_metadata_program,
            self.authorization_rules_program,
            self.system_program,
        )
    }
}

impl RewardPNFTSwap {
    /// The slot assignment of this call, with the record's address as owner
    /// and authority.
    pub open spec fn protocol_accounts(self) -> ExtendedTransferAccounts {
        extended_accounts_spec(
            self.owner.address,
            self.mint,
            self.token_account,
            self.payer,
            self.destination,
            self.destination_token_account,
            self.token_record,
            self.destination_token_record,
            self.metadata,
            self.edition,
            self.authorization_rules,
            self.sysvar_instructions,
            self.token_program,
            self.associated_token_program,
            self.token_metadata_program,
            self.authorization_rules_program,
            self.system_program,
        )
    }
}

impl RewardPNFTWallet {
    /// The slot assignment of this call, with the wallet itself as owner and
    /// authority.
    pub open spec fn protocol_accounts(self) -> ExtendedTransferAccounts {
        extended_accounts_spec(
            self.owner,
            self.mint,
            self.token_account,
            self.payer,
            self.destination,
            self.destination_token_account,
            self.token_record,
            self.destination_token_record,
            self.metadata,
            self.edition,
            self.authorization_rules,
            self.sysvar_instructions,
            self.token_program,
            self.associated_token_program,
            self.token_metadata_program,
            self.authorization_rules_program,
            self.system_program,
        )
    }
}

/// The order in which the account identities accompany an extended-protocol
/// instruction to the host.
pub open spec fn extended_account_keys_spec(a: ExtendedTransferAccounts) -> Seq<AccountId> {
    seq![
        a.token_account,
        a.owner,
        a.destination_token_account,
        a.destination,
        a.mint,
        a.metadata,
        a.edition,
        a.token_record,
        a.destination_token_record,
        a.payer,
        a.system_program,
        a.sysvar_instructions,
        a.token_program,
        a.associated_token_program,
        a.authorization_rules_program,
        a.authorization_rules,
    ]
}

/// What a well-formed extended-protocol plan states: the instruction is the
/// fixed 17-slot one for one unit, and the accompanying identities come in
/// the host's order.
pub open spec fn is_extended_plan(
    p: TransferPlan,
    a: ExtendedTransferAccounts,
    seeds: Option<Seq<Seq<u8>>>,
) -> bool {
    &&& is_extended_instruction(p.instruction, a, 1)
    &&& p.account_keys@ == extended_account_keys_spec(a)
    &&& p.signer_seeds_spec() == seeds
}

/// Validates the two boundary preconditions of every extended-protocol call
/// and, if both hold, builds the plan.
fn extended_plan(
    a: &ExtendedTransferAccounts,
    destination_owner: &AccountId,
    seeds: Option<Vec<Vec<u8>>>,
) -> (r: Result<TransferPlan, TransferError>)
    ensures
        r is Err ==> (r.unwrap_err() == TransferError::InvalidUserOriginalMintTokenAccount
            || r.unwrap_err() == TransferError::IncorrectMetadataProgram),
        (r is Err && r.unwrap_err() == TransferError::InvalidUserOriginalMintTokenAccount)
            <==> destination_owner@ != a.destination@,
        (r is Err && r.unwrap_err() == TransferError::IncorrectMetadataProgram) <==> (
            destination_owner@ == a.destination@ && a.token_metadata_program@
                != metadata_program_id_bytes()),
        r is Ok <==> (destination_owner@ == a.destination@ && a.token_metadata_program@
            == metadata_program_id_bytes()),
        r is Ok ==> is_extended_plan(
            r.unwrap(),
            *a,
            match seeds {
                Some(s) => Some(s.deep_view()),
                None => None,
            },
        ),
{
    if !account_id_eq(destination_owner, &a.destination) {
        return Err(TransferError::InvalidUserOriginalMintTokenAccount);
    }
    let expected = token_metadata_program_id();
    if !account_id_eq(&a.token_metadata_program, &expected) {
        return Err(TransferError::IncorrectMetadataProgram);
    }
    let instruction = build_extended_transfer(a);
    let mut account_keys: Vec<AccountId> = Vec::new();
    account_keys.push(a.token_account);
    account_keys.push(a.owner);
    account_keys.push(a.destination_token_account);
    account_keys.push(a.destination);
    account_keys.push(a.mint);
    account_keys.push(a.metadata);
    account_keys.push(a.edition);
    account_keys.push(a.token_record);
    account_keys.push(a.destination_token_record);
    account_keys.push(a.payer);
    account_keys.push(a.system_program);
    account_keys.push(a.sysvar_instructions);
    account_keys.push(a.token_program);
    account_keys.push(a.associated_token_program);
    account_keys.push(a.authorization_rules_program);
    account_keys.push(a.authorization_rules);
    proof {
        assert(account_keys@ =~= extended_account_keys_spec(*a));
    }
    Ok(TransferPlan { instruction, account_keys, signer_seeds: seeds })
}

/// Builds the executable `ExtendedTransferAccounts` value matching
/// `extended_accounts_spec` for the given fields.
fn gather_extended_accounts(
    owner: AccountId,
    mint: AccountId,
    token_account: TokenAccountInfo,
    payer: AccountId,
    destination: AccountId,
    destination_token_account: TokenAccountInfo,
    token_record: AccountId,
    destination_token_record: AccountId,
    metadata: AccountId,
    edition: AccountId,
    authorization_rules: AccountId,
    sysvar_instructions: AccountId,
    token_program: AccountId,
    associated_token_program: AccountId,
    token_metadata_program: AccountId,
    authorization_rules_program: AccountId,
    system_program: AccountId,
) -> (r: ExtendedTransferAccounts)
    ensures
        r == extended_accounts_spec(
            owner,
            mint,
            token_account,
            payer,
            destination,
            destination_token_account,
            token_record,
            destination_token_record,
            metadata,
            edition,
            authorization_rules,
            sysvar_instructions,
            token_program,
            associated_token_program,
            token_metadata_program,
            authorization_rules_program,
            system_program,
        ),
{
    ExtendedTransferAccounts {
        token_account: token_account.address,
        owner,
        destination_token_account: destination_token_account.address,
        destination,
        mint,
        metadata,
        edition,
        token_record,
        destination_token_record,
        payer,
        system_program,
        sysvar_instructions,
        token_program,
        associated_token_program,
        authorization_rules_program,
        authorization_rules,
        token_metadata_program,
    }
}

/// Plans an extended-protocol transfer of one unit out of a dreamer record,
/// signed by the record's derived authority.
pub fn transfer_pnft_dreamer(ctx: &RewardPNFTDreamer) -> (r: Result<TransferPlan, TransferError>)
    ensures
        r is Err ==> (r.unwrap_err() == TransferError::InvalidUserOriginalMintTokenAccount
            || r.unwrap_err() == TransferError::IncorrectMetadataProgram),
        (r is Err && r.unwrap_err() == TransferError::InvalidUserOriginalMintTokenAccount)
            <==> ctx.destination_token_account.owner@ != ctx.destination@,
        (r is Err && r.unwrap_err() == TransferError::IncorrectMetadataProgram) <==> (
            ctx.destination_token_account.owner@ == ctx.destination@
                && ctx.token_metadata_program@ != metadata_program_id_bytes()),
        r is Ok <==> (ctx.destination_token_account.owner@ == ctx.destination@
            && ctx.token_metadata_program@ == metadata_program_id_bytes()),
        r is Ok ==> is_extended_plan(
            r.unwrap(),
            ctx.protocol_accounts(),
            Some(HoldingRecord::Dreamer(ctx.owner).seeds_spec()),
        ),
{
    let a = gather_extended_accounts(
        ctx.owner.address,
        ctx.mint,
        ctx.token_account,
        ctx.payer,
        ctx.destination,
        ctx.destination_token_account,
        ctx.token_record,
        ctx.destination_token_record,
        ctx.metadata,
        ctx.edition,
        ctx.authorization_rules,
        ctx.sysvar_instructions,
        ctx.token_program,
        ctx.associated_token_program,
        ctx.token_metadata_program,
        ctx.authorization_rules_program,
        ctx.system_program,
    );
    let record = HoldingRecord::Dreamer(ctx.owner);
    let seeds = record.derivation_seeds();
    extended_plan(&a, &ctx.destination_token_account.owner, Some(seeds))
}

/// Plans an extended-protocol transfer of one unit out of a swap record,
/// signed by the record's derived authority.
pub fn transfer_pnft_swap(ctx: &RewardPNFTSwap) -> (r: Result<TransferPlan, TransferError>)
    ensures
        r is Err ==> (r.unwrap_err() == TransferError::InvalidUserOriginalMintTokenAccount
            || r.unwrap_err() == TransferError::IncorrectMetadataProgram),
        (r is Err && r.unwrap_err() == TransferError::InvalidUserOriginalMintTokenAccount)
            <==> ctx.destination_token_account.owner@ != ctx.destination@,
        (r is Err && r.unwrap_err() == TransferError::IncorrectMetadataProgram) <==> (
            ctx.destination_token_account.owner@ == ctx.destination@
                && ctx.token_metadata_program@ != metadata_program_id_bytes()),
        r is Ok <==> (ctx.destination_token_account.owner@ == ctx.destination@
            && ctx.token_metadata_program@ == metadata_program_id_bytes()),
        r is Ok ==> is_extended_plan(
            r.unwrap(),
            ctx.protocol_accounts(),
            Some(HoldingRecord::Swap(ctx.owner).seeds_spec()),
        ),
{
    let a = gather_extended_accounts(
        ctx.owner.address,
        ctx.mint,
        ctx.token_account,
        ctx.payer,
        ctx.destination,
        ctx.destination_token_account,
        ctx.token_record,
        ctx.destination_token_record,
        ctx.metadata,
        ctx.edition,
        ctx.authorization_rules,
        ctx.sysvar_instructions,
        ctx.token_program,
        ctx.associated_token_program,
        ctx.token_metadata_program,
        ctx.authorization_rules_program,
        ctx.system_program,
    );
    let record = HoldingRecord::Swap(ctx.owner);
    let seeds = record.derivation_seeds();
    extended_plan(&a, &ctx.destination_token_account.owner, Some(seeds))
}

/// Plans an extended-protocol transfer of one unit out of a wallet the
/// caller signs for directly: unsigned passthrough, no seed list.
pub fn transfer_pnft(ctx: &RewardPNFTWallet) -> (r: Result<TransferPlan, TransferError>)
    ensures
        r is Err ==> (r.unwrap_err() == TransferError::InvalidUserOriginalMintTokenAccount
            || r.unwrap_err() == TransferError::IncorrectMetadataProgram),
        (r is Err && r.unwrap_err() == TransferError::InvalidUserOriginalMintTokenAccount)
            <==> ctx.destination_token_account.owner@ != ctx.destination@,
        (r is Err && r.unwrap_err() == TransferError::IncorrectMetadataProgram) <==> (
            ctx.destination_token_account.owner@ == ctx.destination@
                && ctx.token_metadata_program@ != metadata_program_id_bytes()),
        r is Ok <==> (ctx.destination_token_account.owner@ == ctx.destination@
            && ctx.token_metadata_program@ == metadata_program_id_bytes()),
        r is Ok ==> is_extended_plan(r.unwrap(), ctx.protocol_accounts(), None),
{
    let a = gather_extended_accounts(
        ctx.owner,
        ctx.mint,
        ctx.token_account,
        ctx.payer,
        ctx.destination,
        ctx.destination_token_account,
        ctx.token_record,
        ctx.destination_token_record,
        ctx.metadata,
        ctx.edition,
        ctx.authorization_rules,
        ctx.sysvar_instructions,
        ctx.token_program,
        ctx.associated_token_program,
        ctx.token_metadata_program,
        ctx.authorization_rules_program,
        ctx.system_program,
    );
    extended_plan(&a, &ctx.destination_token_account.owner, None)
}

/// Exactly one unit is ever transferred: every plan an entry point returns,
/// for either protocol, carries a payload whose amount field decodes to one.
pub proof fn lemma_plan_moves_one_unit(
    p: TransferPlan,
    record: HoldingRecord,
    program_token: AccountId,
    source: TokenAccountInfo,
    destination: TokenAccountInfo,
    a: ExtendedTransferAccounts,
    seeds: Option<Seq<Seq<u8>>>,
)
    ensures
        is_basic_plan(p, record, program_token, source, destination)
            ==> vstd::bytes::spec_u64_from_le_bytes(p.instruction.data@.subrange(1, 9)) == 1,
        is_extended_plan(p, a, seeds) ==> vstd::bytes::spec_u64_from_le_bytes(
            p.instruction.data@.subrange(2, 10),
        ) == 1,
{
    crate::instruction::lemma_payload_amount_round_trip(1);
}

} // verus!
