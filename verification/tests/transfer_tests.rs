use std::str::FromStr;

use solana_program::pubkey::Pubkey;

use nft_custody::errors::TransferError;
use nft_custody::instruction::build_basic_transfer;
use nft_custody::instruction::build_extended_transfer;
use nft_custody::instruction::spl_token_program_id;
use nft_custody::instruction::token_metadata_program_id;
use nft_custody::instruction::ExtendedTransferAccounts;
use nft_custody::keys::AccountId;
use nft_custody::keys::TokenAccountInfo;
use nft_custody::seeds::authority_verifies;
use nft_custody::seeds::DreamerRecord;
use nft_custody::seeds::HoldingRecord;
use nft_custody::seeds::SwapRecord;
use nft_custody::transfer::transfer_nft_dreamer;
use nft_custody::transfer::transfer_nft_swap;
use nft_custody::transfer::transfer_pnft;
use nft_custody::transfer::transfer_pnft_dreamer;
use nft_custody::transfer::transfer_pnft_swap;
use nft_custody::transfer::RewardPNFTDreamer;
use nft_custody::transfer::RewardPNFTSwap;
use nft_custody::transfer::RewardPNFTWallet;
use nft_custody::transfer::TransferTokenDreamer;
use nft_custody::transfer::TransferTokenSwap;

fn id_of(pk: Pubkey) -> AccountId {
    AccountId { bytes: pk.to_bytes() }
}

fn fresh_id() -> AccountId {
    id_of(Pubkey::new_unique())
}

fn valid_dreamer(program: &AccountId, id: u8) -> DreamerRecord {
    let authority = Pubkey::new_unique();
    let (address, bump) = Pubkey::find_program_address(
        &[b"dreamer", &[id], authority.as_ref()],
        &Pubkey::new_from_array(program.bytes),
    );
    DreamerRecord { address: id_of(address), id, authority: id_of(authority), bump }
}

fn valid_swap(program: &AccountId) -> SwapRecord {
    let authority = Pubkey::new_unique();
    let (address, bump) = Pubkey::find_program_address(
        &[b"swapped", authority.as_ref()],
        &Pubkey::new_from_array(program.bytes),
    );
    SwapRecord { address: id_of(address), authority: id_of(authority), bump }
}

fn wallet_context() -> RewardPNFTWallet {
    let destination = fresh_id();
    RewardPNFTWallet {
        owner: fresh_id(),
        mint: fresh_id(),
        token_account: TokenAccountInfo { address: fresh_id(), owner: fresh_id() },
        payer: fresh_id(),
        destination,
        destination_token_account: TokenAccountInfo { address: fresh_id(), owner: destination },
        token_record: fresh_id(),
        destination_token_record: fresh_id(),
        metadata: fresh_id(),
        edition: fresh_id(),
        authorization_rules: fresh_id(),
        sysvar_instructions: fresh_id(),
        token_program: spl_token_program_id(),
        associated_token_program: fresh_id(),
        token_metadata_program: token_metadata_program_id(),
        authorization_rules_program: fresh_id(),
        system_program: fresh_id(),
    }
}

fn dreamer_context(program: &AccountId) -> RewardPNFTDreamer {
    let w = wallet_context();
    RewardPNFTDreamer {
        owner: valid_dreamer(program, 3),
        mint: w.mint,
        token_account: w.token_account,
        payer: w.payer,
        destination: w.destination,
        destination_token_account: w.destination_token_account,
        token_record: w.token_record,
        destination_token_record: w.destination_token_record,
        metadata: w.metadata,
        edition: w.edition,
        authorization_rules: w.authorization_rules,
        sysvar_instructions: w.sysvar_instructions,
        token_program: w.token_program,
        associated_token_program: w.associated_token_program,
        token_metadata_program: w.token_metadata_program,
        authorization_rules_program: w.authorization_rules_program,
        system_program: w.system_program,
    }
}

fn swap_context(program: &AccountId) -> RewardPNFTSwap {
    let w = wallet_context();
    RewardPNFTSwap {
        owner: valid_swap(program),
        mint: w.mint,
        token_account: w.token_account,
        payer: w.payer,
        destination: w.destination,
        destination_token_account: w.destination_token_account,
        token_record: w.token_record,
        destination_token_record: w.destination_token_record,
        metadata: w.metadata,
        edition: w.edition,
        authorization_rules: w.authorization_rules,
        sysvar_instructions: w.sysvar_instructions,
        token_program: w.token_program,
        associated_token_program: w.associated_token_program,
        token_metadata_program: w.token_metadata_program,
        authorization_rules_program: w.authorization_rules_program,
        system_program: w.system_program,
    }
}

#[test]
fn dreamer_record_round_trip() {
    let program = fresh_id();
    let record = valid_dreamer(&program, 3);
    assert!(authority_verifies(&HoldingRecord::Dreamer(record), &program));
}

#[test]
fn swap_record_round_trip() {
    let program = fresh_id();
    let record = valid_swap(&program);
    assert!(authority_verifies(&HoldingRecord::Swap(record), &program));
}

#[test]
fn swap_bump_mismatch_fails_closed() {
    let program = fresh_id();
    let mut record = valid_swap(&program);
    record.bump = record.bump.wrapping_add(1);
    assert!(!authority_verifies(&HoldingRecord::Swap(record), &program));
}

#[test]
fn forged_record_address_fails_closed() {
    let program = fresh_id();
    let mut record = valid_dreamer(&program, 7);
    record.address = fresh_id();
    assert!(!authority_verifies(&HoldingRecord::Dreamer(record), &program));
}

#[test]
fn derivation_is_variant_specific() {
    let program = fresh_id();
    let record = valid_swap(&program);
    // The same authority and bump under the dreamer recipe must not verify.
    let forged = DreamerRecord {
        address: record.address,
        id: 0,
        authority: record.authority,
        bump: record.bump,
    };
    assert!(!authority_verifies(&HoldingRecord::Dreamer(forged), &program));
}

#[test]
fn builders_are_deterministic() {
    let program = fresh_id();
    let ctx = dreamer_context(&program);
    let a = ExtendedTransferAccounts {
        token_account: ctx.token_account.address,
        owner: ctx.owner.address,
        destination_token_account: ctx.destination_token_account.address,
        destination: ctx.destination,
        mint: ctx.mint,
        metadata: ctx.metadata,
        edition: ctx.edition,
        token_record: ctx.token_record,
        destination_token_record: ctx.destination_token_record,
        payer: ctx.payer,
        system_program: ctx.system_program,
        sysvar_instructions: ctx.sysvar_instructions,
        token_program: ctx.token_program,
        associated_token_program: ctx.associated_token_program,
        authorization_rules_program: ctx.authorization_rules_program,
        authorization_rules: ctx.authorization_rules,
        token_metadata_program: ctx.token_metadata_program,
    };
    assert_eq!(build_extended_transfer(&a), build_extended_transfer(&a));
    let spl = spl_token_program_id();
    let (s, d, auth) = (fresh_id(), fresh_id(), fresh_id());
    let w1 = build_basic_transfer(&spl, &s, &d, &auth).unwrap();
    let w2 = build_basic_transfer(&spl, &s, &d, &auth).unwrap();
    assert_eq!(w1, w2);
}

#[test]
fn basic_payload_moves_one_unit() {
    let spl = spl_token_program_id();
    let w = build_basic_transfer(&spl, &fresh_id(), &fresh_id(), &fresh_id()).unwrap();
    assert_eq!(w.data, vec![3u8, 1, 0, 0, 0, 0, 0, 0, 0]);
}

#[test]
fn extended_payload_moves_one_unit() {
    let w = build_extended_transfer(&ExtendedTransferAccounts {
        token_account: fresh_id(),
        owner: fresh_id(),
        destination_token_account: fresh_id(),
        destination: fresh_id(),
        mint: fresh_id(),
        metadata: fresh_id(),
        edition: fresh_id(),
        token_record: fresh_id(),
        destination_token_record: fresh_id(),
        payer: fresh_id(),
        system_program: fresh_id(),
        sysvar_instructions: fresh_id(),
        token_program: fresh_id(),
        associated_token_program: fresh_id(),
        authorization_rules_program: fresh_id(),
        authorization_rules: fresh_id(),
        token_metadata_program: fresh_id(),
    });
    assert_eq!(w.data, vec![49u8, 0, 1, 0, 0, 0, 0, 0, 0, 0, 0]);
}

#[test]
fn extended_list_has_seventeen_slots_in_order() {
    let program = fresh_id();
    let ctx = dreamer_context(&program);
    let plan = transfer_pnft_dreamer(&ctx).unwrap();
    let w = &plan.instruction;
    assert_eq!(w.program_id, token_metadata_program_id());
    assert_eq!(w.accounts.len(), 17);
    let keys: Vec<AccountId> = w.accounts.iter().map(|s| s.key).collect();
    assert_eq!(
        keys,
        vec![
            ctx.token_account.address,
            ctx.owner.address,
            ctx.destination_token_account.address,
            ctx.destination,
            ctx.mint,
            ctx.metadata,
            ctx.edition,
            ctx.token_record,
            ctx.destination_token_record,
            ctx.owner.address,
            ctx.payer,
            ctx.system_program,
            ctx.sysvar_instructions,
            ctx.token_program,
            ctx.associated_token_program,
            ctx.authorization_rules_program,
            ctx.authorization_rules,
        ]
    );
    let writable: Vec<bool> = w.accounts.iter().map(|s| s.writable).collect();
    assert_eq!(
        writable,
        vec![
            true, false, true, false, false, true, false, true, true, false, true, false,
            false, false, false, false, false
        ]
    );
    let signer: Vec<bool> = w.accounts.iter().map(|s| s.signer).collect();
    assert_eq!(
        signer,
        vec![
            false, false, false, false, false, false, false, false, false, true, true, false,
            false, false, false, false, false
        ]
    );
}

#[test]
fn destination_owner_mismatch_rejected_before_dispatch() {
    let program = fresh_id();
    let mut d = dreamer_context(&program);
    d.destination_token_account.owner = fresh_id();
    assert_eq!(
        transfer_pnft_dreamer(&d),
        Err(TransferError::InvalidUserOriginalMintTokenAccount)
    );
    let mut s = swap_context(&program);
    s.destination_token_account.owner = fresh_id();
    assert_eq!(transfer_pnft_swap(&s), Err(TransferError::InvalidUserOriginalMintTokenAccount));
    let mut w = wallet_context();
    w.destination_token_account.owner = fresh_id();
    assert_eq!(transfer_pnft(&w), Err(TransferError::InvalidUserOriginalMintTokenAccount));
}

#[test]
fn wrong_metadata_program_rejected() {
    let program = fresh_id();
    let mut ctx = dreamer_context(&program);
    ctx.token_metadata_program = fresh_id();
    assert_eq!(transfer_pnft_dreamer(&ctx), Err(TransferError::IncorrectMetadataProgram));
}

#[test]
fn wrong_token_program_rejected() {
    let program = fresh_id();
    let ctx = TransferTokenSwap {
        user: fresh_id(),
        pda_swapped: valid_swap(&program),
        token_source: TokenAccountInfo { address: fresh_id(), owner: fresh_id() },
        token_destination: TokenAccountInfo { address: fresh_id(), owner: fresh_id() },
        program_token: fresh_id(),
    };
    assert_eq!(transfer_nft_swap(&ctx), Err(TransferError::IncorrectTokenProgram));
}

#[test]
fn scenario_dreamer_basic_transfer() {
    let program = fresh_id();
    let record = valid_dreamer(&program, 3);
    let ctx = TransferTokenDreamer {
        user: fresh_id(),
        pda_dreamer: record,
        token_source: TokenAccountInfo { address: fresh_id(), owner: record.address },
        token_destination: TokenAccountInfo { address: fresh_id(), owner: fresh_id() },
        program_token: spl_token_program_id(),
    };
    assert!(authority_verifies(&HoldingRecord::Dreamer(record), &program));
    let plan = transfer_nft_dreamer(&ctx).unwrap();
    assert_eq!(plan.instruction.program_id, spl_token_program_id());
    assert_eq!(plan.instruction.data, vec![3u8, 1, 0, 0, 0, 0, 0, 0, 0]);
    assert_eq!(plan.instruction.accounts.len(), 3);
    assert_eq!(plan.instruction.accounts[2].key, record.address);
    assert!(plan.instruction.accounts[2].signer);
    assert_eq!(
        plan.account_keys,
        vec![
            ctx.program_token,
            ctx.token_source.address,
            ctx.token_destination.address,
            record.address
        ]
    );
    let seeds = plan.signer_seeds.unwrap();
    assert_eq!(
        seeds,
        vec![
            b"dreamer".to_vec(),
            vec![3u8],
            record.authority.bytes.to_vec(),
            vec![record.bump]
        ]
    );
}

#[test]
fn scenario_swap_basic_transfer() {
    let program = fresh_id();
    let record = valid_swap(&program);
    let ctx = TransferTokenSwap {
        user: fresh_id(),
        pda_swapped: record,
        token_source: TokenAccountInfo { address: fresh_id(), owner: record.address },
        token_destination: TokenAccountInfo { address: fresh_id(), owner: fresh_id() },
        program_token: spl_token_program_id(),
    };
    let plan = transfer_nft_swap(&ctx).unwrap();
    let seeds = plan.signer_seeds.unwrap();
    assert_eq!(
        seeds,
        vec![b"swapped".to_vec(), record.authority.bytes.to_vec(), vec![record.bump]]
    );
    assert_eq!(plan.account_keys.len(), 4);
}

#[test]
fn scenario_wallet_extended_transfer() {
    let ctx = wallet_context();
    let plan = transfer_pnft(&ctx).unwrap();
    assert!(plan.signer_seeds.is_none());
    assert_eq!(plan.instruction.accounts.len(), 17);
    assert_eq!(plan.instruction.data, vec![49u8, 0, 1, 0, 0, 0, 0, 0, 0, 0, 0]);
    assert_eq!(plan.account_keys.len(), 16);
    assert_eq!(plan.account_keys[0], ctx.token_account.address);
    assert_eq!(plan.account_keys[1], ctx.owner);
    assert_eq!(plan.account_keys[9], ctx.payer);
    assert_eq!(plan.account_keys[15], ctx.authorization_rules);
}

#[test]
fn scenario_swap_extended_transfer_signed() {
    let program = fresh_id();
    let ctx = swap_context(&program);
    let plan = transfer_pnft_swap(&ctx).unwrap();
    let seeds = plan.signer_seeds.unwrap();
    assert_eq!(
        seeds,
        vec![b"swapped".to_vec(), ctx.owner.authority.bytes.to_vec(), vec![ctx.owner.bump]]
    );
    assert_eq!(plan.instruction.accounts[9].key, ctx.owner.address);
    assert!(plan.instruction.accounts[9].signer);
}

#[test]
fn program_id_constants_match_published_identities() {
    assert_eq!(spl_token_program_id().bytes, spl_token::id().to_bytes());
    let mpl = Pubkey::from_str("metaqbxxUerdq28cj1RbAWkYQm3ybzjb6a8bt518x1s").unwrap();
    assert_eq!(token_metadata_program_id().bytes, mpl.to_bytes());
}

#[test]
fn basic_instruction_matches_token_program_builder() {
    let (s, d, auth) = (Pubkey::new_unique(), Pubkey::new_unique(), Pubkey::new_unique());
    let reference = spl_token::instruction::transfer(
        &spl_token::id(),
        &s,
        &d,
        &auth,
        &[],
        1,
    )
    .unwrap();
    let w = build_basic_transfer(&id_of(spl_token::id()), &id_of(s), &id_of(d), &id_of(auth))
        .unwrap();
    assert_eq!(w.data, reference.data);
    assert_eq!(w.program_id.bytes, reference.program_id.to_bytes());
    assert_eq!(w.accounts.len(), reference.accounts.len());
    for (slot, meta) in w.accounts.iter().zip(reference.accounts.iter()) {
        assert_eq!(slot.key.bytes, meta.pubkey.to_bytes());
        assert_eq!(slot.writable, meta.is_writable);
        assert_eq!(slot.signer, meta.is_signer);
    }
}
