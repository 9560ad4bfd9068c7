//! Instructions for the token ledger, and the size of a certificate's record.
//!
//! The instructions are built by the `spl_token_2022` crate. What is stated
//! here of that crate is believed, not proved: each such item says so.

use vstd::prelude::*;
use spl_token_2022::extension::ExtensionType;
use spl_token_2022::instruction;
use spl_token_2022::instruction::AuthorityType;
use spl_token_2022::solana_program::program_error::ProgramError;
use spl_token_2022::solana_program::pubkey::Pubkey;
use spl_token_2022::state::Mint;
use crate::address::Address;

verus! {

/// The extension that makes every unit of a certificate non-transferable.
pub const NON_TRANSFERABLE: u16 = 9;

/// An account that an instruction names, and how it uses it.
#[derive(Clone, Copy, Debug, PartialEq, Eq)]
pub struct AccountMeta {
    pub pubkey: Address,
    pub is_signer: bool,
    pub is_writable: bool,
}

/// An instruction for a program: the program, the accounts it is given, and
/// the bytes it reads.
#[derive(Clone, Debug, PartialEq, Eq)]
pub struct Instruction {
    pub program_id: Address,
    pub accounts: Vec<AccountMeta>,
    pub data: Vec<u8>,
}

/// What an `Instruction` holds.
pub ghost struct InstructionView {
    pub program_id: Address,
    pub accounts: Seq<AccountMeta>,
    pub data: Seq<u8>,
}

impl View for Instruction {
    type V = InstructionView;

    open spec fn view(&self) -> InstructionView {
        InstructionView { program_id: self.program_id, accounts: self.accounts@, data: self.data@ }
    }
}

/// Which authority over a certificate an instruction is about.
#[derive(Clone, Copy, Debug, PartialEq, Eq, Structural)]
pub enum AuthorityKind {
    /// The authority to issue units.
    MintTokens,
    /// The authority to freeze holding slots.
    FreezeAccount,
}

impl AccountMeta {
    /// The entry for `pubkey` with the given uses.
    pub fn new(bytes: [u8; 32], is_signer: bool, is_writable: bool) -> (m: AccountMeta)
        ensures
            m == (AccountMeta { pubkey: Address { bytes }, is_signer, is_writable }),
    {
        AccountMeta { pubkey: Address { bytes }, is_signer, is_writable }
    }

    /// An account that the instruction may change.
    pub open spec fn writable(pubkey: Address, is_signer: bool) -> AccountMeta {
        AccountMeta { pubkey, is_signer, is_writable: true }
    }

    /// An account that the instruction only reads.
    pub open spec fn readonly(pubkey: Address, is_signer: bool) -> AccountMeta {
        AccountMeta { pubkey, is_signer, is_writable: false }
    }
}

impl Instruction {
    /// The instruction for the program `program` with these accounts and bytes.
    pub fn new(program: [u8; 32], accounts: Vec<AccountMeta>, data: Vec<u8>) -> (ix: Instruction)
        ensures
            ix@ == (InstructionView {
                program_id: Address { bytes: program },
                accounts: accounts@,
                data: data@,
            }),
    {
        Instruction { program_id: Address { bytes: program }, accounts, data }
    }
}

/// The accounts of an instruction that an authority has to approve: the
/// accounts it works on, then the authority, read only, which signs itself
/// when no other signer is named, then each named signer, read only and
/// signing.
pub open spec fn approved_accounts(
    targets: Seq<AccountMeta>,
    owner: Address,
    signers: Seq<Address>,
) -> Seq<AccountMeta> {
    targets + seq![AccountMeta::readonly(owner, signers.len() == 0)] + signers.map_values(
        |s: Address| AccountMeta::readonly(s, true),
    )
}

/// The error type of the ledger's instruction builders.
#[verifier::external_type_specification]
#[verifier::external_body]
pub struct ExProgramError(ProgramError);

/// The size that `ExtensionType::try_calculate_account_len::<Mint>` gives for
/// a certificate's record with the extensions of the given numbers, `None`
/// where it gives an error or a number is no extension's.
pub uninterp spec fn mint_account_len(extensions: Seq<u16>) -> Option<usize>;

/// The bytes of the instruction that `initialize_non_transferable_mint`
/// builds, `None` where it refuses the token program.
pub uninterp spec fn non_transferable_data(token_program: Seq<u8>, mint: Seq<u8>) -> Option<
    Seq<u8>,
>;

/// The bytes of the instruction that `initialize_mint2` builds, `None` where
/// it refuses the token program.
pub uninterp spec fn initialize_mint_data(
    token_program: Seq<u8>,
    mint: Seq<u8>,
    mint_authority: Seq<u8>,
    freeze_authority: Option<Seq<u8>>,
    decimals: u8,
) -> Option<Seq<u8>>;

/// The bytes of the instruction that `mint_to` builds for one signer beside
/// the authority, `None` where it refuses the token program.
pub uninterp spec fn mint_to_data(
    token_program: Seq<u8>,
    mint: Seq<u8>,
    account: Seq<u8>,
    owner: Seq<u8>,
    signer: Seq<u8>,
    amount: u64,
) -> Option<Seq<u8>>;

/// The bytes of the instruction that `set_authority` builds for one signer
/// beside the authority, `None` where it refuses the token program.
pub uninterp spec fn set_authority_data(
    token_program: Seq<u8>,
    owned: Seq<u8>,
    new_authority: Option<Seq<u8>>,
    kind: AuthorityKind,
    owner: Seq<u8>,
    signer: Seq<u8>,
) -> Option<Seq<u8>>;

/// Calls `ExtensionType::try_calculate_account_len::<Mint>` of
/// `spl_token_2022` on the extensions with the given numbers. Believed: the
/// result is a function of the numbers alone, the size on success.
#[verifier::external_body]
pub(crate) fn try_mint_account_len(extensions: &Vec<u16>) -> (r: Result<usize, ProgramError>)
    ensures
        match mint_account_len(extensions@) {
            Some(n) => r matches Ok(len) && len == n,
            None => r is Err,
        },
{
    let mut kinds: Vec<ExtensionType> = Vec::new();
    for e in extensions.iter() {
        kinds.push(ExtensionType::try_from(*e).or(Err(ProgramError::InvalidArgument))?);
    }
    ExtensionType::try_calculate_account_len::<Mint>(&kinds)
}

/// Calls `instruction::initialize_non_transferable_mint` of `spl_token_2022`.
/// Believed: where it accepts the token program, the instruction is for that
/// program and names the certificate alone, writable and not signing.
#[verifier::external_body]
pub(crate) fn build_non_transferable(token_program: &Address, mint: &Address) -> (r: Result<
    Instruction,
    ProgramError,
>)
    ensures
        match non_transferable_data(token_program@, mint@) {
            Some(data) => r matches Ok(ix) && ix@ == (InstructionView {
                program_id: *token_program,
                accounts: seq![AccountMeta::writable(*mint, false)],
                data,
            }),
            None => r is Err,
        },
{
    let ix = instruction::initialize_non_transferable_mint(
        &Pubkey::new_from_array(token_program.bytes),
        &Pubkey::new_from_array(mint.bytes),
    )?;
    let accounts = ix.accounts.iter().map(
        |m| AccountMeta::new(m.pubkey.to_bytes(), m.is_signer, m.is_writable),
    ).collect();
    Ok(Instruction::new(ix.program_id.to_bytes(), accounts, ix.data))
}

/// Calls `instruction::initialize_mint2` of `spl_token_2022`. Believed: where
/// it accepts the token program, the instruction is for that program and
/// names the certificate alone, writable and not signing.
#[verifier::external_body]
pub(crate) fn build_initialize_mint(
    token_program: &Address,
    mint: &Address,
    mint_authority: &Address,
    freeze_authority: Option<Address>,
    decimals: u8,
) -> (r: Result<Instruction, ProgramError>)
    ensures
        match initialize_mint_data(
            token_program@,
            mint@,
            mint_authority@,
            match freeze_authority {
                Some(f) => Some(f@),
                None => None,
            },
            decimals,
        ) {
            Some(data) => r matches Ok(ix) && ix@ == (InstructionView {
                program_id: *token_program,
                accounts: seq![AccountMeta::writable(*mint, false)],
                data,
            }),
            None => r is Err,
        },
{
    let freeze = freeze_authority.map(|f| Pubkey::new_from_array(f.bytes));
    let ix = instruction::initialize_mint2(
        &Pubkey::new_from_array(token_program.bytes),
        &Pubkey::new_from_array(mint.bytes),
        &Pubkey::new_from_array(mint_authority.bytes),
        freeze.as_ref(),
        decimals,
    )?;
    let accounts = ix.accounts.iter().map(
        |m| AccountMeta::new(m.pubkey.to_bytes(), m.is_signer, m.is_writable),
    ).collect();
    Ok(Instruction::new(ix.program_id.to_bytes(), accounts, ix.data))
}

/// Calls `instruction::mint_to` of `spl_token_2022` with one signer beside
/// the authority. Believed: where it accepts the token program, the
/// instruction is for that program and names the certificate and the holding
/// slot, both writable, then the authority and the signer as
/// `approved_accounts` lists them.
#[verifier::external_body]
pub(crate) fn build_mint_to(
    token_program: &Address,
    mint: &Address,
    account: &Address,
    owner: &Address,
    signer: &Address,
    amount: u64,
) -> (r: Result<Instruction, ProgramError>)
    ensures
        match mint_to_data(token_program@, mint@, account@, owner@, signer@, amount) {
            Some(data) => r matches Ok(ix) && ix@ == (InstructionView {
                program_id: *token_program,
                accounts: approved_accounts(
                    seq![AccountMeta::writable(*mint, false), AccountMeta::writable(*account, false)],
                    *owner,
                    seq![*signer],
                ),
                data,
            }),
            None => r is Err,
        },
{
    let ix = instruction::mint_to(
        &token_program.bytes.into(),
        &mint.bytes.into(),
        &account.bytes.into(),
        &owner.bytes.into(),
        &[&signer.bytes.into()],
        amount,
    )?;
    let accounts = ix.accounts.iter().map(
        |m| AccountMeta::new(m.pubkey.to_bytes(), m.is_signer, m.is_writable),
    ).collect();
    Ok(Instruction::new(ix.program_id.to_bytes(), accounts, ix.data))
}

/// Calls `instruction::set_authority` of `spl_token_2022` with one signer
/// beside the present authority. Believed: where it accepts the token
/// program, the instruction is for that program and names the account whose
/// authority changes, writable, then the present authority and the signer
/// as `approved_accounts` lists them.
#[verifier::external_body]
pub(crate) fn build_set_authority(
    token_program: &Address,
    owned: &Address,
    new_authority: Option<Address>,
    kind: AuthorityKind,
    owner: &Address,
    signer: &Address,
) -> (r: Result<Instruction, ProgramError>)
    ensures
        match set_authority_data(
            token_program@,
            owned@,
            match new_authority {
                Some(a) => Some(a@),
                None => None,
            },
            kind,
            owner@,
            signer@,
        ) {
            Some(data) => r matches Ok(ix) && ix@ == (InstructionView {
                program_id: *token_program,
                accounts: approved_accounts(
                    seq![AccountMeta::writable(*owned, false)],
                    *owner,
                    seq![*signer],
                ),
                data,
            }),
            None => r is Err,
        },
{
    let kind = match kind {
        AuthorityKind::MintTokens => AuthorityType::MintTokens,
        AuthorityKind::FreezeAccount => AuthorityType::FreezeAccount,
    };
    let new_authority: Option<Pubkey> = new_authority.map(|a| a.bytes.into());
    let (program, owned, owner) = (token_program.bytes.into(), owned.bytes.into(), owner.bytes.into());
    let signers = [&signer.bytes.into()];
    let ix = instruction::set_authority(&program, &owned, new_authority.as_ref(), kind, &owner, &signers)?;
    let accounts = ix.accounts.iter().map(
        |m| AccountMeta::new(m.pubkey.to_bytes(), m.is_signer, m.is_writable),
    ).collect();
    Ok(Instruction::new(ix.program_id.to_bytes(), accounts, ix.data))
}

} // verus!
