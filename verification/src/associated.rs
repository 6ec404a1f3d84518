//! Associated token accounts and the programs that the gateway knows.
//!
//! The account that holds an owner's balance of one token is found from the
//! owner, the token program and the mint alone: it is the program-derived
//! address of the associated-token-account program for these three seeds.

use vstd::prelude::*;

use crate::address::{decoded_address, AccountAddress};

verus! {

/// The published address of the token program.
pub open spec fn token_program_text() -> Seq<char> {
    "TokenkegQfeZyiNwAJbNbGKPFXCWuBvf9Ss623VQ5DA"@
}

/// The published address of the memo program.
pub open spec fn memo_program_text() -> Seq<char> {
    "MemoSq4gqABAXKb96qnH8TysNcWxMyWCqXgDLGmfcHr"@
}

/// The published address of the associated-token-account program.
pub open spec fn associated_token_program_text() -> Seq<char> {
    "ATokenGPvbdGVxr1b2hvZbsiqW5xWH25efTNsLJA8knL"@
}

/// The address that `solana_sdk::pubkey::Pubkey::try_find_program_address`
/// finds for three seeds of 32 bytes and a program, or `None` where it finds
/// none.
pub uninterp spec fn program_address(
    first: Seq<u8>,
    second: Seq<u8>,
    third: Seq<u8>,
    program: Seq<u8>,
) -> Option<Seq<u8>>;

/// The associated token account of an owner and a mint, where there is one.
pub open spec fn associated_address(owner: Seq<u8>, mint: Seq<u8>) -> Option<Seq<u8>> {
    program_address(
        owner,
        decoded_address(token_program_text())->0,
        mint,
        decoded_address(associated_token_program_text())->0,
    )
}

/// Calls `spl_token::id`. The crate declares the program's address by its
/// base-58 text, which it decodes as addresses are decoded; the contract
/// says that the address returned is the decoding of that text.
#[verifier::external_body]
pub(crate) fn token_program() -> (program: AccountAddress)
    ensures
        decoded_address(token_program_text()) == Some(program@),
{
    AccountAddress { bytes: spl_token::id().to_bytes() }
}

/// Calls `spl_memo::id`. The contract says that the address returned is the
/// decoding of the text by which the crate declares the program's address.
#[verifier::external_body]
pub(crate) fn memo_program() -> (program: AccountAddress)
    ensures
        decoded_address(memo_program_text()) == Some(program@),
{
    AccountAddress { bytes: spl_memo::id().to_bytes() }
}

/// Calls `spl_associated_token_account::id`. The contract says that the
/// address returned is the decoding of the text by which the crate declares
/// the program's address.
#[verifier::external_body]
fn associated_token_program() -> (program: AccountAddress)
    ensures
        decoded_address(associated_token_program_text()) == Some(program@),
{
    AccountAddress { bytes: spl_associated_token_account::id().to_bytes() }
}

/// Calls `solana_sdk::pubkey::Pubkey::try_find_program_address` with the
/// three seeds in the order given. It tries the bump seeds from 255 down to
/// 1 and returns the first hash of seeds, bump seed and program that is
/// a valid program address, or `None` if no bump seed gives one. The
/// contract only names the outcome, which the arguments determine.
#[verifier::external_body]
fn find_program_address(
    first: &AccountAddress,
    second: &AccountAddress,
    third: &AccountAddress,
    program: &AccountAddress,
) -> (found: Option<AccountAddress>)
    ensures
        match found {
            Some(address) => program_address(first@, second@, third@, program@) == Some(address@),
            None => program_address(first@, second@, third@, program@) is None,
        },
{
    let program = solana_sdk::pubkey::Pubkey::new_from_array(program.bytes);
    let seeds: [&[u8]; 3] = [&first.bytes, &second.bytes, &third.bytes];
    match solana_sdk::pubkey::Pubkey::try_find_program_address(&seeds, &program) {
        Some((address, _)) => Some(AccountAddress { bytes: address.to_bytes() }),
        None => None,
    }
}

/// Deriving is a function of the owner and the mint: equal owners and equal
/// mints have the same associated token account.
pub proof fn lemma_derive_deterministic(
    owner: AccountAddress,
    mint: AccountAddress,
    same_owner: AccountAddress,
    same_mint: AccountAddress,
)
    requires
        owner@ == same_owner@,
        mint@ == same_mint@,
    ensures
        associated_address(owner@, mint@) == associated_address(same_owner@, same_mint@),
{
}

/// Derives the associated token account of `owner` for the token of `mint`.
/// The same owner and mint always give the same account. `None` is returned
/// for a pair that has no such account, because no bump seed yields a valid
/// program address for it.
pub fn derive(owner: &AccountAddress, mint: &AccountAddress) -> (account: Option<AccountAddress>)
    ensures
        match account {
            Some(a) => associated_address(owner@, mint@) == Some(a@),
            None => associated_address(owner@, mint@) is None,
        },
{
    find_program_address(owner, &token_program(), mint, &associated_token_program())
}

} // verus!
