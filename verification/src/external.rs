//! The calls this library makes into the Solana crates it builds on, each
//! behind a trusted item whose contract restates what the called code does.

use vstd::prelude::*;

use anchor_lang::prelude::Pubkey;
use spl_token_2022::extension::ExtensionType;
use spl_token_2022::solana_program::program_error::ProgramError;

use crate::keys::Key;

verus! {

/// Solana's program error, which the token program's sizing call can return.
#[verifier::external_type_specification]
#[verifier::external_body]
pub struct ExProgramError(ProgramError);

/// The Keccak-256 digest of a byte string.
pub uninterp spec fn keccak256(data: Seq<u8>) -> Seq<u8>;

/// `solana_keccak_hasher::hashv` over the single part `data`. The hasher feeds
/// every part to one Keccak-256 state in turn, so hashing several parts is
/// hashing their concatenation; callers concatenate first. The contract claims
/// only that the digest is the Keccak-256 digest of the bytes handed over.
#[verifier::external_body]
pub(crate) fn keccak_hashv(data: &[u8]) -> (r: Key)
    ensures
        r@ == keccak256(data@),
{
    solana_keccak_hasher::hashv(&[data]).0
}

/// The program-derived address that `Pubkey::find_program_address` finds for
/// these seeds and this program.
pub uninterp spec fn program_address(seeds: Seq<Seq<u8>>, program_id: Seq<u8>) -> Seq<u8>;

/// `anchor_lang::prelude::Pubkey::find_program_address`, keeping the address
/// and dropping the bump. The call panics when the seeds with the bump exceed
/// 16 seeds or a seed exceeds 32 bytes, which `requires` rules out; it also
/// panics when none of the 255 candidate bumps gives an off-curve address, an
/// event of negligible probability that no contract here can exclude.
#[verifier::external_body]
pub(crate) fn find_program_address(seeds: &Vec<Vec<u8>>, program_id: &Key) -> (r: Key)
    requires
        seeds.len() <= 15,
        forall|i: int| 0 <= i < seeds.len() ==> (#[trigger] seeds[i]).len() <= 32,
    ensures
        r@ == program_address(seeds.deep_view(), program_id@),
{
    let parts: Vec<&[u8]> = seeds.iter().map(|s| s.as_slice()).collect();
    Pubkey::find_program_address(&parts, &Pubkey::new_from_array(*program_id)).0.to_bytes()
}

/// The associated token account address of a wallet for a mint under a token program.
pub uninterp spec fn associated_token_address(
    wallet: Seq<u8>,
    mint: Seq<u8>,
    token_program: Seq<u8>,
) -> Seq<u8>;

/// `anchor_spl::associated_token::get_associated_token_address_with_program_id`.
/// The contract claims only that the result is the associated token address of
/// these three keys; as above, the negligible no-bump panic is not excluded.
#[verifier::external_body]
pub(crate) fn get_associated_token_address(wallet: &Key, mint: &Key, token_program: &Key) -> (r: Key)
    ensures
        r@ == associated_token_address(wallet@, mint@, token_program@),
{
    anchor_spl::associated_token::get_associated_token_address_with_program_id(
        &Pubkey::new_from_array(*wallet),
        &Pubkey::new_from_array(*mint),
        &Pubkey::new_from_array(*token_program),
    ).to_bytes()
}

/// The bytes of the Token-2022 program id `TokenzQdBNbLqP5VEhdkAS6EPFLC1PHnBqCXEpPxuEb`.
pub open spec fn token_2022_program_id_bytes() -> Seq<u8> {
    seq![
        6u8, 221, 246, 225, 238, 117, 143, 222, 24, 66, 93, 188, 228, 108, 205, 218,
        182, 26, 252, 77, 131, 185, 13, 39, 254, 189, 249, 40, 216, 161, 139, 252,
    ]
}

/// `anchor_spl::token_2022::ID`, the Token-2022 program id, as bytes; the
/// contract restates the id that the token crate declares.
#[verifier::external_body]
pub(crate) fn token_2022_program_id() -> (r: Key)
    ensures
        r@ == token_2022_program_id_bytes(),
{
    anchor_spl::token_2022::ID.to_bytes()
}

/// What the token program's account sizing returns.
pub type AccountLenResult = Result<usize, ProgramError>;

/// `ExtensionType::try_calculate_account_len::<Mint>(&[NonTransferable])` from
/// `spl_token_2022`: a mint with the non-transferable extension takes the base
/// account length (165) plus the account-type byte plus a 4-byte TLV header
/// for the zero-sized extension, 170 bytes, which is not the multisig length.
#[verifier::external_body]
pub(crate) fn non_transferable_mint_len() -> (r: AccountLenResult)
    ensures
        r is Ok,
        r->Ok_0 == 170,
{
    ExtensionType::try_calculate_account_len::<spl_token_2022::state::Mint>(
        &[ExtensionType::NonTransferable],
    )
}

} // verus!
