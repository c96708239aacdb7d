//! Deterministic signer derivation.
//!
//! The program signs for the vault and for the derivative mint with addresses
//! derived from a fixed label and the config record's identity. No private key
//! exists for such an address; only the deriving program can sign for it. The
//! derivation itself is the hosting platform's: the two calls below are taken
//! on trust, and everything else is proved against their stated determinism.

use vstd::prelude::*;
use crate::AccountId;
use anchor_lang::prelude::Pubkey;

verus! {

/// What the full search returns for a label, a parent identity and a program
/// identity: the derived address and its bump byte, or nothing when no bump
/// yields a valid address.
pub uninterp spec fn derived_authority(label: Seq<u8>, parent: Seq<u8>, program: Seq<u8>) -> Option<(Seq<u8>, u8)>;

/// What single-bump derivation returns for a label, a parent identity, a bump
/// byte and a program identity.
pub uninterp spec fn authority_at_bump(label: Seq<u8>, parent: Seq<u8>, bump: u8, program: Seq<u8>) -> Option<Seq<u8>>;

/// Relies on anchor_lang's Pubkey::try_find_program_address: the result is a
/// deterministic function of the seeds and the program identity alone, and
/// the returned address is reproduced by Pubkey::create_program_address from
/// the same seeds extended with the returned bump.
#[verifier::external_body]
fn find_authority(label: &[u8], parent: &AccountId, program: &AccountId) -> (r: Option<(AccountId, u8)>)
    ensures
        r matches Some((addr, bump)) ==> derived_authority(label@, parent@, program@)
            == Some((addr@, bump)) && authority_at_bump(label@, parent@, bump, program@) == Some(addr@),
        r is None ==> derived_authority(label@, parent@, program@) is None,
{
    let program = Pubkey::new_from_array(*program);
    Pubkey::try_find_program_address(&[label, &parent[..]], &program)
        .map(|(addr, bump)| (addr.to_bytes(), bump))
}

/// Relies on anchor_lang's Pubkey::create_program_address: the result is a
/// deterministic function of the seeds, the bump and the program identity
/// alone.
#[verifier::external_body]
fn authority_for_bump(label: &[u8], parent: &AccountId, bump: u8, program: &AccountId) -> (r: Option<AccountId>)
    ensures
        r matches Some(addr) ==> authority_at_bump(label@, parent@, bump, program@) == Some(addr@),
        r is None ==> authority_at_bump(label@, parent@, bump, program@) is None,
{
    let program = Pubkey::new_from_array(*program);
    Pubkey::create_program_address(&[label, &parent[..], &[bump]], &program)
        .ok()
        .map(|addr| addr.to_bytes())
}

/// The label of the mint authority: the bytes of "mint_authority".
pub open spec fn mint_authority_label_spec() -> Seq<u8> {
    seq![109u8, 105u8, 110u8, 116u8, 95u8, 97u8, 117u8, 116u8, 104u8, 111u8, 114u8, 105u8, 116u8, 121u8]
}

/// The label of the vault authority: the bytes of "vault_authority".
pub open spec fn vault_authority_label_spec() -> Seq<u8> {
    seq![118u8, 97u8, 117u8, 108u8, 116u8, 95u8, 97u8, 117u8, 116u8, 104u8, 111u8, 114u8, 105u8, 116u8, 121u8]
}

/// The label of the vault custody account: the bytes of "usdc_vault".
pub open spec fn vault_account_label_spec() -> Seq<u8> {
    seq![117u8, 115u8, 100u8, 99u8, 95u8, 118u8, 97u8, 117u8, 108u8, 116u8]
}

/// Builds the mint authority label.
pub fn mint_authority_label() -> (v: Vec<u8>)
    ensures
        v@ == mint_authority_label_spec(),
{
    let mut v: Vec<u8> = Vec::new();
    v.push(109u8);
    v.push(105u8);
    v.push(110u8);
    v.push(116u8);
    v.push(95u8);
    v.push(97u8);
    v.push(117u8);
    v.push(116u8);
    v.push(104u8);
    v.push(111u8);
    v.push(114u8);
    v.push(105u8);
    v.push(116u8);
    v.push(121u8);
    proof {
        assert(v@ =~= mint_authority_label_spec());
    }
    v
}

/// Builds the vault authority label.
pub fn vault_authority_label() -> (v: Vec<u8>)
    ensures
        v@ == vault_authority_label_spec(),
{
    let mut v: Vec<u8> = Vec::new();
    v.push(118u8);
    v.push(97u8);
    v.push(117u8);
    v.push(108u8);
    v.push(116u8);
    v.push(95u8);
    v.push(97u8);
    v.push(117u8);
    v.push(116u8);
    v.push(104u8);
    v.push(111u8);
    v.push(114u8);
    v.push(105u8);
    v.push(116u8);
    v.push(121u8);
    proof {
        assert(v@ =~= vault_authority_label_spec());
    }
    v
}

/// Builds the vault custody account label.
pub fn vault_account_label() -> (v: Vec<u8>)
    ensures
        v@ == vault_account_label_spec(),
{
    let mut v: Vec<u8> = Vec::new();
    v.push(117u8);
    v.push(115u8);
    v.push(100u8);
    v.push(99u8);
    v.push(95u8);
    v.push(118u8);
    v.push(97u8);
    v.push(117u8);
    v.push(108u8);
    v.push(116u8);
    proof {
        assert(v@ =~= vault_account_label_spec());
    }
    v
}

/// Derives the mint authority for a config record: the identity that alone
/// may issue the derivative token, and its bump byte.
pub fn derive_mint_authority(config_id: &AccountId, program_id: &AccountId) -> (r: Option<(AccountId, u8)>)
    ensures
        r matches Some((addr, bump)) ==> derived_authority(mint_authority_label_spec(), config_id@, program_id@)
            == Some((addr@, bump))
            && authority_at_bump(mint_authority_label_spec(), config_id@, bump, program_id@) == Some(addr@),
        r is None ==> derived_authority(mint_authority_label_spec(), config_id@, program_id@) is None,
{
    let label = mint_authority_label();
    find_authority(label.as_slice(), config_id, program_id)
}

/// Derives the vault authority for a config record: the identity that alone
/// may move funds out of the vault, and its bump byte.
pub fn derive_vault_authority(config_id: &AccountId, program_id: &AccountId) -> (r: Option<(AccountId, u8)>)
    ensures
        r matches Some((addr, bump)) ==> derived_authority(vault_authority_label_spec(), config_id@, program_id@)
            == Some((addr@, bump))
            && authority_at_bump(vault_authority_label_spec(), config_id@, bump, program_id@) == Some(addr@),
        r is None ==> derived_authority(vault_authority_label_spec(), config_id@, program_id@) is None,
{
    let label = vault_authority_label();
    find_authority(label.as_slice(), config_id, program_id)
}

/// Derives the identity of the vault custody account for a config record.
pub fn derive_vault_address(config_id: &AccountId, program_id: &AccountId) -> (r: Option<(AccountId, u8)>)
    ensures
        r matches Some((addr, bump)) ==> derived_authority(vault_account_label_spec(), config_id@, program_id@)
            == Some((addr@, bump))
            && authority_at_bump(vault_account_label_spec(), config_id@, bump, program_id@) == Some(addr@),
        r is None ==> derived_authority(vault_account_label_spec(), config_id@, program_id@) is None,
{
    let label = vault_account_label();
    find_authority(label.as_slice(), config_id, program_id)
}

/// Reproduces the mint authority from the bump recorded at initialization.
pub fn mint_authority_at(config_id: &AccountId, bump: u8, program_id: &AccountId) -> (r: Option<AccountId>)
    ensures
        r matches Some(addr) ==> authority_at_bump(mint_authority_label_spec(), config_id@, bump, program_id@)
            == Some(addr@),
        r is None ==> authority_at_bump(mint_authority_label_spec(), config_id@, bump, program_id@) is None,
{
    let label = mint_authority_label();
    authority_for_bump(label.as_slice(), config_id, bump, program_id)
}

/// Reproduces the vault authority from the bump recorded at initialization.
pub fn vault_authority_at(config_id: &AccountId, bump: u8, program_id: &AccountId) -> (r: Option<AccountId>)
    ensures
        r matches Some(addr) ==> authority_at_bump(vault_authority_label_spec(), config_id@, bump, program_id@)
            == Some(addr@),
        r is None ==> authority_at_bump(vault_authority_label_spec(), config_id@, bump, program_id@) is None,
{
    let label = vault_authority_label();
    authority_for_bump(label.as_slice(), config_id, bump, program_id)
}

} // verus!
