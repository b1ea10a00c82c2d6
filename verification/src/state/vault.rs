use vstd::prelude::*;

use crate::codec::{get_key, key_at, put_bytes};
use crate::error::ProgramError;
use crate::state::pda::{check_derived, derived_check, key_seed, vault_seed, vault_seed_bytes};
use crate::state::utils::DataLen;

verus! {

/// The vault of a multisig: the multisig's key and the bump of the vault's address.
#[derive(Clone, Copy, Debug)]
pub struct Vault {
    pub multisig: [u8; 32],
    pub vault_bump: u8,
}

/// The mathematical value of a `Vault`.
#[verifier::ext_equal]
pub struct VaultView {
    pub multisig: Seq<u8>,
    pub vault_bump: u8,
}

impl View for Vault {
    type V = VaultView;

    open spec fn view(&self) -> VaultView {
        VaultView { multisig: self.multisig@, vault_bump: self.vault_bump }
    }
}

/// The size of a stored vault.
pub const VAULT_LEN: usize = 33;

impl VaultView {
    /// The vault as it is stored: the key, then the bump.
    pub open spec fn to_layout(self) -> Seq<u8> {
        self.multisig + seq![self.vault_bump]
    }

    /// The vault that stored bytes hold.
    pub open spec fn from_layout(s: Seq<u8>) -> VaultView {
        VaultView { multisig: key_at(s, 0), vault_bump: s[32] }
    }

    /// Whether the key has its 32 bytes.
    pub open spec fn wf(self) -> bool {
        self.multisig.len() == 32
    }
}

impl DataLen for Vault {
    const LEN: usize = 33;
}

impl Vault {
    /// The vault of `multisig`; it never fails.
    pub fn new(multisig: [u8; 32], vault_bump: u8) -> (r: Result<Vault, ProgramError>)
        ensures
            r matches Ok(v) && v@ == (VaultView { multisig: multisig@, vault_bump }),
    {
        Ok(Vault { multisig, vault_bump })
    }

    /// The seeds of a vault's address: "vault", the multisig's key, the bump.
    pub fn pda_seeds(owner: &[u8; 32], bump: u8) -> (r: Vec<Vec<u8>>)
        ensures
            r@.len() == 3,
            r@[0]@ == vault_seed(),
            r@[1]@ == owner@,
            r@[2]@ == seq![bump],
    {
        let mut r: Vec<Vec<u8>> = Vec::new();
        r.push(vault_seed_bytes());
        r.push(key_seed(owner));
        let b: Vec<u8> = vec![bump];
        r.push(b);
        r
    }

    /// Checks the address that the runtime derived from
    /// `Vault::pda_seeds(owner, bump)` against the account `pda`.
    pub fn validate_pda(pda: &[u8; 32], derived: Result<[u8; 32], ProgramError>) -> (r: Result<(), ProgramError>)
        ensures
            r == derived_check(derived, pda@),
    {
        check_derived(derived, pda)
    }

    /// Reads a vault from exactly `Vault::LEN` bytes.
    pub fn from_bytes(bytes: &[u8]) -> (r: Result<Vault, ProgramError>)
        ensures
            match r {
                Ok(v) => bytes@.len() == VAULT_LEN && v@ == VaultView::from_layout(bytes@),
                Err(e) => bytes@.len() != VAULT_LEN && e == ProgramError::InvalidAccountData,
            },
    {
        if bytes.len() != 33 {
            return Err(ProgramError::InvalidAccountData);
        }
        let v = Vault { multisig: get_key(bytes, 0), vault_bump: bytes[32] };
        assert(v@ =~= VaultView::from_layout(bytes@));
        Ok(v)
    }

    /// The stored form of this vault.
    pub fn to_bytes(&self) -> (r: [u8; 33])
        ensures
            r@ == self@.to_layout(),
    {
        let mut bytes = [0u8; 33];
        put_bytes(&mut bytes, 0, &self.multisig);
        bytes[32] = self.vault_bump;
        assert(bytes@ =~= self@.to_layout());
        bytes
    }
}

/// Reading back a stored vault gives the vault that was stored.
pub proof fn lemma_vault_layout_roundtrip(v: VaultView)
    requires
        v.wf(),
    ensures
        v.to_layout().len() == VAULT_LEN,
        VaultView::from_layout(v.to_layout()) == v,
{
    assert(key_at(v.to_layout(), 0) =~= v.multisig);
    assert(VaultView::from_layout(v.to_layout()) =~= v);
}

/// Storing a vault read from `Vault::LEN` bytes gives back those bytes.
pub proof fn lemma_vault_layout_canonical(s: Seq<u8>)
    requires
        s.len() == VAULT_LEN,
    ensures
        VaultView::from_layout(s).wf(),
        VaultView::from_layout(s).to_layout() == s,
{
    assert(VaultView::from_layout(s).to_layout() =~= s);
}

} // verus!
