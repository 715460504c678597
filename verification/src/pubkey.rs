//! Account addresses.
use vstd::prelude::*;

verus! {

/// The address of an account.
#[derive(Clone, Copy, Debug, Eq)]
pub struct Pubkey {
    pub bytes: [u8; 32],
}

impl PartialEq for Pubkey {
    /// Two addresses are equal when all their bytes are.
    fn eq(&self, other: &Self) -> (equal: bool) {
        let mut i: usize = 0;
        while i < 32
            invariant
                i <= 32,
                forall|j: int| 0 <= j < i ==> self.bytes@[j] == other.bytes@[j],
            decreases 32 - i,
        {
            if self.bytes[i] != other.bytes[i] {
                return false;
            }
            i += 1;
        }
        assert(self.bytes =~= other.bytes);
        true
    }
}

impl vstd::std_specs::cmp::PartialEqSpecImpl for Pubkey {
    open spec fn obeys_eq_spec() -> bool {
        true
    }

    open spec fn eq_spec(&self, other: &Self) -> bool {
        *self == *other
    }
}

/// The address of the compute budget program, `ComputeBudget111111111111111111111111111111`.
pub open spec fn compute_budget_address() -> Pubkey {
    Pubkey {
        bytes: [
            3, 6, 70, 111, 229, 33, 23, 50, 255, 236, 173, 186, 114, 195, 155, 231, 188, 140, 229,
            187, 197, 247, 18, 107, 44, 67, 155, 58, 64, 0, 0, 0,
        ],
    }
}

/// The address of the second BPF loader, `BPFLoader2111111111111111111111111111111111`.
pub open spec fn bpf_loader_address() -> Pubkey {
    Pubkey {
        bytes: [
            2, 168, 246, 145, 78, 136, 161, 110, 57, 90, 225, 40, 148, 143, 250, 105, 86, 147, 55,
            104, 24, 221, 71, 67, 82, 33, 243, 198, 0, 0, 0, 0,
        ],
    }
}

/// The address of the system program, whose bytes are all zero.
pub open spec fn system_program_address() -> Pubkey {
    Pubkey {
        bytes: [
            0, 0, 0, 0, 0, 0, 0, 0, 0, 0, 0, 0, 0, 0, 0, 0, 0, 0, 0, 0, 0, 0, 0, 0, 0, 0, 0, 0, 0,
            0, 0, 0,
        ],
    }
}

/// Calls `solana_sdk::compute_budget::id`. The contract claims that it returns the address
/// declared for the compute budget program.
#[verifier::external_body]
pub(crate) fn compute_budget_id() -> (id: Pubkey)
    ensures
        id == compute_budget_address(),
{
    Pubkey { bytes: solana_sdk::compute_budget::id().to_bytes() }
}

/// Calls `solana_sdk::bpf_loader::id`. The contract claims that it returns the address declared
/// for the second BPF loader.
#[verifier::external_body]
pub(crate) fn bpf_loader_id() -> (id: Pubkey)
    ensures
        id == bpf_loader_address(),
{
    Pubkey { bytes: solana_sdk::bpf_loader::id().to_bytes() }
}

/// Calls `solana_system_program::id`. The contract claims that it returns the address declared
/// for the system program.
#[verifier::external_body]
pub(crate) fn system_program_id() -> (id: Pubkey)
    ensures
        id == system_program_address(),
{
    Pubkey { bytes: solana_system_program::id().to_bytes() }
}

/// Two addresses are equal where all their 32 bytes agree, and nowhere else.
pub proof fn law_equal_addresses_agree_in_every_byte(first: Pubkey, second: Pubkey)
    ensures
        vstd::std_specs::cmp::PartialEqSpec::eq_spec(&first, &second) <==> (forall|i: int|
            0 <= i < 32 ==> first.bytes@[i] == second.bytes@[i]),
        first == second <==> (forall|i: int|
            0 <= i < 32 ==> first.bytes@[i] == second.bytes@[i]),
{
    if forall|i: int| 0 <= i < 32 ==> first.bytes@[i] == second.bytes@[i] {
        assert(first.bytes =~= second.bytes);
    }
}

/// The programs that the library knows have different addresses, and every byte of that of the
/// system program is zero.
pub proof fn law_programs_have_different_addresses()
    ensures
        compute_budget_address() != bpf_loader_address(),
        compute_budget_address() != system_program_address(),
        bpf_loader_address() != system_program_address(),
        forall|i: int| 0 <= i < 32 ==> system_program_address().bytes@[i] == 0,
{
    assert(compute_budget_address().bytes@[0] == 3);
    assert(bpf_loader_address().bytes@[0] == 2);
    assert(system_program_address().bytes@[0] == 0);
}

} // verus!
