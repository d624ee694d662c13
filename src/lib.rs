//! The `favorites` on-chain program: one `initialize` instruction that takes an
//! empty accounts descriptor and always succeeds, and the fixed identifier under
//! which the program is deployed.
use vstd::prelude::*;

verus! {

/// anchor's error type. `initialize` returns `anchor_lang::Result<()>`, whose
/// error side is this type; it is only carried through, never inspected.
#[verifier::external_type_specification]
#[verifier::external_body]
pub struct ExAnchorError(anchor_lang::error::Error);

/// The program identifier, `EipyQKJpUMqLnuSTbVFbjYPBJedcuyU2PtaT4tn8raSZ` in
/// base58, as its 32 raw bytes.
pub const PROGRAM_ID: [u8; 32] = [
    203, 222, 252, 95, 170, 56, 161, 73, 107, 12, 159, 144, 222, 3, 112, 233,
    90, 71, 115, 140, 80, 220, 107, 104, 224, 189, 205, 150, 44, 81, 127, 230,
];

/// Returns the program identifier.
pub fn id() -> (r: [u8; 32])
    ensures
        r@ == PROGRAM_ID@,
{
    PROGRAM_ID
}

/// Confirms that `id` is the program identifier.
pub fn check_id(id: &[u8; 32]) -> (r: bool)
    ensures
        r == (id@ == PROGRAM_ID@),
{
    let expected: [u8; 32] = PROGRAM_ID;
    let mut i: usize = 0;
    while i < 32
        invariant
            0 <= i <= 32,
            expected@ == PROGRAM_ID@,
            forall|k: int| 0 <= k < i ==> id@[k] == expected@[k],
        decreases 32 - i,
    {
        if id[i] != expected[i] {
            assert(id@[i as int] != PROGRAM_ID@[i as int]);
            return false;
        }
        i = i + 1;
    }
    assert(id@ =~= PROGRAM_ID@);
    true
}

/// The accounts that `initialize` requires: none.
pub struct Initialize {}

/// What an `initialize` call returns: success with no payload, whatever the
/// accounts value and whatever calls came before.
pub open spec fn initialize_outcome(accounts: Initialize) -> anchor_lang::Result<()> {
    Ok(())
}

/// The `initialize` instruction. It reads and writes nothing and cannot fail.
pub fn initialize(accounts: Initialize) -> (r: anchor_lang::Result<()>)
    ensures
        r == initialize_outcome(accounts),
        r is Ok,
{
    Ok(())
}

/// Any number of `initialize` calls, in any order, each succeed, and each
/// returns the same outcome as every other: no call depends on those before it,
/// since the program holds no state between calls.
pub proof fn lemma_initialize_repeatable(calls: Seq<Initialize>)
    ensures
        forall|i: int| 0 <= i < calls.len() ==> (#[trigger] initialize_outcome(calls[i])) is Ok,
        forall|i: int, j: int|
            0 <= i < calls.len() && 0 <= j < calls.len() ==> #[trigger] initialize_outcome(calls[i])
                == #[trigger] initialize_outcome(calls[j]),
{
}

} // verus!
