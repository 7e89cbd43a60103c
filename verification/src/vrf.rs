use vstd::prelude::*;
use crate::errors::CasinoError;

verus! {

/// Takes the seed of a round from what the randomness service delivered. A
/// seed is exactly 32 bytes: anything shorter or longer is rejected with
/// `InvalidVrfResult`.
pub fn extract_vrf_bytes(vrf_result: &[u8]) -> (r: Result<[u8; 32], CasinoError>)
    ensures
        match r {
            Ok(bytes) => vrf_result@.len() == 32 && bytes@ == vrf_result@,
            Err(e) => e == CasinoError::InvalidVrfResult && vrf_result@.len() != 32,
        },
{
    if vrf_result.len() != 32 {
        return Err(CasinoError::InvalidVrfResult);
    }
    let mut bytes: [u8; 32] = [0u8; 32];
    let mut i: usize = 0;
    while i < 32
        invariant
            i <= 32,
            vrf_result@.len() == 32,
            forall|j: int| 0 <= j < i ==> bytes@[j] == vrf_result@[j],
        decreases 32 - i,
    {
        bytes[i] = vrf_result[i];
        i += 1;
    }
    assert(bytes@ =~= vrf_result@);
    Ok(bytes)
}

} // verus!
