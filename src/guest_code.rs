use vstd::prelude::*;

use crate::error::VmmError;

verus! {

/// `code` placed at byte `offset` of a memory of `mem_len` bytes lies wholly
/// inside it.
pub open spec fn code_fits(mem_len: int, offset: int, code_len: int) -> bool {
    offset + code_len <= mem_len
}

/// The memory `mem` with the bytes at `offset .. offset + code.len()` replaced
/// by `code`, every other byte kept.
pub open spec fn spliced(mem: Seq<u8>, offset: int, code: Seq<u8>) -> Seq<u8> {
    Seq::new(
        mem.len(),
        |k: int|
            if offset <= k < offset + code.len() {
                code[k - offset]
            } else {
                mem[k]
            },
    )
}

/// Copies `code` into guest memory at byte `offset`. When the code does not
/// fit, fails with `CodeOutOfBounds` and writes nothing.
pub fn load_code(mem: &mut [u8], offset: usize, code: &[u8]) -> (r: Result<(), VmmError>)
    ensures
        r is Ok <==> code_fits(old(mem)@.len() as int, offset as int, code@.len() as int),
        r is Ok ==> final(mem)@ == spliced(old(mem)@, offset as int, code@),
        r is Err ==> final(mem)@ == old(mem)@ && r == Err::<(), VmmError>(
            VmmError::CodeOutOfBounds,
        ),
{
    if offset > mem.len() || code.len() > mem.len() - offset {
        return Err(VmmError::CodeOutOfBounds);
    }
    let ghost orig = mem@;
    let n: usize = mem.len();
    let mut j: usize = 0;
    while j < code.len()
        invariant
            offset + code@.len() <= orig.len(),
            orig.len() == n,
            j <= code@.len(),
            mem@.len() == orig.len(),
            forall|k: int|
                0 <= k < orig.len() ==> #[trigger] mem@[k] == (if offset <= k < offset + j {
                    code@[k - offset]
                } else {
                    orig[k]
                }),
        decreases code.len() - j,
    {
        mem[offset + j] = code[j];
        j += 1;
    }
    assert(mem@ =~= spliced(orig, offset as int, code@));
    Ok(())
}

} // verus!
