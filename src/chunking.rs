//! The chunking rule: a transfer is a run of full chunks closed by the first
//! chunk that is shorter than the chunk size, possibly empty.
use vstd::prelude::*;

verus! {

/// The size of a full chunk: 256 KiB.
pub const BUFFER_SIZE: usize = 256 * 1024;

/// Whether a chunk of `n` bytes ends the transfer.
pub fn is_last_chunk(n: usize) -> (r: bool)
    ensures
        r == (n < BUFFER_SIZE),
{
    n < BUFFER_SIZE
}

/// The chunk lengths in which a source of `len` bytes is sent, with chunks of
/// `size` bytes.
pub open spec fn chunk_plan(len: nat, size: nat) -> Seq<nat>
    decreases len,
{
    if size == 0 || len < size {
        seq![len]
    } else {
        seq![size] + chunk_plan((len - size) as nat, size)
    }
}

/// A source of `len` bytes goes out in `len / size + 1` chunks: full ones
/// that keep the loops going, then one shorter chunk of `len % size` bytes
/// that stops them, which is empty where `len` is a multiple of `size`.
pub proof fn lemma_chunk_plan(len: nat, size: nat)
    requires
        size > 0,
    ensures
        chunk_plan(len, size).len() == len / size + 1,
        forall|i: int| 0 <= i < chunk_plan(len, size).len() - 1 ==> #[trigger] chunk_plan(len, size)[i] == size,
        chunk_plan(len, size).last() == len % size,
        chunk_plan(len, size).last() < size,
        len % size == 0 ==> chunk_plan(len, size).last() == 0,
    decreases len,
{
    if len >= size {
        let rest = (len - size) as nat;
        lemma_chunk_plan(rest, size);
        assert(len / size == rest / size + 1) by (nonlinear_arith)
            requires rest == len - size, size > 0, len >= size;
        assert(len % size == rest % size) by (nonlinear_arith)
            requires rest == len - size, size > 0, len >= size;
        let p = chunk_plan(len, size);
        assert forall|i: int| 0 <= i < p.len() - 1 implies #[trigger] p[i] == size by {
            if i > 0 {
                assert(p[i] == chunk_plan(rest, size)[i - 1]);
            }
        }
    } else {
        assert(len / size == 0) by (nonlinear_arith)
            requires len < size, size > 0;
        assert(len % size == len) by (nonlinear_arith)
            requires len < size, size > 0;
    }
}

} // verus!
