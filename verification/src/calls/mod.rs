//! What the launches call.
//!
//! The laws here speak of the plans that the `launch_*` methods return. They name the
//! kernel by the name under which the text declares it and give its arguments by the
//! names of its parameters, so that a launch agrees with the kernel and not only with
//! itself.

pub mod attention;
pub mod attention_rows;
pub mod attention_score_mma;
pub mod choices;
pub mod deltanet;
pub mod elementwise;
pub mod embedding_and_lora;
pub mod names;
pub mod relations;
pub mod steps;

use vstd::prelude::*;
use vstd::arithmetic::div_mod::{lemma_fundamental_div_mod, lemma_fundamental_div_mod_converse};
use vstd::arithmetic::power2::{lemma2_to64, pow2};
use crate::attention::decode::split_chunks;
use crate::attention::{group, splitgqa_refusal};
use crate::elementwise::tree_width;
use crate::geometry::{ceil_div, law_pieces_cover, linear, low_u32};
use crate::launch::LaunchConfig;

verus! {

/// One thread per element, in a row of blocks of 256 threads: enough blocks for `n`
/// elements, none without an element but a single one.
pub open spec fn a_thread_each(c: LaunchConfig, n: int) -> bool {
    &&& c.block_dim == (256u32, 1u32, 1u32)
    &&& c.grid_dim.0 >= 1
    &&& c.grid_dim.1 == 1
    &&& c.grid_dim.2 == 1
    &&& c.shared_mem_bytes == 0
    &&& n <= 256 * c.grid_dim.0
    &&& c.grid_dim.0 == 1 || 256 * (c.grid_dim.0 - 1) < n
}

/// [`a_thread_each`], with no block where there is no element.
pub open spec fn a_thread_for_each(c: LaunchConfig, n: int) -> bool {
    &&& c.block_dim == (256u32, 1u32, 1u32)
    &&& c.grid_dim.1 == 1
    &&& c.grid_dim.2 == 1
    &&& c.shared_mem_bytes == 0
    &&& n <= 256 * c.grid_dim.0
    &&& c.grid_dim.0 == 0 || 256 * (c.grid_dim.0 - 1) < n
}

/// `x` by `y` by `z` blocks of `threads` threads, with room for `floats` floats, each
/// as far as 32 bits hold it.
pub open spec fn shaped(
    c: LaunchConfig,
    x: int,
    y: int,
    z: int,
    threads: int,
    floats: int,
) -> bool {
    &&& c.grid_dim == (low_u32(x), low_u32(y), low_u32(z))
    &&& c.block_dim == (low_u32(threads), 1u32, 1u32)
    &&& c.shared_mem_bytes == low_u32(4 * floats)
}

/// `n` items fill `count` pieces of `per` items, the last one perhaps in part.
pub open spec fn in_pieces(n: int, per: int, count: int) -> bool {
    per * (count - 1) < n <= per * count
}

/// `n` positions fill `count` chunks of `len` positions; there is always one.
pub open spec fn in_chunks(n: int, len: int, count: int) -> bool {
    count >= 1 && n <= len * count && (count == 1 || len * (count - 1) < n)
}

/// `w` threads sum `leaves` leaves pairwise: the least power of two that has a thread
/// for each, or 1024 threads where there are more leaves.
pub open spec fn sums(w: int, leaves: int) -> bool {
    &&& exists|e: nat| e <= 10 && w == #[trigger] pow2(e)
    &&& leaves <= w || w == 1024
    &&& w == 1 || w < 2 * leaves
}

/// The shapes that the shared-head kernels take: the query heads are one to eight for
/// each K/V head, a head has up to 256 lanes, a chunk is made of tiles of 32.
pub open spec fn shares_heads(
    head_dim: usize,
    n_head: usize,
    n_kv_head: usize,
    chunk_len: usize,
) -> bool {
    &&& n_kv_head > 0
    &&& exists|g: int| 1 <= g <= 8 && n_head == #[trigger] (g * n_kv_head)
    &&& 1 <= head_dim <= 256
    &&& chunk_len % 32 == 0
}

/// The linear grid has a thread for each element.
pub(crate) proof fn lemma_a_thread_each(n: int)
    ensures
        a_thread_each(linear(n), low_u32(n) as int),
{
    let m = low_u32(n) as int;
    if m > 0 {
        law_pieces_cover(m, 256, 0);
    }
}

/// The pieces are counted by rounding up.
pub(crate) proof fn lemma_in_pieces(n: int, per: int, count: int)
    requires
        0 <= n,
        per == 4 || per == 16,
        in_pieces(n, per, count),
    ensures
        count == ceil_div(n, per),
        0 <= count <= n,
{
}

/// The chunks are counted by rounding up.
pub(crate) proof fn lemma_in_chunks(n: usize, len: usize, count: int)
    requires
        len > 0,
        in_chunks(n as int, len as int, count),
    ensures
        count == split_chunks(n, len),
{
    let per = len as int;
    if n == 0 {
        assert((0 + per - 1) / per == 0) by (nonlinear_arith)
            requires
                per > 0,
        ;
        if count > 1 {
            assert(per * (count - 1) >= 0) by (nonlinear_arith)
                requires
                    per > 0,
                    count > 1,
            ;
        }
    } else {
        law_pieces_cover(n as int, per, 0);
        let c = ceil_div(n as int, per);
        assert(c >= 1) by (nonlinear_arith)
            requires
                per * c >= n,
                n > 0,
                per > 0,
        ;
        assert(count == c) by (nonlinear_arith)
            requires
                per > 0,
                n > 0,
                c >= 1,
                count >= 1,
                per * c >= n,
                per * (c - 1) < n,
                n <= per * count,
                count == 1 || per * (count - 1) < n,
        ;
    }
}

/// The sizes that are not refused are those that share heads.
pub(crate) proof fn lemma_shares(
    head_dim: usize,
    n_head: usize,
    n_kv_head: usize,
    chunk_len: usize,
    g: int,
)
    ensures
        shares_heads(head_dim, n_head, n_kv_head, chunk_len) <==> splitgqa_refusal(
            head_dim,
            n_head,
            n_kv_head,
            chunk_len,
        ) is None,
        n_kv_head > 0 && n_head == g * n_kv_head ==> g == group(n_head, n_kv_head),
{
    if n_kv_head > 0 {
        let m = n_kv_head as int;
        let q = n_head as int / m;
        lemma_fundamental_div_mod(n_head as int, m);
        assert(m * q == q * n_kv_head) by (nonlinear_arith)
            requires
                m == n_kv_head,
        ;
        assert forall|h: int| n_head == #[trigger] (h * n_kv_head) implies h == q && n_head % n_kv_head
            == 0 by {
            assert(h * n_kv_head == m * h) by (nonlinear_arith)
                requires
                    m == n_kv_head,
            ;
            lemma_fundamental_div_mod_converse(n_head as int, m, h, 0);
        }
    }
}

/// The summation width is the tree width.
pub(crate) proof fn lemma_sums(w: int, leaves: int)
    requires
        sums(w, leaves),
        0 <= leaves,
    ensures
        w == tree_width(leaves),
{
    lemma2_to64();
    let e = choose|e: nat| e <= 10 && w == #[trigger] pow2(e);
    assert(e == 0 || e == 1 || e == 2 || e == 3 || e == 4 || e == 5 || e == 6 || e == 7 || e == 8
        || e == 9 || e == 10);
}

} // verus!
