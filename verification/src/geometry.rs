//! Launch geometry: how sizes become 32-bit kernel arguments and grids, and
//! what those grids cover.

use vstd::prelude::*;
use vstd::arithmetic::div_mod::{
    lemma_fundamental_div_mod,
    lemma_fundamental_div_mod_converse,
};
use crate::launch::{Arg, LaunchConfig};

verus! {

/// Threads per block of the one-thread-per-element kernels.
pub const LINEAR_BLOCK: u32 = 256;

/// The low 32 bits of `n` as an unsigned number: what a 32-bit grid or block
/// dimension keeps of a size.
pub open spec fn low_u32(n: int) -> u32 {
    (n % 0x1_0000_0000) as u32
}

/// The low 32 bits of `n` as a signed number: what a 32-bit kernel argument
/// keeps of a size.
pub open spec fn low_i32(n: int) -> i32 {
    let m = n % 0x1_0000_0000;
    (if m < 0x8000_0000 { m } else { m - 0x1_0000_0000 }) as i32
}

/// A size as a kernel argument.
pub open spec fn int_arg(n: int) -> Arg {
    Arg::I32(low_i32(n))
}

/// `a / b`, rounded up.
pub open spec fn ceil_div(a: int, b: int) -> int
    recommends
        a >= 0,
        b > 0,
{
    (a + b - 1) / b
}

/// Whether `a` is a multiple of `b`. Of zero only zero is.
pub open spec fn multiple(a: usize, b: usize) -> bool {
    if b == 0 {
        a == 0
    } else {
        a % b == 0
    }
}

/// A launch over a row of `grid` blocks of `block` threads.
pub open spec fn flat(grid: u32, block: u32, shared_mem_bytes: u32) -> LaunchConfig {
    LaunchConfig { grid_dim: (grid, 1, 1), block_dim: (block, 1, 1), shared_mem_bytes }
}

/// Blocks of 256 threads for `total` elements, as far as 32 bits hold `total`.
pub open spec fn linear_blocks(total: int) -> u32 {
    ceil_div(low_u32(total) as int, 256) as u32
}

/// One thread per element, `total` elements, 256 threads per block, at least
/// one block.
pub open spec fn linear(total: int) -> LaunchConfig {
    flat(if linear_blocks(total) == 0 { 1 } else { linear_blocks(total) }, 256, 0)
}

/// The low 32 bits of `n`, unsigned.
pub(crate) fn to_u32(n: usize) -> (r: u32)
    ensures
        r == low_u32(n as int),
{
    let m: u64 = n as u64;
    assert((m as u32) as u64 == m % 0x1_0000_0000u64) by (bit_vector);
    m as u32
}

/// The low 32 bits of `n`, signed.
pub(crate) fn to_i32(n: usize) -> (r: i32)
    ensures
        r == low_i32(n as int),
{
    let m: u32 = to_u32(n);
    if m < 0x8000_0000 {
        m as i32
    } else {
        -((0xffff_ffffu32 - m) as i32) - 1
    }
}

/// [`int_arg`], computed.
pub(crate) fn size_arg(n: usize) -> (r: Arg)
    ensures
        r == int_arg(n as int),
{
    Arg::I32(to_i32(n))
}

/// `a / b`, rounded up.
pub(crate) fn div_up(a: usize, b: usize) -> (r: usize)
    requires
        b > 0,
    ensures
        r == ceil_div(a as int, b as int),
        r <= a,
{
    proof {
        lemma_ceil_div_by_cases(a as int, b as int);
    }
    if a % b == 0 {
        a / b
    } else {
        a / b + 1
    }
}

/// [`flat`], computed.
pub(crate) fn flat_config(grid: u32, block: u32, shared_mem_bytes: u32) -> (r: LaunchConfig)
    ensures
        r == flat(grid, block, shared_mem_bytes),
{
    LaunchConfig { grid_dim: (grid, 1, 1), block_dim: (block, 1, 1), shared_mem_bytes }
}

/// [`linear_blocks`], computed.
pub(crate) fn linear_grid(total: usize) -> (r: u32)
    ensures
        r == linear_blocks(total as int),
{
    let n: u32 = to_u32(total);
    proof {
        lemma_ceil_div_by_cases(n as int, 256);
    }
    if n % LINEAR_BLOCK == 0 {
        n / LINEAR_BLOCK
    } else {
        n / LINEAR_BLOCK + 1
    }
}

/// [`linear`], computed.
pub(crate) fn linear_config(total: usize) -> (r: LaunchConfig)
    ensures
        r == linear(total as int),
{
    let blocks: u32 = linear_grid(total);
    flat_config(if blocks == 0 { 1 } else { blocks }, LINEAR_BLOCK, 0)
}

/// The rounded-up quotient is the quotient, plus one where a remainder is left.
proof fn lemma_ceil_div_by_cases(a: int, b: int)
    requires
        a >= 0,
        b > 0,
    ensures
        ceil_div(a, b) == if a % b == 0 { a / b } else { a / b + 1 },
        0 <= ceil_div(a, b) <= a,
{
    let q = a / b;
    let r = a % b;
    lemma_fundamental_div_mod(a, b);
    assert(b * (q + 1) == b * q + b) by (nonlinear_arith);
    if r == 0 {
        lemma_fundamental_div_mod_converse(a + b - 1, b, q, b - 1);
    } else {
        lemma_fundamental_div_mod_converse(a + b - 1, b, q + 1, r - 1);
    }
    assert(q >= 0) by (nonlinear_arith)
        requires
            a == b * q + r,
            0 <= r < b,
            a >= 0,
    ;
    assert(b * q >= q) by (nonlinear_arith)
        requires
            q >= 0,
            b >= 1,
    ;
}

/// A size below 2^31 reaches a kernel unchanged, as an argument and as a grid
/// or block dimension.
pub proof fn law_small_sizes_are_exact(n: int)
    requires
        0 <= n <= i32::MAX,
    ensures
        low_i32(n) == n,
        low_u32(n) == n,
{
}

/// What a kernel gets of a size is the size up to a multiple of 2^32.
pub proof fn law_low_bits(n: int)
    ensures
        (n - low_i32(n)) % 0x1_0000_0000 == 0,
        (n - low_u32(n)) % 0x1_0000_0000 == 0,
        int_arg(n) == Arg::I32(low_i32(n)),
{
}

/// Cutting `n` items into pieces of `per` items: `ceil_div(n, per)` pieces are
/// enough, one fewer is not, and each item lies in exactly one piece.
pub proof fn law_pieces_cover(n: int, per: int, i: int)
    requires
        per > 0,
        0 <= i < n,
    ensures
        per * ceil_div(n, per) >= n,
        per * (ceil_div(n, per) - 1) < n,
        0 <= i / per < ceil_div(n, per),
        per * (i / per) <= i < per * (i / per) + per,
        forall|c: int| #![trigger per * c] per * c <= i < per * c + per ==> c == i / per,
{
    lemma_ceil_div_by_cases(n, per);
    lemma_fundamental_div_mod(n, per);
    lemma_fundamental_div_mod(i, per);
    let q = n / per;
    let c = ceil_div(n, per);
    assert(per * (q + 1) == per * q + per) by (nonlinear_arith);
    assert(per * (c - 1) == per * c - per) by (nonlinear_arith);
    assert(0 <= i / per) by (nonlinear_arith)
        requires
            i == per * (i / per) + i % per,
            0 <= i % per < per,
            i >= 0,
    ;
    assert(i / per < c) by (nonlinear_arith)
        requires
            per * (i / per) <= i,
            i < n,
            n <= per * c,
            per > 0,
    ;
    assert forall|d: int| #![trigger per * d] per * d <= i < per * d + per implies d == i / per by {
        lemma_fundamental_div_mod_converse(i, per, d, i - per * d);
    }
}

/// One thread per element: for a `total` that 32 bits hold, element `i` is the
/// element of exactly one thread `t` of one block `b` of the launch, and no
/// block is without an element.
pub proof fn law_linear_covers(total: int, i: int)
    requires
        0 <= i < total <= u32::MAX,
    ensures
        linear(total).grid_dim == (linear_blocks(total), 1u32, 1u32),
        linear(total).block_dim == (256u32, 1u32, 1u32),
        0 <= i / 256 < linear(total).grid_dim.0,
        0 <= i % 256 < linear(total).block_dim.0,
        i == (i / 256) * linear(total).block_dim.0 + i % 256,
        forall|b: int, t: int|
            0 <= t < 256 && #[trigger] (b * 256 + t) == i ==> b == i / 256 && t == i % 256,
        (linear(total).grid_dim.0 - 1) * 256 < total,
{
    law_pieces_cover(total, 256, i);
}

} // verus!
