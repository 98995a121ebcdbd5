//! What holds of the delta-rule launches and of the choice between the two
//! expansion kernels.

use vstd::prelude::*;
use crate::deltanet::dispatch::{
    expand_rows_launches, legacy_asked, legacy_rows_launch, staged_rows_launch, ExpandCall,
    ExpandL2RowsDispatch, STAGED_MAX_K_HEADS,
};
use crate::deltanet::{
    beta_decay_launch, beta_decay_rows_launch, conv1d_launch, conv1d_rows_launch, deltanet_build,
    deltanet_kernels, expand_and_l2_normalize_launch, fused_kernel, fused_refusal, half_kernel,
    recurrence_fused_launch, recurrence_fused_rows_hd128_launch, recurrence_parallel_launch,
    row_grid, DeltanetKernel, HalfStateFmt,
};
use crate::module::{BuildStepView, KernelId};

verus! {

/// What is forced is what is chosen, whatever the setting says and whether or
/// not it has been read.
pub proof fn law_forced_choice_wins(
    d: ExpandL2RowsDispatch,
    v: bool,
    setting: Option<Seq<char>>,
)
    ensures
        (ExpandL2RowsDispatch { forced: Some(v), ..d }).staged(setting) == v,
{
}

/// Lifting the force restores what the setting says; without a setting that is
/// the staged kernel.
pub proof fn law_unforced_choice_is_the_settings(
    d: ExpandL2RowsDispatch,
    setting: Option<Seq<char>>,
)
    ensures
        (ExpandL2RowsDispatch { forced: None, ..d }).staged(setting) == d.resolution(setting),
        d.resolved is None ==> d.resolution(setting) == !legacy_asked(setting),
        d.resolved is None ==> d.resolution(None),
{
}

/// The setting is read once: after the first choice a later setting changes
/// nothing, also not across forcing and lifting.
pub proof fn law_setting_is_read_once(
    d: ExpandL2RowsDispatch,
    first: Option<Seq<char>>,
    later: Option<Seq<char>>,
    forced: Option<bool>,
)
    ensures
        ({
            let read = ExpandL2RowsDispatch { resolved: Some(d.resolution(first)), ..d };
            &&& read.resolution(later) == d.resolution(first)
            &&& (ExpandL2RowsDispatch { forced, ..read }).resolution(later) == d.resolution(first)
            &&& (ExpandL2RowsDispatch { forced, ..read }).staged(later) == (ExpandL2RowsDispatch {
                forced,
                ..d
            }).staged(first)
        }),
{
}

/// After any calls of the process the count is the earlier count and one for each
/// launch of the staged kernel that succeeded, as long as the counter has room.
/// It never decreases along the way.
pub proof fn law_count_is_the_staged_successes(d: ExpandL2RowsDispatch, calls: Seq<ExpandCall>)
    requires
        d.launches + d.counted(calls) <= usize::MAX,
    ensures
        d.after(calls).launches == d.launches + d.counted(calls),
        calls.len() > 0 ==> d.after(calls.drop_last()).launches <= d.after(calls).launches,
    decreases calls.len(),
{
    if calls.len() > 0 {
        let before = calls.drop_last();
        law_count_is_the_staged_successes(d, before);
        law_what_is_counted(d.after(before), calls.last());
    }
}

/// A call adds to the count where it launches the staged kernel with success.
/// Every other call leaves the count alone: an override, a query, the count
/// itself, and an expansion that is empty, goes to the legacy kernel or fails.
pub proof fn law_what_is_counted(d: ExpandL2RowsDispatch, call: ExpandCall)
    ensures
        d.counts(call) && d.launches < usize::MAX ==> d.after_one(call).launches == d.launches + 1,
        !d.counts(call) ==> d.after_one(call).launches == d.launches,
        call is Consult || call is Override || call is Count ==> !d.counts(call),
        call matches ExpandCall::Expand { setting, n_k_heads, n_v_heads, head_dim, p, succeeds }
            ==> {
            let plan = expand_rows_launches(
                d.staged(setting),
                n_k_heads,
                n_v_heads,
                head_dim,
                p,
            );
            d.counts(call) <==> plan.len() > 0 && plan[0].kernel == DeltanetKernel::ExpandL2RowsV2
                && succeeds
        },
        call is Count ==> d.after_one(call) == d,
{
}

/// The two expansion kernels take the same arguments, more key heads than the
/// staged kernel has room for go to the legacy kernel whatever is chosen, and
/// nothing is launched exactly where there is no element.
pub proof fn law_expansion_kernels_agree(
    staged: bool,
    n_k_heads: usize,
    n_v_heads: usize,
    head_dim: usize,
    p: usize,
)
    ensures
        staged_rows_launch(n_k_heads, n_v_heads, head_dim, p).args == legacy_rows_launch(
            n_k_heads,
            n_v_heads,
            head_dim,
            p,
        ).args,
        n_k_heads > STAGED_MAX_K_HEADS ==> expand_rows_launches(
            staged,
            n_k_heads,
            n_v_heads,
            head_dim,
            p,
        ) == expand_rows_launches(false, n_k_heads, n_v_heads, head_dim, p),
        expand_rows_launches(staged, n_k_heads, n_v_heads, head_dim, p).len() == if p == 0
            || n_v_heads == 0 || head_dim == 0 {
            0nat
        } else {
            1nat
        },
{
    assert((p * 3 * n_v_heads * head_dim == 0) <==> (p == 0 || n_v_heads == 0 || head_dim == 0))
        by (nonlinear_arith)
        requires
            p >= 0,
            n_v_heads >= 0,
            head_dim >= 0,
    ;
}

/// The staged kernel has a block for each of the three sections of every row.
pub proof fn law_staged_blocks_cover(
    n_k_heads: usize,
    n_v_heads: usize,
    head_dim: usize,
    p: usize,
    row: int,
    section: int,
)
    requires
        0 <= row < p <= u32::MAX,
        0 <= section < 3,
    ensures
        row < staged_rows_launch(n_k_heads, n_v_heads, head_dim, p).config.grid_dim.0,
        section < staged_rows_launch(n_k_heads, n_v_heads, head_dim, p).config.grid_dim.1,
        staged_rows_launch(n_k_heads, n_v_heads, head_dim, p).config.grid_dim.0 == p,
{
}

/// The fused recurrence has the grid of the parallel one, and so has the fused
/// recurrence over halves and over several rows at 128 lanes: a warp for every
/// state row of every head.
pub proof fn law_recurrence_grids_agree(
    kernel: DeltanetKernel,
    fmt: HalfStateFmt,
    head_dim: usize,
    n_head: usize,
    p: usize,
)
    ensures
        recurrence_fused_launch(kernel, head_dim, n_head).config == recurrence_parallel_launch(
            head_dim,
            n_head,
        ).config,
        recurrence_fused_launch(half_kernel(fmt), 128, n_head).config
            == recurrence_parallel_launch(128, n_head).config,
        recurrence_fused_rows_hd128_launch(n_head, p).config == recurrence_parallel_launch(
            128,
            n_head,
        ).config,
        n_head <= u32::MAX && head_dim <= u32::MAX ==> row_grid(n_head, head_dim).grid_dim == (
            n_head as u32,
            head_dim as u32,
            1u32,
        ),
{
}

/// The half-precision state is advanced with the arguments of the full one.
pub proof fn law_half_state_arguments(fmt: HalfStateFmt, n_head: usize)
    ensures
        recurrence_fused_launch(half_kernel(fmt), 128, n_head).args == recurrence_fused_launch(
            fused_kernel(128)->0,
            128,
            n_head,
        ).args,
        half_kernel(HalfStateFmt::F16) != half_kernel(HalfStateFmt::Bf16),
{
}

/// A head dimension has a fused recurrence exactly where it is 64, 128 or 256.
pub proof fn law_fused_head_dims(head_dim: usize)
    ensures
        fused_refusal(head_dim) is None <==> head_dim == 64 || head_dim == 128 || head_dim == 256,
{
}

/// Convolution and gates walk the rows of a batch inside a thread: their grids
/// are those of one row. The legacy expansion of one row has the grid of the
/// one-row expansion.
pub proof fn law_one_row_grids(
    conv_dim: usize,
    kernel_size: usize,
    n_k_heads: usize,
    n_v_heads: usize,
    head_dim: usize,
    n_head: usize,
    p: usize,
)
    ensures
        conv1d_rows_launch(conv_dim, kernel_size, p).config == conv1d_launch(
            conv_dim,
            kernel_size,
        ).config,
        beta_decay_rows_launch(n_head, p).config == beta_decay_launch(n_head).config,
        legacy_rows_launch(n_k_heads, n_v_heads, head_dim, 1).config
            == expand_and_l2_normalize_launch(n_k_heads, n_v_heads, head_dim).config,
{
}

/// The build compiles, loads the module, and looks up every kernel, each once,
/// under its entry point.
pub proof fn law_build_loads_every_kernel(k: DeltanetKernel)
    ensures
        deltanet_build().len() == 19,
        deltanet_kernels().contains(k),
        forall|i: int|
            2 <= i < 19 ==> #[trigger] deltanet_build()[i] == (BuildStepView::LoadFunction {
                kernel: deltanet_kernels()[i - 2],
                entry: deltanet_kernels()[i - 2].entry_point(),
            }),
        deltanet_kernels().no_duplicates(),
{
    let ks = deltanet_kernels();
    assert(ks[0] == DeltanetKernel::Conv1d && ks[1] == DeltanetKernel::BetaDecay && ks[2]
        == DeltanetKernel::ExpandL2 && ks[3] == DeltanetKernel::Recurrence && ks[4]
        == DeltanetKernel::RecurrenceParallel && ks[5] == DeltanetKernel::RecurrenceFusedHd64
        && ks[6] == DeltanetKernel::RecurrenceFusedHd128 && ks[7]
        == DeltanetKernel::RecurrenceFusedHd256 && ks[8]
        == DeltanetKernel::RecurrenceHalfHd128F16 && ks[9]
        == DeltanetKernel::RecurrenceHalfHd128Bf16 && ks[10] == DeltanetKernel::ZGating && ks[11]
        == DeltanetKernel::BpttRecompute && ks[12] == DeltanetKernel::Conv1dRows && ks[13]
        == DeltanetKernel::BetaDecayRows && ks[14] == DeltanetKernel::ExpandL2Rows && ks[15]
        == DeltanetKernel::ExpandL2RowsV2 && ks[16] == DeltanetKernel::RecurrenceFusedRowsHd128);
}

} // verus!
