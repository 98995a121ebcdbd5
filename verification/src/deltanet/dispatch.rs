//! Which kernel expands the heads of a batch of rows.
//!
//! The staged kernel sums the squares of a head once per row; the legacy kernel
//! does so once per element. Both write the same bits, so only a count of the
//! launches shows which of them ran.

use vstd::prelude::*;
use crate::deltanet::{DeltanetKernel, DeltanetKernels};
use crate::error::{CudarcKernelError, ErrorView};
use crate::geometry::{int_arg, linear, linear_config, low_u32, size_arg, to_u32};
use crate::launch::{Arg, Buffer, LaunchConfig, LaunchPlan, LaunchView};
use crate::text::{same_text, text_of};

verus! {

/// Key heads whose sums the staged kernel has room for.
pub const STAGED_MAX_K_HEADS: usize = 1024;

/// The lowercase form of a text, as Unicode defines it.
pub uninterp spec fn lowercased(text: Seq<char>) -> Seq<char>;

/// The lowercase form of an ASCII character code.
pub open spec fn ascii_lower(c: int) -> int {
    if 65 <= c <= 90 {
        c + 32
    } else {
        c
    }
}

/// Whether a text is `word` when the case of ASCII letters is put aside.
pub open spec fn reads_as(text: Seq<char>, word: Seq<char>) -> bool {
    text.len() == word.len() && forall|i: int|
        0 <= i < word.len() ==> ascii_lower(#[trigger] text[i] as int) == word[i] as int
}

/// Whether a text is ASCII throughout.
pub open spec fn is_ascii(text: Seq<char>) -> bool {
    forall|i: int| 0 <= i < text.len() ==> #[trigger] text[i] as int <= 127
}

/// `str::to_lowercase`: the lowercase form that Unicode gives the text. Of an
/// ASCII text it is the text with `A` to `Z` replaced by `a` to `z`. What it is
/// of other texts is left to the name.
#[verifier::external_body]
fn lowercase(text: &str) -> (r: String)
    ensures
        r@ == lowercased(text@),
        is_ascii(text@) ==> reads_as(text@, r@),
{
    text.to_lowercase()
}

/// The words, in lower case, that ask for the legacy kernel.
pub open spec fn legacy_word(lowered: Seq<char>) -> bool {
    lowered == "1"@ || lowered == "on"@ || lowered == "true"@
}

/// [`legacy_word`], computed.
pub fn is_legacy_word(lowered: &str) -> (r: bool)
    ensures
        r == legacy_word(lowered@),
{
    same_text(lowered, "1") || same_text(lowered, "on") || same_text(lowered, "true")
}

/// Whether a setting asks for the legacy kernel. No setting does not.
pub open spec fn legacy_asked(setting: Option<Seq<char>>) -> bool {
    match setting {
        Some(s) => legacy_word(lowercased(s)),
        None => false,
    }
}

/// An ASCII text reads as its lowercase form only.
proof fn lemma_reads_as_one(text: Seq<char>, a: Seq<char>, b: Seq<char>)
    requires
        reads_as(text, a),
        reads_as(text, b),
    ensures
        a == b,
{
    assert forall|i: int| 0 <= i < a.len() implies a[i] == b[i] by {
        assert(ascii_lower(text[i] as int) == a[i] as int);
        assert(ascii_lower(text[i] as int) == b[i] as int);
    }
    assert(a =~= b);
}

/// Whether the setting asks for the legacy kernel: `1`, `on` and `true` do, in
/// any case.
pub fn asks_for_legacy(setting: Option<&str>) -> (r: bool)
    ensures
        r == legacy_asked(text_of(setting)),
        setting matches Some(s) ==> is_ascii(s@) ==> r == (reads_as(s@, "1"@)
            || reads_as(s@, "on"@) || reads_as(s@, "true"@)),
{
    match setting {
        None => false,
        Some(s) => {
            let lowered: String = lowercase(s);
            proof {
                if is_ascii(s@) {
                    if reads_as(s@, "1"@) {
                        lemma_reads_as_one(s@, lowered@, "1"@);
                    }
                    if reads_as(s@, "on"@) {
                        lemma_reads_as_one(s@, lowered@, "on"@);
                    }
                    if reads_as(s@, "true"@) {
                        lemma_reads_as_one(s@, lowered@, "true"@);
                    }
                }
            }
            is_legacy_word(lowered.as_str())
        },
    }
}

/// The choice between the two kernels, and the count of staged launches.
#[derive(Clone, Copy, Debug, PartialEq, Eq)]
pub struct ExpandL2RowsDispatch {
    /// What [`set_expand_l2_rows_v2`] forces, if it forces anything.
    pub forced: Option<bool>,
    /// What the setting says, once it has been read.
    pub resolved: Option<bool>,
    /// Staged launches that succeeded.
    pub launches: usize,
}

impl ExpandL2RowsDispatch {
    /// Nothing forced, the setting not read, nothing launched.
    pub fn new() -> (r: Self)
        ensures
            r == (ExpandL2RowsDispatch { forced: None, resolved: None, launches: 0 }),
    {
        ExpandL2RowsDispatch { forced: None, resolved: None, launches: 0 }
    }

    /// What the setting says: what it said when it was first read, or, if that
    /// has not been, what `setting` says now.
    pub open spec fn resolution(self, setting: Option<Seq<char>>) -> bool {
        match self.resolved {
            Some(v) => v,
            None => !legacy_asked(setting),
        }
    }

    /// Whether the staged kernel is chosen: as forced, else as the setting says.
    pub open spec fn staged(self, setting: Option<Seq<char>>) -> bool {
        match self.forced {
            Some(v) => v,
            None => self.resolution(setting),
        }
    }

    /// The dispatch after the setting was consulted.
    pub open spec fn consulted(self, setting: Option<Seq<char>>) -> Self {
        ExpandL2RowsDispatch { resolved: Some(self.resolution(setting)), ..self }
    }

    /// The dispatch after an override was set.
    pub open spec fn overridden(self, override_value: Option<bool>) -> Self {
        ExpandL2RowsDispatch { forced: override_value, ..self }
    }

    /// The dispatch after a launch of `kernel` was reported: a staged one that
    /// succeeded is counted.
    pub open spec fn reported(self, kernel: DeltanetKernel, succeeded: bool) -> Self {
        if succeeded && kernel == DeltanetKernel::ExpandL2RowsV2 {
            ExpandL2RowsDispatch { launches: self.launches.wrapping_add(1), ..self }
        } else {
            self
        }
    }

    /// The dispatch after a call of the process.
    pub open spec fn after_one(self, call: ExpandCall) -> Self {
        match call {
            ExpandCall::Consult { setting } => self.consulted(setting),
            ExpandCall::Override { value } => self.overridden(value),
            ExpandCall::Count => self,
            ExpandCall::Expand { setting, n_k_heads, n_v_heads, head_dim, p, succeeds } => {
                let plan = expand_rows_launches(
                    self.staged(setting),
                    n_k_heads,
                    n_v_heads,
                    head_dim,
                    p,
                );
                if plan.len() == 0 {
                    self
                } else {
                    self.consulted(setting).reported(plan[0].kernel, succeeds)
                }
            },
        }
    }

    /// The dispatch after calls of the process, in order.
    pub open spec fn after(self, calls: Seq<ExpandCall>) -> Self
        decreases calls.len(),
    {
        if calls.len() == 0 {
            self
        } else {
            self.after(calls.drop_last()).after_one(calls.last())
        }
    }

    /// Whether a call launches the staged kernel, with success.
    pub open spec fn counts(self, call: ExpandCall) -> bool {
        match call {
            ExpandCall::Expand { setting, n_k_heads, n_v_heads, head_dim, p, succeeds } => {
                &&& succeeds
                &&& p * 3 * n_v_heads * head_dim != 0
                &&& self.staged(setting)
                &&& n_k_heads <= STAGED_MAX_K_HEADS
            },
            _ => false,
        }
    }

    /// How many of the calls launch the staged kernel, with success.
    pub open spec fn counted(self, calls: Seq<ExpandCall>) -> nat
        decreases calls.len(),
    {
        if calls.len() == 0 {
            0
        } else {
            let before = calls.drop_last();
            self.counted(before) + if self.after(before).counts(calls.last()) {
                1nat
            } else {
                0nat
            }
        }
    }
}

/// A call of the process that concerns the expansion of rows.
pub enum ExpandCall {
    /// [`expand_l2_rows_v2_enabled`].
    Consult { setting: Option<Seq<char>> },
    /// [`set_expand_l2_rows_v2`].
    Override { value: Option<bool> },
    /// [`expand_l2_rows_v2_launches`].
    Count,
    /// [`DeltanetKernels::launch_expand_l2_rows`], then, for the launch that it
    /// plans, [`report_expand_l2_rows`] of how it went.
    Expand {
        setting: Option<Seq<char>>,
        n_k_heads: usize,
        n_v_heads: usize,
        head_dim: usize,
        p: usize,
        succeeds: bool,
    },
}

/// Whether the staged kernel is chosen. The first call takes the setting; later
/// ones keep what it said.
pub fn expand_l2_rows_v2_enabled(
    dispatch: &mut ExpandL2RowsDispatch,
    setting: Option<&str>,
) -> (r: bool)
    ensures
        r == old(dispatch).staged(text_of(setting)),
        *final(dispatch) == old(dispatch).consulted(text_of(setting)),
{
    let resolved: bool = match dispatch.resolved {
        Some(v) => v,
        None => !asks_for_legacy(setting),
    };
    dispatch.resolved = Some(resolved);
    match dispatch.forced {
        Some(v) => v,
        None => resolved,
    }
}

/// Forces the legacy kernel (`Some(false)`) or the staged one (`Some(true)`),
/// or lets the setting decide again (`None`).
pub fn set_expand_l2_rows_v2(dispatch: &mut ExpandL2RowsDispatch, override_value: Option<bool>)
    ensures
        *final(dispatch) == old(dispatch).overridden(override_value),
{
    dispatch.forced = override_value;
}

/// Staged launches that succeeded, modulo the range of the counter.
pub fn expand_l2_rows_v2_launches(dispatch: &ExpandL2RowsDispatch) -> (r: usize)
    ensures
        r == dispatch.launches,
{
    dispatch.launches
}

/// The arguments of both kernels.
pub open spec fn expand_rows_args(
    n_k_heads: usize,
    n_v_heads: usize,
    head_dim: usize,
    p: usize,
) -> Seq<Arg> {
    seq![
        Arg::Buf(Buffer::Compact),
        Arg::Buf(Buffer::Expanded),
        int_arg(n_k_heads as int),
        int_arg(n_v_heads as int),
        int_arg(head_dim as int),
        int_arg(p as int),
    ]
}

/// The staged kernel: one block of 1024 threads per row and section, where the
/// sections are queries, keys and values.
pub open spec fn staged_rows_launch(
    n_k_heads: usize,
    n_v_heads: usize,
    head_dim: usize,
    p: usize,
) -> LaunchView<DeltanetKernel> {
    LaunchView {
        kernel: DeltanetKernel::ExpandL2RowsV2,
        config: LaunchConfig {
            grid_dim: (low_u32(p as int), 3, 1),
            block_dim: (1024, 1, 1),
            shared_mem_bytes: 0,
        },
        args: expand_rows_args(n_k_heads, n_v_heads, head_dim, p),
    }
}

/// The legacy kernel: one thread per expanded element.
pub open spec fn legacy_rows_launch(
    n_k_heads: usize,
    n_v_heads: usize,
    head_dim: usize,
    p: usize,
) -> LaunchView<DeltanetKernel> {
    LaunchView {
        kernel: DeltanetKernel::ExpandL2Rows,
        config: linear(p * 3 * n_v_heads * head_dim),
        args: expand_rows_args(n_k_heads, n_v_heads, head_dim, p),
    }
}

/// The expansion of `p` rows: nothing where there are no elements, else one
/// launch of the kernel that is chosen and has room for the key heads.
pub open spec fn expand_rows_launches(
    staged: bool,
    n_k_heads: usize,
    n_v_heads: usize,
    head_dim: usize,
    p: usize,
) -> Seq<LaunchView<DeltanetKernel>> {
    if p * 3 * n_v_heads * head_dim == 0 {
        seq![]
    } else if staged && n_k_heads <= STAGED_MAX_K_HEADS {
        seq![staged_rows_launch(n_k_heads, n_v_heads, head_dim, p)]
    } else {
        seq![legacy_rows_launch(n_k_heads, n_v_heads, head_dim, p)]
    }
}

impl DeltanetKernels {
    /// Expands and normalises the heads of `p` rows. The setting is consulted
    /// only where there is something to launch.
    ///
    /// `compact` covers `p * (2 * n_k_heads + n_v_heads) * head_dim` elements
    /// and `expanded` `p * 3 * n_v_heads * head_dim`.
    pub fn launch_expand_l2_rows(
        &self,
        dispatch: &mut ExpandL2RowsDispatch,
        setting: Option<&str>,
        n_k_heads: usize,
        n_v_heads: usize,
        head_dim: usize,
        p: usize,
    ) -> (r: LaunchPlan<DeltanetKernel>)
        requires
            p * 3 <= usize::MAX,
            p * 3 * n_v_heads <= usize::MAX,
            p * 3 * n_v_heads * head_dim <= usize::MAX,
        ensures
            r@ == expand_rows_launches(
                old(dispatch).staged(text_of(setting)),
                n_k_heads,
                n_v_heads,
                head_dim,
                p,
            ),
            *final(dispatch) == if p * 3 * n_v_heads * head_dim == 0 {
                *old(dispatch)
            } else {
                old(dispatch).consulted(text_of(setting))
            },
    {
        let total: usize = p * 3 * n_v_heads * head_dim;
        if total == 0 {
            return LaunchPlan::empty();
        }
        let args: Vec<Arg> = vec![
            Arg::Buf(Buffer::Compact),
            Arg::Buf(Buffer::Expanded),
            size_arg(n_k_heads),
            size_arg(n_v_heads),
            size_arg(head_dim),
            size_arg(p),
        ];
        assert(args@ =~= expand_rows_args(n_k_heads, n_v_heads, head_dim, p));
        if expand_l2_rows_v2_enabled(dispatch, setting) && n_k_heads <= STAGED_MAX_K_HEADS {
            return LaunchPlan::one(
                DeltanetKernel::ExpandL2RowsV2,
                LaunchConfig {
                    grid_dim: (to_u32(p), 3, 1),
                    block_dim: (1024, 1, 1),
                    shared_mem_bytes: 0,
                },
                args,
            );
        }
        LaunchPlan::one(DeltanetKernel::ExpandL2Rows, linear_config(total), args)
    }
}

/// Takes the outcome of the next launch of an expansion, as
/// [`LaunchPlan::report`] does, and counts a staged launch that succeeded.
pub fn report_expand_l2_rows(
    dispatch: &mut ExpandL2RowsDispatch,
    plan: &mut LaunchPlan<DeltanetKernel>,
    outcome: Result<(), String>,
) -> (r: Result<(), CudarcKernelError>)
    requires
        old(plan)@.len() > 0,
    ensures
        match outcome {
            Ok(()) => r is Ok && final(plan)@ == old(plan)@.drop_first(),
            Err(text) => r matches Err(e) && e@ == ErrorView::Launch(text@)
                && final(plan)@.len() == 0,
        },
        *final(dispatch) == old(dispatch).reported(old(plan)@[0].kernel, outcome is Ok),
{
    let staged: bool = match plan.next() {
        Some(l) => match l.kernel {
            DeltanetKernel::ExpandL2RowsV2 => true,
            _ => false,
        },
        None => false,
    };
    match plan.report(outcome) {
        Err(e) => Err(e),
        Ok(()) => {
            if staged {
                dispatch.launches = dispatch.launches.wrapping_add(1);
            }
            Ok(())
        },
    }
}

} // verus!
