//! What the deciding functions decide: accepted sizes, the tile layout, the expansion
//! kernel, and the index of an argmax.

use vstd::prelude::*;
use vstd::arithmetic::div_mod::lemma_fundamental_div_mod_converse;
use crate::attention::{
    group, validate_splitgqa, verify_kf4, AttentionKernel, AttentionKernels, Kf4Choice,
};
use crate::attention_score_mma::AttentionScoreMmaKernels;
use crate::calls::{a_thread_each, lemma_a_thread_each, lemma_shares, shaped, shares_heads};
use crate::deltanet::dispatch::{
    asks_for_legacy, expand_l2_rows_v2_enabled, expand_l2_rows_v2_launches, is_ascii, reads_as,
    report_expand_l2_rows, set_expand_l2_rows_v2, ExpandL2RowsDispatch,
};
use crate::deltanet::{DeltanetKernel, DeltanetKernels};
use crate::elementwise::{argmax_first_index, argmax_packed};
use crate::error::{CudarcKernelError, ErrorView};
use crate::geometry::{int_arg, low_u32};
use crate::launch::{Arg, Buffer, LaunchPlan};
use crate::module::KernelBuild;
use crate::sources::calls;
use crate::text::decimal;

verus! {

/// The sizes of a split attention are accepted exactly where one to eight query heads
/// share each K/V head, a head has 1 to 256 lanes and a chunk is made of tiles of 32;
/// any others are refused as an argument.
pub proof fn law_validate_splitgqa(
    head_dim: usize,
    n_head: usize,
    n_kv_head: usize,
    chunk_len: usize,
    r: Result<(), CudarcKernelError>,
)
    requires
        call_ensures(validate_splitgqa, (head_dim, n_head, n_kv_head, chunk_len), r),
    ensures
        r is Ok <==> shares_heads(head_dim, n_head, n_kv_head, chunk_len),
        r matches Err(e) ==> e@ is InvalidArg,
{
    lemma_shares(head_dim, n_head, n_kv_head, chunk_len, 0);
}

/// Whether a text names a number, in decimal digits.
pub open spec fn names_number(t: Seq<char>, n: int) -> bool {
    exists|before: Seq<char>, after: Seq<char>|
        t == #[trigger] (before + decimal(n as nat) + after)
}

proof fn lemma_names_number(t: Seq<char>, before: Seq<char>, n: int, after: Seq<char>)
    requires
        t == before + decimal(n as nat) + after,
    ensures
        names_number(t, n),
{
}

/// A refusal of a split attention names what is wrong: heads that do not divide, by
/// both counts; a group of the wrong size; a head of the wrong width; a chunk that is
/// not made of tiles. The first of these that holds is named.
pub proof fn law_refusals_name_the_sizes(
    head_dim: usize,
    n_head: usize,
    n_kv_head: usize,
    chunk_len: usize,
    g: int,
    r: Result<(), CudarcKernelError>,
)
    requires
        call_ensures(validate_splitgqa, (head_dim, n_head, n_kv_head, chunk_len), r),
    ensures
        ({
            let even = n_kv_head > 0 && n_head == g * n_kv_head;
            r matches Err(e) ==> {
                let t = e@->InvalidArg_0;
                &&& n_kv_head > 0 && n_head % n_kv_head != 0 ==> names_number(t, n_head as int)
                    && names_number(t, n_kv_head as int)
                &&& even && !(1 <= g <= 8) ==> names_number(t, g)
                &&& even && 1 <= g <= 8 && !(1 <= head_dim <= 256) ==> names_number(
                    t,
                    head_dim as int,
                )
                &&& even && 1 <= g <= 8 && 1 <= head_dim <= 256 ==> chunk_len % 32 != 0
                    && names_number(t, chunk_len as int)
            }
        }),
{
    lemma_shares(head_dim, n_head, n_kv_head, chunk_len, g);
    if n_kv_head > 0 && n_head == g * n_kv_head {
        assert(g * n_kv_head == n_kv_head as int * g) by (nonlinear_arith);
        lemma_fundamental_div_mod_converse(n_head as int, n_kv_head as int, g, 0);
    }
    if let Err(e) = r {
        let t = e@->InvalidArg_0;
        let heads = decimal(n_head as nat);
        let kv = decimal(n_kv_head as nat);
        let q = group(n_head, n_kv_head);
        if n_kv_head == 0 {
        } else if n_head % n_kv_head != 0 {
            let a = "splitgqa: n_head ("@;
            let b = ") not divisible by n_kv_head ("@;
            assert(t =~= a + heads + (b + kv + ")"@));
            lemma_names_number(t, a, n_head as int, b + kv + ")"@);
            lemma_names_number(t, a + heads + b, n_kv_head as int, ")"@);
        } else if !(1 <= q <= 8) {
            lemma_names_number(t, "splitgqa: GQA group "@, q, " outside [1, 8] (warp budget)"@);
        } else if !(1 <= head_dim <= 256) {
            lemma_names_number(
                t,
                "splitgqa: head_dim "@,
                head_dim as int,
                " outside [1, 256] (block budget)"@,
            );
        } else {
            lemma_names_number(
                t,
                "splitgqa: chunk_len "@,
                chunk_len as int,
                " not a multiple of the 32-position tile"@,
            );
        }
    }
}

/// The score kernels accept heads of 256 lanes, shared likewise, and 1 to 64 rows.
pub proof fn law_validate_scores(
    head_dim: usize,
    n_head: usize,
    n_kv_head: usize,
    p: usize,
    r: Result<(), CudarcKernelError>,
)
    requires
        call_ensures(AttentionScoreMmaKernels::validate, (head_dim, n_head, n_kv_head, p), r),
    ensures
        r is Ok <==> shares_heads(head_dim, n_head, n_kv_head, 0) && head_dim == 256 && 1 <= p
            <= 64,
        r matches Err(e) ==> e@ is InvalidArg,
{
    lemma_shares(head_dim, n_head, n_kv_head, 0, 0);
}

/// The setting `0` asks for a tile of columns; every other setting, and none, asks for
/// a tile of rows.
pub proof fn law_verify_kf4(setting: Option<&str>, r: i32)
    requires
        call_ensures(verify_kf4, (setting,), r),
    ensures
        r == 0 || r == 1,
        r == 0 <==> (setting matches Some(s) && s@ == seq!['0']),
{
    reveal_strlit("0");
    assert("0"@ =~= seq!['0']);
}

/// Kernels are made with the layout of their setting, whatever the caches hold.
pub proof fn law_new_takes_the_setting(
    setting: Option<&str>,
    kv_f16: bool,
    arm: i32,
    a: (AttentionKernels, KernelBuild<AttentionKernel>),
    b: (AttentionKernels, KernelBuild<AttentionKernel>),
)
    requires
        call_ensures(verify_kf4, (setting,), arm),
        call_ensures(AttentionKernels::new, (setting,), a),
        call_ensures(AttentionKernels::new_with_kv_dtype, (setting, kv_f16), b),
    ensures
        a.0.kf4 == arm,
        b.0.kf4 == arm,
        !kv_f16 ==> a.1@ == b.1@,
        a.1@.skip(1) == b.1@.skip(1),
{
    assert(a.1@.skip(1) =~= b.1@.skip(1));
}

/// A tile of rows, of `head_dim + 4` floats each, is used exactly where 32 of them take
/// no more room than the padded columns.
pub proof fn law_verify_kf4_for(k: &AttentionKernels, head_dim: usize, r: i32)
    requires
        call_ensures(AttentionKernels::verify_kf4_for, (k, head_dim), r),
    ensures
        head_dim >= 128 ==> r == k.kf4,
        head_dim < 128 ==> r == 0,
{
}

/// The first call of a process settles the layout; every later call gives the same,
/// under whatever setting.
pub proof fn law_layout_is_settled(
    choice: &mut Kf4Choice,
    setting: Option<&str>,
    r: i32,
    arm: i32,
)
    requires
        call_ensures(Kf4Choice::resolve, (choice, setting), r),
        call_ensures(verify_kf4, (setting,), arm),
    ensures
        old(choice).resolved is None ==> r == arm,
        old(choice).resolved matches Some(v) ==> r == v,
        final(choice).resolved == Some(r),
{
}

/// The setting is consulted only where a tile of rows fits, and gives the layout of
/// the process there.
pub proof fn law_layout_of_a_launch(
    k: &AttentionKernels,
    choice: &mut Kf4Choice,
    setting: Option<&str>,
    head_dim: usize,
    r: AttentionKernels,
    arm: i32,
)
    requires
        call_ensures(AttentionKernels::with_kf4, (k, choice, setting, head_dim), r),
        call_ensures(verify_kf4, (setting,), arm),
    ensures
        head_dim < 128 ==> *final(choice) == *old(choice) && r == *k,
        head_dim >= 128 ==> final(choice).resolved == Some(r.kf4),
        head_dim >= 128 && old(choice).resolved is None ==> r.kf4 == arm,
        head_dim >= 128 ==> (old(choice).resolved matches Some(v) ==> r.kf4 == v),
{
}

/// A choice between the expansion kernels that is forced is the choice. One that is not
/// is what the setting said when it was first read: the staged kernel, unless it asked
/// for the legacy one. Asking forces nothing and counts nothing.
pub proof fn law_expansion_choice(
    d: &mut ExpandL2RowsDispatch,
    setting: Option<&str>,
    r: bool,
    legacy: bool,
)
    requires
        call_ensures(expand_l2_rows_v2_enabled, (d, setting), r),
        call_ensures(asks_for_legacy, (setting,), legacy),
    ensures
        old(d).forced matches Some(v) ==> r == v,
        old(d).forced is None ==> (old(d).resolved matches Some(v) ==> r == v),
        old(d).forced is None && old(d).resolved is None ==> r == !legacy,
        old(d).resolved is None ==> final(d).resolved == Some(!legacy),
        old(d).resolved is Some ==> final(d).resolved == old(d).resolved,
        final(d).forced == old(d).forced,
        final(d).launches == old(d).launches,
{
}

/// A setting of ASCII characters asks for the legacy kernel exactly where it is `1`,
/// `on` or `true`, each letter small or large; no setting does not.
pub proof fn law_legacy_settings(setting: Option<&str>, r: bool)
    requires
        call_ensures(asks_for_legacy, (setting,), r),
        setting matches Some(s) ==> forall|i: int|
            0 <= i < s@.len() ==> #[trigger] s@[i] as int <= 127,
    ensures
        r <==> (setting matches Some(s) && ({
            let t = s@;
            ||| t.len() == 1 && t[0] == '1'
            ||| t.len() == 2 && (t[0] == 'o' || t[0] == 'O') && (t[1] == 'n' || t[1] == 'N')
            ||| t.len() == 4 && (t[0] == 't' || t[0] == 'T') && (t[1] == 'r' || t[1] == 'R') && (
            t[2] == 'u' || t[2] == 'U') && (t[3] == 'e' || t[3] == 'E')
        })),
{
    reveal_strlit("1");
    reveal_strlit("on");
    reveal_strlit("true");
    if let Some(s) = setting {
        let t = s@;
        assert(is_ascii(t));
        if t.len() == 1 {
            assert(reads_as(t, "1"@) <==> t[0] == '1');
        }
        if t.len() == 2 {
            assert(reads_as(t, "on"@) <==> (t[0] == 'o' || t[0] == 'O') && (t[1] == 'n' || t[1]
                == 'N'));
        }
        if t.len() == 4 {
            assert(reads_as(t, "true"@) <==> (t[0] == 't' || t[0] == 'T') && (t[1] == 'r' || t[1]
                == 'R') && (t[2] == 'u' || t[2] == 'U') && (t[3] == 'e' || t[3] == 'E'));
        }
    }
}

/// Forcing sets what is forced; the setting that was read and the count stay.
pub proof fn law_expansion_override(
    d: &mut ExpandL2RowsDispatch,
    override_value: Option<bool>,
    r: (),
)
    requires
        call_ensures(set_expand_l2_rows_v2, (d, override_value), r),
    ensures
        final(d).forced == override_value,
        final(d).resolved == old(d).resolved,
        final(d).launches == old(d).launches,
{
}

/// The count is of the successful reports of the staged kernel, and of nothing else.
pub proof fn law_expansion_count(
    d: &mut ExpandL2RowsDispatch,
    plan: &mut LaunchPlan<DeltanetKernel>,
    outcome: Result<(), String>,
    r: Result<(), CudarcKernelError>,
    before: usize,
    after: usize,
)
    requires
        plan@.len() > 0,
        d.launches < usize::MAX,
        call_ensures(expand_l2_rows_v2_launches, (&*d,), before),
        call_ensures(report_expand_l2_rows, (d, plan, outcome), r),
        call_ensures(expand_l2_rows_v2_launches, (final(d),), after),
    ensures
        after == before + if outcome is Ok && old(plan)@[0].kernel
            == DeltanetKernel::ExpandL2RowsV2 {
            1int
        } else {
            0int
        },
        final(d).forced == old(d).forced,
        final(d).resolved == old(d).resolved,
        r is Ok <==> outcome is Ok,
        outcome matches Err(t) ==> r matches Err(e) ==> e@ == ErrorView::Launch(t@),
        outcome is Ok ==> final(plan)@ == old(plan)@.skip(1),
        outcome is Err ==> final(plan)@.len() == 0,
{
    if outcome is Ok {
        assert(final(plan)@ =~= old(plan)@.skip(1));
    }
}

/// An expansion of rows plans the kernel that is chosen, unless there are more key
/// heads than it stages, and plans nothing where there is no element.
pub proof fn law_expansion_is_planned(
    k: &DeltanetKernels,
    d: &mut ExpandL2RowsDispatch,
    setting: Option<&str>,
    n_k_heads: usize,
    n_v_heads: usize,
    head_dim: usize,
    p: usize,
    r: LaunchPlan<DeltanetKernel>,
    legacy: bool,
)
    requires
        call_ensures(
            DeltanetKernels::launch_expand_l2_rows,
            (k, d, setting, n_k_heads, n_v_heads, head_dim, p),
            r,
        ),
        call_ensures(asks_for_legacy, (setting,), legacy),
    ensures
        ({
            let staged = match old(d).forced {
                Some(v) => v,
                None => match old(d).resolved {
                    Some(v) => v,
                    None => !legacy,
                },
            };
            let empty = p == 0 || n_v_heads == 0 || head_dim == 0;
            let given = seq![
                ("compact"@, Arg::Buf(Buffer::Compact)),
                ("expanded"@, Arg::Buf(Buffer::Expanded)),
                ("n_k_heads"@, int_arg(n_k_heads as int)),
                ("n_v_heads"@, int_arg(n_v_heads as int)),
                ("head_dim"@, int_arg(head_dim as int)),
                ("p"@, int_arg(p as int)),
            ];
            &&& r@.len() == if empty {
                0nat
            } else {
                1nat
            }
            &&& empty ==> *final(d) == *old(d)
            &&& !empty && staged && n_k_heads <= 1024 ==> calls(
                r@[0],
                "expand_and_l2_normalize_heads_rows_v2_f32"@,
                given,
            ) && shaped(r@[0].config, p as int, 3, 1, 1024, 0)
            &&& !empty && !(staged && n_k_heads <= 1024) ==> calls(
                r@[0],
                "expand_and_l2_normalize_heads_rows_f32"@,
                given,
            ) && a_thread_each(r@[0].config, low_u32(p * 3 * n_v_heads * head_dim) as int)
            &&& !empty && old(d).resolved is None ==> final(d).resolved == Some(!legacy)
            &&& old(d).resolved is Some ==> final(d).resolved == old(d).resolved
            &&& final(d).forced == old(d).forced
            &&& final(d).launches == old(d).launches
        }),
{
    assert((p * 3 * n_v_heads * head_dim == 0) <==> (p == 0 || n_v_heads == 0 || head_dim == 0))
        by (nonlinear_arith)
        requires
            p >= 0,
            n_v_heads >= 0,
            head_dim >= 0,
    ;
    lemma_a_thread_each(p * 3 * n_v_heads * head_dim);
}

/// Reading a folded candidate gives its index back, whatever its key.
pub proof fn law_argmax_reads_the_index(key: u32, index: u32, r: u32)
    requires
        call_ensures(argmax_first_index, (argmax_packed(key, index),), r),
    ensures
        r == index,
{
    assert(!((((key as u64) << 32) | (!index as u64)) as u32) == index) by (bit_vector);
}

} // verus!
