//! The names of the kernels: distinct in a module, the same in the text and in the
//! lookup, and made by rule where kernels come in families.

use vstd::prelude::*;
use crate::elementwise::ElementwiseKernel;
use crate::attention::AttentionKernel;
use crate::attention_score_mma::ScoreMmaKernel;
use crate::deltanet::{fused_kernel, DeltanetKernel};
use crate::embedding::EmbeddingKernel;
use crate::lora::LoraKernel;
use crate::sources::elementwise::{elementwise_cuda_src, elementwise_text_order};
use crate::sources::attention::{attention_cuda_src, attention_text_order};
use crate::sources::attention_score_mma::{
    attention_score_mma_cuda_src, attention_score_mma_text_order,
};
use crate::sources::deltanet::{deltanet_cuda_src, deltanet_text_order};
use crate::sources::embedding::{embedding_cuda_src, embedding_text_order};
use crate::sources::lora::{lora_cuda_src, lora_text_order};
use crate::module::KernelId;
use crate::sources::{law_text_declares, KernelText};
use crate::text::decimal;

verus! {

/// The fused recurrences are named by their head dimension.
pub(crate) proof fn lemma_fused_names()
    ensures
        "recurrence_f32_fused_hd"@ + decimal(64) == "recurrence_f32_fused_hd64"@,
        "recurrence_f32_fused_hd"@ + decimal(128) == "recurrence_f32_fused_hd128"@,
        "recurrence_f32_fused_hd"@ + decimal(256) == "recurrence_f32_fused_hd256"@,
{
    reveal_strlit("recurrence_f32_fused_hd");
    reveal_strlit("recurrence_f32_fused_hd64");
    reveal_strlit("recurrence_f32_fused_hd128");
    reveal_strlit("recurrence_f32_fused_hd256");
    reveal_with_fuel(decimal, 3);
    assert("recurrence_f32_fused_hd"@ + decimal(64) =~= "recurrence_f32_fused_hd64"@);
    assert("recurrence_f32_fused_hd"@ + decimal(128) =~= "recurrence_f32_fused_hd128"@);
    assert("recurrence_f32_fused_hd"@ + decimal(256) =~= "recurrence_f32_fused_hd256"@);
}

/// The fused kernel of a head dimension is looked up under the prefix of its family
/// followed by the decimal digits of the head dimension.
pub proof fn law_fused_kernel_is_named_by_its_head_dim(head_dim: usize)
    requires
        fused_kernel(head_dim) is Some,
    ensures
        fused_kernel(head_dim)->0.entry_point() == "recurrence_f32_fused_hd"@ + decimal(
            head_dim as nat,
        ),
{
    lemma_fused_names();
}

/// The form of a attention kernel that reads its position from a buffer, where there is
/// one.
pub open spec fn attention_devpos(k: AttentionKernel) -> Option<AttentionKernel> {
    match k {
        AttentionKernel::Rope => Some(AttentionKernel::RopeDevpos),
        AttentionKernel::KvCacheAppend => Some(AttentionKernel::KvCacheAppendDevpos),
        AttentionKernel::AttentionDecode => Some(AttentionKernel::AttentionDecodeDevpos),
        AttentionKernel::Split => Some(AttentionKernel::SplitDevpos),
        AttentionKernel::Splitgqa => Some(AttentionKernel::SplitgqaDevpos),
        AttentionKernel::RopeRows => Some(AttentionKernel::RopeRowsDevpos),
        AttentionKernel::KvAppendRows => Some(AttentionKernel::KvAppendRowsDevpos),
        AttentionKernel::SplitgqaRows => Some(AttentionKernel::SplitgqaRowsDevpos),
        AttentionKernel::SplitgqaRowsQg => Some(AttentionKernel::SplitgqaRowsQgDevpos),
        AttentionKernel::SplitgqaRowsMa => Some(AttentionKernel::SplitgqaRowsMaDevpos),
        AttentionKernel::SplitgqaRowsQgma => Some(AttentionKernel::SplitgqaRowsQgmaDevpos),
        AttentionKernel::Verify2pStats => Some(AttentionKernel::Verify2pStatsDevpos),
        AttentionKernel::Verify2pPv => Some(AttentionKernel::Verify2pPvDevpos),
        _ => None,
    }
}

/// It carries the kernel's name with `_devpos` behind it.
pub proof fn law_attention_devpos_names(k: AttentionKernel)
    requires
        attention_devpos(k) is Some,
    ensures
        attention_devpos(k)->0.entry_point() == k.entry_point() + "_devpos"@,
{
    reveal_strlit("_devpos");
    match k {
        AttentionKernel::Rope => {
            reveal_strlit("rope_partial_f32");
            reveal_strlit("rope_partial_f32_devpos");
        },
        AttentionKernel::KvCacheAppend => {
            reveal_strlit("kv_cache_append_f32");
            reveal_strlit("kv_cache_append_f32_devpos");
        },
        AttentionKernel::AttentionDecode => {
            reveal_strlit("attention_decode_f32");
            reveal_strlit("attention_decode_f32_devpos");
        },
        AttentionKernel::Split => {
            reveal_strlit("attention_decode_split_partial_f32");
            reveal_strlit("attention_decode_split_partial_f32_devpos");
        },
        AttentionKernel::Splitgqa => {
            reveal_strlit("attention_decode_splitgqa_partial_f32");
            reveal_strlit("attention_decode_splitgqa_partial_f32_devpos");
        },
        AttentionKernel::RopeRows => {
            reveal_strlit("rope_partial_rows_f32");
            reveal_strlit("rope_partial_rows_f32_devpos");
        },
        AttentionKernel::KvAppendRows => {
            reveal_strlit("kv_cache_append_rows_f32");
            reveal_strlit("kv_cache_append_rows_f32_devpos");
        },
        AttentionKernel::SplitgqaRows => {
            reveal_strlit("attention_decode_splitgqa_partial_rows_f32");
            reveal_strlit("attention_decode_splitgqa_partial_rows_f32_devpos");
        },
        AttentionKernel::SplitgqaRowsQg => {
            reveal_strlit("attention_decode_splitgqa_partial_rows_qg_f32");
            reveal_strlit("attention_decode_splitgqa_partial_rows_qg_f32_devpos");
        },
        AttentionKernel::SplitgqaRowsMa => {
            reveal_strlit("attention_decode_splitgqa_partial_rows_ma_f32");
            reveal_strlit("attention_decode_splitgqa_partial_rows_ma_f32_devpos");
        },
        AttentionKernel::SplitgqaRowsQgma => {
            reveal_strlit("attention_decode_splitgqa_partial_rows_qgma_f32");
            reveal_strlit("attention_decode_splitgqa_partial_rows_qgma_f32_devpos");
        },
        AttentionKernel::Verify2pStats => {
            reveal_strlit("attention_verify2p_stats_f32");
            reveal_strlit("attention_verify2p_stats_f32_devpos");
        },
        AttentionKernel::Verify2pPv => {
            reveal_strlit("attention_verify2p_pv_f32");
            reveal_strlit("attention_verify2p_pv_f32_devpos");
        },
        _ => {},
    }
    assert(attention_devpos(k)->0.entry_point() =~= k.entry_point() + "_devpos"@);
}

/// The form of a attention score mma kernel that reads its position from a buffer, where there is
/// one.
pub open spec fn attention_score_mma_devpos(k: ScoreMmaKernel) -> Option<ScoreMmaKernel> {
    match k {
        ScoreMmaKernel::ScoreMma => Some(ScoreMmaKernel::ScoreMmaDevpos),
        ScoreMmaKernel::ScoreMma24 => Some(ScoreMmaKernel::ScoreMma24Devpos),
        _ => None,
    }
}

/// It carries the kernel's name with `_devpos` behind it.
pub proof fn law_attention_score_mma_devpos_names(k: ScoreMmaKernel)
    requires
        attention_score_mma_devpos(k) is Some,
    ensures
        attention_score_mma_devpos(k)->0.entry_point() == k.entry_point() + "_devpos"@,
{
    reveal_strlit("_devpos");
    match k {
        ScoreMmaKernel::ScoreMma => {
            reveal_strlit("attention_decode_splitgqa_partial_rows_qg_mma_f32");
            reveal_strlit("attention_decode_splitgqa_partial_rows_qg_mma_f32_devpos");
        },
        ScoreMmaKernel::ScoreMma24 => {
            reveal_strlit("attention_decode_splitgqa_partial_rows_qg_mma24_f32");
            reveal_strlit("attention_decode_splitgqa_partial_rows_qg_mma24_f32_devpos");
        },
        _ => {},
    }
    assert(attention_score_mma_devpos(k)->0.entry_point() =~= k.entry_point() + "_devpos"@);
}

/// The form of a embedding kernel that reads its position from a buffer, where there is
/// one.
pub open spec fn embedding_devpos(k: EmbeddingKernel) -> Option<EmbeddingKernel> {
    match k {
        EmbeddingKernel::Dequant => Some(EmbeddingKernel::DequantDevpos),
        _ => None,
    }
}

/// It carries the kernel's name with `_devpos` behind it.
pub proof fn law_embedding_devpos_names(k: EmbeddingKernel)
    requires
        embedding_devpos(k) is Some,
    ensures
        embedding_devpos(k)->0.entry_point() == k.entry_point() + "_devpos"@,
{
    reveal_strlit("_devpos");
    match k {
        EmbeddingKernel::Dequant => {
            reveal_strlit("dequant_wte_row_f32");
            reveal_strlit("dequant_wte_row_f32_devpos");
        },
        _ => {},
    }
    assert(embedding_devpos(k)->0.entry_point() =~= k.entry_point() + "_devpos"@);
}

/// Whether a text holds another.
pub open spec fn holds(text: Seq<char>, part: Seq<char>) -> bool {
    exists|i: int|
        0 <= i <= text.len() - part.len() && #[trigger] text.subrange(i, i + part.len()) == part
}

/// The fused recurrence of a head dimension instantiates the fused body for it.
pub proof fn law_fused_bodies(head_dim: usize)
    requires
        fused_kernel(head_dim) is Some,
    ensures
        fused_kernel(head_dim)->0.body() == "\n{\n    recurrence_fused_body<"@ + decimal(
            head_dim as nat,
        ) + ">(qkv, beta, decay, state, output, n_head);\n}\n\n"@,
{
    reveal_strlit("\n{\n    recurrence_fused_body<");
    reveal_strlit(">(qkv, beta, decay, state, output, n_head);\n}\n\n");
    reveal_with_fuel(decimal, 3);
    reveal_strlit(
        "\n{\n    recurrence_fused_body<64>(qkv, beta, decay, state, output, n_head);\n}\n\n",
    );
    reveal_strlit(
        "\n{\n    recurrence_fused_body<128>(qkv, beta, decay, state, output, n_head);\n}\n\n",
    );
    reveal_strlit(
        "\n{\n    recurrence_fused_body<256>(qkv, beta, decay, state, output, n_head);\n}\n\n",
    );
    assert(fused_kernel(head_dim)->0.body() =~= "\n{\n    recurrence_fused_body<"@ + decimal(
        head_dim as nat,
    ) + ">(qkv, beta, decay, state, output, n_head);\n}\n\n"@);
}

/// The device function that a attention kernel hands its arguments to, where it only does
/// that.
pub open spec fn attention_delegate(k: AttentionKernel) -> Option<Seq<char>> {
    match k {
        AttentionKernel::Split => Some("attention_decode_split_partial_body("@),
        AttentionKernel::SplitDevpos => Some("attention_decode_split_partial_body("@),
        AttentionKernel::Splitgqa => Some("attention_decode_splitgqa_partial_body("@),
        AttentionKernel::SplitgqaDevpos => Some("attention_decode_splitgqa_partial_body("@),
        AttentionKernel::SplitgqaRows => Some("attention_decode_splitgqa_rows_body_t<0>("@),
        AttentionKernel::SplitgqaRowsDevpos => Some("attention_decode_splitgqa_rows_body_t<0>("@),
        AttentionKernel::SplitgqaRowsMa => Some("attention_decode_splitgqa_rows_body_t<1>("@),
        AttentionKernel::SplitgqaRowsMaDevpos => Some("attention_decode_splitgqa_rows_body_t<1>("@),
        AttentionKernel::SplitgqaRowsQg => Some("attention_decode_splitgqa_rows_qg_body_t<0>("@),
        AttentionKernel::SplitgqaRowsQgDevpos => Some("attention_decode_splitgqa_rows_qg_body_t<0>("@),
        AttentionKernel::SplitgqaRowsQgma => Some("attention_decode_splitgqa_rows_qg_body_t<1>("@),
        AttentionKernel::SplitgqaRowsQgmaDevpos => Some("attention_decode_splitgqa_rows_qg_body_t<1>("@),
        AttentionKernel::Verify2pStats => Some("attention_verify2p_stats_body("@),
        AttentionKernel::Verify2pStatsDevpos => Some("attention_verify2p_stats_body("@),
        AttentionKernel::Verify2pPv => Some("attention_verify2p_pv_body("@),
        AttentionKernel::Verify2pPvDevpos => Some("attention_verify2p_pv_body("@),
        _ => None,
    }
}

/// It is called in the kernel's body.
pub proof fn law_attention_bodies(k: AttentionKernel)
    ensures
        attention_delegate(k) matches Some(callee) ==> holds(k.body(), callee),
{
    match k {
        AttentionKernel::Split => {
            reveal_strlit("attention_decode_split_partial_body(");
            reveal_strlit(
                "\n{\n    extern __shared__ float smem[];\n    attention_decode_split_partial_body(query, key_cache, value_cache,\n        part_m, part_l, part_out, smem, scale, head_dim, n_head, n_kv_head,\n        chunk_len, n_positions);\n}\n\n",
            );
            let n = "attention_decode_split_partial_body("@;
            assert(k.body().subrange(43, 43int + n.len()) =~= n);
        },
        AttentionKernel::SplitDevpos => {
            reveal_strlit("attention_decode_split_partial_body(");
            reveal_strlit(
                "\n{\n    extern __shared__ float smem[];\n    const int n_positions = *pos_dev + 1;\n    attention_decode_split_partial_body(query, key_cache, value_cache,\n        part_m, part_l, part_out, smem, scale, head_dim, n_head, n_kv_head,\n        chunk_len, n_positions);\n}\n\n",
            );
            let n = "attention_decode_split_partial_body("@;
            assert(k.body().subrange(85, 85int + n.len()) =~= n);
        },
        AttentionKernel::Splitgqa => {
            reveal_strlit("attention_decode_splitgqa_partial_body(");
            reveal_strlit(
                "\n{\n    extern __shared__ float smem[];\n    attention_decode_splitgqa_partial_body(query, key_cache, value_cache,\n        part_m, part_l, part_out, smem, scale, head_dim, n_head, n_kv_head,\n        chunk_len, n_positions);\n}\n\n",
            );
            let n = "attention_decode_splitgqa_partial_body("@;
            assert(k.body().subrange(43, 43int + n.len()) =~= n);
        },
        AttentionKernel::SplitgqaDevpos => {
            reveal_strlit("attention_decode_splitgqa_partial_body(");
            reveal_strlit(
                "\n{\n    extern __shared__ float smem[];\n    const int n_positions = *pos_dev + 1;\n    attention_decode_splitgqa_partial_body(query, key_cache, value_cache,\n        part_m, part_l, part_out, smem, scale, head_dim, n_head, n_kv_head,\n        chunk_len, n_positions);\n}\n\n",
            );
            let n = "attention_decode_splitgqa_partial_body("@;
            assert(k.body().subrange(85, 85int + n.len()) =~= n);
        },
        AttentionKernel::SplitgqaRows => {
            reveal_strlit("attention_decode_splitgqa_rows_body_t<0>(");
            reveal_strlit(
                "\n{\n    extern __shared__ float smem[];\n    attention_decode_splitgqa_rows_body_t<0>(query, key_cache, value_cache,\n        part_m, part_l, part_out, smem, scale, head_dim, n_head, n_kv_head,\n        chunk_len, base_pos, p, k4);\n}\n\n",
            );
            let n = "attention_decode_splitgqa_rows_body_t<0>("@;
            assert(k.body().subrange(43, 43int + n.len()) =~= n);
        },
        AttentionKernel::SplitgqaRowsDevpos => {
            reveal_strlit("attention_decode_splitgqa_rows_body_t<0>(");
            reveal_strlit(
                "\n{\n    extern __shared__ float smem[];\n    const int base_pos = *pos_dev;\n    attention_decode_splitgqa_rows_body_t<0>(query, key_cache, value_cache,\n        part_m, part_l, part_out, smem, scale, head_dim, n_head, n_kv_head,\n        chunk_len, base_pos, p, k4);\n}\n\n",
            );
            let n = "attention_decode_splitgqa_rows_body_t<0>("@;
            assert(k.body().subrange(78, 78int + n.len()) =~= n);
        },
        AttentionKernel::SplitgqaRowsMa => {
            reveal_strlit("attention_decode_splitgqa_rows_body_t<1>(");
            reveal_strlit(
                "\n{\n    extern __shared__ float smem[];\n    attention_decode_splitgqa_rows_body_t<1>(query, key_cache, value_cache,\n        part_m, part_l, part_out, smem, scale, head_dim, n_head, n_kv_head,\n        chunk_len, base_pos, p, k4);\n}\n\n",
            );
            let n = "attention_decode_splitgqa_rows_body_t<1>("@;
            assert(k.body().subrange(43, 43int + n.len()) =~= n);
        },
        AttentionKernel::SplitgqaRowsMaDevpos => {
            reveal_strlit("attention_decode_splitgqa_rows_body_t<1>(");
            reveal_strlit(
                "\n{\n    extern __shared__ float smem[];\n    const int base_pos = *pos_dev;\n    attention_decode_splitgqa_rows_body_t<1>(query, key_cache, value_cache,\n        part_m, part_l, part_out, smem, scale, head_dim, n_head, n_kv_head,\n        chunk_len, base_pos, p, k4);\n}\n\n",
            );
            let n = "attention_decode_splitgqa_rows_body_t<1>("@;
            assert(k.body().subrange(78, 78int + n.len()) =~= n);
        },
        AttentionKernel::SplitgqaRowsQg => {
            reveal_strlit("attention_decode_splitgqa_rows_qg_body_t<0>(");
            reveal_strlit(
                "\n{\n    extern __shared__ float smem[];\n    attention_decode_splitgqa_rows_qg_body_t<0>(query, key_cache, value_cache,\n        part_m, part_l, part_out, smem, scale, head_dim, n_head, n_kv_head,\n        chunk_len, base_pos, p, k4);\n}\n\n",
            );
            let n = "attention_decode_splitgqa_rows_qg_body_t<0>("@;
            assert(k.body().subrange(43, 43int + n.len()) =~= n);
        },
        AttentionKernel::SplitgqaRowsQgDevpos => {
            reveal_strlit("attention_decode_splitgqa_rows_qg_body_t<0>(");
            reveal_strlit(
                "\n{\n    extern __shared__ float smem[];\n    const int base_pos = *pos_dev;\n    attention_decode_splitgqa_rows_qg_body_t<0>(query, key_cache, value_cache,\n        part_m, part_l, part_out, smem, scale, head_dim, n_head, n_kv_head,\n        chunk_len, base_pos, p, k4);\n}\n\n",
            );
            let n = "attention_decode_splitgqa_rows_qg_body_t<0>("@;
            assert(k.body().subrange(78, 78int + n.len()) =~= n);
        },
        AttentionKernel::SplitgqaRowsQgma => {
            reveal_strlit("attention_decode_splitgqa_rows_qg_body_t<1>(");
            reveal_strlit(
                "\n{\n    extern __shared__ float smem[];\n    attention_decode_splitgqa_rows_qg_body_t<1>(query, key_cache, value_cache,\n        part_m, part_l, part_out, smem, scale, head_dim, n_head, n_kv_head,\n        chunk_len, base_pos, p, k4);\n}\n\n",
            );
            let n = "attention_decode_splitgqa_rows_qg_body_t<1>("@;
            assert(k.body().subrange(43, 43int + n.len()) =~= n);
        },
        AttentionKernel::SplitgqaRowsQgmaDevpos => {
            reveal_strlit("attention_decode_splitgqa_rows_qg_body_t<1>(");
            reveal_strlit(
                "\n{\n    extern __shared__ float smem[];\n    const int base_pos = *pos_dev;\n    attention_decode_splitgqa_rows_qg_body_t<1>(query, key_cache, value_cache,\n        part_m, part_l, part_out, smem, scale, head_dim, n_head, n_kv_head,\n        chunk_len, base_pos, p, k4);\n}\n\n",
            );
            let n = "attention_decode_splitgqa_rows_qg_body_t<1>("@;
            assert(k.body().subrange(78, 78int + n.len()) =~= n);
        },
        AttentionKernel::Verify2pStats => {
            reveal_strlit("attention_verify2p_stats_body(");
            reveal_strlit(
                "\n{\n    extern __shared__ float smem[];\n    attention_verify2p_stats_body(query, key_cache, stat_m, stat_l, smem,\n        scale, head_dim, n_head, n_kv_head, n_tiles, base_pos, p);\n}\n\n",
            );
            let n = "attention_verify2p_stats_body("@;
            assert(k.body().subrange(43, 43int + n.len()) =~= n);
        },
        AttentionKernel::Verify2pStatsDevpos => {
            reveal_strlit("attention_verify2p_stats_body(");
            reveal_strlit(
                "\n{\n    extern __shared__ float smem[];\n    const int base_pos = *pos_dev;\n    attention_verify2p_stats_body(query, key_cache, stat_m, stat_l, smem,\n        scale, head_dim, n_head, n_kv_head, n_tiles, base_pos, p);\n}\n\n",
            );
            let n = "attention_verify2p_stats_body("@;
            assert(k.body().subrange(78, 78int + n.len()) =~= n);
        },
        AttentionKernel::Verify2pPv => {
            reveal_strlit("attention_verify2p_pv_body(");
            reveal_strlit(
                "\n{\n    extern __shared__ float smem[];\n    attention_verify2p_pv_body(query, key_cache, value_cache, mrg_m,\n        part_m, part_l, part_out, smem, scale, head_dim, n_head, n_kv_head,\n        chunk_len, base_pos, p);\n}\n\n",
            );
            let n = "attention_verify2p_pv_body("@;
            assert(k.body().subrange(43, 43int + n.len()) =~= n);
        },
        AttentionKernel::Verify2pPvDevpos => {
            reveal_strlit("attention_verify2p_pv_body(");
            reveal_strlit(
                "\n{\n    extern __shared__ float smem[];\n    const int base_pos = *pos_dev;\n    attention_verify2p_pv_body(query, key_cache, value_cache, mrg_m,\n        part_m, part_l, part_out, smem, scale, head_dim, n_head, n_kv_head,\n        chunk_len, base_pos, p);\n}\n",
            );
            let n = "attention_verify2p_pv_body("@;
            assert(k.body().subrange(78, 78int + n.len()) =~= n);
        },
        _ => {},
    }
}

/// The device function that a score kernel hands its arguments to, where it only does
/// that.
pub open spec fn attention_score_mma_delegate(k: ScoreMmaKernel) -> Option<Seq<char>> {
    match k {
        ScoreMmaKernel::ScoreMma => Some("attention_score_mma_body("@),
        ScoreMmaKernel::ScoreMmaDevpos => Some("attention_score_mma_body("@),
        ScoreMmaKernel::ScoreMma24 => Some("attention_score_mma24_body("@),
        ScoreMmaKernel::ScoreMma24Devpos => Some("attention_score_mma24_body("@),
        _ => None,
    }
}

/// It is called in the kernel's body.
pub proof fn law_attention_score_mma_bodies(k: ScoreMmaKernel)
    ensures
        attention_score_mma_delegate(k) matches Some(callee) ==> holds(k.body(), callee),
{
    match k {
        ScoreMmaKernel::ScoreMma => {
            reveal_strlit("attention_score_mma_body(");
            reveal_strlit(
                "\n{\n    extern __shared__ float smem[];\n    attention_score_mma_body(query, key_cache, value_cache, part_m, part_l,\n                             part_out, smem, scale, head_dim, n_head, n_kv_head,\n                             chunk_len, base_pos, p);\n}\n\n",
            );
            let n = "attention_score_mma_body("@;
            assert(k.body().subrange(43, 43int + n.len()) =~= n);
        },
        ScoreMmaKernel::ScoreMmaDevpos => {
            reveal_strlit("attention_score_mma_body(");
            reveal_strlit(
                "\n{\n    extern __shared__ float smem[];\n    const int base_pos = *pos_dev;\n    attention_score_mma_body(query, key_cache, value_cache, part_m, part_l,\n                             part_out, smem, scale, head_dim, n_head, n_kv_head,\n                             chunk_len, base_pos, p);\n}\n\n",
            );
            let n = "attention_score_mma_body("@;
            assert(k.body().subrange(78, 78int + n.len()) =~= n);
        },
        ScoreMmaKernel::ScoreMma24 => {
            reveal_strlit("attention_score_mma24_body(");
            reveal_strlit(
                "\n{\n    extern __shared__ float smem[];\n    attention_score_mma24_body(query, key_cache, value_cache, part_m, part_l,\n                               part_out, smem, scale, head_dim, n_head, n_kv_head,\n                               chunk_len, base_pos, p);\n}\n\n",
            );
            let n = "attention_score_mma24_body("@;
            assert(k.body().subrange(43, 43int + n.len()) =~= n);
        },
        ScoreMmaKernel::ScoreMma24Devpos => {
            reveal_strlit("attention_score_mma24_body(");
            reveal_strlit(
                "\n{\n    extern __shared__ float smem[];\n    const int base_pos = *pos_dev;\n    attention_score_mma24_body(query, key_cache, value_cache, part_m, part_l,\n                               part_out, smem, scale, head_dim, n_head, n_kv_head,\n                               chunk_len, base_pos, p);\n}\n\n",
            );
            let n = "attention_score_mma24_body("@;
            assert(k.body().subrange(78, 78int + n.len()) =~= n);
        },
        _ => {},
    }
}

/// The device function that a half-state kernel hands its arguments to, where it only does
/// that.
pub open spec fn deltanet_delegate(k: DeltanetKernel) -> Option<Seq<char>> {
    match k {
        DeltanetKernel::RecurrenceHalfHd128F16 => Some("recurrence_fused_half_body<128, 0>("@),
        DeltanetKernel::RecurrenceHalfHd128Bf16 => Some("recurrence_fused_half_body<128, 1>("@),
        _ => None,
    }
}

/// It is called in the kernel's body.
pub proof fn law_deltanet_bodies(k: DeltanetKernel)
    ensures
        deltanet_delegate(k) matches Some(callee) ==> holds(k.body(), callee),
{
    match k {
        DeltanetKernel::RecurrenceHalfHd128F16 => {
            reveal_strlit("recurrence_fused_half_body<128, 0>(");
            reveal_strlit(
                "\n{\n    recurrence_fused_half_body<128, 0>(qkv, beta, decay, state, output, n_head);\n}\n\n",
            );
            let n = "recurrence_fused_half_body<128, 0>("@;
            assert(k.body().subrange(7, 7int + n.len()) =~= n);
        },
        DeltanetKernel::RecurrenceHalfHd128Bf16 => {
            reveal_strlit("recurrence_fused_half_body<128, 1>(");
            reveal_strlit(
                "\n{\n    recurrence_fused_half_body<128, 1>(qkv, beta, decay, state, output, n_head);\n}\n\n",
            );
            let n = "recurrence_fused_half_body<128, 1>("@;
            assert(k.body().subrange(7, 7int + n.len()) =~= n);
        },
        _ => {},
    }
}

/// What tells the names of the elementwise kernels apart: their length and some of their characters.
spec fn elementwise_mark(k: ElementwiseKernel) -> (int, char) {
    match k {
        ElementwiseKernel::Rmsnorm => (11int, 'r'),
        ElementwiseKernel::ResidualAdd => (16int, 'r'),
        ElementwiseKernel::Swiglu => (10int, 's'),
        ElementwiseKernel::Quantize => (18int, 'q'),
        ElementwiseKernel::RmsnormQuantize => (20int, 'r'),
        ElementwiseKernel::RmsnormQuantizeMultiblock => (31int, 'r'),
        ElementwiseKernel::RmsnormQuantizeWithNormX => (32int, 'r'),
        ElementwiseKernel::SwigluQuantize => (19int, 's'),
        ElementwiseKernel::GateSiluQuantize => (22int, 'g'),
        ElementwiseKernel::GateSigmoidQuantize => (25int, 'g'),
        ElementwiseKernel::RmsnormGateSiluQuantize => (30int, 'r'),
        ElementwiseKernel::ArgmaxFirst => (16int, 'a'),
    }
}

proof fn lemma_elementwise_mark(k: ElementwiseKernel)
    ensures
        ({
            let s = k.entry_point();
            elementwise_mark(k) == (s.len() as int, s[0])
        }),
{
    match k {
        ElementwiseKernel::Rmsnorm => {
            reveal_strlit("rmsnorm_f32");
        },
        ElementwiseKernel::ResidualAdd => {
            reveal_strlit("residual_add_f32");
        },
        ElementwiseKernel::Swiglu => {
            reveal_strlit("swiglu_f32");
        },
        ElementwiseKernel::Quantize => {
            reveal_strlit("quantize_f32_to_i8");
        },
        ElementwiseKernel::RmsnormQuantize => {
            reveal_strlit("rmsnorm_quantize_f32");
        },
        ElementwiseKernel::RmsnormQuantizeMultiblock => {
            reveal_strlit("rmsnorm_quantize_multiblock_f32");
        },
        ElementwiseKernel::RmsnormQuantizeWithNormX => {
            reveal_strlit("rmsnorm_quantize_with_norm_x_f32");
        },
        ElementwiseKernel::SwigluQuantize => {
            reveal_strlit("swiglu_quantize_f32");
        },
        ElementwiseKernel::GateSiluQuantize => {
            reveal_strlit("gate_silu_quantize_f32");
        },
        ElementwiseKernel::GateSigmoidQuantize => {
            reveal_strlit("gate_sigmoid_quantize_f32");
        },
        ElementwiseKernel::RmsnormGateSiluQuantize => {
            reveal_strlit("rmsnorm_gate_silu_quantize_f32");
        },
        ElementwiseKernel::ArgmaxFirst => {
            reveal_strlit("argmax_first_f32");
        },
    }
}

/// No two elementwise kernels share an entry point.
pub proof fn law_elementwise_names_are_distinct(a: ElementwiseKernel, b: ElementwiseKernel)
    ensures
        a.entry_point() == b.entry_point() ==> a == b,
{
    lemma_elementwise_mark(a);
    lemma_elementwise_mark(b);
}

/// The text that the elementwise module is compiled from declares every kernel,
/// each once, under the name by which it is looked up.
pub proof fn law_elementwise_text_declares(k: ElementwiseKernel)
    ensures
        k.declared().name == k.entry_point(),
        elementwise_text_order().contains(k),
        elementwise_text_order().no_duplicates(),
        exists|before: Seq<char>, after: Seq<char>|
            elementwise_cuda_src() == #[trigger] (before + k.declared().text() + k.body() + after),
{
    let order = elementwise_text_order();
    let i: int = match k {
        ElementwiseKernel::Rmsnorm => 0,
        ElementwiseKernel::ResidualAdd => 1,
        ElementwiseKernel::Swiglu => 2,
        ElementwiseKernel::Quantize => 3,
        ElementwiseKernel::RmsnormQuantize => 4,
        ElementwiseKernel::RmsnormQuantizeMultiblock => 5,
        ElementwiseKernel::RmsnormQuantizeWithNormX => 6,
        ElementwiseKernel::SwigluQuantize => 7,
        ElementwiseKernel::GateSiluQuantize => 8,
        ElementwiseKernel::GateSigmoidQuantize => 9,
        ElementwiseKernel::RmsnormGateSiluQuantize => 10,
        ElementwiseKernel::ArgmaxFirst => 11,
    };
    assert(order[i] == k);
    law_text_declares(order, i);
}

/// What tells the names of the attention kernels apart: their length and some of their characters.
spec fn attention_mark(k: AttentionKernel) -> (int, char, char) {
    match k {
        AttentionKernel::Rope => (16int, 'a', '_'),
        AttentionKernel::RopeBackward => (25int, 'r', 'b'),
        AttentionKernel::SplitQg => (12int, 'q', 's'),
        AttentionKernel::RmsnormBatched => (19int, 'e', '_'),
        AttentionKernel::KvCacheAppend => (19int, 'n', 'e'),
        AttentionKernel::AttentionDecode => (20int, 'd', 'n'),
        AttentionKernel::OutputGate => (15int, 't', 'p'),
        AttentionKernel::RopeDevpos => (23int, 'd', 'l'),
        AttentionKernel::KvCacheAppendDevpos => (26int, 'd', 'd'),
        AttentionKernel::AttentionDecodeDevpos => (27int, 'd', 'e'),
        AttentionKernel::Split => (34int, 'a', '_'),
        AttentionKernel::SplitDevpos => (41int, 'd', 'l'),
        AttentionKernel::Splitgqa => (37int, 'a', '_'),
        AttentionKernel::SplitgqaDevpos => (44int, 'd', 'l'),
        AttentionKernel::SplitCombine => (34int, 'n', '_'),
        AttentionKernel::RopeRows => (21int, 'w', 'i'),
        AttentionKernel::RopeRowsDevpos => (28int, 'd', 's'),
        AttentionKernel::KvAppendRows => (24int, 'w', 'e'),
        AttentionKernel::KvAppendRowsDevpos => (31int, 'd', 's'),
        AttentionKernel::SplitQgRows => (17int, 'w', '_'),
        AttentionKernel::SplitgqaRows => (42int, 'w', 'i'),
        AttentionKernel::SplitgqaRowsDevpos => (49int, 'd', 's'),
        AttentionKernel::SplitgqaRowsMa => (45int, 'm', '_'),
        AttentionKernel::SplitgqaRowsMaDevpos => (52int, 'd', 'a'),
        AttentionKernel::SplitCombineRows => (39int, 'w', 'i'),
        AttentionKernel::SplitgqaRowsQg => (45int, 'q', '_'),
        AttentionKernel::SplitgqaRowsQgDevpos => (52int, 'd', 'g'),
        AttentionKernel::SplitgqaRowsQgma => (47int, 'm', 'o'),
        AttentionKernel::SplitgqaRowsQgmaDevpos => (54int, 'd', 'a'),
        AttentionKernel::Verify2pStats => (28int, 't', '2'),
        AttentionKernel::Verify2pStatsDevpos => (35int, 'd', 's'),
        AttentionKernel::Verify2pMerge => (28int, 'g', '2'),
        AttentionKernel::Verify2pPv => (25int, 'p', 'i'),
        AttentionKernel::Verify2pPvDevpos => (32int, 'd', 'v'),
    }
}

proof fn lemma_attention_mark(k: AttentionKernel)
    ensures
        ({
            let s = k.entry_point();
            attention_mark(k) == (s.len() as int, s[s.len() - 6], s[s.len() - 12])
        }),
{
    match k {
        AttentionKernel::Rope => {
            reveal_strlit("rope_partial_f32");
        },
        AttentionKernel::RopeBackward => {
            reveal_strlit("rope_partial_backward_f32");
        },
        AttentionKernel::SplitQg => {
            reveal_strlit("split_qg_f32");
        },
        AttentionKernel::RmsnormBatched => {
            reveal_strlit("rmsnorm_batched_f32");
        },
        AttentionKernel::KvCacheAppend => {
            reveal_strlit("kv_cache_append_f32");
        },
        AttentionKernel::AttentionDecode => {
            reveal_strlit("attention_decode_f32");
        },
        AttentionKernel::OutputGate => {
            reveal_strlit("output_gate_f32");
        },
        AttentionKernel::RopeDevpos => {
            reveal_strlit("rope_partial_f32_devpos");
        },
        AttentionKernel::KvCacheAppendDevpos => {
            reveal_strlit("kv_cache_append_f32_devpos");
        },
        AttentionKernel::AttentionDecodeDevpos => {
            reveal_strlit("attention_decode_f32_devpos");
        },
        AttentionKernel::Split => {
            reveal_strlit("attention_decode_split_partial_f32");
        },
        AttentionKernel::SplitDevpos => {
            reveal_strlit("attention_decode_split_partial_f32_devpos");
        },
        AttentionKernel::Splitgqa => {
            reveal_strlit("attention_decode_splitgqa_partial_f32");
        },
        AttentionKernel::SplitgqaDevpos => {
            reveal_strlit("attention_decode_splitgqa_partial_f32_devpos");
        },
        AttentionKernel::SplitCombine => {
            reveal_strlit("attention_decode_split_combine_f32");
        },
        AttentionKernel::RopeRows => {
            reveal_strlit("rope_partial_rows_f32");
        },
        AttentionKernel::RopeRowsDevpos => {
            reveal_strlit("rope_partial_rows_f32_devpos");
        },
        AttentionKernel::KvAppendRows => {
            reveal_strlit("kv_cache_append_rows_f32");
        },
        AttentionKernel::KvAppendRowsDevpos => {
            reveal_strlit("kv_cache_append_rows_f32_devpos");
        },
        AttentionKernel::SplitQgRows => {
            reveal_strlit("split_qg_rows_f32");
        },
        AttentionKernel::SplitgqaRows => {
            reveal_strlit("attention_decode_splitgqa_partial_rows_f32");
        },
        AttentionKernel::SplitgqaRowsDevpos => {
            reveal_strlit("attention_decode_splitgqa_partial_rows_f32_devpos");
        },
        AttentionKernel::SplitgqaRowsMa => {
            reveal_strlit("attention_decode_splitgqa_partial_rows_ma_f32");
        },
        AttentionKernel::SplitgqaRowsMaDevpos => {
            reveal_strlit("attention_decode_splitgqa_partial_rows_ma_f32_devpos");
        },
        AttentionKernel::SplitCombineRows => {
            reveal_strlit("attention_decode_split_combine_rows_f32");
        },
        AttentionKernel::SplitgqaRowsQg => {
            reveal_strlit("attention_decode_splitgqa_partial_rows_qg_f32");
        },
        AttentionKernel::SplitgqaRowsQgDevpos => {
            reveal_strlit("attention_decode_splitgqa_partial_rows_qg_f32_devpos");
        },
        AttentionKernel::SplitgqaRowsQgma => {
            reveal_strlit("attention_decode_splitgqa_partial_rows_qgma_f32");
        },
        AttentionKernel::SplitgqaRowsQgmaDevpos => {
            reveal_strlit("attention_decode_splitgqa_partial_rows_qgma_f32_devpos");
        },
        AttentionKernel::Verify2pStats => {
            reveal_strlit("attention_verify2p_stats_f32");
        },
        AttentionKernel::Verify2pStatsDevpos => {
            reveal_strlit("attention_verify2p_stats_f32_devpos");
        },
        AttentionKernel::Verify2pMerge => {
            reveal_strlit("attention_verify2p_merge_f32");
        },
        AttentionKernel::Verify2pPv => {
            reveal_strlit("attention_verify2p_pv_f32");
        },
        AttentionKernel::Verify2pPvDevpos => {
            reveal_strlit("attention_verify2p_pv_f32_devpos");
        },
    }
}

/// No two attention kernels share an entry point.
pub proof fn law_attention_names_are_distinct(a: AttentionKernel, b: AttentionKernel)
    ensures
        a.entry_point() == b.entry_point() ==> a == b,
{
    lemma_attention_mark(a);
    lemma_attention_mark(b);
}

/// The text that the attention module is compiled from declares every kernel,
/// each once, under the name by which it is looked up.
pub proof fn law_attention_text_declares(k: AttentionKernel)
    ensures
        k.declared().name == k.entry_point(),
        attention_text_order().contains(k),
        attention_text_order().no_duplicates(),
        exists|before: Seq<char>, after: Seq<char>|
            attention_cuda_src() == #[trigger] (before + k.declared().text() + k.body() + after),
{
    let order = attention_text_order();
    let i: int = match k {
        AttentionKernel::Rope => 0,
        AttentionKernel::RopeBackward => 1,
        AttentionKernel::SplitQg => 2,
        AttentionKernel::RmsnormBatched => 3,
        AttentionKernel::KvCacheAppend => 4,
        AttentionKernel::AttentionDecode => 5,
        AttentionKernel::OutputGate => 6,
        AttentionKernel::RopeDevpos => 7,
        AttentionKernel::KvCacheAppendDevpos => 8,
        AttentionKernel::AttentionDecodeDevpos => 9,
        AttentionKernel::Split => 10,
        AttentionKernel::SplitDevpos => 11,
        AttentionKernel::Splitgqa => 12,
        AttentionKernel::SplitgqaDevpos => 13,
        AttentionKernel::SplitCombine => 14,
        AttentionKernel::RopeRows => 15,
        AttentionKernel::RopeRowsDevpos => 16,
        AttentionKernel::KvAppendRows => 17,
        AttentionKernel::KvAppendRowsDevpos => 18,
        AttentionKernel::SplitQgRows => 19,
        AttentionKernel::SplitgqaRows => 20,
        AttentionKernel::SplitgqaRowsDevpos => 21,
        AttentionKernel::SplitgqaRowsMa => 22,
        AttentionKernel::SplitgqaRowsMaDevpos => 23,
        AttentionKernel::SplitCombineRows => 24,
        AttentionKernel::SplitgqaRowsQg => 25,
        AttentionKernel::SplitgqaRowsQgDevpos => 26,
        AttentionKernel::SplitgqaRowsQgma => 27,
        AttentionKernel::SplitgqaRowsQgmaDevpos => 28,
        AttentionKernel::Verify2pStats => 29,
        AttentionKernel::Verify2pStatsDevpos => 30,
        AttentionKernel::Verify2pMerge => 31,
        AttentionKernel::Verify2pPv => 32,
        AttentionKernel::Verify2pPvDevpos => 33,
    };
    assert(order[i] == k);
    law_text_declares(order, i);
}

/// What tells the names of the attention score mma kernels apart: their length.
spec fn attention_score_mma_mark(k: ScoreMmaKernel) -> int {
    match k {
        ScoreMmaKernel::ScoreMma => 49int,
        ScoreMmaKernel::ScoreMmaDevpos => 56int,
        ScoreMmaKernel::ScoreMma24 => 51int,
        ScoreMmaKernel::ScoreMma24Devpos => 58int,
        ScoreMmaKernel::Combine => 39int,
    }
}

proof fn lemma_attention_score_mma_mark(k: ScoreMmaKernel)
    ensures
        ({
            let s = k.entry_point();
            attention_score_mma_mark(k) == s.len()
        }),
{
    match k {
        ScoreMmaKernel::ScoreMma => {
            reveal_strlit("attention_decode_splitgqa_partial_rows_qg_mma_f32");
        },
        ScoreMmaKernel::ScoreMmaDevpos => {
            reveal_strlit("attention_decode_splitgqa_partial_rows_qg_mma_f32_devpos");
        },
        ScoreMmaKernel::ScoreMma24 => {
            reveal_strlit("attention_decode_splitgqa_partial_rows_qg_mma24_f32");
        },
        ScoreMmaKernel::ScoreMma24Devpos => {
            reveal_strlit("attention_decode_splitgqa_partial_rows_qg_mma24_f32_devpos");
        },
        ScoreMmaKernel::Combine => {
            reveal_strlit("attention_decode_split_combine_rows_f32");
        },
    }
}

/// No two attention score mma kernels share an entry point.
pub proof fn law_attention_score_mma_names_are_distinct(a: ScoreMmaKernel, b: ScoreMmaKernel)
    ensures
        a.entry_point() == b.entry_point() ==> a == b,
{
    lemma_attention_score_mma_mark(a);
    lemma_attention_score_mma_mark(b);
}

/// The text that the attention score mma module is compiled from declares every kernel,
/// each once, under the name by which it is looked up.
pub proof fn law_attention_score_mma_text_declares(k: ScoreMmaKernel)
    ensures
        k.declared().name == k.entry_point(),
        attention_score_mma_text_order().contains(k),
        attention_score_mma_text_order().no_duplicates(),
        exists|before: Seq<char>, after: Seq<char>|
            attention_score_mma_cuda_src() == #[trigger] (before + k.declared().text() + k.body() + after),
{
    let order = attention_score_mma_text_order();
    let i: int = match k {
        ScoreMmaKernel::ScoreMma => 0,
        ScoreMmaKernel::ScoreMmaDevpos => 1,
        ScoreMmaKernel::ScoreMma24 => 2,
        ScoreMmaKernel::ScoreMma24Devpos => 3,
        ScoreMmaKernel::Combine => 4,
    };
    assert(order[i] == k);
    law_text_declares(order, i);
}

/// What tells the names of the deltanet kernels apart: their length and some of their characters.
spec fn deltanet_mark(k: DeltanetKernel) -> (int, char, char) {
    match k {
        DeltanetKernel::Conv1d => (10int, '2', 'c'),
        DeltanetKernel::BetaDecay => (14int, '2', 'b'),
        DeltanetKernel::ExpandL2 => (33int, '2', 'e'),
        DeltanetKernel::Recurrence => (14int, '2', 'r'),
        DeltanetKernel::ZGating => (12int, '2', 'z'),
        DeltanetKernel::RecurrenceParallel => (23int, 'l', 'r'),
        DeltanetKernel::RecurrenceFusedHd64 => (25int, '4', 'r'),
        DeltanetKernel::RecurrenceFusedHd128 => (26int, '8', 'r'),
        DeltanetKernel::RecurrenceFusedHd256 => (26int, '6', 'r'),
        DeltanetKernel::RecurrenceHalfHd128F16 => (31int, '6', 'r'),
        DeltanetKernel::RecurrenceHalfHd128Bf16 => (32int, '6', 'r'),
        DeltanetKernel::BpttRecompute => (27int, '2', 'd'),
        DeltanetKernel::Conv1dRows => (15int, '2', 'c'),
        DeltanetKernel::BetaDecayRows => (19int, '2', 'b'),
        DeltanetKernel::ExpandL2Rows => (38int, '2', 'e'),
        DeltanetKernel::ExpandL2RowsV2 => (41int, '2', 'e'),
        DeltanetKernel::RecurrenceFusedRowsHd128 => (31int, '8', 'r'),
    }
}

proof fn lemma_deltanet_mark(k: DeltanetKernel)
    ensures
        ({
            let s = k.entry_point();
            deltanet_mark(k) == (s.len() as int, s[s.len() - 1], s[0])
        }),
{
    match k {
        DeltanetKernel::Conv1d => {
            reveal_strlit("conv1d_f32");
        },
        DeltanetKernel::BetaDecay => {
            reveal_strlit("beta_decay_f32");
        },
        DeltanetKernel::ExpandL2 => {
            reveal_strlit("expand_and_l2_normalize_heads_f32");
        },
        DeltanetKernel::Recurrence => {
            reveal_strlit("recurrence_f32");
        },
        DeltanetKernel::ZGating => {
            reveal_strlit("z_gating_f32");
        },
        DeltanetKernel::RecurrenceParallel => {
            reveal_strlit("recurrence_f32_parallel");
        },
        DeltanetKernel::RecurrenceFusedHd64 => {
            reveal_strlit("recurrence_f32_fused_hd64");
        },
        DeltanetKernel::RecurrenceFusedHd128 => {
            reveal_strlit("recurrence_f32_fused_hd128");
        },
        DeltanetKernel::RecurrenceFusedHd256 => {
            reveal_strlit("recurrence_f32_fused_hd256");
        },
        DeltanetKernel::RecurrenceHalfHd128F16 => {
            reveal_strlit("recurrence_half_fused_hd128_f16");
        },
        DeltanetKernel::RecurrenceHalfHd128Bf16 => {
            reveal_strlit("recurrence_half_fused_hd128_bf16");
        },
        DeltanetKernel::BpttRecompute => {
            reveal_strlit("deltanet_bptt_recompute_f32");
        },
        DeltanetKernel::Conv1dRows => {
            reveal_strlit("conv1d_rows_f32");
        },
        DeltanetKernel::BetaDecayRows => {
            reveal_strlit("beta_decay_rows_f32");
        },
        DeltanetKernel::ExpandL2Rows => {
            reveal_strlit("expand_and_l2_normalize_heads_rows_f32");
        },
        DeltanetKernel::ExpandL2RowsV2 => {
            reveal_strlit("expand_and_l2_normalize_heads_rows_v2_f32");
        },
        DeltanetKernel::RecurrenceFusedRowsHd128 => {
            reveal_strlit("recurrence_f32_fused_rows_hd128");
        },
    }
}

/// No two deltanet kernels share an entry point.
pub proof fn law_deltanet_names_are_distinct(a: DeltanetKernel, b: DeltanetKernel)
    ensures
        a.entry_point() == b.entry_point() ==> a == b,
{
    lemma_deltanet_mark(a);
    lemma_deltanet_mark(b);
}

/// The text that the deltanet module is compiled from declares every kernel,
/// each once, under the name by which it is looked up.
pub proof fn law_deltanet_text_declares(k: DeltanetKernel)
    ensures
        k.declared().name == k.entry_point(),
        deltanet_text_order().contains(k),
        deltanet_text_order().no_duplicates(),
        exists|before: Seq<char>, after: Seq<char>|
            deltanet_cuda_src() == #[trigger] (before + k.declared().text() + k.body() + after),
{
    let order = deltanet_text_order();
    let i: int = match k {
        DeltanetKernel::Conv1d => 0,
        DeltanetKernel::BetaDecay => 1,
        DeltanetKernel::ExpandL2 => 2,
        DeltanetKernel::Recurrence => 3,
        DeltanetKernel::ZGating => 4,
        DeltanetKernel::RecurrenceParallel => 5,
        DeltanetKernel::RecurrenceFusedHd64 => 6,
        DeltanetKernel::RecurrenceFusedHd128 => 7,
        DeltanetKernel::RecurrenceFusedHd256 => 8,
        DeltanetKernel::RecurrenceHalfHd128F16 => 9,
        DeltanetKernel::RecurrenceHalfHd128Bf16 => 10,
        DeltanetKernel::BpttRecompute => 11,
        DeltanetKernel::Conv1dRows => 12,
        DeltanetKernel::BetaDecayRows => 13,
        DeltanetKernel::ExpandL2Rows => 14,
        DeltanetKernel::ExpandL2RowsV2 => 15,
        DeltanetKernel::RecurrenceFusedRowsHd128 => 16,
    };
    assert(order[i] == k);
    law_text_declares(order, i);
}

/// What tells the names of the embedding kernels apart: their length.
spec fn embedding_mark(k: EmbeddingKernel) -> int {
    match k {
        EmbeddingKernel::Dequant => 19int,
        EmbeddingKernel::DequantDevpos => 26int,
    }
}

proof fn lemma_embedding_mark(k: EmbeddingKernel)
    ensures
        ({
            let s = k.entry_point();
            embedding_mark(k) == s.len()
        }),
{
    match k {
        EmbeddingKernel::Dequant => {
            reveal_strlit("dequant_wte_row_f32");
        },
        EmbeddingKernel::DequantDevpos => {
            reveal_strlit("dequant_wte_row_f32_devpos");
        },
    }
}

/// No two embedding kernels share an entry point.
pub proof fn law_embedding_names_are_distinct(a: EmbeddingKernel, b: EmbeddingKernel)
    ensures
        a.entry_point() == b.entry_point() ==> a == b,
{
    lemma_embedding_mark(a);
    lemma_embedding_mark(b);
}

/// The text that the embedding module is compiled from declares every kernel,
/// each once, under the name by which it is looked up.
pub proof fn law_embedding_text_declares(k: EmbeddingKernel)
    ensures
        k.declared().name == k.entry_point(),
        embedding_text_order().contains(k),
        embedding_text_order().no_duplicates(),
        exists|before: Seq<char>, after: Seq<char>|
            embedding_cuda_src() == #[trigger] (before + k.declared().text() + k.body() + after),
{
    let order = embedding_text_order();
    let i: int = match k {
        EmbeddingKernel::Dequant => 0,
        EmbeddingKernel::DequantDevpos => 1,
    };
    assert(order[i] == k);
    law_text_declares(order, i);
}

/// What tells the names of the lora kernels apart: their length.
spec fn lora_mark(k: LoraKernel) -> int {
    match k {
        LoraKernel::DownProject => 21int,
        LoraKernel::UpProjectAdd => 23int,
    }
}

proof fn lemma_lora_mark(k: LoraKernel)
    ensures
        ({
            let s = k.entry_point();
            lora_mark(k) == s.len()
        }),
{
    match k {
        LoraKernel::DownProject => {
            reveal_strlit("lora_down_project_f32");
        },
        LoraKernel::UpProjectAdd => {
            reveal_strlit("lora_up_project_add_f32");
        },
    }
}

/// No two lora kernels share an entry point.
pub proof fn law_lora_names_are_distinct(a: LoraKernel, b: LoraKernel)
    ensures
        a.entry_point() == b.entry_point() ==> a == b,
{
    lemma_lora_mark(a);
    lemma_lora_mark(b);
}

/// The text that the lora module is compiled from declares every kernel,
/// each once, under the name by which it is looked up.
pub proof fn law_lora_text_declares(k: LoraKernel)
    ensures
        k.declared().name == k.entry_point(),
        lora_text_order().contains(k),
        lora_text_order().no_duplicates(),
        exists|before: Seq<char>, after: Seq<char>|
            lora_cuda_src() == #[trigger] (before + k.declared().text() + k.body() + after),
{
    let order = lora_text_order();
    let i: int = match k {
        LoraKernel::DownProject => 0,
        LoraKernel::UpProjectAdd => 1,
    };
    assert(order[i] == k);
    law_text_declares(order, i);
}

} // verus!
