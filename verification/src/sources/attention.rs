//! CUDA C of the attention kernels. `KV_F16` makes the caches hold halves.

use vstd::prelude::*;
use crate::attention::AttentionKernel;
use crate::sources::{
    declare, kernels_text, param, text_of_kernels, CudaType, Declaration, KernelText, Param,
    ParamView,
};

verus! {

/// The parameters of `rope_partial_f32`.
pub open spec fn rope_partial_f32_params() -> Seq<ParamView> {
    seq![
        param(CudaType::FloatsOut, "q"@),
        param(CudaType::FloatsOut, "k"@),
        param(CudaType::ConstInt, "rotary_dim"@),
        param(CudaType::ConstInt, "head_dim"@),
        param(CudaType::ConstInt, "n_head"@),
        param(CudaType::ConstInt, "n_kv_head"@),
        param(CudaType::ConstInt, "pos"@),
        param(CudaType::ConstFloat, "theta_base"@),
    ]
}

/// [`rope_partial_f32_params`], computed.
fn rope_partial_f32_list() -> (r: Vec<Param>)
    ensures
        r@.map_values(|p: Param| p@) == rope_partial_f32_params(),
{
    let r: Vec<Param> = vec![
        Param { ty: CudaType::FloatsOut, name: "q" },
        Param { ty: CudaType::FloatsOut, name: "k" },
        Param { ty: CudaType::ConstInt, name: "rotary_dim" },
        Param { ty: CudaType::ConstInt, name: "head_dim" },
        Param { ty: CudaType::ConstInt, name: "n_head" },
        Param { ty: CudaType::ConstInt, name: "n_kv_head" },
        Param { ty: CudaType::ConstInt, name: "pos" },
        Param { ty: CudaType::ConstFloat, name: "theta_base" },
    ];
    assert(r@.map_values(|p: Param| p@) =~= rope_partial_f32_params());
    r
}

/// The parameters of `rope_partial_backward_f32`.
pub open spec fn rope_partial_backward_f32_params() -> Seq<ParamView> {
    seq![
        param(CudaType::FloatsOut, "grad_q"@),
        param(CudaType::FloatsOut, "grad_k"@),
        param(CudaType::ConstInt, "rotary_dim"@),
        param(CudaType::ConstInt, "head_dim"@),
        param(CudaType::ConstInt, "n_head"@),
        param(CudaType::ConstInt, "n_kv_head"@),
        param(CudaType::ConstInt, "pos"@),
        param(CudaType::ConstFloat, "theta_base"@),
    ]
}

/// [`rope_partial_backward_f32_params`], computed.
fn rope_partial_backward_f32_list() -> (r: Vec<Param>)
    ensures
        r@.map_values(|p: Param| p@) == rope_partial_backward_f32_params(),
{
    let r: Vec<Param> = vec![
        Param { ty: CudaType::FloatsOut, name: "grad_q" },
        Param { ty: CudaType::FloatsOut, name: "grad_k" },
        Param { ty: CudaType::ConstInt, name: "rotary_dim" },
        Param { ty: CudaType::ConstInt, name: "head_dim" },
        Param { ty: CudaType::ConstInt, name: "n_head" },
        Param { ty: CudaType::ConstInt, name: "n_kv_head" },
        Param { ty: CudaType::ConstInt, name: "pos" },
        Param { ty: CudaType::ConstFloat, name: "theta_base" },
    ];
    assert(r@.map_values(|p: Param| p@) =~= rope_partial_backward_f32_params());
    r
}

/// The parameters of `split_qg_f32`.
pub open spec fn split_qg_f32_params() -> Seq<ParamView> {
    seq![
        param(CudaType::FloatsIn, "qg"@),
        param(CudaType::FloatsOut, "q"@),
        param(CudaType::FloatsOut, "gate"@),
        param(CudaType::ConstInt, "head_dim"@),
        param(CudaType::ConstInt, "n_head"@),
    ]
}

/// [`split_qg_f32_params`], computed.
fn split_qg_f32_list() -> (r: Vec<Param>)
    ensures
        r@.map_values(|p: Param| p@) == split_qg_f32_params(),
{
    let r: Vec<Param> = vec![
        Param { ty: CudaType::FloatsIn, name: "qg" },
        Param { ty: CudaType::FloatsOut, name: "q" },
        Param { ty: CudaType::FloatsOut, name: "gate" },
        Param { ty: CudaType::ConstInt, name: "head_dim" },
        Param { ty: CudaType::ConstInt, name: "n_head" },
    ];
    assert(r@.map_values(|p: Param| p@) =~= split_qg_f32_params());
    r
}

/// The parameters of `rmsnorm_batched_f32`.
pub open spec fn rmsnorm_batched_f32_params() -> Seq<ParamView> {
    seq![
        param(CudaType::FloatsIn, "input"@),
        param(CudaType::FloatsIn, "gamma"@),
        param(CudaType::FloatsOut, "output"@),
        param(CudaType::ConstFloat, "inv_dim"@),
        param(CudaType::ConstFloat, "eps"@),
        param(CudaType::ConstInt, "head_dim"@),
    ]
}

/// [`rmsnorm_batched_f32_params`], computed.
fn rmsnorm_batched_f32_list() -> (r: Vec<Param>)
    ensures
        r@.map_values(|p: Param| p@) == rmsnorm_batched_f32_params(),
{
    let r: Vec<Param> = vec![
        Param { ty: CudaType::FloatsIn, name: "input" },
        Param { ty: CudaType::FloatsIn, name: "gamma" },
        Param { ty: CudaType::FloatsOut, name: "output" },
        Param { ty: CudaType::ConstFloat, name: "inv_dim" },
        Param { ty: CudaType::ConstFloat, name: "eps" },
        Param { ty: CudaType::ConstInt, name: "head_dim" },
    ];
    assert(r@.map_values(|p: Param| p@) =~= rmsnorm_batched_f32_params());
    r
}

/// The parameters of `kv_cache_append_f32`.
pub open spec fn kv_cache_append_f32_params() -> Seq<ParamView> {
    seq![
        param(CudaType::FloatsIn, "k_vec"@),
        param(CudaType::FloatsIn, "v_vec"@),
        param(CudaType::CacheOut, "key_cache"@),
        param(CudaType::CacheOut, "value_cache"@),
        param(CudaType::ConstInt, "kvd"@),
        param(CudaType::ConstInt, "pos"@),
    ]
}

/// [`kv_cache_append_f32_params`], computed.
fn kv_cache_append_f32_list() -> (r: Vec<Param>)
    ensures
        r@.map_values(|p: Param| p@) == kv_cache_append_f32_params(),
{
    let r: Vec<Param> = vec![
        Param { ty: CudaType::FloatsIn, name: "k_vec" },
        Param { ty: CudaType::FloatsIn, name: "v_vec" },
        Param { ty: CudaType::CacheOut, name: "key_cache" },
        Param { ty: CudaType::CacheOut, name: "value_cache" },
        Param { ty: CudaType::ConstInt, name: "kvd" },
        Param { ty: CudaType::ConstInt, name: "pos" },
    ];
    assert(r@.map_values(|p: Param| p@) =~= kv_cache_append_f32_params());
    r
}

/// The parameters of `attention_decode_f32`.
pub open spec fn attention_decode_f32_params() -> Seq<ParamView> {
    seq![
        param(CudaType::FloatsIn, "query"@),
        param(CudaType::CacheIn, "key_cache"@),
        param(CudaType::CacheIn, "value_cache"@),
        param(CudaType::FloatsOut, "attn_out"@),
        param(CudaType::ConstFloat, "scale"@),
        param(CudaType::ConstInt, "head_dim"@),
        param(CudaType::ConstInt, "n_head"@),
        param(CudaType::ConstInt, "n_kv_head"@),
        param(CudaType::ConstInt, "n_positions"@),
    ]
}

/// [`attention_decode_f32_params`], computed.
fn attention_decode_f32_list() -> (r: Vec<Param>)
    ensures
        r@.map_values(|p: Param| p@) == attention_decode_f32_params(),
{
    let r: Vec<Param> = vec![
        Param { ty: CudaType::FloatsIn, name: "query" },
        Param { ty: CudaType::CacheIn, name: "key_cache" },
        Param { ty: CudaType::CacheIn, name: "value_cache" },
        Param { ty: CudaType::FloatsOut, name: "attn_out" },
        Param { ty: CudaType::ConstFloat, name: "scale" },
        Param { ty: CudaType::ConstInt, name: "head_dim" },
        Param { ty: CudaType::ConstInt, name: "n_head" },
        Param { ty: CudaType::ConstInt, name: "n_kv_head" },
        Param { ty: CudaType::ConstInt, name: "n_positions" },
    ];
    assert(r@.map_values(|p: Param| p@) =~= attention_decode_f32_params());
    r
}

/// The parameters of `output_gate_f32`.
pub open spec fn output_gate_f32_params() -> Seq<ParamView> {
    seq![
        param(CudaType::FloatsOut, "attn_out"@),
        param(CudaType::FloatsIn, "gate"@),
        param(CudaType::ConstInt, "n"@),
    ]
}

/// [`output_gate_f32_params`], computed.
fn output_gate_f32_list() -> (r: Vec<Param>)
    ensures
        r@.map_values(|p: Param| p@) == output_gate_f32_params(),
{
    let r: Vec<Param> = vec![
        Param { ty: CudaType::FloatsOut, name: "attn_out" },
        Param { ty: CudaType::FloatsIn, name: "gate" },
        Param { ty: CudaType::ConstInt, name: "n" },
    ];
    assert(r@.map_values(|p: Param| p@) =~= output_gate_f32_params());
    r
}

/// The parameters of `rope_partial_f32_devpos`.
pub open spec fn rope_partial_f32_devpos_params() -> Seq<ParamView> {
    seq![
        param(CudaType::FloatsOut, "q"@),
        param(CudaType::FloatsOut, "k"@),
        param(CudaType::ConstInt, "rotary_dim"@),
        param(CudaType::ConstInt, "head_dim"@),
        param(CudaType::ConstInt, "n_head"@),
        param(CudaType::ConstInt, "n_kv_head"@),
        param(CudaType::IntsIn, "pos_dev"@),
        param(CudaType::ConstFloat, "theta_base"@),
    ]
}

/// [`rope_partial_f32_devpos_params`], computed.
fn rope_partial_f32_devpos_list() -> (r: Vec<Param>)
    ensures
        r@.map_values(|p: Param| p@) == rope_partial_f32_devpos_params(),
{
    let r: Vec<Param> = vec![
        Param { ty: CudaType::FloatsOut, name: "q" },
        Param { ty: CudaType::FloatsOut, name: "k" },
        Param { ty: CudaType::ConstInt, name: "rotary_dim" },
        Param { ty: CudaType::ConstInt, name: "head_dim" },
        Param { ty: CudaType::ConstInt, name: "n_head" },
        Param { ty: CudaType::ConstInt, name: "n_kv_head" },
        Param { ty: CudaType::IntsIn, name: "pos_dev" },
        Param { ty: CudaType::ConstFloat, name: "theta_base" },
    ];
    assert(r@.map_values(|p: Param| p@) =~= rope_partial_f32_devpos_params());
    r
}

/// The parameters of `kv_cache_append_f32_devpos`.
pub open spec fn kv_cache_append_f32_devpos_params() -> Seq<ParamView> {
    seq![
        param(CudaType::FloatsIn, "k_vec"@),
        param(CudaType::FloatsIn, "v_vec"@),
        param(CudaType::CacheOut, "key_cache"@),
        param(CudaType::CacheOut, "value_cache"@),
        param(CudaType::ConstInt, "kvd"@),
        param(CudaType::IntsIn, "pos_dev"@),
    ]
}

/// [`kv_cache_append_f32_devpos_params`], computed.
fn kv_cache_append_f32_devpos_list() -> (r: Vec<Param>)
    ensures
        r@.map_values(|p: Param| p@) == kv_cache_append_f32_devpos_params(),
{
    let r: Vec<Param> = vec![
        Param { ty: CudaType::FloatsIn, name: "k_vec" },
        Param { ty: CudaType::FloatsIn, name: "v_vec" },
        Param { ty: CudaType::CacheOut, name: "key_cache" },
        Param { ty: CudaType::CacheOut, name: "value_cache" },
        Param { ty: CudaType::ConstInt, name: "kvd" },
        Param { ty: CudaType::IntsIn, name: "pos_dev" },
    ];
    assert(r@.map_values(|p: Param| p@) =~= kv_cache_append_f32_devpos_params());
    r
}

/// The parameters of `attention_decode_f32_devpos`.
pub open spec fn attention_decode_f32_devpos_params() -> Seq<ParamView> {
    seq![
        param(CudaType::FloatsIn, "query"@),
        param(CudaType::CacheIn, "key_cache"@),
        param(CudaType::CacheIn, "value_cache"@),
        param(CudaType::FloatsOut, "attn_out"@),
        param(CudaType::ConstFloat, "scale"@),
        param(CudaType::ConstInt, "head_dim"@),
        param(CudaType::ConstInt, "n_head"@),
        param(CudaType::ConstInt, "n_kv_head"@),
        param(CudaType::IntsIn, "pos_dev"@),
    ]
}

/// [`attention_decode_f32_devpos_params`], computed.
fn attention_decode_f32_devpos_list() -> (r: Vec<Param>)
    ensures
        r@.map_values(|p: Param| p@) == attention_decode_f32_devpos_params(),
{
    let r: Vec<Param> = vec![
        Param { ty: CudaType::FloatsIn, name: "query" },
        Param { ty: CudaType::CacheIn, name: "key_cache" },
        Param { ty: CudaType::CacheIn, name: "value_cache" },
        Param { ty: CudaType::FloatsOut, name: "attn_out" },
        Param { ty: CudaType::ConstFloat, name: "scale" },
        Param { ty: CudaType::ConstInt, name: "head_dim" },
        Param { ty: CudaType::ConstInt, name: "n_head" },
        Param { ty: CudaType::ConstInt, name: "n_kv_head" },
        Param { ty: CudaType::IntsIn, name: "pos_dev" },
    ];
    assert(r@.map_values(|p: Param| p@) =~= attention_decode_f32_devpos_params());
    r
}

/// The parameters of `attention_decode_split_partial_f32` and the kernels that declare the same.
pub open spec fn attention_decode_split_partial_f32_params() -> Seq<ParamView> {
    seq![
        param(CudaType::FloatsIn, "query"@),
        param(CudaType::CacheIn, "key_cache"@),
        param(CudaType::CacheIn, "value_cache"@),
        param(CudaType::FloatsOut, "part_m"@),
        param(CudaType::FloatsOut, "part_l"@),
        param(CudaType::FloatsOut, "part_out"@),
        param(CudaType::ConstFloat, "scale"@),
        param(CudaType::ConstInt, "head_dim"@),
        param(CudaType::ConstInt, "n_head"@),
        param(CudaType::ConstInt, "n_kv_head"@),
        param(CudaType::ConstInt, "chunk_len"@),
        param(CudaType::ConstInt, "n_positions"@),
    ]
}

/// [`attention_decode_split_partial_f32_params`], computed.
fn attention_decode_split_partial_f32_list() -> (r: Vec<Param>)
    ensures
        r@.map_values(|p: Param| p@) == attention_decode_split_partial_f32_params(),
{
    let r: Vec<Param> = vec![
        Param { ty: CudaType::FloatsIn, name: "query" },
        Param { ty: CudaType::CacheIn, name: "key_cache" },
        Param { ty: CudaType::CacheIn, name: "value_cache" },
        Param { ty: CudaType::FloatsOut, name: "part_m" },
        Param { ty: CudaType::FloatsOut, name: "part_l" },
        Param { ty: CudaType::FloatsOut, name: "part_out" },
        Param { ty: CudaType::ConstFloat, name: "scale" },
        Param { ty: CudaType::ConstInt, name: "head_dim" },
        Param { ty: CudaType::ConstInt, name: "n_head" },
        Param { ty: CudaType::ConstInt, name: "n_kv_head" },
        Param { ty: CudaType::ConstInt, name: "chunk_len" },
        Param { ty: CudaType::ConstInt, name: "n_positions" },
    ];
    assert(r@.map_values(|p: Param| p@) =~= attention_decode_split_partial_f32_params());
    r
}

/// The parameters of `attention_decode_split_partial_f32_devpos` and the
/// kernels that declare the same.
pub open spec fn attention_decode_split_partial_f32_devpos_params() -> Seq<ParamView> {
    seq![
        param(CudaType::FloatsIn, "query"@),
        param(CudaType::CacheIn, "key_cache"@),
        param(CudaType::CacheIn, "value_cache"@),
        param(CudaType::FloatsOut, "part_m"@),
        param(CudaType::FloatsOut, "part_l"@),
        param(CudaType::FloatsOut, "part_out"@),
        param(CudaType::ConstFloat, "scale"@),
        param(CudaType::ConstInt, "head_dim"@),
        param(CudaType::ConstInt, "n_head"@),
        param(CudaType::ConstInt, "n_kv_head"@),
        param(CudaType::ConstInt, "chunk_len"@),
        param(CudaType::IntsIn, "pos_dev"@),
    ]
}

/// [`attention_decode_split_partial_f32_devpos_params`], computed.
fn attention_decode_split_partial_f32_devpos_list() -> (r: Vec<Param>)
    ensures
        r@.map_values(|p: Param| p@) == attention_decode_split_partial_f32_devpos_params(),
{
    let r: Vec<Param> = vec![
        Param { ty: CudaType::FloatsIn, name: "query" },
        Param { ty: CudaType::CacheIn, name: "key_cache" },
        Param { ty: CudaType::CacheIn, name: "value_cache" },
        Param { ty: CudaType::FloatsOut, name: "part_m" },
        Param { ty: CudaType::FloatsOut, name: "part_l" },
        Param { ty: CudaType::FloatsOut, name: "part_out" },
        Param { ty: CudaType::ConstFloat, name: "scale" },
        Param { ty: CudaType::ConstInt, name: "head_dim" },
        Param { ty: CudaType::ConstInt, name: "n_head" },
        Param { ty: CudaType::ConstInt, name: "n_kv_head" },
        Param { ty: CudaType::ConstInt, name: "chunk_len" },
        Param { ty: CudaType::IntsIn, name: "pos_dev" },
    ];
    assert(r@.map_values(|p: Param| p@) =~= attention_decode_split_partial_f32_devpos_params());
    r
}

/// The parameters of `attention_decode_split_combine_f32`.
pub open spec fn attention_decode_split_combine_f32_params() -> Seq<ParamView> {
    seq![
        param(CudaType::FloatsIn, "part_m"@),
        param(CudaType::FloatsIn, "part_l"@),
        param(CudaType::FloatsIn, "part_out"@),
        param(CudaType::FloatsOut, "attn_out"@),
        param(CudaType::ConstInt, "head_dim"@),
        param(CudaType::ConstInt, "n_chunks"@),
    ]
}

/// [`attention_decode_split_combine_f32_params`], computed.
fn attention_decode_split_combine_f32_list() -> (r: Vec<Param>)
    ensures
        r@.map_values(|p: Param| p@) == attention_decode_split_combine_f32_params(),
{
    let r: Vec<Param> = vec![
        Param { ty: CudaType::FloatsIn, name: "part_m" },
        Param { ty: CudaType::FloatsIn, name: "part_l" },
        Param { ty: CudaType::FloatsIn, name: "part_out" },
        Param { ty: CudaType::FloatsOut, name: "attn_out" },
        Param { ty: CudaType::ConstInt, name: "head_dim" },
        Param { ty: CudaType::ConstInt, name: "n_chunks" },
    ];
    assert(r@.map_values(|p: Param| p@) =~= attention_decode_split_combine_f32_params());
    r
}

/// The parameters of `rope_partial_rows_f32`.
pub open spec fn rope_partial_rows_f32_params() -> Seq<ParamView> {
    seq![
        param(CudaType::FloatsOut, "q"@),
        param(CudaType::FloatsOut, "k"@),
        param(CudaType::ConstInt, "rotary_dim"@),
        param(CudaType::ConstInt, "head_dim"@),
        param(CudaType::ConstInt, "n_head"@),
        param(CudaType::ConstInt, "n_kv_head"@),
        param(CudaType::ConstInt, "base_pos"@),
        param(CudaType::ConstInt, "p"@),
        param(CudaType::ConstFloat, "theta_base"@),
    ]
}

/// [`rope_partial_rows_f32_params`], computed.
fn rope_partial_rows_f32_list() -> (r: Vec<Param>)
    ensures
        r@.map_values(|p: Param| p@) == rope_partial_rows_f32_params(),
{
    let r: Vec<Param> = vec![
        Param { ty: CudaType::FloatsOut, name: "q" },
        Param { ty: CudaType::FloatsOut, name: "k" },
        Param { ty: CudaType::ConstInt, name: "rotary_dim" },
        Param { ty: CudaType::ConstInt, name: "head_dim" },
        Param { ty: CudaType::ConstInt, name: "n_head" },
        Param { ty: CudaType::ConstInt, name: "n_kv_head" },
        Param { ty: CudaType::ConstInt, name: "base_pos" },
        Param { ty: CudaType::ConstInt, name: "p" },
        Param { ty: CudaType::ConstFloat, name: "theta_base" },
    ];
    assert(r@.map_values(|p: Param| p@) =~= rope_partial_rows_f32_params());
    r
}

/// The parameters of `rope_partial_rows_f32_devpos`.
pub open spec fn rope_partial_rows_f32_devpos_params() -> Seq<ParamView> {
    seq![
        param(CudaType::FloatsOut, "q"@),
        param(CudaType::FloatsOut, "k"@),
        param(CudaType::ConstInt, "rotary_dim"@),
        param(CudaType::ConstInt, "head_dim"@),
        param(CudaType::ConstInt, "n_head"@),
        param(CudaType::ConstInt, "n_kv_head"@),
        param(CudaType::IntsIn, "pos_dev"@),
        param(CudaType::ConstInt, "p"@),
        param(CudaType::ConstFloat, "theta_base"@),
    ]
}

/// [`rope_partial_rows_f32_devpos_params`], computed.
fn rope_partial_rows_f32_devpos_list() -> (r: Vec<Param>)
    ensures
        r@.map_values(|p: Param| p@) == rope_partial_rows_f32_devpos_params(),
{
    let r: Vec<Param> = vec![
        Param { ty: CudaType::FloatsOut, name: "q" },
        Param { ty: CudaType::FloatsOut, name: "k" },
        Param { ty: CudaType::ConstInt, name: "rotary_dim" },
        Param { ty: CudaType::ConstInt, name: "head_dim" },
        Param { ty: CudaType::ConstInt, name: "n_head" },
        Param { ty: CudaType::ConstInt, name: "n_kv_head" },
        Param { ty: CudaType::IntsIn, name: "pos_dev" },
        Param { ty: CudaType::ConstInt, name: "p" },
        Param { ty: CudaType::ConstFloat, name: "theta_base" },
    ];
    assert(r@.map_values(|p: Param| p@) =~= rope_partial_rows_f32_devpos_params());
    r
}

/// The parameters of `kv_cache_append_rows_f32`.
pub open spec fn kv_cache_append_rows_f32_params() -> Seq<ParamView> {
    seq![
        param(CudaType::FloatsIn, "k_vecs"@),
        param(CudaType::FloatsIn, "v_vecs"@),
        param(CudaType::CacheOut, "key_cache"@),
        param(CudaType::CacheOut, "value_cache"@),
        param(CudaType::ConstInt, "kvd"@),
        param(CudaType::ConstInt, "base_pos"@),
        param(CudaType::ConstInt, "p"@),
    ]
}

/// [`kv_cache_append_rows_f32_params`], computed.
fn kv_cache_append_rows_f32_list() -> (r: Vec<Param>)
    ensures
        r@.map_values(|p: Param| p@) == kv_cache_append_rows_f32_params(),
{
    let r: Vec<Param> = vec![
        Param { ty: CudaType::FloatsIn, name: "k_vecs" },
        Param { ty: CudaType::FloatsIn, name: "v_vecs" },
        Param { ty: CudaType::CacheOut, name: "key_cache" },
        Param { ty: CudaType::CacheOut, name: "value_cache" },
        Param { ty: CudaType::ConstInt, name: "kvd" },
        Param { ty: CudaType::ConstInt, name: "base_pos" },
        Param { ty: CudaType::ConstInt, name: "p" },
    ];
    assert(r@.map_values(|p: Param| p@) =~= kv_cache_append_rows_f32_params());
    r
}

/// The parameters of `kv_cache_append_rows_f32_devpos`.
pub open spec fn kv_cache_append_rows_f32_devpos_params() -> Seq<ParamView> {
    seq![
        param(CudaType::FloatsIn, "k_vecs"@),
        param(CudaType::FloatsIn, "v_vecs"@),
        param(CudaType::CacheOut, "key_cache"@),
        param(CudaType::CacheOut, "value_cache"@),
        param(CudaType::ConstInt, "kvd"@),
        param(CudaType::IntsIn, "pos_dev"@),
        param(CudaType::ConstInt, "p"@),
    ]
}

/// [`kv_cache_append_rows_f32_devpos_params`], computed.
fn kv_cache_append_rows_f32_devpos_list() -> (r: Vec<Param>)
    ensures
        r@.map_values(|p: Param| p@) == kv_cache_append_rows_f32_devpos_params(),
{
    let r: Vec<Param> = vec![
        Param { ty: CudaType::FloatsIn, name: "k_vecs" },
        Param { ty: CudaType::FloatsIn, name: "v_vecs" },
        Param { ty: CudaType::CacheOut, name: "key_cache" },
        Param { ty: CudaType::CacheOut, name: "value_cache" },
        Param { ty: CudaType::ConstInt, name: "kvd" },
        Param { ty: CudaType::IntsIn, name: "pos_dev" },
        Param { ty: CudaType::ConstInt, name: "p" },
    ];
    assert(r@.map_values(|p: Param| p@) =~= kv_cache_append_rows_f32_devpos_params());
    r
}

/// The parameters of `split_qg_rows_f32`.
pub open spec fn split_qg_rows_f32_params() -> Seq<ParamView> {
    seq![
        param(CudaType::FloatsIn, "qg"@),
        param(CudaType::FloatsOut, "q"@),
        param(CudaType::FloatsOut, "gate"@),
        param(CudaType::ConstInt, "head_dim"@),
        param(CudaType::ConstInt, "n_head"@),
        param(CudaType::ConstInt, "p"@),
    ]
}

/// [`split_qg_rows_f32_params`], computed.
fn split_qg_rows_f32_list() -> (r: Vec<Param>)
    ensures
        r@.map_values(|p: Param| p@) == split_qg_rows_f32_params(),
{
    let r: Vec<Param> = vec![
        Param { ty: CudaType::FloatsIn, name: "qg" },
        Param { ty: CudaType::FloatsOut, name: "q" },
        Param { ty: CudaType::FloatsOut, name: "gate" },
        Param { ty: CudaType::ConstInt, name: "head_dim" },
        Param { ty: CudaType::ConstInt, name: "n_head" },
        Param { ty: CudaType::ConstInt, name: "p" },
    ];
    assert(r@.map_values(|p: Param| p@) =~= split_qg_rows_f32_params());
    r
}

/// The parameters of `attention_decode_splitgqa_partial_rows_f32` and the
/// kernels that declare the same.
pub open spec fn attention_decode_splitgqa_partial_rows_f32_params() -> Seq<ParamView> {
    seq![
        param(CudaType::FloatsIn, "query"@),
        param(CudaType::CacheIn, "key_cache"@),
        param(CudaType::CacheIn, "value_cache"@),
        param(CudaType::FloatsOut, "part_m"@),
        param(CudaType::FloatsOut, "part_l"@),
        param(CudaType::FloatsOut, "part_out"@),
        param(CudaType::ConstFloat, "scale"@),
        param(CudaType::ConstInt, "head_dim"@),
        param(CudaType::ConstInt, "n_head"@),
        param(CudaType::ConstInt, "n_kv_head"@),
        param(CudaType::ConstInt, "chunk_len"@),
        param(CudaType::ConstInt, "base_pos"@),
        param(CudaType::ConstInt, "p"@),
        param(CudaType::ConstInt, "k4"@),
    ]
}

/// [`attention_decode_splitgqa_partial_rows_f32_params`], computed.
fn attention_decode_splitgqa_partial_rows_f32_list() -> (r: Vec<Param>)
    ensures
        r@.map_values(|p: Param| p@) == attention_decode_splitgqa_partial_rows_f32_params(),
{
    let r: Vec<Param> = vec![
        Param { ty: CudaType::FloatsIn, name: "query" },
        Param { ty: CudaType::CacheIn, name: "key_cache" },
        Param { ty: CudaType::CacheIn, name: "value_cache" },
        Param { ty: CudaType::FloatsOut, name: "part_m" },
        Param { ty: CudaType::FloatsOut, name: "part_l" },
        Param { ty: CudaType::FloatsOut, name: "part_out" },
        Param { ty: CudaType::ConstFloat, name: "scale" },
        Param { ty: CudaType::ConstInt, name: "head_dim" },
        Param { ty: CudaType::ConstInt, name: "n_head" },
        Param { ty: CudaType::ConstInt, name: "n_kv_head" },
        Param { ty: CudaType::ConstInt, name: "chunk_len" },
        Param { ty: CudaType::ConstInt, name: "base_pos" },
        Param { ty: CudaType::ConstInt, name: "p" },
        Param { ty: CudaType::ConstInt, name: "k4" },
    ];
    assert(r@.map_values(|p: Param| p@) =~= attention_decode_splitgqa_partial_rows_f32_params());
    r
}

/// The parameters of `attention_decode_splitgqa_partial_rows_f32_devpos` and the
/// kernels that declare the same.
pub open spec fn attention_decode_splitgqa_partial_rows_f32_devpos_params() -> Seq<ParamView> {
    seq![
        param(CudaType::FloatsIn, "query"@),
        param(CudaType::CacheIn, "key_cache"@),
        param(CudaType::CacheIn, "value_cache"@),
        param(CudaType::FloatsOut, "part_m"@),
        param(CudaType::FloatsOut, "part_l"@),
        param(CudaType::FloatsOut, "part_out"@),
        param(CudaType::ConstFloat, "scale"@),
        param(CudaType::ConstInt, "head_dim"@),
        param(CudaType::ConstInt, "n_head"@),
        param(CudaType::ConstInt, "n_kv_head"@),
        param(CudaType::ConstInt, "chunk_len"@),
        param(CudaType::IntsIn, "pos_dev"@),
        param(CudaType::ConstInt, "p"@),
        param(CudaType::ConstInt, "k4"@),
    ]
}

/// [`attention_decode_splitgqa_partial_rows_f32_devpos_params`], computed.
fn attention_decode_splitgqa_partial_rows_f32_devpos_list() -> (r: Vec<Param>)
    ensures
        r@.map_values(|p: Param| p@) == attention_decode_splitgqa_partial_rows_f32_devpos_params(),
{
    let r: Vec<Param> = vec![
        Param { ty: CudaType::FloatsIn, name: "query" },
        Param { ty: CudaType::CacheIn, name: "key_cache" },
        Param { ty: CudaType::CacheIn, name: "value_cache" },
        Param { ty: CudaType::FloatsOut, name: "part_m" },
        Param { ty: CudaType::FloatsOut, name: "part_l" },
        Param { ty: CudaType::FloatsOut, name: "part_out" },
        Param { ty: CudaType::ConstFloat, name: "scale" },
        Param { ty: CudaType::ConstInt, name: "head_dim" },
        Param { ty: CudaType::ConstInt, name: "n_head" },
        Param { ty: CudaType::ConstInt, name: "n_kv_head" },
        Param { ty: CudaType::ConstInt, name: "chunk_len" },
        Param { ty: CudaType::IntsIn, name: "pos_dev" },
        Param { ty: CudaType::ConstInt, name: "p" },
        Param { ty: CudaType::ConstInt, name: "k4" },
    ];
    assert(r@.map_values(|p: Param| p@) =~= attention_decode_splitgqa_partial_rows_f32_devpos_params());
    r
}

/// The parameters of `attention_decode_split_combine_rows_f32`.
pub open spec fn attention_decode_split_combine_rows_f32_params() -> Seq<ParamView> {
    seq![
        param(CudaType::FloatsIn, "part_m"@),
        param(CudaType::FloatsIn, "part_l"@),
        param(CudaType::FloatsIn, "part_out"@),
        param(CudaType::FloatsOut, "attn_out"@),
        param(CudaType::ConstInt, "head_dim"@),
        param(CudaType::ConstInt, "n_head"@),
        param(CudaType::ConstInt, "n_chunks"@),
        param(CudaType::ConstInt, "p"@),
    ]
}

/// [`attention_decode_split_combine_rows_f32_params`], computed.
fn attention_decode_split_combine_rows_f32_list() -> (r: Vec<Param>)
    ensures
        r@.map_values(|p: Param| p@) == attention_decode_split_combine_rows_f32_params(),
{
    let r: Vec<Param> = vec![
        Param { ty: CudaType::FloatsIn, name: "part_m" },
        Param { ty: CudaType::FloatsIn, name: "part_l" },
        Param { ty: CudaType::FloatsIn, name: "part_out" },
        Param { ty: CudaType::FloatsOut, name: "attn_out" },
        Param { ty: CudaType::ConstInt, name: "head_dim" },
        Param { ty: CudaType::ConstInt, name: "n_head" },
        Param { ty: CudaType::ConstInt, name: "n_chunks" },
        Param { ty: CudaType::ConstInt, name: "p" },
    ];
    assert(r@.map_values(|p: Param| p@) =~= attention_decode_split_combine_rows_f32_params());
    r
}

/// The parameters of `attention_verify2p_stats_f32`.
pub open spec fn attention_verify2p_stats_f32_params() -> Seq<ParamView> {
    seq![
        param(CudaType::FloatsIn, "query"@),
        param(CudaType::CacheIn, "key_cache"@),
        param(CudaType::FloatsOut, "stat_m"@),
        param(CudaType::FloatsOut, "stat_l"@),
        param(CudaType::ConstFloat, "scale"@),
        param(CudaType::ConstInt, "head_dim"@),
        param(CudaType::ConstInt, "n_head"@),
        param(CudaType::ConstInt, "n_kv_head"@),
        param(CudaType::ConstInt, "n_tiles"@),
        param(CudaType::ConstInt, "base_pos"@),
        param(CudaType::ConstInt, "p"@),
    ]
}

/// [`attention_verify2p_stats_f32_params`], computed.
fn attention_verify2p_stats_f32_list() -> (r: Vec<Param>)
    ensures
        r@.map_values(|p: Param| p@) == attention_verify2p_stats_f32_params(),
{
    let r: Vec<Param> = vec![
        Param { ty: CudaType::FloatsIn, name: "query" },
        Param { ty: CudaType::CacheIn, name: "key_cache" },
        Param { ty: CudaType::FloatsOut, name: "stat_m" },
        Param { ty: CudaType::FloatsOut, name: "stat_l" },
        Param { ty: CudaType::ConstFloat, name: "scale" },
        Param { ty: CudaType::ConstInt, name: "head_dim" },
        Param { ty: CudaType::ConstInt, name: "n_head" },
        Param { ty: CudaType::ConstInt, name: "n_kv_head" },
        Param { ty: CudaType::ConstInt, name: "n_tiles" },
        Param { ty: CudaType::ConstInt, name: "base_pos" },
        Param { ty: CudaType::ConstInt, name: "p" },
    ];
    assert(r@.map_values(|p: Param| p@) =~= attention_verify2p_stats_f32_params());
    r
}

/// The parameters of `attention_verify2p_stats_f32_devpos`.
pub open spec fn attention_verify2p_stats_f32_devpos_params() -> Seq<ParamView> {
    seq![
        param(CudaType::FloatsIn, "query"@),
        param(CudaType::CacheIn, "key_cache"@),
        param(CudaType::FloatsOut, "stat_m"@),
        param(CudaType::FloatsOut, "stat_l"@),
        param(CudaType::ConstFloat, "scale"@),
        param(CudaType::ConstInt, "head_dim"@),
        param(CudaType::ConstInt, "n_head"@),
        param(CudaType::ConstInt, "n_kv_head"@),
        param(CudaType::ConstInt, "n_tiles"@),
        param(CudaType::IntsIn, "pos_dev"@),
        param(CudaType::ConstInt, "p"@),
    ]
}

/// [`attention_verify2p_stats_f32_devpos_params`], computed.
fn attention_verify2p_stats_f32_devpos_list() -> (r: Vec<Param>)
    ensures
        r@.map_values(|p: Param| p@) == attention_verify2p_stats_f32_devpos_params(),
{
    let r: Vec<Param> = vec![
        Param { ty: CudaType::FloatsIn, name: "query" },
        Param { ty: CudaType::CacheIn, name: "key_cache" },
        Param { ty: CudaType::FloatsOut, name: "stat_m" },
        Param { ty: CudaType::FloatsOut, name: "stat_l" },
        Param { ty: CudaType::ConstFloat, name: "scale" },
        Param { ty: CudaType::ConstInt, name: "head_dim" },
        Param { ty: CudaType::ConstInt, name: "n_head" },
        Param { ty: CudaType::ConstInt, name: "n_kv_head" },
        Param { ty: CudaType::ConstInt, name: "n_tiles" },
        Param { ty: CudaType::IntsIn, name: "pos_dev" },
        Param { ty: CudaType::ConstInt, name: "p" },
    ];
    assert(r@.map_values(|p: Param| p@) =~= attention_verify2p_stats_f32_devpos_params());
    r
}

/// The parameters of `attention_verify2p_merge_f32`.
pub open spec fn attention_verify2p_merge_f32_params() -> Seq<ParamView> {
    seq![
        param(CudaType::FloatsIn, "stat_m"@),
        param(CudaType::FloatsIn, "stat_l"@),
        param(CudaType::FloatsOut, "mrg_m"@),
        param(CudaType::FloatsOut, "mrg_l"@),
        param(CudaType::ConstInt, "n_head"@),
        param(CudaType::ConstInt, "n_kv_head"@),
        param(CudaType::ConstInt, "n_tiles"@),
        param(CudaType::ConstInt, "p"@),
    ]
}

/// [`attention_verify2p_merge_f32_params`], computed.
fn attention_verify2p_merge_f32_list() -> (r: Vec<Param>)
    ensures
        r@.map_values(|p: Param| p@) == attention_verify2p_merge_f32_params(),
{
    let r: Vec<Param> = vec![
        Param { ty: CudaType::FloatsIn, name: "stat_m" },
        Param { ty: CudaType::FloatsIn, name: "stat_l" },
        Param { ty: CudaType::FloatsOut, name: "mrg_m" },
        Param { ty: CudaType::FloatsOut, name: "mrg_l" },
        Param { ty: CudaType::ConstInt, name: "n_head" },
        Param { ty: CudaType::ConstInt, name: "n_kv_head" },
        Param { ty: CudaType::ConstInt, name: "n_tiles" },
        Param { ty: CudaType::ConstInt, name: "p" },
    ];
    assert(r@.map_values(|p: Param| p@) =~= attention_verify2p_merge_f32_params());
    r
}

/// The parameters of `attention_verify2p_pv_f32`.
pub open spec fn attention_verify2p_pv_f32_params() -> Seq<ParamView> {
    seq![
        param(CudaType::FloatsIn, "query"@),
        param(CudaType::CacheIn, "key_cache"@),
        param(CudaType::CacheIn, "value_cache"@),
        param(CudaType::FloatsIn, "mrg_m"@),
        param(CudaType::FloatsOut, "part_m"@),
        param(CudaType::FloatsOut, "part_l"@),
        param(CudaType::FloatsOut, "part_out"@),
        param(CudaType::ConstFloat, "scale"@),
        param(CudaType::ConstInt, "head_dim"@),
        param(CudaType::ConstInt, "n_head"@),
        param(CudaType::ConstInt, "n_kv_head"@),
        param(CudaType::ConstInt, "chunk_len"@),
        param(CudaType::ConstInt, "base_pos"@),
        param(CudaType::ConstInt, "p"@),
    ]
}

/// [`attention_verify2p_pv_f32_params`], computed.
fn attention_verify2p_pv_f32_list() -> (r: Vec<Param>)
    ensures
        r@.map_values(|p: Param| p@) == attention_verify2p_pv_f32_params(),
{
    let r: Vec<Param> = vec![
        Param { ty: CudaType::FloatsIn, name: "query" },
        Param { ty: CudaType::CacheIn, name: "key_cache" },
        Param { ty: CudaType::CacheIn, name: "value_cache" },
        Param { ty: CudaType::FloatsIn, name: "mrg_m" },
        Param { ty: CudaType::FloatsOut, name: "part_m" },
        Param { ty: CudaType::FloatsOut, name: "part_l" },
        Param { ty: CudaType::FloatsOut, name: "part_out" },
        Param { ty: CudaType::ConstFloat, name: "scale" },
        Param { ty: CudaType::ConstInt, name: "head_dim" },
        Param { ty: CudaType::ConstInt, name: "n_head" },
        Param { ty: CudaType::ConstInt, name: "n_kv_head" },
        Param { ty: CudaType::ConstInt, name: "chunk_len" },
        Param { ty: CudaType::ConstInt, name: "base_pos" },
        Param { ty: CudaType::ConstInt, name: "p" },
    ];
    assert(r@.map_values(|p: Param| p@) =~= attention_verify2p_pv_f32_params());
    r
}

/// The parameters of `attention_verify2p_pv_f32_devpos`.
pub open spec fn attention_verify2p_pv_f32_devpos_params() -> Seq<ParamView> {
    seq![
        param(CudaType::FloatsIn, "query"@),
        param(CudaType::CacheIn, "key_cache"@),
        param(CudaType::CacheIn, "value_cache"@),
        param(CudaType::FloatsIn, "mrg_m"@),
        param(CudaType::FloatsOut, "part_m"@),
        param(CudaType::FloatsOut, "part_l"@),
        param(CudaType::FloatsOut, "part_out"@),
        param(CudaType::ConstFloat, "scale"@),
        param(CudaType::ConstInt, "head_dim"@),
        param(CudaType::ConstInt, "n_head"@),
        param(CudaType::ConstInt, "n_kv_head"@),
        param(CudaType::ConstInt, "chunk_len"@),
        param(CudaType::IntsIn, "pos_dev"@),
        param(CudaType::ConstInt, "p"@),
    ]
}

/// [`attention_verify2p_pv_f32_devpos_params`], computed.
fn attention_verify2p_pv_f32_devpos_list() -> (r: Vec<Param>)
    ensures
        r@.map_values(|p: Param| p@) == attention_verify2p_pv_f32_devpos_params(),
{
    let r: Vec<Param> = vec![
        Param { ty: CudaType::FloatsIn, name: "query" },
        Param { ty: CudaType::CacheIn, name: "key_cache" },
        Param { ty: CudaType::CacheIn, name: "value_cache" },
        Param { ty: CudaType::FloatsIn, name: "mrg_m" },
        Param { ty: CudaType::FloatsOut, name: "part_m" },
        Param { ty: CudaType::FloatsOut, name: "part_l" },
        Param { ty: CudaType::FloatsOut, name: "part_out" },
        Param { ty: CudaType::ConstFloat, name: "scale" },
        Param { ty: CudaType::ConstInt, name: "head_dim" },
        Param { ty: CudaType::ConstInt, name: "n_head" },
        Param { ty: CudaType::ConstInt, name: "n_kv_head" },
        Param { ty: CudaType::ConstInt, name: "chunk_len" },
        Param { ty: CudaType::IntsIn, name: "pos_dev" },
        Param { ty: CudaType::ConstInt, name: "p" },
    ];
    assert(r@.map_values(|p: Param| p@) =~= attention_verify2p_pv_f32_devpos_params());
    r
}

/// What stands ahead of `rope_partial_f32`.
pub const ROPE_PARTIAL_F32_HELPERS: &'static str = r#"
#ifdef KV_F16

typedef unsigned short kv_elt;
__device__ __forceinline__ float kv_f16_to_f32(unsigned short h)
{
    const unsigned int sign = ((unsigned int)h & 0x8000u) << 16;
    const unsigned int exp = ((unsigned int)h >> 10) & 0x1fu;
    unsigned int mant = (unsigned int)h & 0x3ffu;
    if (exp == 0x1fu) {
        return __uint_as_float(sign | 0x7f800000u
                               | (mant ? (0x400000u | (mant << 13)) : 0u));
    }
    if (exp == 0) {
        if (mant == 0) return __uint_as_float(sign);

        int s = 0;
        while (!(mant & 0x400u)) { mant <<= 1; s++; }
        return __uint_as_float(sign | ((unsigned int)(113 - s) << 23)
                               | ((mant & 0x3ffu) << 13));
    }
    return __uint_as_float(sign | ((exp + 112u) << 23) | (mant << 13));
}
__device__ __forceinline__ unsigned short kv_f32_to_f16(float f)
{
    const unsigned int x = __float_as_uint(f);
    const unsigned int sign = (x >> 16) & 0x8000u;
    const int e = (int)((x >> 23) & 0xffu);
    const unsigned int m = x & 0x007fffffu;
    if (e == 0xffu) {
        return (unsigned short)(sign | 0x7c00u
                                | (m ? (0x0200u | (m >> 13)) : 0u));
    }
    if (e == 0u) {
        return (unsigned short)sign;
    }
    const int he = e - 112;
    if (he >= 0x1f) {
        return (unsigned short)(sign | 0x7c00u);
    }
    if (he <= 0) {
        if (he < -10) {
            return (unsigned short)sign;
        }

        const unsigned int mf = m | 0x00800000u;
        const int sh = 14 - he;
        const unsigned int n = mf >> sh;
        const unsigned int rem = mf & ((1u << sh) - 1u);
        const unsigned int half = 1u << (sh - 1);
        const unsigned int nr = n + ((rem > half || (rem == half && (n & 1u))) ? 1u : 0u);
        return (unsigned short)(sign | nr);
    }

    unsigned short h =
        (unsigned short)(sign | ((unsigned int)he << 10) | (m >> 13));
    const unsigned int rem = m & 0x1fffu;
    if (rem > 0x1000u || (rem == 0x1000u && (h & 1u))) h += 1u;
    return h;
}
#define KV_RD(p) (kv_f16_to_f32(*(p)))
#define KV_WR(p, v) (*(p) = kv_f32_to_f16(v))
#else
typedef float kv_elt;
#define KV_RD(p) (*(p))
#define KV_WR(p, v) (*(p) = (v))
#endif

"#;

/// The body of `rope_partial_f32`.
pub const ROPE_PARTIAL_F32_BODY: &'static str = r#"
{
    const int rotary_pairs = rotary_dim / 2;
    const int idx = blockIdx.x * blockDim.x + threadIdx.x;
    const int total_q_pairs = n_head * rotary_pairs;

    if (idx >= total_q_pairs) return;

    const int head = idx / rotary_pairs;
    const int pair = idx % rotary_pairs;

    const float exponent = 2.0f * (float)pair / (float)rotary_dim;
    const float inv_freq = powf(theta_base, -exponent);
    const float theta = (float)pos * inv_freq;
    const float cos_t = cosf(theta);
    const float sin_t = sinf(theta);

    const int q_head_off = head * head_dim;
    const int q_i0 = q_head_off + pair;
    const int q_i1 = q_i0 + rotary_pairs;
    const float q0 = q[q_i0];
    const float q1 = q[q_i1];
    q[q_i0] = q0 * cos_t - q1 * sin_t;
    q[q_i1] = q0 * sin_t + q1 * cos_t;

    if (head < n_kv_head) {
        const int k_head_off = head * head_dim;
        const int k_i0 = k_head_off + pair;
        const int k_i1 = k_i0 + rotary_pairs;
        const float k0 = k[k_i0];
        const float k1 = k[k_i1];
        k[k_i0] = k0 * cos_t - k1 * sin_t;
        k[k_i1] = k0 * sin_t + k1 * cos_t;
    }
}

"#;

/// The body of `rope_partial_backward_f32`.
pub const ROPE_PARTIAL_BACKWARD_F32_BODY: &'static str = r#"
{
    const int rotary_pairs = rotary_dim / 2;
    const int idx = blockIdx.x * blockDim.x + threadIdx.x;
    const int total_q_pairs = n_head * rotary_pairs;

    if (idx >= total_q_pairs) return;

    const int head = idx / rotary_pairs;
    const int pair = idx % rotary_pairs;

    const float exponent = 2.0f * (float)pair / (float)rotary_dim;
    const float inv_freq = powf(theta_base, -exponent);
    const float theta = (float)pos * inv_freq;
    const float cos_t = cosf(theta);
    const float sin_t = -sinf(theta);

    const int q_head_off = head * head_dim;
    const int q_i0 = q_head_off + pair;
    const int q_i1 = q_i0 + rotary_pairs;
    const float q0 = grad_q[q_i0];
    const float q1 = grad_q[q_i1];
    grad_q[q_i0] = q0 * cos_t - q1 * sin_t;
    grad_q[q_i1] = q0 * sin_t + q1 * cos_t;

    if (head < n_kv_head) {
        const int k_head_off = head * head_dim;
        const int k_i0 = k_head_off + pair;
        const int k_i1 = k_i0 + rotary_pairs;
        const float k0 = grad_k[k_i0];
        const float k1 = grad_k[k_i1];
        grad_k[k_i0] = k0 * cos_t - k1 * sin_t;
        grad_k[k_i1] = k0 * sin_t + k1 * cos_t;
    }
}

"#;

/// The body of `split_qg_f32`.
pub const SPLIT_QG_F32_BODY: &'static str = r#"
{
    const int idx = blockIdx.x * blockDim.x + threadIdx.x;
    const int total = n_head * head_dim;
    if (idx >= total) return;

    const int head = idx / head_dim;
    const int dim = idx % head_dim;
    const int q_src = head * 2 * head_dim + dim;
    const int gate_src = q_src + head_dim;

    q[idx] = qg[q_src];
    gate[idx] = qg[gate_src];
}

"#;

/// The body of `rmsnorm_batched_f32`.
pub const RMSNORM_BATCHED_F32_BODY: &'static str = r#"
{
    const int head_idx = blockIdx.x;
    const int tid = threadIdx.x;
    const int block_size = blockDim.x;

    const int base = head_idx * head_dim;

    float partial_sq = 0.0f;
    for (int i = tid; i < head_dim; i += block_size) {
        float x = input[base + i];
        partial_sq += x * x;
    }

    __shared__ float smem[256];
    smem[tid] = partial_sq;
    __syncthreads();

    if (tid < 128) smem[tid] += smem[tid + 128]; __syncthreads();
    if (tid < 64)  smem[tid] += smem[tid + 64];  __syncthreads();
    if (tid < 32)  smem[tid] += smem[tid + 32];  __syncthreads();
    if (tid < 16)  smem[tid] += smem[tid + 16];  __syncthreads();
    if (tid < 8)   smem[tid] += smem[tid + 8];   __syncthreads();
    if (tid < 4)   smem[tid] += smem[tid + 4];   __syncthreads();
    if (tid < 2)   smem[tid] += smem[tid + 2];   __syncthreads();
    if (tid < 1)   smem[0] += smem[1];
    __syncthreads();

    float inv_rms;
    if (tid == 0) {
        float mean_sq = smem[0] * inv_dim;
        smem[0] = 1.0f / sqrtf(mean_sq + eps);
    }
    __syncthreads();
    inv_rms = smem[0];

    for (int j = tid; j < head_dim; j += block_size) {
        output[base + j] = input[base + j] * inv_rms * gamma[j];
    }
}

"#;

/// The body of `kv_cache_append_f32`.
pub const KV_CACHE_APPEND_F32_BODY: &'static str = r#"
{
    const int idx = blockIdx.x * blockDim.x + threadIdx.x;
    if (idx >= kvd) return;

    const int cache_off = pos * kvd + idx;
    KV_WR(&key_cache[cache_off], k_vec[idx]);
    KV_WR(&value_cache[cache_off], v_vec[idx]);
}

"#;

/// The body of `attention_decode_f32`.
pub const ATTENTION_DECODE_F32_BODY: &'static str = r#"
{
    const int head_idx = blockIdx.x;
    const int tid = threadIdx.x;
    const int cube_size = blockDim.x;

    if (head_idx >= n_head) return;

    const int head_off = head_idx * head_dim;

    if (n_positions == 0) {
        if (tid < head_dim) {
            attn_out[head_off + tid] = 0.0f;
        }
        return;
    }

    const int kv_stride = n_kv_head * head_dim;
    const int kv_group = head_idx * n_kv_head / n_head;
    const int kv_off = kv_group * head_dim;
    const bool valid_dim = tid < head_dim;

    extern __shared__ float smem[];

    float running_max = -1e30f;
    float running_sum = 0.0f;
    float running_out = 0.0f;

    const int n_tiles = (n_positions + cube_size - 1) / cube_size;

    for (int tile = 0; tile < n_tiles; tile++) {
        const int tile_base = tile * cube_size;
        const int pos = tile_base + tid;
        const bool valid_pos = pos < n_positions;

        float my_score = -1e30f;
        if (valid_pos) {
            const int k_base = pos * kv_stride + kv_off;
            float dot = 0.0f;
            for (int d = 0; d < head_dim; d++) {
                dot += query[head_off + d] * KV_RD(&key_cache[k_base + d]);
            }
            my_score = dot * scale;
        }
        smem[tid] = my_score;
        __syncthreads();

        for (int stride = cube_size / 2; stride >= 32; stride >>= 1) {
            if (tid < stride && smem[tid + stride] > smem[tid]) {
                smem[tid] = smem[tid + stride];
            }
            __syncthreads();
        }

        if (tid < 32) {
            volatile float* vsmem = smem;
            if (tid < 16 && vsmem[tid + 16] > vsmem[tid]) vsmem[tid] = vsmem[tid + 16];
            if (tid < 8  && vsmem[tid + 8]  > vsmem[tid]) vsmem[tid] = vsmem[tid + 8];
            if (tid < 4  && vsmem[tid + 4]  > vsmem[tid]) vsmem[tid] = vsmem[tid + 4];
            if (tid < 2  && vsmem[tid + 2]  > vsmem[tid]) vsmem[tid] = vsmem[tid + 2];
            if (tid < 1  && vsmem[1] > vsmem[0]) vsmem[0] = vsmem[1];
        }
        __syncthreads();

        const float tile_max = smem[0];

        __syncthreads();

        float new_max = (tile_max > running_max) ? tile_max : running_max;
        float exp_prev = expf(running_max - new_max);
        float exp_tile = expf(tile_max - new_max);

        running_sum *= exp_prev;
        running_out *= exp_prev;
        running_max = new_max;

        if (valid_pos) {
            smem[tid] = exp_tile * expf(my_score - tile_max);
        } else {
            smem[tid] = 0.0f;
        }
        __syncthreads();

        float tile_sum = 0.0f;
        float acc = 0.0f;
        for (int p = 0; p < cube_size; p++) {
            int kv_pos = tile_base + p;
            if (kv_pos < n_positions) {
                float weight = smem[p];
                tile_sum += weight;
                if (valid_dim) {
                    int v_idx = kv_pos * kv_stride + kv_off + tid;
                    acc += weight * KV_RD(&value_cache[v_idx]);
                }
            }
        }
        if (valid_dim) {
            running_out += acc;
        }
        running_sum += tile_sum;

        __syncthreads();
    }

    if (valid_dim) {
        float inv_sum = 1.0f / running_sum;
        attn_out[head_off + tid] = running_out * inv_sum;
    }
}

"#;

/// The body of `output_gate_f32`.
pub const OUTPUT_GATE_F32_BODY: &'static str = r#"
{
    const int idx = blockIdx.x * blockDim.x + threadIdx.x;
    if (idx >= n) return;

    float g = gate[idx];
    float sig = 1.0f / (1.0f + expf(-g));
    attn_out[idx] *= sig;
}

"#;

/// The body of `rope_partial_f32_devpos`.
pub const ROPE_PARTIAL_F32_DEVPOS_BODY: &'static str = r#"
{
    const int pos = *pos_dev;
    const int rotary_pairs = rotary_dim / 2;
    const int idx = blockIdx.x * blockDim.x + threadIdx.x;
    const int total_q_pairs = n_head * rotary_pairs;

    if (idx >= total_q_pairs) return;

    const int head = idx / rotary_pairs;
    const int pair = idx % rotary_pairs;

    const float exponent = 2.0f * (float)pair / (float)rotary_dim;
    const float inv_freq = powf(theta_base, -exponent);
    const float theta = (float)pos * inv_freq;
    const float cos_t = cosf(theta);
    const float sin_t = sinf(theta);

    const int q_head_off = head * head_dim;
    const int q_i0 = q_head_off + pair;
    const int q_i1 = q_i0 + rotary_pairs;
    const float q0 = q[q_i0];
    const float q1 = q[q_i1];
    q[q_i0] = q0 * cos_t - q1 * sin_t;
    q[q_i1] = q0 * sin_t + q1 * cos_t;

    if (head < n_kv_head) {
        const int k_head_off = head * head_dim;
        const int k_i0 = k_head_off + pair;
        const int k_i1 = k_i0 + rotary_pairs;
        const float k0 = k[k_i0];
        const float k1 = k[k_i1];
        k[k_i0] = k0 * cos_t - k1 * sin_t;
        k[k_i1] = k0 * sin_t + k1 * cos_t;
    }
}

"#;

/// The body of `kv_cache_append_f32_devpos`.
pub const KV_CACHE_APPEND_F32_DEVPOS_BODY: &'static str = r#"
{
    const int pos = *pos_dev;
    const int idx = blockIdx.x * blockDim.x + threadIdx.x;
    if (idx >= kvd) return;

    const int cache_off = pos * kvd + idx;
    KV_WR(&key_cache[cache_off], k_vec[idx]);
    KV_WR(&value_cache[cache_off], v_vec[idx]);
}

"#;

/// The body of `attention_decode_f32_devpos`.
pub const ATTENTION_DECODE_F32_DEVPOS_BODY: &'static str = r#"
{
    const int n_positions = *pos_dev + 1;
    const int head_idx = blockIdx.x;
    const int tid = threadIdx.x;
    const int cube_size = blockDim.x;

    if (head_idx >= n_head) return;

    const int head_off = head_idx * head_dim;

    if (n_positions == 0) {
        if (tid < head_dim) {
            attn_out[head_off + tid] = 0.0f;
        }
        return;
    }

    const int kv_stride = n_kv_head * head_dim;
    const int kv_group = head_idx * n_kv_head / n_head;
    const int kv_off = kv_group * head_dim;
    const bool valid_dim = tid < head_dim;

    extern __shared__ float smem[];

    float running_max = -1e30f;
    float running_sum = 0.0f;
    float running_out = 0.0f;

    const int n_tiles = (n_positions + cube_size - 1) / cube_size;

    for (int tile = 0; tile < n_tiles; tile++) {
        const int tile_base = tile * cube_size;
        const int pos = tile_base + tid;
        const bool valid_pos = pos < n_positions;

        float my_score = -1e30f;
        if (valid_pos) {
            const int k_base = pos * kv_stride + kv_off;
            float dot = 0.0f;
            for (int d = 0; d < head_dim; d++) {
                dot += query[head_off + d] * KV_RD(&key_cache[k_base + d]);
            }
            my_score = dot * scale;
        }
        smem[tid] = my_score;
        __syncthreads();

        for (int stride = cube_size / 2; stride >= 32; stride >>= 1) {
            if (tid < stride && smem[tid + stride] > smem[tid]) {
                smem[tid] = smem[tid + stride];
            }
            __syncthreads();
        }

        if (tid < 32) {
            volatile float* vsmem = smem;
            if (tid < 16 && vsmem[tid + 16] > vsmem[tid]) vsmem[tid] = vsmem[tid + 16];
            if (tid < 8  && vsmem[tid + 8]  > vsmem[tid]) vsmem[tid] = vsmem[tid + 8];
            if (tid < 4  && vsmem[tid + 4]  > vsmem[tid]) vsmem[tid] = vsmem[tid + 4];
            if (tid < 2  && vsmem[tid + 2]  > vsmem[tid]) vsmem[tid] = vsmem[tid + 2];
            if (tid < 1  && vsmem[1] > vsmem[0]) vsmem[0] = vsmem[1];
        }
        __syncthreads();

        const float tile_max = smem[0];

        __syncthreads();

        float new_max = (tile_max > running_max) ? tile_max : running_max;
        float exp_prev = expf(running_max - new_max);
        float exp_tile = expf(tile_max - new_max);

        running_sum *= exp_prev;
        running_out *= exp_prev;
        running_max = new_max;

        if (valid_pos) {
            smem[tid] = exp_tile * expf(my_score - tile_max);
        } else {
            smem[tid] = 0.0f;
        }
        __syncthreads();

        float tile_sum = 0.0f;
        float acc = 0.0f;
        for (int p = 0; p < cube_size; p++) {
            int kv_pos = tile_base + p;
            if (kv_pos < n_positions) {
                float weight = smem[p];
                tile_sum += weight;
                if (valid_dim) {
                    int v_idx = kv_pos * kv_stride + kv_off + tid;
                    acc += weight * KV_RD(&value_cache[v_idx]);
                }
            }
        }
        if (valid_dim) {
            running_out += acc;
        }
        running_sum += tile_sum;

        __syncthreads();
    }

    if (valid_dim) {
        float inv_sum = 1.0f / running_sum;
        attn_out[head_off + tid] = running_out * inv_sum;
    }
}

"#;

/// What stands ahead of `attention_decode_split_partial_f32`.
pub const ATTENTION_DECODE_SPLIT_PARTIAL_F32_HELPERS: &'static str = r#"__device__ __forceinline__ void attention_decode_split_partial_body(
    const float* __restrict__ query,
    const kv_elt* __restrict__ key_cache,
    const kv_elt* __restrict__ value_cache,
    float* __restrict__ part_m,
    float* __restrict__ part_l,
    float* __restrict__ part_out,
    float* __restrict__ smem,
    const float scale,
    const int head_dim,
    const int n_head,
    const int n_kv_head,
    const int chunk_len,
    const int n_positions)
{
    const int head_idx = blockIdx.x;
    const int chunk_id = blockIdx.y;
    const int n_chunks = gridDim.y;
    const int tid = threadIdx.x;
    const int cube_size = blockDim.x;

    if (head_idx >= n_head) return;

    const int head_off = head_idx * head_dim;
    const int p_idx = head_idx * n_chunks + chunk_id;
    const int p_out_base = p_idx * head_dim;

    const int chunk_start = chunk_id * chunk_len;
    const int chunk_end_raw = chunk_start + chunk_len;
    const int chunk_end = (chunk_end_raw < n_positions) ? chunk_end_raw : n_positions;

    if (chunk_start >= n_positions) {
        if (tid == 0) {
            part_m[p_idx] = -1e30f;
            part_l[p_idx] = 0.0f;
        }
        if (tid < head_dim) {
            part_out[p_out_base + tid] = 0.0f;
        }
        return;
    }

    const int kv_stride = n_kv_head * head_dim;
    const int kv_group = head_idx * n_kv_head / n_head;
    const int kv_off = kv_group * head_dim;
    const bool valid_dim = tid < head_dim;

    float running_max = -1e30f;
    float running_sum = 0.0f;
    float running_out = 0.0f;

    const int tile0 = chunk_start / cube_size;
    const int tile1 = (chunk_end + cube_size - 1) / cube_size;
    for (int tile = tile0; tile < tile1; tile++) {
        const int tile_base = tile * cube_size;
        const int pos = tile_base + tid;
        const bool valid_pos = pos < chunk_end;

        float my_score = -1e30f;
        if (valid_pos) {
            const int k_base = pos * kv_stride + kv_off;
            float dot = 0.0f;
            for (int d = 0; d < head_dim; d++) {
                dot += query[head_off + d] * KV_RD(&key_cache[k_base + d]);
            }
            my_score = dot * scale;
        }
        smem[tid] = my_score;
        __syncthreads();

        for (int stride = cube_size / 2; stride >= 32; stride >>= 1) {
            if (tid < stride && smem[tid + stride] > smem[tid]) {
                smem[tid] = smem[tid + stride];
            }
            __syncthreads();
        }

        if (tid < 32) {
            volatile float* vsmem = smem;
            if (tid < 16 && vsmem[tid + 16] > vsmem[tid]) vsmem[tid] = vsmem[tid + 16];
            if (tid < 8  && vsmem[tid + 8]  > vsmem[tid]) vsmem[tid] = vsmem[tid + 8];
            if (tid < 4  && vsmem[tid + 4]  > vsmem[tid]) vsmem[tid] = vsmem[tid + 4];
            if (tid < 2  && vsmem[tid + 2]  > vsmem[tid]) vsmem[tid] = vsmem[tid + 2];
            if (tid < 1  && vsmem[1] > vsmem[0]) vsmem[0] = vsmem[1];
        }
        __syncthreads();

        const float tile_max = smem[0];

        __syncthreads();

        float new_max = (tile_max > running_max) ? tile_max : running_max;
        float exp_prev = expf(running_max - new_max);
        float exp_tile = expf(tile_max - new_max);

        running_sum *= exp_prev;
        running_out *= exp_prev;
        running_max = new_max;

        if (valid_pos) {
            smem[tid] = exp_tile * expf(my_score - tile_max);
        } else {
            smem[tid] = 0.0f;
        }
        __syncthreads();

        float tile_sum = 0.0f;
        float acc = 0.0f;
        for (int p = 0; p < cube_size; p++) {
            int kv_pos = tile_base + p;
            if (kv_pos < chunk_end) {
                float weight = smem[p];
                tile_sum += weight;
                if (valid_dim) {
                    int v_idx = kv_pos * kv_stride + kv_off + tid;
                    acc += weight * KV_RD(&value_cache[v_idx]);
                }
            }
        }
        if (valid_dim) {
            running_out += acc;
        }
        running_sum += tile_sum;

        __syncthreads();
    }

    if (tid == 0) {
        part_m[p_idx] = running_max;
        part_l[p_idx] = running_sum;
    }
    if (valid_dim) {
        part_out[p_out_base + tid] = running_out;
    }
}

"#;

/// The body of `attention_decode_split_partial_f32`.
pub const ATTENTION_DECODE_SPLIT_PARTIAL_F32_BODY: &'static str = r#"
{
    extern __shared__ float smem[];
    attention_decode_split_partial_body(query, key_cache, value_cache,
        part_m, part_l, part_out, smem, scale, head_dim, n_head, n_kv_head,
        chunk_len, n_positions);
}

"#;

/// The body of `attention_decode_split_partial_f32_devpos`.
pub const ATTENTION_DECODE_SPLIT_PARTIAL_F32_DEVPOS_BODY: &'static str = r#"
{
    extern __shared__ float smem[];
    const int n_positions = *pos_dev + 1;
    attention_decode_split_partial_body(query, key_cache, value_cache,
        part_m, part_l, part_out, smem, scale, head_dim, n_head, n_kv_head,
        chunk_len, n_positions);
}

"#;

/// What stands ahead of `attention_decode_splitgqa_partial_f32`.
pub const ATTENTION_DECODE_SPLITGQA_PARTIAL_F32_HELPERS: &'static str = r#"#define ATT_SPLIT_GQA_TILE 32

__device__ __forceinline__ void attention_decode_splitgqa_partial_body(
    const float* __restrict__ query,
    const kv_elt* __restrict__ key_cache,
    const kv_elt* __restrict__ value_cache,
    float* __restrict__ part_m,
    float* __restrict__ part_l,
    float* __restrict__ part_out,
    float* __restrict__ smem,
    const float scale,
    const int head_dim,
    const int n_head,
    const int n_kv_head,
    const int chunk_len,
    const int n_positions)
{
    const int kv_group = blockIdx.x;
    const int chunk_id = blockIdx.y;
    const int n_chunks = gridDim.y;
    const int tid = threadIdx.x;
    const int warp = tid >> 5;
    const int lane = tid & 31;
    const int g = n_head / n_kv_head;

    float* q_smem = smem;
    float* k_smem = q_smem + g * head_dim;
    float* p_smem = k_smem + head_dim * (ATT_SPLIT_GQA_TILE + 1);
    float* st_smem = p_smem + g * ATT_SPLIT_GQA_TILE;

    const int chunk_start = chunk_id * chunk_len;
    if (chunk_start >= n_positions) {
        for (int h = 0; h < g; h++) {
            const int p_idx = (kv_group * g + h) * n_chunks + chunk_id;
            if (tid == 0) {
                part_m[p_idx] = -1e30f;
                part_l[p_idx] = 0.0f;
            }
            if (tid < head_dim) {
                part_out[p_idx * head_dim + tid] = 0.0f;
            }
        }
        return;
    }
    const int chunk_end_raw = chunk_start + chunk_len;
    const int chunk_end = (chunk_end_raw < n_positions) ? chunk_end_raw : n_positions;

    const int kv_stride = n_kv_head * head_dim;
    const int kv_off = kv_group * head_dim;

    for (int i = tid; i < g * head_dim; i += blockDim.x) {
        const int h = i / head_dim;
        const int d = i % head_dim;
        q_smem[h * head_dim + d] = query[(kv_group * g + h) * head_dim + d];
    }
    __syncthreads();

    float run_max = -1e30f;
    float run_sum = 0.0f;

    float acc[8];
#pragma unroll
    for (int h = 0; h < 8; h++) acc[h] = 0.0f;

    const int tile0 = chunk_start / ATT_SPLIT_GQA_TILE;
    const int tile1 = (chunk_end + ATT_SPLIT_GQA_TILE - 1) / ATT_SPLIT_GQA_TILE;
    for (int tile = tile0; tile < tile1; tile++) {
        const int tile_base = tile * ATT_SPLIT_GQA_TILE;

        for (int i = tid; i < ATT_SPLIT_GQA_TILE * head_dim; i += blockDim.x) {
            const int r = i / head_dim;
            const int d = i % head_dim;
            k_smem[d * (ATT_SPLIT_GQA_TILE + 1) + r] =
                (tile_base + r < n_positions)
                    ? KV_RD(&key_cache[(tile_base + r) * kv_stride + kv_off + d])
                    : 0.0f;
        }
        __syncthreads();

        if (warp < g) {
            const float* qh = q_smem + warp * head_dim;
            const int pos = tile_base + lane;
            const bool valid = pos < chunk_end;
            float score = -1e30f;
            if (valid) {
                float dot = 0.0f;
                for (int d = 0; d < head_dim; d++) {
                    dot += qh[d] * k_smem[d * (ATT_SPLIT_GQA_TILE + 1) + lane];
                }
                score = dot * scale;
            }

            float m = score;
            for (int off = 16; off > 0; off >>= 1) {
                const float o = __shfl_down_sync(0xffffffffu, m, off);
                if (o > m) m = o;
            }
            m = __shfl_sync(0xffffffffu, m, 0);
            const float new_max = (m > run_max) ? m : run_max;
            const float exp_prev = expf(run_max - new_max);
            const float exp_tile = expf(m - new_max);
            float p = 0.0f;
            if (valid) p = exp_tile * expf(score - m);

            float s = p;
            for (int off = 16; off > 0; off >>= 1) {
                s += __shfl_down_sync(0xffffffffu, s, off);
            }
            s = __shfl_sync(0xffffffffu, s, 0);
            run_sum = run_sum * exp_prev + s;
            run_max = new_max;
            p_smem[warp * ATT_SPLIT_GQA_TILE + lane] = p;
            if (lane == 0) st_smem[warp] = exp_prev;
        }
        __syncthreads();

        const int l_valid = (chunk_end - tile_base < ATT_SPLIT_GQA_TILE)
                                ? (chunk_end - tile_base)
                                : ATT_SPLIT_GQA_TILE;
#pragma unroll
        for (int h = 0; h < 8; h++) {
            if (h < g) acc[h] *= st_smem[h];
        }
        for (int l = 0; l < l_valid; l++) {
            const float v = KV_RD(&value_cache[(tile_base + l) * kv_stride + kv_off + tid]);
#pragma unroll
            for (int h = 0; h < 8; h++) {
                if (h < g) acc[h] += p_smem[h * ATT_SPLIT_GQA_TILE + l] * v;
            }
        }
        __syncthreads();
    }

    if (tid < head_dim) {
#pragma unroll
        for (int h = 0; h < 8; h++) {
            if (h < g) {
                const int p_idx = (kv_group * g + h) * n_chunks + chunk_id;
                part_out[p_idx * head_dim + tid] = acc[h];
            }
        }
    }
    if (warp < g && lane == 0) {
        const int p_idx = (kv_group * g + warp) * n_chunks + chunk_id;
        part_m[p_idx] = run_max;
        part_l[p_idx] = run_sum;
    }
}

"#;

/// The body of `attention_decode_splitgqa_partial_f32`.
pub const ATTENTION_DECODE_SPLITGQA_PARTIAL_F32_BODY: &'static str = r#"
{
    extern __shared__ float smem[];
    attention_decode_splitgqa_partial_body(query, key_cache, value_cache,
        part_m, part_l, part_out, smem, scale, head_dim, n_head, n_kv_head,
        chunk_len, n_positions);
}

"#;

/// The body of `attention_decode_splitgqa_partial_f32_devpos`.
pub const ATTENTION_DECODE_SPLITGQA_PARTIAL_F32_DEVPOS_BODY: &'static str = r#"
{
    extern __shared__ float smem[];
    const int n_positions = *pos_dev + 1;
    attention_decode_splitgqa_partial_body(query, key_cache, value_cache,
        part_m, part_l, part_out, smem, scale, head_dim, n_head, n_kv_head,
        chunk_len, n_positions);
}

"#;

/// The body of `attention_decode_split_combine_f32`.
pub const ATTENTION_DECODE_SPLIT_COMBINE_F32_BODY: &'static str = r#"
{
    const int head_idx = blockIdx.x;
    const int tid = threadIdx.x;
    if (tid >= head_dim) return;

    const int base = head_idx * n_chunks;

    float m_max = -1e30f;
    for (int c = 0; c < n_chunks; c++) {
        if (part_m[base + c] > m_max) m_max = part_m[base + c];
    }

    float l_total = 0.0f;
    float out_acc = 0.0f;
    for (int c = 0; c < n_chunks; c++) {
        float w = expf(part_m[base + c] - m_max);
        l_total += part_l[base + c] * w;
        out_acc += w * part_out[(base + c) * head_dim + tid];
    }

    attn_out[head_idx * head_dim + tid] =
        (l_total == 0.0f) ? 0.0f : (out_acc / l_total);
}

"#;

/// The body of `rope_partial_rows_f32`.
pub const ROPE_PARTIAL_ROWS_F32_BODY: &'static str = r#"
{
    const int rotary_pairs = rotary_dim / 2;
    const int idx = blockIdx.x * blockDim.x + threadIdx.x;
    const int total_q_pairs = p * n_head * rotary_pairs;

    if (idx >= total_q_pairs) return;

    const int q_stride1 = n_head * rotary_pairs;
    const int row = idx / q_stride1;
    const int within = idx % q_stride1;
    const int head = within / rotary_pairs;
    const int pair = within % rotary_pairs;
    const int pos = base_pos + row;

    const float exponent = 2.0f * (float)pair / (float)rotary_dim;
    const float inv_freq = powf(theta_base, -exponent);
    const float theta = (float)pos * inv_freq;
    const float cos_t = cosf(theta);
    const float sin_t = sinf(theta);

    const int q_row_stride = n_head * head_dim;
    const int q_head_off = row * q_row_stride + head * head_dim;
    const int q_i0 = q_head_off + pair;
    const int q_i1 = q_i0 + rotary_pairs;
    const float q0 = q[q_i0];
    const float q1 = q[q_i1];
    q[q_i0] = q0 * cos_t - q1 * sin_t;
    q[q_i1] = q0 * sin_t + q1 * cos_t;

    if (head < n_kv_head) {
        const int k_row_stride = n_kv_head * head_dim;
        const int k_head_off = row * k_row_stride + head * head_dim;
        const int k_i0 = k_head_off + pair;
        const int k_i1 = k_i0 + rotary_pairs;
        const float k0 = k[k_i0];
        const float k1 = k[k_i1];
        k[k_i0] = k0 * cos_t - k1 * sin_t;
        k[k_i1] = k0 * sin_t + k1 * cos_t;
    }
}

"#;

/// The body of `rope_partial_rows_f32_devpos`.
pub const ROPE_PARTIAL_ROWS_F32_DEVPOS_BODY: &'static str = r#"
{
    const int base_pos = *pos_dev;
    const int rotary_pairs = rotary_dim / 2;
    const int idx = blockIdx.x * blockDim.x + threadIdx.x;
    const int total_q_pairs = p * n_head * rotary_pairs;

    if (idx >= total_q_pairs) return;

    const int q_stride1 = n_head * rotary_pairs;
    const int row = idx / q_stride1;
    const int within = idx % q_stride1;
    const int head = within / rotary_pairs;
    const int pair = within % rotary_pairs;
    const int pos = base_pos + row;

    const float exponent = 2.0f * (float)pair / (float)rotary_dim;
    const float inv_freq = powf(theta_base, -exponent);
    const float theta = (float)pos * inv_freq;
    const float cos_t = cosf(theta);
    const float sin_t = sinf(theta);

    const int q_row_stride = n_head * head_dim;
    const int q_head_off = row * q_row_stride + head * head_dim;
    const int q_i0 = q_head_off + pair;
    const int q_i1 = q_i0 + rotary_pairs;
    const float q0 = q[q_i0];
    const float q1 = q[q_i1];
    q[q_i0] = q0 * cos_t - q1 * sin_t;
    q[q_i1] = q0 * sin_t + q1 * cos_t;

    if (head < n_kv_head) {
        const int k_row_stride = n_kv_head * head_dim;
        const int k_head_off = row * k_row_stride + head * head_dim;
        const int k_i0 = k_head_off + pair;
        const int k_i1 = k_i0 + rotary_pairs;
        const float k0 = k[k_i0];
        const float k1 = k[k_i1];
        k[k_i0] = k0 * cos_t - k1 * sin_t;
        k[k_i1] = k0 * sin_t + k1 * cos_t;
    }
}

"#;

/// The body of `kv_cache_append_rows_f32`.
pub const KV_CACHE_APPEND_ROWS_F32_BODY: &'static str = r#"
{
    const long idx = (long)blockIdx.x * blockDim.x + threadIdx.x;
    const long total = (long)p * kvd;
    if (idx >= total) return;
    const int row = (int)(idx / kvd);
    const int col = (int)(idx % kvd);
    const long cache_off = (long)(base_pos + row) * kvd + col;
    KV_WR(&key_cache[cache_off], k_vecs[idx]);
    KV_WR(&value_cache[cache_off], v_vecs[idx]);
}

"#;

/// The body of `kv_cache_append_rows_f32_devpos`.
pub const KV_CACHE_APPEND_ROWS_F32_DEVPOS_BODY: &'static str = r#"
{
    const int base_pos = *pos_dev;
    const long idx = (long)blockIdx.x * blockDim.x + threadIdx.x;
    const long total = (long)p * kvd;
    if (idx >= total) return;
    const int row = (int)(idx / kvd);
    const int col = (int)(idx % kvd);
    const long cache_off = (long)(base_pos + row) * kvd + col;
    KV_WR(&key_cache[cache_off], k_vecs[idx]);
    KV_WR(&value_cache[cache_off], v_vecs[idx]);
}

"#;

/// The body of `split_qg_rows_f32`.
pub const SPLIT_QG_ROWS_F32_BODY: &'static str = r#"
{
    const long idx = (long)blockIdx.x * blockDim.x + threadIdx.x;
    const long total = (long)p * n_head * head_dim;
    if (idx >= total) return;
    const int per_token = n_head * head_dim;
    const int row = (int)(idx / per_token);
    const int within = (int)(idx % per_token);
    const int head = within / head_dim;
    const int dim = within % head_dim;
    const long src = (long)row * n_head * 2 * head_dim + head * 2 * head_dim + dim;
    q[idx] = qg[src];
    gate[idx] = qg[src + head_dim];
}

"#;

/// What stands ahead of `attention_decode_splitgqa_partial_rows_f32`.
pub const ATTENTION_DECODE_SPLITGQA_PARTIAL_ROWS_F32_HELPERS: &'static str = r#"#define ATT_ROWS_QPB 4

template <int DOTMA>
static __device__ void attention_decode_splitgqa_rows_body_t(
    const float* __restrict__ query,
    const kv_elt* __restrict__ key_cache,
    const kv_elt* __restrict__ value_cache,
    float* __restrict__ part_m,
    float* __restrict__ part_l,
    float* __restrict__ part_out,
    float* smem,
    const float scale,
    const int head_dim,
    const int n_head,
    const int n_kv_head,
    const int chunk_len,
    const int base_pos,
    const int p,
    const int k4)
{
    const int n_positions = base_pos + p;
    const int kv_group = blockIdx.x;
    const int chunk_id = blockIdx.y;
    const int n_chunks = gridDim.y;
    const int q_base = blockIdx.z * ATT_ROWS_QPB;
    const int q_count = (p - q_base) < ATT_ROWS_QPB ? (p - q_base) : ATT_ROWS_QPB;
    const int tid = threadIdx.x;
    const int warp = tid >> 5;
    const int lane = tid & 31;
    const int g = n_head / n_kv_head;

    float* k_smem = smem;
    float* p_smem = k_smem + head_dim * (ATT_SPLIT_GQA_TILE + 1);
    float* st_smem = p_smem + ATT_ROWS_QPB * g * ATT_SPLIT_GQA_TILE;

    const int chunk_start = chunk_id * chunk_len;
    if (chunk_start >= n_positions) {
        for (int ri = 0; ri < q_count; ri++) {
            const int r = q_base + ri;
            for (int h = 0; h < g; h++) {
                const int p_idx = (r * n_head + kv_group * g + h) * n_chunks + chunk_id;
                if (tid == 0) {
                    part_m[p_idx] = -1e30f;
                    part_l[p_idx] = 0.0f;
                }
                if (tid < head_dim) part_out[p_idx * head_dim + tid] = 0.0f;
            }
        }
        return;
    }
    const int chunk_end_raw = chunk_start + chunk_len;
    const int chunk_end = (chunk_end_raw < n_positions) ? chunk_end_raw : n_positions;

    const int kv_stride = n_kv_head * head_dim;
    const int kv_off = kv_group * head_dim;
    const int q_stride = n_head * head_dim;

    float run_max[ATT_ROWS_QPB];
    float run_sum[ATT_ROWS_QPB];
#pragma unroll
    for (int ri = 0; ri < ATT_ROWS_QPB; ri++) {
        run_max[ri] = -1e30f;
        run_sum[ri] = 0.0f;
    }

    float acc[ATT_ROWS_QPB][8];
#pragma unroll
    for (int ri = 0; ri < ATT_ROWS_QPB; ri++)
#pragma unroll
        for (int h = 0; h < 8; h++) acc[ri][h] = 0.0f;

    const int tile0 = chunk_start / ATT_SPLIT_GQA_TILE;
    const int tile1 = (chunk_end + ATT_SPLIT_GQA_TILE - 1) / ATT_SPLIT_GQA_TILE;

    const int kstride = head_dim + 4;
    for (int tile = tile0; tile < tile1; tile++) {
        const int tile_base = tile * ATT_SPLIT_GQA_TILE;

        if (k4) {
            for (int i = tid; i < ATT_SPLIT_GQA_TILE * head_dim; i += blockDim.x) {
                const int r_ = i / head_dim;
                const int d = i % head_dim;
                k_smem[r_ * kstride + d] =
                    (tile_base + r_ < n_positions)
                        ? KV_RD(&key_cache[(tile_base + r_) * kv_stride + kv_off + d])
                        : 0.0f;
            }
        } else {
            for (int i = tid; i < ATT_SPLIT_GQA_TILE * head_dim; i += blockDim.x) {
                const int r_ = i / head_dim;
                const int d = i % head_dim;
                k_smem[d * (ATT_SPLIT_GQA_TILE + 1) + r_] =
                    (tile_base + r_ < n_positions)
                        ? KV_RD(&key_cache[(tile_base + r_) * kv_stride + kv_off + d])
                        : 0.0f;
            }
        }
        __syncthreads();

        if (warp < g) {
            const float* qh_base =
                query + (long)q_base * q_stride + (kv_group * g + warp) * head_dim;
#pragma unroll
            for (int ri = 0; ri < ATT_ROWS_QPB; ri++) {
                if (ri < q_count) {
                    const int r = q_base + ri;
                    const int pos = tile_base + lane;
                    const bool valid = (pos < chunk_end) && (pos <= base_pos + r);
                    float score = -1e30f;
                    if (valid) {
                        const float* qh = qh_base + (long)ri * q_stride;
                        float dot = 0.0f;
                        if (DOTMA) {
                            float p0 = 0.0f, p1 = 0.0f, p2 = 0.0f, p3 = 0.0f;
                            if (k4) {
#pragma unroll
                                for (int d4 = 0; d4 < 64; d4++) {
                                    const float4 qv =
                                        *reinterpret_cast<const float4*>(qh + d4 * 4);
                                    const float4 kv =
                                        *reinterpret_cast<const float4*>(k_smem + lane * kstride + d4 * 4);
                                    p0 += qv.x * kv.x;
                                    p1 += qv.y * kv.y;
                                    p2 += qv.z * kv.z;
                                    p3 += qv.w * kv.w;
                                }
                            } else {
                                const int ks = ATT_SPLIT_GQA_TILE + 1;
#pragma unroll
                                for (int d4 = 0; d4 < 64; d4++) {
                                    const float4 qv =
                                        *reinterpret_cast<const float4*>(qh + d4 * 4);
                                    p0 += qv.x * k_smem[(d4 * 4 + 0) * ks + lane];
                                    p1 += qv.y * k_smem[(d4 * 4 + 1) * ks + lane];
                                    p2 += qv.z * k_smem[(d4 * 4 + 2) * ks + lane];
                                    p3 += qv.w * k_smem[(d4 * 4 + 3) * ks + lane];
                                }
                            }
                            dot = ((p0 + p1) + p2) + p3;
                        } else if (k4) {
                            for (int d4 = 0; d4 < (head_dim >> 2); d4++) {
                                const float4 qv =
                                    *reinterpret_cast<const float4*>(qh + d4 * 4);
                                const float4 kv =
                                    *reinterpret_cast<const float4*>(k_smem + lane * kstride + d4 * 4);
                                dot += qv.x * kv.x;
                                dot += qv.y * kv.y;
                                dot += qv.z * kv.z;
                                dot += qv.w * kv.w;
                            }
                        } else {
                            for (int d = 0; d < head_dim; d++) {
                                dot += qh[d] * k_smem[d * (ATT_SPLIT_GQA_TILE + 1) + lane];
                            }
                        }
                        score = dot * scale;
                    }
                    float m = score;
                    for (int off = 16; off > 0; off >>= 1) {
                        const float o = __shfl_down_sync(0xffffffffu, m, off);
                        if (o > m) m = o;
                    }
                    m = __shfl_sync(0xffffffffu, m, 0);
                    const float new_max = (m > run_max[ri]) ? m : run_max[ri];
                    const float exp_prev = expf(run_max[ri] - new_max);
                    const float exp_tile = expf(m - new_max);
                    float pv = 0.0f;
                    if (valid) pv = exp_tile * expf(score - m);
                    float s = pv;
                    for (int off = 16; off > 0; off >>= 1) {
                        s += __shfl_down_sync(0xffffffffu, s, off);
                    }
                    s = __shfl_sync(0xffffffffu, s, 0);
                    run_sum[ri] = run_sum[ri] * exp_prev + s;
                    run_max[ri] = new_max;
                    p_smem[(ri * g + warp) * ATT_SPLIT_GQA_TILE + lane] = pv;
                    if (lane == 0) st_smem[ri * g + warp] = exp_prev;
                }
            }
        }
        __syncthreads();

        const int l_valid = (chunk_end - tile_base < ATT_SPLIT_GQA_TILE)
                                ? (chunk_end - tile_base)
                                : ATT_SPLIT_GQA_TILE;
#pragma unroll
        for (int ri = 0; ri < ATT_ROWS_QPB; ri++) {
            if (ri < q_count) {
#pragma unroll
                for (int h = 0; h < 8; h++) {
                    if (h < g) acc[ri][h] *= st_smem[ri * g + h];
                }
            }
        }
        for (int l = 0; l < l_valid; l++) {
            const float v = (tid < head_dim)
                ? KV_RD(&value_cache[(tile_base + l) * kv_stride + kv_off + tid])
                : 0.0f;
#pragma unroll
            for (int ri = 0; ri < ATT_ROWS_QPB; ri++) {
                if (ri < q_count) {
                    const float* prow = p_smem + (ri * g) * ATT_SPLIT_GQA_TILE + l;
#pragma unroll
                    for (int h = 0; h < 8; h++) {
                        if (h < g) acc[ri][h] += prow[h * ATT_SPLIT_GQA_TILE] * v;
                    }
                }
            }
        }
        __syncthreads();
    }

    if (tid < head_dim) {
#pragma unroll
        for (int ri = 0; ri < ATT_ROWS_QPB; ri++) {
            if (ri < q_count) {
                const int r = q_base + ri;
#pragma unroll
                for (int h = 0; h < 8; h++) {
                    if (h < g) {
                        const int p_idx =
                            (r * n_head + kv_group * g + h) * n_chunks + chunk_id;
                        part_out[p_idx * head_dim + tid] = acc[ri][h];
                    }
                }
            }
        }
    }
    if (warp < g && lane == 0) {
#pragma unroll
        for (int ri = 0; ri < ATT_ROWS_QPB; ri++) {
            if (ri < q_count) {
                const int r = q_base + ri;
                const int p_idx =
                    (r * n_head + kv_group * g + warp) * n_chunks + chunk_id;
                part_m[p_idx] = run_max[ri];
                part_l[p_idx] = run_sum[ri];
            }
        }
    }}

"#;

/// The body of `attention_decode_splitgqa_partial_rows_f32`.
pub const ATTENTION_DECODE_SPLITGQA_PARTIAL_ROWS_F32_BODY: &'static str = r#"
{
    extern __shared__ float smem[];
    attention_decode_splitgqa_rows_body_t<0>(query, key_cache, value_cache,
        part_m, part_l, part_out, smem, scale, head_dim, n_head, n_kv_head,
        chunk_len, base_pos, p, k4);
}

"#;

/// The body of `attention_decode_splitgqa_partial_rows_f32_devpos`.
pub const ATTENTION_DECODE_SPLITGQA_PARTIAL_ROWS_F32_DEVPOS_BODY: &'static str = r#"
{
    extern __shared__ float smem[];
    const int base_pos = *pos_dev;
    attention_decode_splitgqa_rows_body_t<0>(query, key_cache, value_cache,
        part_m, part_l, part_out, smem, scale, head_dim, n_head, n_kv_head,
        chunk_len, base_pos, p, k4);
}

"#;

/// The body of `attention_decode_splitgqa_partial_rows_ma_f32`.
pub const ATTENTION_DECODE_SPLITGQA_PARTIAL_ROWS_MA_F32_BODY: &'static str = r#"
{
    extern __shared__ float smem[];
    attention_decode_splitgqa_rows_body_t<1>(query, key_cache, value_cache,
        part_m, part_l, part_out, smem, scale, head_dim, n_head, n_kv_head,
        chunk_len, base_pos, p, k4);
}

"#;

/// The body of `attention_decode_splitgqa_partial_rows_ma_f32_devpos`.
pub const ATTENTION_DECODE_SPLITGQA_PARTIAL_ROWS_MA_F32_DEVPOS_BODY: &'static str = r#"
{
    extern __shared__ float smem[];
    const int base_pos = *pos_dev;
    attention_decode_splitgqa_rows_body_t<1>(query, key_cache, value_cache,
        part_m, part_l, part_out, smem, scale, head_dim, n_head, n_kv_head,
        chunk_len, base_pos, p, k4);
}

"#;

/// The body of `attention_decode_split_combine_rows_f32`.
pub const ATTENTION_DECODE_SPLIT_COMBINE_ROWS_F32_BODY: &'static str = r#"
{
    const int row_head = blockIdx.x;
    const int r = row_head / n_head;
    const int head_idx = row_head % n_head;
    const int tid = threadIdx.x;
    if (tid >= head_dim) return;

    const int base = row_head * n_chunks;

    float m_max = -1e30f;
    for (int c = 0; c < n_chunks; c++) {
        if (part_m[base + c] > m_max) m_max = part_m[base + c];
    }

    float l_total = 0.0f;
    float out_acc = 0.0f;
    for (int c = 0; c < n_chunks; c++) {
        float w = expf(part_m[base + c] - m_max);
        l_total += part_l[base + c] * w;
        out_acc += w * part_out[(base + c) * head_dim + tid];
    }

    attn_out[(long)r * n_head * head_dim + head_idx * head_dim + tid] =
        (l_total == 0.0f) ? 0.0f : (out_acc / l_total);
}

"#;

/// What stands ahead of `attention_decode_splitgqa_partial_rows_qg_f32`.
pub const ATTENTION_DECODE_SPLITGQA_PARTIAL_ROWS_QG_F32_HELPERS: &'static str = r#"template <int DOTMA>
static __device__ void attention_decode_splitgqa_rows_qg_body_t(
    const float* __restrict__ query,
    const kv_elt* __restrict__ key_cache,
    const kv_elt* __restrict__ value_cache,
    float* __restrict__ part_m,
    float* __restrict__ part_l,
    float* __restrict__ part_out,
    float* smem,
    const float scale,
    const int head_dim,
    const int n_head,
    const int n_kv_head,
    const int chunk_len,
    const int base_pos,
    const int p,
    const int k4)
{
    const int n_positions = base_pos + p;
    const int kv_group = blockIdx.x;
    const int chunk_id = blockIdx.y;
    const int n_chunks = gridDim.y;
    const int tid = threadIdx.x;
    const int warp = tid >> 5;
    const int lane = tid & 31;
    const int grp = tid >> 8;
    const int dim = tid & 255;
    const int g = n_head / n_kv_head;

    const int row_off = blockIdx.z * 16;
    const int row_lim = p - row_off;

    float* k_smem = smem;
    float* p_smem = k_smem + head_dim * (ATT_SPLIT_GQA_TILE + 1);
    float* st_smem = p_smem + 16 * g * ATT_SPLIT_GQA_TILE;

    const int chunk_start = chunk_id * chunk_len;
    if (chunk_start >= n_positions) {
        if (tid < 16 * g) {
            const int r = row_off + tid / g;
            const int h = tid % g;
            if (r < p) {
                const int p_idx = (r * n_head + kv_group * g + h) * n_chunks + chunk_id;
                part_m[p_idx] = -1e30f;
                part_l[p_idx] = 0.0f;
            }
        }
        for (int i = tid; i < 16 * g * head_dim; i += blockDim.x) {
            const int d_ = i % head_dim;
            const int t = i / head_dim;
            const int r = row_off + t / g;
            const int h = t % g;
            if (r < p) {
                part_out[((r * n_head + kv_group * g + h) * n_chunks + chunk_id) * head_dim
                         + d_] = 0.0f;
            }
        }
        return;
    }
    const int chunk_end_raw = chunk_start + chunk_len;
    const int chunk_end = (chunk_end_raw < n_positions) ? chunk_end_raw : n_positions;

    const int kv_stride = n_kv_head * head_dim;
    const int kv_off = kv_group * head_dim;
    const int q_stride = n_head * head_dim;

    float run_max[4];
    float run_sum[4];
#pragma unroll
    for (int u = 0; u < 4; u++) {
        run_max[u] = -1e30f;
        run_sum[u] = 0.0f;
    }

    float acc[4][8];
#pragma unroll
    for (int u = 0; u < 4; u++)
#pragma unroll
        for (int h = 0; h < 8; h++) acc[u][h] = 0.0f;

    const int tile0 = chunk_start / ATT_SPLIT_GQA_TILE;
    const int tile1 = (chunk_end + ATT_SPLIT_GQA_TILE - 1) / ATT_SPLIT_GQA_TILE;

    const int kstride = head_dim + 4;
    for (int tile = tile0; tile < tile1; tile++) {
        const int tile_base = tile * ATT_SPLIT_GQA_TILE;

        if (k4) {
            for (int i = tid; i < ATT_SPLIT_GQA_TILE * head_dim; i += blockDim.x) {
                const int r_ = i / head_dim;
                const int d = i % head_dim;
                k_smem[r_ * kstride + d] =
                    (tile_base + r_ < n_positions)
                        ? KV_RD(&key_cache[(tile_base + r_) * kv_stride + kv_off + d])
                        : 0.0f;
            }
        } else {
            for (int i = tid; i < ATT_SPLIT_GQA_TILE * head_dim; i += blockDim.x) {
                const int r_ = i / head_dim;
                const int d = i % head_dim;
                k_smem[d * (ATT_SPLIT_GQA_TILE + 1) + r_] =
                    (tile_base + r_ < n_positions)
                        ? KV_RD(&key_cache[(tile_base + r_) * kv_stride + kv_off + d])
                        : 0.0f;
            }
        }
        __syncthreads();

        {
#pragma unroll
            for (int u = 0; u < 4; u++) {
                const int t = warp + u * 32;
                if (t < 16 * g) {
                    const int r = t / g;
                    const int h = t % g;
                    if (r < row_lim) {
                        const float* qh = query
                            + (long)(row_off + r) * q_stride
                            + (kv_group * g + h) * head_dim;
                        const int pos = tile_base + lane;
                        const bool valid =
                            (pos < chunk_end) && (pos <= base_pos + row_off + r);
                        float score = -1e30f;
                        if (valid) {
                            float dot = 0.0f;
                            if (DOTMA) {
                                float p0 = 0.0f, p1 = 0.0f, p2 = 0.0f, p3 = 0.0f;
                                if (k4) {
#pragma unroll
                                    for (int d4 = 0; d4 < 64; d4++) {
                                        const float4 qv =
                                            *reinterpret_cast<const float4*>(qh + d4 * 4);
                                        const float4 kv = *reinterpret_cast<const float4*>(
                                            k_smem + lane * kstride + d4 * 4);
                                        p0 += qv.x * kv.x;
                                        p1 += qv.y * kv.y;
                                        p2 += qv.z * kv.z;
                                        p3 += qv.w * kv.w;
                                    }
                                } else {
                                    const int ks = ATT_SPLIT_GQA_TILE + 1;
#pragma unroll
                                    for (int d4 = 0; d4 < 64; d4++) {
                                        const float4 qv =
                                            *reinterpret_cast<const float4*>(qh + d4 * 4);
                                        p0 += qv.x * k_smem[(d4 * 4 + 0) * ks + lane];
                                        p1 += qv.y * k_smem[(d4 * 4 + 1) * ks + lane];
                                        p2 += qv.z * k_smem[(d4 * 4 + 2) * ks + lane];
                                        p3 += qv.w * k_smem[(d4 * 4 + 3) * ks + lane];
                                    }
                                }
                                dot = ((p0 + p1) + p2) + p3;
                            } else if (k4) {
                                for (int d4 = 0; d4 < (head_dim >> 2); d4++) {
                                    const float4 qv =
                                        *reinterpret_cast<const float4*>(qh + d4 * 4);
                                    const float4 kv = *reinterpret_cast<const float4*>(
                                        k_smem + lane * kstride + d4 * 4);
                                    dot += qv.x * kv.x;
                                    dot += qv.y * kv.y;
                                    dot += qv.z * kv.z;
                                    dot += qv.w * kv.w;
                                }
                            } else {
                                for (int d = 0; d < head_dim; d++) {
                                    dot += qh[d] * k_smem[d * (ATT_SPLIT_GQA_TILE + 1) + lane];
                                }
                            }
                            score = dot * scale;
                        }
                        float m = score;
                        for (int off = 16; off > 0; off >>= 1) {
                            const float o = __shfl_down_sync(0xffffffffu, m, off);
                            if (o > m) m = o;
                        }
                        m = __shfl_sync(0xffffffffu, m, 0);
                        const float new_max = (m > run_max[u]) ? m : run_max[u];
                        const float exp_prev = expf(run_max[u] - new_max);
                        const float exp_tile = expf(m - new_max);
                        float pv = 0.0f;
                        if (valid) pv = exp_tile * expf(score - m);
                        float s = pv;
                        for (int off = 16; off > 0; off >>= 1) {
                            s += __shfl_down_sync(0xffffffffu, s, off);
                        }
                        s = __shfl_sync(0xffffffffu, s, 0);
                        run_sum[u] = run_sum[u] * exp_prev + s;
                        run_max[u] = new_max;
                        p_smem[t * ATT_SPLIT_GQA_TILE + lane] = pv;
                        if (lane == 0) st_smem[t] = exp_prev;
                    }
                }
            }
        }
        __syncthreads();

        const int l_valid = (chunk_end - tile_base < ATT_SPLIT_GQA_TILE)
                                ? (chunk_end - tile_base)
                                : ATT_SPLIT_GQA_TILE;
#pragma unroll
        for (int u = 0; u < 4; u++) {
            const int r = grp * 4 + u;
            if (r < row_lim) {
#pragma unroll
                for (int h = 0; h < 8; h++) {
                    if (h < g) acc[u][h] *= st_smem[r * g + h];
                }
            }
        }
        for (int l = 0; l < l_valid; l++) {
            const float v = KV_RD(&value_cache[(tile_base + l) * kv_stride + kv_off + dim]);
#pragma unroll
            for (int u = 0; u < 4; u++) {
                const int r = grp * 4 + u;
                if (r < row_lim) {
#pragma unroll
                    for (int h = 0; h < 8; h++) {
                        if (h < g) {
                            acc[u][h] += p_smem[(r * g + h) * ATT_SPLIT_GQA_TILE + l] * v;
                        }
                    }
                }
            }
        }
        __syncthreads();
    }

    {
        const int r0 = grp * 4;
#pragma unroll
        for (int u = 0; u < 4; u++) {
            const int r = r0 + u;
            if (r < row_lim) {
#pragma unroll
                for (int h = 0; h < 8; h++) {
                    if (h < g) {
                        const int p_idx =
                            ((row_off + r) * n_head + kv_group * g + h) * n_chunks + chunk_id;
                        part_out[p_idx * head_dim + dim] = acc[u][h];
                    }
                }
            }
        }
    }
    if (lane == 0) {
#pragma unroll
        for (int u = 0; u < 4; u++) {
            const int t = warp + u * 32;
            if (t < 16 * g) {
                const int r = t / g;
                const int h = t % g;
                if (r < row_lim) {
                    const int p_idx =
                        ((row_off + r) * n_head + kv_group * g + h) * n_chunks + chunk_id;
                    part_m[p_idx] = run_max[u];
                    part_l[p_idx] = run_sum[u];
                }
            }
        }
    }}

"#;

/// The body of `attention_decode_splitgqa_partial_rows_qg_f32`.
pub const ATTENTION_DECODE_SPLITGQA_PARTIAL_ROWS_QG_F32_BODY: &'static str = r#"
{
    extern __shared__ float smem[];
    attention_decode_splitgqa_rows_qg_body_t<0>(query, key_cache, value_cache,
        part_m, part_l, part_out, smem, scale, head_dim, n_head, n_kv_head,
        chunk_len, base_pos, p, k4);
}

"#;

/// The body of `attention_decode_splitgqa_partial_rows_qg_f32_devpos`.
pub const ATTENTION_DECODE_SPLITGQA_PARTIAL_ROWS_QG_F32_DEVPOS_BODY: &'static str = r#"
{
    extern __shared__ float smem[];
    const int base_pos = *pos_dev;
    attention_decode_splitgqa_rows_qg_body_t<0>(query, key_cache, value_cache,
        part_m, part_l, part_out, smem, scale, head_dim, n_head, n_kv_head,
        chunk_len, base_pos, p, k4);
}

"#;

/// The body of `attention_decode_splitgqa_partial_rows_qgma_f32`.
pub const ATTENTION_DECODE_SPLITGQA_PARTIAL_ROWS_QGMA_F32_BODY: &'static str = r#"
{
    extern __shared__ float smem[];
    attention_decode_splitgqa_rows_qg_body_t<1>(query, key_cache, value_cache,
        part_m, part_l, part_out, smem, scale, head_dim, n_head, n_kv_head,
        chunk_len, base_pos, p, k4);
}

"#;

/// The body of `attention_decode_splitgqa_partial_rows_qgma_f32_devpos`.
pub const ATTENTION_DECODE_SPLITGQA_PARTIAL_ROWS_QGMA_F32_DEVPOS_BODY: &'static str = r#"
{
    extern __shared__ float smem[];
    const int base_pos = *pos_dev;
    attention_decode_splitgqa_rows_qg_body_t<1>(query, key_cache, value_cache,
        part_m, part_l, part_out, smem, scale, head_dim, n_head, n_kv_head,
        chunk_len, base_pos, p, k4);
}

"#;

/// What stands ahead of `attention_verify2p_stats_f32`.
pub const ATTENTION_VERIFY2P_STATS_F32_HELPERS: &'static str = r#"static __device__ void attention_verify2p_stats_body(
    const float* __restrict__ query,
    const kv_elt* __restrict__ key_cache,
    float* __restrict__ stat_m,
    float* __restrict__ stat_l,
    float* smem,
    const float scale,
    const int head_dim,
    const int n_head,
    const int n_kv_head,
    const int n_tiles,
    const int base_pos,
    const int p)
{
    const int n_positions = base_pos + p;
    const int kv_group = blockIdx.x;
    const int tile = blockIdx.y;
    const int tid = threadIdx.x;
    const int warp = tid >> 5;
    const int lane = tid & 31;
    const int g = n_head / n_kv_head;

    float* k_smem = smem;
    const int tile_base = tile * ATT_SPLIT_GQA_TILE;
    if (tile_base >= n_positions) {
        if (tid < p * g) {
            const int r = tid / g;
            const int h = tid % g;
            const int idx = (r * n_head + kv_group * g + h) * n_tiles + tile;
            stat_m[idx] = -1e30f;
            stat_l[idx] = 0.0f;
        }
        return;
    }
    const int tile_end_raw = tile_base + ATT_SPLIT_GQA_TILE;
    const int tile_end = (tile_end_raw < n_positions) ? tile_end_raw : n_positions;

    const int kv_stride = n_kv_head * head_dim;
    const int q_stride = n_head * head_dim;

    for (int i = tid; i < ATT_SPLIT_GQA_TILE * head_dim; i += blockDim.x) {
        const int r_ = i / head_dim;
        const int d = i % head_dim;
        k_smem[d * (ATT_SPLIT_GQA_TILE + 1) + r_] =
            (tile_base + r_ < n_positions)
                ? KV_RD(&key_cache[(tile_base + r_) * kv_stride + kv_group * head_dim + d])
                : 0.0f;
    }
    __syncthreads();

#pragma unroll
    for (int u = 0; u < 4; u++) {
        const int t = warp + u * 32;
        if (t < 16 * g) {
            const int r = t / g;
            const int h = t % g;
            if (r < p) {
                const float* qh =
                    query + (long)r * q_stride + (kv_group * g + h) * head_dim;
                const int pos = tile_base + lane;
                const bool valid = (pos < tile_end) && (pos <= base_pos + r);
                float score = -1e30f;
                if (valid) {
                    float dot = 0.0f;
                    for (int d = 0; d < head_dim; d++) {
                        dot += qh[d] * k_smem[d * (ATT_SPLIT_GQA_TILE + 1) + lane];
                    }
                    score = dot * scale;
                }
                float m = score;
                for (int off = 16; off > 0; off >>= 1) {
                    const float o = __shfl_down_sync(0xffffffffu, m, off);
                    if (o > m) m = o;
                }
                m = __shfl_sync(0xffffffffu, m, 0);
                float pv = 0.0f;
                if (valid) pv = expf(score - m);
                float s = pv;
                for (int off = 16; off > 0; off >>= 1) {
                    s += __shfl_down_sync(0xffffffffu, s, off);
                }
                s = __shfl_sync(0xffffffffu, s, 0);
                if (lane == 0) {
                    const int idx = (r * n_head + kv_group * g + h) * n_tiles + tile;
                    stat_m[idx] = m;
                    stat_l[idx] = s;
                }
            }
        }
    }
}

"#;

/// The body of `attention_verify2p_stats_f32`.
pub const ATTENTION_VERIFY2P_STATS_F32_BODY: &'static str = r#"
{
    extern __shared__ float smem[];
    attention_verify2p_stats_body(query, key_cache, stat_m, stat_l, smem,
        scale, head_dim, n_head, n_kv_head, n_tiles, base_pos, p);
}

"#;

/// The body of `attention_verify2p_stats_f32_devpos`.
pub const ATTENTION_VERIFY2P_STATS_F32_DEVPOS_BODY: &'static str = r#"
{
    extern __shared__ float smem[];
    const int base_pos = *pos_dev;
    attention_verify2p_stats_body(query, key_cache, stat_m, stat_l, smem,
        scale, head_dim, n_head, n_kv_head, n_tiles, base_pos, p);
}

"#;

/// The body of `attention_verify2p_merge_f32`.
pub const ATTENTION_VERIFY2P_MERGE_F32_BODY: &'static str = r#"
{
    const int kv_group = blockIdx.x;
    const int g = n_head / n_kv_head;
    const int t = threadIdx.x;
    if (t >= p * g) return;
    const int r = t / g;
    const int h = t % g;
    const int head = kv_group * g + h;
    const int base = (r * n_head + head) * n_tiles;
    float m = -1e30f;
    for (int i = 0; i < n_tiles; i++) {
        if (stat_m[base + i] > m) m = stat_m[base + i];
    }
    float l = 0.0f;
    for (int i = 0; i < n_tiles; i++) {
        l += stat_l[base + i] * expf(stat_m[base + i] - m);
    }
    mrg_m[r * n_head + head] = m;
    mrg_l[r * n_head + head] = l;
}

"#;

/// What stands ahead of `attention_verify2p_pv_f32`.
pub const ATTENTION_VERIFY2P_PV_F32_HELPERS: &'static str = r#"static __device__ void attention_verify2p_pv_body(
    const float* __restrict__ query,
    const kv_elt* __restrict__ key_cache,
    const kv_elt* __restrict__ value_cache,
    const float* __restrict__ mrg_m,
    float* __restrict__ part_m,
    float* __restrict__ part_l,
    float* __restrict__ part_out,
    float* smem,
    const float scale,
    const int head_dim,
    const int n_head,
    const int n_kv_head,
    const int chunk_len,
    const int base_pos,
    const int p)
{
    const int n_positions = base_pos + p;
    const int kv_group = blockIdx.x;
    const int chunk_id = blockIdx.y;
    const int n_chunks = gridDim.y;
    const int tid = threadIdx.x;
    const int warp = tid >> 5;
    const int lane = tid & 31;
    const int grp = tid >> 8;
    const int dim = tid & 255;
    const int g = n_head / n_kv_head;

    float* k_smem = smem;
    float* p_smem = k_smem + head_dim * (ATT_SPLIT_GQA_TILE + 1);

    const int chunk_start = chunk_id * chunk_len;
    if (chunk_start >= n_positions) {
        if (tid < p * g) {
            const int r = tid / g;
            const int h = tid % g;
            const int p_idx = (r * n_head + kv_group * g + h) * n_chunks + chunk_id;
            part_m[p_idx] = -1e30f;
            part_l[p_idx] = 0.0f;
        }
        for (int i = tid; i < p * g * head_dim; i += blockDim.x) {
            const int d_ = i % head_dim;
            const int t = i / head_dim;
            const int r = t / g;
            const int h = t % g;
            part_out[((r * n_head + kv_group * g + h) * n_chunks + chunk_id) * head_dim + d_] =
                0.0f;
        }
        return;
    }
    const int chunk_end_raw = chunk_start + chunk_len;
    const int chunk_end = (chunk_end_raw < n_positions) ? chunk_end_raw : n_positions;

    const int kv_stride = n_kv_head * head_dim;
    const int kv_off = kv_group * head_dim;
    const int q_stride = n_head * head_dim;

    float m_frozen[4];
    float s_acc[4];
#pragma unroll
    for (int u = 0; u < 4; u++) {
        m_frozen[u] = -1e30f;
        s_acc[u] = 0.0f;
    }
#pragma unroll
    for (int u = 0; u < 4; u++) {
        const int t = warp + u * 32;
        if (t < 16 * g) {
            const int r = t / g;
            const int h = t % g;
            if (r < p) m_frozen[u] = mrg_m[r * n_head + kv_group * g + h];
        }
    }

    float acc[4][8];
#pragma unroll
    for (int u = 0; u < 4; u++)
#pragma unroll
        for (int h = 0; h < 8; h++) acc[u][h] = 0.0f;

    const int tile0 = chunk_start / ATT_SPLIT_GQA_TILE;
    const int tile1 = (chunk_end + ATT_SPLIT_GQA_TILE - 1) / ATT_SPLIT_GQA_TILE;
    for (int tile = tile0; tile < tile1; tile++) {
        const int tile_base = tile * ATT_SPLIT_GQA_TILE;

        for (int i = tid; i < ATT_SPLIT_GQA_TILE * head_dim; i += blockDim.x) {
            const int r_ = i / head_dim;
            const int d = i % head_dim;
            k_smem[d * (ATT_SPLIT_GQA_TILE + 1) + r_] =
                (tile_base + r_ < n_positions)
                    ? KV_RD(&key_cache[(tile_base + r_) * kv_stride + kv_off + d])
                    : 0.0f;
        }
        __syncthreads();

        {
#pragma unroll
            for (int u = 0; u < 4; u++) {
                const int t = warp + u * 32;
                if (t < 16 * g) {
                    const int r = t / g;
                    const int h = t % g;
                    if (r < p) {
                        const float* qh =
                            query + (long)r * q_stride + (kv_group * g + h) * head_dim;
                        const int pos = tile_base + lane;
                        const bool valid = (pos < chunk_end) && (pos <= base_pos + r);
                        float score = -1e30f;
                        if (valid) {
                            float dot = 0.0f;
                            for (int d = 0; d < head_dim; d++) {
                                dot += qh[d] * k_smem[d * (ATT_SPLIT_GQA_TILE + 1) + lane];
                            }
                            score = dot * scale;
                        }
                        float pv = 0.0f;
                        if (valid) pv = expf(score - m_frozen[u]);
                        float s = pv;
                        for (int off = 16; off > 0; off >>= 1) {
                            s += __shfl_down_sync(0xffffffffu, s, off);
                        }
                        s = __shfl_sync(0xffffffffu, s, 0);
                        s_acc[u] += s;
                        p_smem[t * ATT_SPLIT_GQA_TILE + lane] = pv;
                    }
                }
            }
        }
        __syncthreads();

        const int l_valid = (chunk_end - tile_base < ATT_SPLIT_GQA_TILE)
                                ? (chunk_end - tile_base)
                                : ATT_SPLIT_GQA_TILE;
        for (int l = 0; l < l_valid; l++) {
            const float v = KV_RD(&value_cache[(tile_base + l) * kv_stride + kv_off + dim]);
#pragma unroll
            for (int u = 0; u < 4; u++) {
                const int r = grp * 4 + u;
                if (r < p) {
#pragma unroll
                    for (int h = 0; h < 8; h++) {
                        if (h < g) {
                            acc[u][h] += p_smem[(r * g + h) * ATT_SPLIT_GQA_TILE + l] * v;
                        }
                    }
                }
            }
        }
        __syncthreads();
    }

    {
        const int r0 = grp * 4;
#pragma unroll
        for (int u = 0; u < 4; u++) {
            const int r = r0 + u;
            if (r < p) {
#pragma unroll
                for (int h = 0; h < 8; h++) {
                    if (h < g) {
                        const int p_idx =
                            (r * n_head + kv_group * g + h) * n_chunks + chunk_id;
                        part_out[p_idx * head_dim + dim] = acc[u][h];
                    }
                }
            }
        }
    }
    if (lane == 0) {
#pragma unroll
        for (int u = 0; u < 4; u++) {
            const int t = warp + u * 32;
            if (t < 16 * g) {
                const int r = t / g;
                const int h = t % g;
                if (r < p) {
                    const int p_idx =
                        (r * n_head + kv_group * g + h) * n_chunks + chunk_id;
                    part_m[p_idx] = m_frozen[u];
                    part_l[p_idx] = s_acc[u];
                }
            }
        }
    }
}

"#;

/// The body of `attention_verify2p_pv_f32`.
pub const ATTENTION_VERIFY2P_PV_F32_BODY: &'static str = r#"
{
    extern __shared__ float smem[];
    attention_verify2p_pv_body(query, key_cache, value_cache, mrg_m,
        part_m, part_l, part_out, smem, scale, head_dim, n_head, n_kv_head,
        chunk_len, base_pos, p);
}

"#;

/// The body of `attention_verify2p_pv_f32_devpos`.
pub const ATTENTION_VERIFY2P_PV_F32_DEVPOS_BODY: &'static str = r#"
{
    extern __shared__ float smem[];
    const int base_pos = *pos_dev;
    attention_verify2p_pv_body(query, key_cache, value_cache, mrg_m,
        part_m, part_l, part_out, smem, scale, head_dim, n_head, n_kv_head,
        chunk_len, base_pos, p);
}
"#;

impl KernelText for AttentionKernel {
    open spec fn helpers(self) -> Seq<char> {
        match self {
            AttentionKernel::Rope => ROPE_PARTIAL_F32_HELPERS@,
            AttentionKernel::Split => ATTENTION_DECODE_SPLIT_PARTIAL_F32_HELPERS@,
            AttentionKernel::Splitgqa => ATTENTION_DECODE_SPLITGQA_PARTIAL_F32_HELPERS@,
            AttentionKernel::SplitgqaRows => ATTENTION_DECODE_SPLITGQA_PARTIAL_ROWS_F32_HELPERS@,
            AttentionKernel::SplitgqaRowsQg => ATTENTION_DECODE_SPLITGQA_PARTIAL_ROWS_QG_F32_HELPERS@,
            AttentionKernel::Verify2pStats => ATTENTION_VERIFY2P_STATS_F32_HELPERS@,
            AttentionKernel::Verify2pPv => ATTENTION_VERIFY2P_PV_F32_HELPERS@,
            _ => Seq::empty(),
        }
    }

    open spec fn declared(self) -> Declaration {
        match self {
            AttentionKernel::Rope => Declaration {
                bounded: false,
                name: "rope_partial_f32"@,
                params: rope_partial_f32_params(),
            },
            AttentionKernel::RopeBackward => Declaration {
                bounded: false,
                name: "rope_partial_backward_f32"@,
                params: rope_partial_backward_f32_params(),
            },
            AttentionKernel::SplitQg => Declaration {
                bounded: false,
                name: "split_qg_f32"@,
                params: split_qg_f32_params(),
            },
            AttentionKernel::RmsnormBatched => Declaration {
                bounded: false,
                name: "rmsnorm_batched_f32"@,
                params: rmsnorm_batched_f32_params(),
            },
            AttentionKernel::KvCacheAppend => Declaration {
                bounded: false,
                name: "kv_cache_append_f32"@,
                params: kv_cache_append_f32_params(),
            },
            AttentionKernel::AttentionDecode => Declaration {
                bounded: false,
                name: "attention_decode_f32"@,
                params: attention_decode_f32_params(),
            },
            AttentionKernel::OutputGate => Declaration {
                bounded: false,
                name: "output_gate_f32"@,
                params: output_gate_f32_params(),
            },
            AttentionKernel::RopeDevpos => Declaration {
                bounded: false,
                name: "rope_partial_f32_devpos"@,
                params: rope_partial_f32_devpos_params(),
            },
            AttentionKernel::KvCacheAppendDevpos => Declaration {
                bounded: false,
                name: "kv_cache_append_f32_devpos"@,
                params: kv_cache_append_f32_devpos_params(),
            },
            AttentionKernel::AttentionDecodeDevpos => Declaration {
                bounded: false,
                name: "attention_decode_f32_devpos"@,
                params: attention_decode_f32_devpos_params(),
            },
            AttentionKernel::Split => Declaration {
                bounded: false,
                name: "attention_decode_split_partial_f32"@,
                params: attention_decode_split_partial_f32_params(),
            },
            AttentionKernel::SplitDevpos => Declaration {
                bounded: false,
                name: "attention_decode_split_partial_f32_devpos"@,
                params: attention_decode_split_partial_f32_devpos_params(),
            },
            AttentionKernel::Splitgqa => Declaration {
                bounded: false,
                name: "attention_decode_splitgqa_partial_f32"@,
                params: attention_decode_split_partial_f32_params(),
            },
            AttentionKernel::SplitgqaDevpos => Declaration {
                bounded: false,
                name: "attention_decode_splitgqa_partial_f32_devpos"@,
                params: attention_decode_split_partial_f32_devpos_params(),
            },
            AttentionKernel::SplitCombine => Declaration {
                bounded: false,
                name: "attention_decode_split_combine_f32"@,
                params: attention_decode_split_combine_f32_params(),
            },
            AttentionKernel::RopeRows => Declaration {
                bounded: false,
                name: "rope_partial_rows_f32"@,
                params: rope_partial_rows_f32_params(),
            },
            AttentionKernel::RopeRowsDevpos => Declaration {
                bounded: false,
                name: "rope_partial_rows_f32_devpos"@,
                params: rope_partial_rows_f32_devpos_params(),
            },
            AttentionKernel::KvAppendRows => Declaration {
                bounded: false,
                name: "kv_cache_append_rows_f32"@,
                params: kv_cache_append_rows_f32_params(),
            },
            AttentionKernel::KvAppendRowsDevpos => Declaration {
                bounded: false,
                name: "kv_cache_append_rows_f32_devpos"@,
                params: kv_cache_append_rows_f32_devpos_params(),
            },
            AttentionKernel::SplitQgRows => Declaration {
                bounded: false,
                name: "split_qg_rows_f32"@,
                params: split_qg_rows_f32_params(),
            },
            AttentionKernel::SplitgqaRows => Declaration {
                bounded: false,
                name: "attention_decode_splitgqa_partial_rows_f32"@,
                params: attention_decode_splitgqa_partial_rows_f32_params(),
            },
            AttentionKernel::SplitgqaRowsDevpos => Declaration {
                bounded: false,
                name: "attention_decode_splitgqa_partial_rows_f32_devpos"@,
                params: attention_decode_splitgqa_partial_rows_f32_devpos_params(),
            },
            AttentionKernel::SplitgqaRowsMa => Declaration {
                bounded: false,
                name: "attention_decode_splitgqa_partial_rows_ma_f32"@,
                params: attention_decode_splitgqa_partial_rows_f32_params(),
            },
            AttentionKernel::SplitgqaRowsMaDevpos => Declaration {
                bounded: false,
                name: "attention_decode_splitgqa_partial_rows_ma_f32_devpos"@,
                params: attention_decode_splitgqa_partial_rows_f32_devpos_params(),
            },
            AttentionKernel::SplitCombineRows => Declaration {
                bounded: false,
                name: "attention_decode_split_combine_rows_f32"@,
                params: attention_decode_split_combine_rows_f32_params(),
            },
            AttentionKernel::SplitgqaRowsQg => Declaration {
                bounded: true,
                name: "attention_decode_splitgqa_partial_rows_qg_f32"@,
                params: attention_decode_splitgqa_partial_rows_f32_params(),
            },
            AttentionKernel::SplitgqaRowsQgDevpos => Declaration {
                bounded: true,
                name: "attention_decode_splitgqa_partial_rows_qg_f32_devpos"@,
                params: attention_decode_splitgqa_partial_rows_f32_devpos_params(),
            },
            AttentionKernel::SplitgqaRowsQgma => Declaration {
                bounded: true,
                name: "attention_decode_splitgqa_partial_rows_qgma_f32"@,
                params: attention_decode_splitgqa_partial_rows_f32_params(),
            },
            AttentionKernel::SplitgqaRowsQgmaDevpos => Declaration {
                bounded: true,
                name: "attention_decode_splitgqa_partial_rows_qgma_f32_devpos"@,
                params: attention_decode_splitgqa_partial_rows_f32_devpos_params(),
            },
            AttentionKernel::Verify2pStats => Declaration {
                bounded: true,
                name: "attention_verify2p_stats_f32"@,
                params: attention_verify2p_stats_f32_params(),
            },
            AttentionKernel::Verify2pStatsDevpos => Declaration {
                bounded: true,
                name: "attention_verify2p_stats_f32_devpos"@,
                params: attention_verify2p_stats_f32_devpos_params(),
            },
            AttentionKernel::Verify2pMerge => Declaration {
                bounded: false,
                name: "attention_verify2p_merge_f32"@,
                params: attention_verify2p_merge_f32_params(),
            },
            AttentionKernel::Verify2pPv => Declaration {
                bounded: true,
                name: "attention_verify2p_pv_f32"@,
                params: attention_verify2p_pv_f32_params(),
            },
            AttentionKernel::Verify2pPvDevpos => Declaration {
                bounded: true,
                name: "attention_verify2p_pv_f32_devpos"@,
                params: attention_verify2p_pv_f32_devpos_params(),
            },
        }
    }

    open spec fn body(self) -> Seq<char> {
        match self {
            AttentionKernel::Rope => ROPE_PARTIAL_F32_BODY@,
            AttentionKernel::RopeBackward => ROPE_PARTIAL_BACKWARD_F32_BODY@,
            AttentionKernel::SplitQg => SPLIT_QG_F32_BODY@,
            AttentionKernel::RmsnormBatched => RMSNORM_BATCHED_F32_BODY@,
            AttentionKernel::KvCacheAppend => KV_CACHE_APPEND_F32_BODY@,
            AttentionKernel::AttentionDecode => ATTENTION_DECODE_F32_BODY@,
            AttentionKernel::OutputGate => OUTPUT_GATE_F32_BODY@,
            AttentionKernel::RopeDevpos => ROPE_PARTIAL_F32_DEVPOS_BODY@,
            AttentionKernel::KvCacheAppendDevpos => KV_CACHE_APPEND_F32_DEVPOS_BODY@,
            AttentionKernel::AttentionDecodeDevpos => ATTENTION_DECODE_F32_DEVPOS_BODY@,
            AttentionKernel::Split => ATTENTION_DECODE_SPLIT_PARTIAL_F32_BODY@,
            AttentionKernel::SplitDevpos => ATTENTION_DECODE_SPLIT_PARTIAL_F32_DEVPOS_BODY@,
            AttentionKernel::Splitgqa => ATTENTION_DECODE_SPLITGQA_PARTIAL_F32_BODY@,
            AttentionKernel::SplitgqaDevpos => ATTENTION_DECODE_SPLITGQA_PARTIAL_F32_DEVPOS_BODY@,
            AttentionKernel::SplitCombine => ATTENTION_DECODE_SPLIT_COMBINE_F32_BODY@,
            AttentionKernel::RopeRows => ROPE_PARTIAL_ROWS_F32_BODY@,
            AttentionKernel::RopeRowsDevpos => ROPE_PARTIAL_ROWS_F32_DEVPOS_BODY@,
            AttentionKernel::KvAppendRows => KV_CACHE_APPEND_ROWS_F32_BODY@,
            AttentionKernel::KvAppendRowsDevpos => KV_CACHE_APPEND_ROWS_F32_DEVPOS_BODY@,
            AttentionKernel::SplitQgRows => SPLIT_QG_ROWS_F32_BODY@,
            AttentionKernel::SplitgqaRows => ATTENTION_DECODE_SPLITGQA_PARTIAL_ROWS_F32_BODY@,
            AttentionKernel::SplitgqaRowsDevpos => ATTENTION_DECODE_SPLITGQA_PARTIAL_ROWS_F32_DEVPOS_BODY@,
            AttentionKernel::SplitgqaRowsMa => ATTENTION_DECODE_SPLITGQA_PARTIAL_ROWS_MA_F32_BODY@,
            AttentionKernel::SplitgqaRowsMaDevpos => ATTENTION_DECODE_SPLITGQA_PARTIAL_ROWS_MA_F32_DEVPOS_BODY@,
            AttentionKernel::SplitCombineRows => ATTENTION_DECODE_SPLIT_COMBINE_ROWS_F32_BODY@,
            AttentionKernel::SplitgqaRowsQg => ATTENTION_DECODE_SPLITGQA_PARTIAL_ROWS_QG_F32_BODY@,
            AttentionKernel::SplitgqaRowsQgDevpos => ATTENTION_DECODE_SPLITGQA_PARTIAL_ROWS_QG_F32_DEVPOS_BODY@,
            AttentionKernel::SplitgqaRowsQgma => ATTENTION_DECODE_SPLITGQA_PARTIAL_ROWS_QGMA_F32_BODY@,
            AttentionKernel::SplitgqaRowsQgmaDevpos => ATTENTION_DECODE_SPLITGQA_PARTIAL_ROWS_QGMA_F32_DEVPOS_BODY@,
            AttentionKernel::Verify2pStats => ATTENTION_VERIFY2P_STATS_F32_BODY@,
            AttentionKernel::Verify2pStatsDevpos => ATTENTION_VERIFY2P_STATS_F32_DEVPOS_BODY@,
            AttentionKernel::Verify2pMerge => ATTENTION_VERIFY2P_MERGE_F32_BODY@,
            AttentionKernel::Verify2pPv => ATTENTION_VERIFY2P_PV_F32_BODY@,
            AttentionKernel::Verify2pPvDevpos => ATTENTION_VERIFY2P_PV_F32_DEVPOS_BODY@,
        }
    }

    fn append_text(self, s: &mut String) {
        match self {
            AttentionKernel::Rope => s.append(ROPE_PARTIAL_F32_HELPERS),
            AttentionKernel::Split => s.append(ATTENTION_DECODE_SPLIT_PARTIAL_F32_HELPERS),
            AttentionKernel::Splitgqa => s.append(ATTENTION_DECODE_SPLITGQA_PARTIAL_F32_HELPERS),
            AttentionKernel::SplitgqaRows => s.append(ATTENTION_DECODE_SPLITGQA_PARTIAL_ROWS_F32_HELPERS),
            AttentionKernel::SplitgqaRowsQg => s.append(ATTENTION_DECODE_SPLITGQA_PARTIAL_ROWS_QG_F32_HELPERS),
            AttentionKernel::Verify2pStats => s.append(ATTENTION_VERIFY2P_STATS_F32_HELPERS),
            AttentionKernel::Verify2pPv => s.append(ATTENTION_VERIFY2P_PV_F32_HELPERS),
            _ => {},
        }
        assert(s@ =~= old(s)@ + self.helpers());
        match self {
            AttentionKernel::Rope => declare(
                s,
                false,
                "rope_partial_f32",
                &rope_partial_f32_list(),
            ),
            AttentionKernel::RopeBackward => declare(
                s,
                false,
                "rope_partial_backward_f32",
                &rope_partial_backward_f32_list(),
            ),
            AttentionKernel::SplitQg => declare(
                s,
                false,
                "split_qg_f32",
                &split_qg_f32_list(),
            ),
            AttentionKernel::RmsnormBatched => declare(
                s,
                false,
                "rmsnorm_batched_f32",
                &rmsnorm_batched_f32_list(),
            ),
            AttentionKernel::KvCacheAppend => declare(
                s,
                false,
                "kv_cache_append_f32",
                &kv_cache_append_f32_list(),
            ),
            AttentionKernel::AttentionDecode => declare(
                s,
                false,
                "attention_decode_f32",
                &attention_decode_f32_list(),
            ),
            AttentionKernel::OutputGate => declare(
                s,
                false,
                "output_gate_f32",
                &output_gate_f32_list(),
            ),
            AttentionKernel::RopeDevpos => declare(
                s,
                false,
                "rope_partial_f32_devpos",
                &rope_partial_f32_devpos_list(),
            ),
            AttentionKernel::KvCacheAppendDevpos => declare(
                s,
                false,
                "kv_cache_append_f32_devpos",
                &kv_cache_append_f32_devpos_list(),
            ),
            AttentionKernel::AttentionDecodeDevpos => declare(
                s,
                false,
                "attention_decode_f32_devpos",
                &attention_decode_f32_devpos_list(),
            ),
            AttentionKernel::Split => declare(
                s,
                false,
                "attention_decode_split_partial_f32",
                &attention_decode_split_partial_f32_list(),
            ),
            AttentionKernel::SplitDevpos => declare(
                s,
                false,
                "attention_decode_split_partial_f32_devpos",
                &attention_decode_split_partial_f32_devpos_list(),
            ),
            AttentionKernel::Splitgqa => declare(
                s,
                false,
                "attention_decode_splitgqa_partial_f32",
                &attention_decode_split_partial_f32_list(),
            ),
            AttentionKernel::SplitgqaDevpos => declare(
                s,
                false,
                "attention_decode_splitgqa_partial_f32_devpos",
                &attention_decode_split_partial_f32_devpos_list(),
            ),
            AttentionKernel::SplitCombine => declare(
                s,
                false,
                "attention_decode_split_combine_f32",
                &attention_decode_split_combine_f32_list(),
            ),
            AttentionKernel::RopeRows => declare(
                s,
                false,
                "rope_partial_rows_f32",
                &rope_partial_rows_f32_list(),
            ),
            AttentionKernel::RopeRowsDevpos => declare(
                s,
                false,
                "rope_partial_rows_f32_devpos",
                &rope_partial_rows_f32_devpos_list(),
            ),
            AttentionKernel::KvAppendRows => declare(
                s,
                false,
                "kv_cache_append_rows_f32",
                &kv_cache_append_rows_f32_list(),
            ),
            AttentionKernel::KvAppendRowsDevpos => declare(
                s,
                false,
                "kv_cache_append_rows_f32_devpos",
                &kv_cache_append_rows_f32_devpos_list(),
            ),
            AttentionKernel::SplitQgRows => declare(
                s,
                false,
                "split_qg_rows_f32",
                &split_qg_rows_f32_list(),
            ),
            AttentionKernel::SplitgqaRows => declare(
                s,
                false,
                "attention_decode_splitgqa_partial_rows_f32",
                &attention_decode_splitgqa_partial_rows_f32_list(),
            ),
            AttentionKernel::SplitgqaRowsDevpos => declare(
                s,
                false,
                "attention_decode_splitgqa_partial_rows_f32_devpos",
                &attention_decode_splitgqa_partial_rows_f32_devpos_list(),
            ),
            AttentionKernel::SplitgqaRowsMa => declare(
                s,
                false,
                "attention_decode_splitgqa_partial_rows_ma_f32",
                &attention_decode_splitgqa_partial_rows_f32_list(),
            ),
            AttentionKernel::SplitgqaRowsMaDevpos => declare(
                s,
                false,
                "attention_decode_splitgqa_partial_rows_ma_f32_devpos",
                &attention_decode_splitgqa_partial_rows_f32_devpos_list(),
            ),
            AttentionKernel::SplitCombineRows => declare(
                s,
                false,
                "attention_decode_split_combine_rows_f32",
                &attention_decode_split_combine_rows_f32_list(),
            ),
            AttentionKernel::SplitgqaRowsQg => declare(
                s,
                true,
                "attention_decode_splitgqa_partial_rows_qg_f32",
                &attention_decode_splitgqa_partial_rows_f32_list(),
            ),
            AttentionKernel::SplitgqaRowsQgDevpos => declare(
                s,
                true,
                "attention_decode_splitgqa_partial_rows_qg_f32_devpos",
                &attention_decode_splitgqa_partial_rows_f32_devpos_list(),
            ),
            AttentionKernel::SplitgqaRowsQgma => declare(
                s,
                true,
                "attention_decode_splitgqa_partial_rows_qgma_f32",
                &attention_decode_splitgqa_partial_rows_f32_list(),
            ),
            AttentionKernel::SplitgqaRowsQgmaDevpos => declare(
                s,
                true,
                "attention_decode_splitgqa_partial_rows_qgma_f32_devpos",
                &attention_decode_splitgqa_partial_rows_f32_devpos_list(),
            ),
            AttentionKernel::Verify2pStats => declare(
                s,
                true,
                "attention_verify2p_stats_f32",
                &attention_verify2p_stats_f32_list(),
            ),
            AttentionKernel::Verify2pStatsDevpos => declare(
                s,
                true,
                "attention_verify2p_stats_f32_devpos",
                &attention_verify2p_stats_f32_devpos_list(),
            ),
            AttentionKernel::Verify2pMerge => declare(
                s,
                false,
                "attention_verify2p_merge_f32",
                &attention_verify2p_merge_f32_list(),
            ),
            AttentionKernel::Verify2pPv => declare(
                s,
                true,
                "attention_verify2p_pv_f32",
                &attention_verify2p_pv_f32_list(),
            ),
            AttentionKernel::Verify2pPvDevpos => declare(
                s,
                true,
                "attention_verify2p_pv_f32_devpos",
                &attention_verify2p_pv_f32_devpos_list(),
            ),
        }
        match self {
            AttentionKernel::Rope => s.append(ROPE_PARTIAL_F32_BODY),
            AttentionKernel::RopeBackward => s.append(ROPE_PARTIAL_BACKWARD_F32_BODY),
            AttentionKernel::SplitQg => s.append(SPLIT_QG_F32_BODY),
            AttentionKernel::RmsnormBatched => s.append(RMSNORM_BATCHED_F32_BODY),
            AttentionKernel::KvCacheAppend => s.append(KV_CACHE_APPEND_F32_BODY),
            AttentionKernel::AttentionDecode => s.append(ATTENTION_DECODE_F32_BODY),
            AttentionKernel::OutputGate => s.append(OUTPUT_GATE_F32_BODY),
            AttentionKernel::RopeDevpos => s.append(ROPE_PARTIAL_F32_DEVPOS_BODY),
            AttentionKernel::KvCacheAppendDevpos => s.append(KV_CACHE_APPEND_F32_DEVPOS_BODY),
            AttentionKernel::AttentionDecodeDevpos => s.append(ATTENTION_DECODE_F32_DEVPOS_BODY),
            AttentionKernel::Split => s.append(ATTENTION_DECODE_SPLIT_PARTIAL_F32_BODY),
            AttentionKernel::SplitDevpos => s.append(ATTENTION_DECODE_SPLIT_PARTIAL_F32_DEVPOS_BODY),
            AttentionKernel::Splitgqa => s.append(ATTENTION_DECODE_SPLITGQA_PARTIAL_F32_BODY),
            AttentionKernel::SplitgqaDevpos => s.append(ATTENTION_DECODE_SPLITGQA_PARTIAL_F32_DEVPOS_BODY),
            AttentionKernel::SplitCombine => s.append(ATTENTION_DECODE_SPLIT_COMBINE_F32_BODY),
            AttentionKernel::RopeRows => s.append(ROPE_PARTIAL_ROWS_F32_BODY),
            AttentionKernel::RopeRowsDevpos => s.append(ROPE_PARTIAL_ROWS_F32_DEVPOS_BODY),
            AttentionKernel::KvAppendRows => s.append(KV_CACHE_APPEND_ROWS_F32_BODY),
            AttentionKernel::KvAppendRowsDevpos => s.append(KV_CACHE_APPEND_ROWS_F32_DEVPOS_BODY),
            AttentionKernel::SplitQgRows => s.append(SPLIT_QG_ROWS_F32_BODY),
            AttentionKernel::SplitgqaRows => s.append(ATTENTION_DECODE_SPLITGQA_PARTIAL_ROWS_F32_BODY),
            AttentionKernel::SplitgqaRowsDevpos => s.append(ATTENTION_DECODE_SPLITGQA_PARTIAL_ROWS_F32_DEVPOS_BODY),
            AttentionKernel::SplitgqaRowsMa => s.append(ATTENTION_DECODE_SPLITGQA_PARTIAL_ROWS_MA_F32_BODY),
            AttentionKernel::SplitgqaRowsMaDevpos => s.append(ATTENTION_DECODE_SPLITGQA_PARTIAL_ROWS_MA_F32_DEVPOS_BODY),
            AttentionKernel::SplitCombineRows => s.append(ATTENTION_DECODE_SPLIT_COMBINE_ROWS_F32_BODY),
            AttentionKernel::SplitgqaRowsQg => s.append(ATTENTION_DECODE_SPLITGQA_PARTIAL_ROWS_QG_F32_BODY),
            AttentionKernel::SplitgqaRowsQgDevpos => s.append(ATTENTION_DECODE_SPLITGQA_PARTIAL_ROWS_QG_F32_DEVPOS_BODY),
            AttentionKernel::SplitgqaRowsQgma => s.append(ATTENTION_DECODE_SPLITGQA_PARTIAL_ROWS_QGMA_F32_BODY),
            AttentionKernel::SplitgqaRowsQgmaDevpos => s.append(ATTENTION_DECODE_SPLITGQA_PARTIAL_ROWS_QGMA_F32_DEVPOS_BODY),
            AttentionKernel::Verify2pStats => s.append(ATTENTION_VERIFY2P_STATS_F32_BODY),
            AttentionKernel::Verify2pStatsDevpos => s.append(ATTENTION_VERIFY2P_STATS_F32_DEVPOS_BODY),
            AttentionKernel::Verify2pMerge => s.append(ATTENTION_VERIFY2P_MERGE_F32_BODY),
            AttentionKernel::Verify2pPv => s.append(ATTENTION_VERIFY2P_PV_F32_BODY),
            AttentionKernel::Verify2pPvDevpos => s.append(ATTENTION_VERIFY2P_PV_F32_DEVPOS_BODY),
        }
        assert(s@ =~= old(s)@ + (self.helpers() + self.declared().text() + self.body()));
    }
}

/// The kernels in the order of the text.
pub open spec fn attention_text_order() -> Seq<AttentionKernel> {
    seq![
        AttentionKernel::Rope,
        AttentionKernel::RopeBackward,
        AttentionKernel::SplitQg,
        AttentionKernel::RmsnormBatched,
        AttentionKernel::KvCacheAppend,
        AttentionKernel::AttentionDecode,
        AttentionKernel::OutputGate,
        AttentionKernel::RopeDevpos,
        AttentionKernel::KvCacheAppendDevpos,
        AttentionKernel::AttentionDecodeDevpos,
        AttentionKernel::Split,
        AttentionKernel::SplitDevpos,
        AttentionKernel::Splitgqa,
        AttentionKernel::SplitgqaDevpos,
        AttentionKernel::SplitCombine,
        AttentionKernel::RopeRows,
        AttentionKernel::RopeRowsDevpos,
        AttentionKernel::KvAppendRows,
        AttentionKernel::KvAppendRowsDevpos,
        AttentionKernel::SplitQgRows,
        AttentionKernel::SplitgqaRows,
        AttentionKernel::SplitgqaRowsDevpos,
        AttentionKernel::SplitgqaRowsMa,
        AttentionKernel::SplitgqaRowsMaDevpos,
        AttentionKernel::SplitCombineRows,
        AttentionKernel::SplitgqaRowsQg,
        AttentionKernel::SplitgqaRowsQgDevpos,
        AttentionKernel::SplitgqaRowsQgma,
        AttentionKernel::SplitgqaRowsQgmaDevpos,
        AttentionKernel::Verify2pStats,
        AttentionKernel::Verify2pStatsDevpos,
        AttentionKernel::Verify2pMerge,
        AttentionKernel::Verify2pPv,
        AttentionKernel::Verify2pPvDevpos,
    ]
}

/// The whole text.
pub open spec fn attention_cuda_src() -> Seq<char> {
    text_of_kernels(attention_text_order())
}

/// [`attention_cuda_src`], computed.
pub fn attention_source() -> (r: String)
    ensures
        r@ == attention_cuda_src(),
{
    kernels_text(
        vec![
            AttentionKernel::Rope,
            AttentionKernel::RopeBackward,
            AttentionKernel::SplitQg,
            AttentionKernel::RmsnormBatched,
            AttentionKernel::KvCacheAppend,
            AttentionKernel::AttentionDecode,
            AttentionKernel::OutputGate,
            AttentionKernel::RopeDevpos,
            AttentionKernel::KvCacheAppendDevpos,
            AttentionKernel::AttentionDecodeDevpos,
            AttentionKernel::Split,
            AttentionKernel::SplitDevpos,
            AttentionKernel::Splitgqa,
            AttentionKernel::SplitgqaDevpos,
            AttentionKernel::SplitCombine,
            AttentionKernel::RopeRows,
            AttentionKernel::RopeRowsDevpos,
            AttentionKernel::KvAppendRows,
            AttentionKernel::KvAppendRowsDevpos,
            AttentionKernel::SplitQgRows,
            AttentionKernel::SplitgqaRows,
            AttentionKernel::SplitgqaRowsDevpos,
            AttentionKernel::SplitgqaRowsMa,
            AttentionKernel::SplitgqaRowsMaDevpos,
            AttentionKernel::SplitCombineRows,
            AttentionKernel::SplitgqaRowsQg,
            AttentionKernel::SplitgqaRowsQgDevpos,
            AttentionKernel::SplitgqaRowsQgma,
            AttentionKernel::SplitgqaRowsQgmaDevpos,
            AttentionKernel::Verify2pStats,
            AttentionKernel::Verify2pStatsDevpos,
            AttentionKernel::Verify2pMerge,
            AttentionKernel::Verify2pPv,
            AttentionKernel::Verify2pPvDevpos,
        ],
    )
}

} // verus!
