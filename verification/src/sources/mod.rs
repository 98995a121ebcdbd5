//! The CUDA C texts that the modules are compiled from.
//!
//! A text is the kernels of its module, one after another: the helpers that stand
//! ahead of a kernel, its declaration, and its body. Declarations are data, so
//! that what a launch hands over can be held against what the kernel declares.

pub mod attention;
pub mod attention_score_mma;
pub mod deltanet;
pub mod elementwise;
pub mod embedding;
pub mod lora;

use vstd::prelude::*;
use crate::launch::{Arg, LaunchView};
use crate::module::KernelId;

verus! {

/// The type of a kernel parameter.
#[derive(Clone, Copy, Debug, PartialEq, Eq)]
pub enum CudaType {
    ConstFloat,
    Float,
    ConstInt,
    Int,
    FloatsIn,
    FloatsOut,
    IntsIn,
    IntsOut,
    BytesOut,
    LongsOut,
    CacheIn,
    CacheOut,
    HalvesOut,
    WordsIn,
}

impl CudaType {
    /// The type as the text spells it, up to the parameter's name.
    pub open spec fn spelling(self) -> Seq<char> {
        match self {
            CudaType::ConstFloat => "const float "@,
            CudaType::Float => "float "@,
            CudaType::ConstInt => "const int "@,
            CudaType::Int => "int "@,
            CudaType::FloatsIn => "const float* __restrict__ "@,
            CudaType::FloatsOut => "float* __restrict__ "@,
            CudaType::IntsIn => "const int* __restrict__ "@,
            CudaType::IntsOut => "int* __restrict__ "@,
            CudaType::BytesOut => "signed char* __restrict__ "@,
            CudaType::LongsOut => "unsigned long long* __restrict__ "@,
            CudaType::CacheIn => "const kv_elt* __restrict__ "@,
            CudaType::CacheOut => "kv_elt* __restrict__ "@,
            CudaType::HalvesOut => "unsigned short* __restrict__ "@,
            CudaType::WordsIn => "const unsigned int* __restrict__ "@,
        }
    }

    /// [`CudaType::spelling`], computed.
    fn spelled(self) -> (r: &'static str)
        ensures
            r@ == self.spelling(),
    {
        match self {
            CudaType::ConstFloat => "const float ",
            CudaType::Float => "float ",
            CudaType::ConstInt => "const int ",
            CudaType::Int => "int ",
            CudaType::FloatsIn => "const float* __restrict__ ",
            CudaType::FloatsOut => "float* __restrict__ ",
            CudaType::IntsIn => "const int* __restrict__ ",
            CudaType::IntsOut => "int* __restrict__ ",
            CudaType::BytesOut => "signed char* __restrict__ ",
            CudaType::LongsOut => "unsigned long long* __restrict__ ",
            CudaType::CacheIn => "const kv_elt* __restrict__ ",
            CudaType::CacheOut => "kv_elt* __restrict__ ",
            CudaType::HalvesOut => "unsigned short* __restrict__ ",
            CudaType::WordsIn => "const unsigned int* __restrict__ ",
        }
    }

    /// Whether an argument is of this type: a pointer, an integer or a float.
    pub open spec fn takes(self, arg: Arg) -> bool {
        match self {
            CudaType::ConstFloat | CudaType::Float => arg is Recip || arg is InvSqrt || arg is Real,
            CudaType::ConstInt | CudaType::Int => arg is I32,
            _ => arg is Buf,
        }
    }
}

/// A parameter as a kernel declares it.
pub struct Param {
    pub ty: CudaType,
    pub name: &'static str,
}

/// The model of a [`Param`].
pub struct ParamView {
    pub ty: CudaType,
    pub name: Seq<char>,
}

impl View for Param {
    type V = ParamView;

    open spec fn view(&self) -> ParamView {
        ParamView { ty: self.ty, name: self.name@ }
    }
}

/// A parameter of the type and name.
pub open spec fn param(ty: CudaType, name: Seq<char>) -> ParamView {
    ParamView { ty, name }
}

/// The head of a kernel.
pub const KERNEL_HEAD: &'static str = r#"extern "C" __global__ void "#;

/// The head of a kernel that is compiled for blocks of up to 1024 threads.
pub const BOUNDED_HEAD: &'static str = r#"extern "C" __global__ void __launch_bounds__(1024)
"#;

/// A kernel's declaration.
#[verifier::ext_equal]
pub struct Declaration {
    /// Whether the kernel is compiled for blocks of up to 1024 threads.
    pub bounded: bool,
    pub name: Seq<char>,
    pub params: Seq<ParamView>,
}

/// The parameters, one to a line.
pub open spec fn params_text(params: Seq<ParamView>) -> Seq<char>
    decreases params.len(),
{
    if params.len() == 0 {
        Seq::empty()
    } else {
        let before = params.drop_last();
        params_text(before) + (if before.len() == 0 {
            "\n    "@
        } else {
            ",\n    "@
        }) + params.last().ty.spelling() + params.last().name
    }
}

impl Declaration {
    /// The declaration as text.
    pub open spec fn text(self) -> Seq<char> {
        (if self.bounded {
            BOUNDED_HEAD@
        } else {
            KERNEL_HEAD@
        }) + self.name + "("@ + params_text(self.params) + ")"@
    }
}

/// Adds a declaration to a text.
fn declare(s: &mut String, bounded: bool, name: &'static str, params: &Vec<Param>)
    ensures
        final(s)@ == old(s)@ + (Declaration {
            bounded,
            name: name@,
            params: params@.map_values(|p: Param| p@),
        }).text(),
{
    let ghost ps = params@.map_values(|p: Param| p@);
    s.append(if bounded { BOUNDED_HEAD } else { KERNEL_HEAD });
    s.append(name);
    s.append("(");
    let ghost start = s@;
    let mut i: usize = 0;
    assert(start =~= start + params_text(ps.take(0)));
    while i < params.len()
        invariant
            i <= params.len(),
            ps == params@.map_values(|p: Param| p@),
            s@ == start + params_text(ps.take(i as int)),
        decreases params.len() - i,
    {
        let ghost here = ps.take(i as int);
        let ghost next = ps.take(i + 1);
        assert(next.drop_last() =~= here);
        assert(next.last() == params@[i as int]@);
        s.append(if i == 0 { "\n    " } else { ",\n    " });
        s.append(params[i].ty.spelled());
        s.append(params[i].name);
        assert(s@ =~= start + params_text(next));
        i += 1;
    }
    assert(ps.take(ps.len() as int) =~= ps);
    s.append(")");
    assert(s@ =~= old(s)@ + (Declaration { bounded, name: name@, params: ps }).text());
}

/// A kernel and its part of a text.
pub trait KernelText: KernelId {
    /// What stands ahead of the kernel: types, macros and device functions.
    spec fn helpers(self) -> Seq<char>;

    /// The kernel's declaration.
    spec fn declared(self) -> Declaration;

    /// The kernel's body.
    spec fn body(self) -> Seq<char>;

    /// Adds the kernel to a text.
    fn append_text(self, s: &mut String)
        ensures
            final(s)@ == old(s)@ + (self.helpers() + self.declared().text() + self.body()),
    ;
}

/// A kernel's part of a text.
pub open spec fn kernel_text<K: KernelText>(k: K) -> Seq<char> {
    k.helpers() + k.declared().text() + k.body()
}

/// The text of the kernels, in order.
pub open spec fn text_of_kernels<K: KernelText>(ks: Seq<K>) -> Seq<char>
    decreases ks.len(),
{
    if ks.len() == 0 {
        Seq::empty()
    } else {
        text_of_kernels(ks.drop_last()) + kernel_text(ks.last())
    }
}

/// [`text_of_kernels`], computed.
fn kernels_text<K: KernelText>(ks: Vec<K>) -> (r: String)
    ensures
        r@ == text_of_kernels(ks@),
{
    let mut s: String = String::new();
    let mut i: usize = 0;
    assert(s@ =~= text_of_kernels(ks@.take(0)));
    while i < ks.len()
        invariant
            i <= ks.len(),
            s@ == text_of_kernels(ks@.take(i as int)),
        decreases ks.len() - i,
    {
        let k: K = ks[i];
        assert(ks@.take(i + 1).drop_last() =~= ks@.take(i as int));
        k.append_text(&mut s);
        i += 1;
    }
    assert(ks@.take(ks@.len() as int) =~= ks@);
    s
}

/// Whether a launch calls the kernel that the text declares as `name`, with the
/// arguments given by the names of the kernel's parameters: each parameter in its
/// place, and of its type.
pub open spec fn calls<K: KernelText>(
    l: LaunchView<K>,
    name: Seq<char>,
    given: Seq<(Seq<char>, Arg)>,
) -> bool {
    let d = l.kernel.declared();
    &&& d.name == name
    &&& l.kernel.entry_point() == name
    &&& l.args.len() == d.params.len()
    &&& given.len() == d.params.len()
    &&& forall|i: int|
        0 <= i < given.len() ==> {
            &&& (#[trigger] given[i]).0 == d.params[i].name
            &&& given[i].1 == l.args[i]
            &&& d.params[i].ty.takes(l.args[i])
        }
}

/// The text of some kernels holds the declaration of each of them, with its body
/// behind it.
pub proof fn law_text_declares<K: KernelText>(ks: Seq<K>, i: int)
    requires
        0 <= i < ks.len(),
    ensures
        exists|before: Seq<char>, after: Seq<char>|
            text_of_kernels(ks) == #[trigger] (before + ks[i].declared().text() + ks[i].body()
                + after),
    decreases ks.len(),
{
    let k = ks[i];
    let rest = ks.drop_last();
    if i == ks.len() - 1 {
        let before = text_of_kernels(rest) + k.helpers();
        assert(text_of_kernels(ks) =~= before + k.declared().text() + k.body()
            + Seq::<char>::empty());
    } else {
        law_text_declares(rest, i);
        let (before, after) = choose|before: Seq<char>, after: Seq<char>|
            text_of_kernels(rest) == #[trigger] (before + k.declared().text() + k.body() + after);
        let tail = kernel_text(ks.last());
        assert(text_of_kernels(ks) =~= before + k.declared().text() + k.body() + (after + tail));
    }
}

} // verus!
