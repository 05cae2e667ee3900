//! The two kernel sources. Both compute the same thing and differ only in
//! where the one-word threadgroup scratch buffer is declared: as a kernel
//! argument bound at threadgroup index 0, or as a variable local to the kernel.

use vstd::prelude::*;

verus! {

/// Name of the kernel function that both sources define.
pub const ENTRY_POINT: &'static str = "entry_point";

/// Kernel whose threadgroup scratch word is a parameter at threadgroup index 0.
pub const MEM_AS_ARG_SRC: &'static str = "#include <metal_stdlib>
using namespace metal;

kernel void entry_point(
    device const uint *flag [[buffer(0)]],
    device atomic_uint *output [[buffer(1)]],
    threadgroup uint *scratch [[threadgroup(0)]],
    uint lid [[thread_position_in_threadgroup]])
{
    if (lid == 0) {
        scratch[0] = flag[0];
    }
    threadgroup_barrier(mem_flags::mem_threadgroup);
    if (lid == 0 && scratch[0] == 0) {
        atomic_fetch_add_explicit(output, 1, memory_order_relaxed);
    }
}
";

/// Kernel whose threadgroup scratch word is declared inside the kernel body.
pub const MEM_AS_LOCAL_SRC: &'static str = "#include <metal_stdlib>
using namespace metal;

kernel void entry_point(
    device const uint *flag [[buffer(0)]],
    device atomic_uint *output [[buffer(1)]],
    uint lid [[thread_position_in_threadgroup]])
{
    threadgroup uint scratch[1];
    if (lid == 0) {
        scratch[0] = flag[0];
    }
    threadgroup_barrier(mem_flags::mem_threadgroup);
    if (lid == 0 && scratch[0] == 0) {
        atomic_fetch_add_explicit(output, 1, memory_order_relaxed);
    }
}
";

/// Where a kernel declares its threadgroup scratch memory.
#[derive(Clone, Copy, Debug, PartialEq, Eq, Structural)]
pub enum ShaderVariant {
    /// The scratch buffer is a kernel argument.
    MemAsArg,
    /// The scratch buffer is a variable local to the kernel.
    MemAsLocal,
}

/// The source text of each variant.
pub open spec fn shader_source(variant: ShaderVariant) -> Seq<char> {
    match variant {
        ShaderVariant::MemAsArg => MEM_AS_ARG_SRC@,
        ShaderVariant::MemAsLocal => MEM_AS_LOCAL_SRC@,
    }
}

/// The kernel source to compile for `variant`.
pub fn load_shader_src(variant: ShaderVariant) -> (r: &'static str)
    ensures
        r@ == shader_source(variant),
{
    match variant {
        ShaderVariant::MemAsArg => MEM_AS_ARG_SRC,
        ShaderVariant::MemAsLocal => MEM_AS_LOCAL_SRC,
    }
}

} // verus!
