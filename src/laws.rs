//! Properties of the rendered text, proved over the renderer's
//! specification.
use vstd::prelude::*;
use crate::ir::{Binding, ComputeShader, LocalArray, SharedMemory};
use crate::render::{
    array_type, binding_decl, binding_slots, builtin_piece, entry_params, extension_text,
    generated_name, params_between,
};
use crate::text::dec;

verus! {

/// Binding numbers form one gapless sequence `0 .. n+m+k` over the inputs,
/// the outputs and the named bindings, in that order: the slot at emission
/// position `j` carries number `j`, so the first named binding gets `n + m`.
/// Inputs and outputs are named `input_{i}_global` and `output_{i}_global`,
/// named bindings keep their given names.
pub proof fn lemma_binding_numbers_contiguous(sh: ComputeShader)
    ensures
        binding_slots(sh).len() == sh.inputs@.len() + sh.outputs@.len() + sh.named@.len(),
        forall|j: int| 0 <= j < binding_slots(sh).len() ==> #[trigger] binding_slots(sh)[j].2 == j,
        forall|i: int|
            0 <= i < sh.inputs@.len() ==> #[trigger] binding_slots(sh)[i] == (
                generated_name("input"@, i as nat),
                sh.inputs@[i],
                i as nat,
            ),
        forall|i: int|
            0 <= i < sh.outputs@.len() ==> #[trigger] binding_slots(sh)[sh.inputs@.len() + i] == (
                generated_name("output"@, i as nat),
                sh.outputs@[i],
                (sh.inputs@.len() + i) as nat,
            ),
        forall|i: int|
            0 <= i < sh.named@.len() ==> #[trigger] binding_slots(sh)[sh.inputs@.len()
                + sh.outputs@.len() + i] == (
                sh.named@[i].0@,
                sh.named@[i].1,
                (sh.inputs@.len() + sh.outputs@.len() + i) as nat,
            ),
        sh.named@.len() > 0 ==> binding_slots(sh)[(sh.inputs@.len() + sh.outputs@.len()) as int].2
            == sh.inputs@.len() + sh.outputs@.len(),
{
    let n = sh.inputs@.len() as int;
    let m = sh.outputs@.len() as int;
    let s = binding_slots(sh);
    assert forall|j: int| 0 <= j < s.len() implies #[trigger] s[j].2 == j by {
        if j < n {
        } else if j < n + m {
            assert(s[j] == s[n + (j - n)]);
        } else {
            assert(s[j] == s[n + m + (j - n - m)]);
        }
    }
    if sh.named@.len() > 0 {
        assert(s[n + m] == s[n + m + 0]);
    }
}

proof fn lemma_params_split(flags: Seq<bool>, lo: int, mid: int, hi: int)
    requires
        lo <= mid <= hi,
    ensures
        params_between(flags, lo, hi) == params_between(flags, lo, mid) + params_between(
            flags,
            mid,
            hi,
        ),
    decreases hi - mid,
{
    if hi == mid {
        assert(params_between(flags, lo, mid) + params_between(flags, mid, hi) =~= params_between(
            flags,
            lo,
            mid,
        ));
    } else {
        lemma_params_split(flags, lo, mid, hi - 1);
        assert(params_between(flags, lo, hi) =~= params_between(flags, lo, mid) + params_between(
            flags,
            mid,
            hi,
        ));
    }
}

proof fn lemma_params_frame(flags: Seq<bool>, k: int, b: bool, lo: int, hi: int)
    requires
        flags.len() == 5,
        0 <= k < 5,
        0 <= lo,
        hi <= 5,
        k < lo || hi <= k,
    ensures
        params_between(flags.update(k, b), lo, hi) == params_between(flags, lo, hi),
    decreases hi - lo,
{
    if lo < hi {
        lemma_params_frame(flags, k, b, lo, hi - 1);
        assert(builtin_piece(flags.update(k, b), hi - 1) == builtin_piece(flags, hi - 1));
    }
}

/// The built-in parameters appear in the fixed order global_invocation_id,
/// local_invocation_index, local_invocation_id, num_workgroups,
/// workgroup_id, each present exactly when its flag is set.
pub proof fn lemma_builtin_order(flags: Seq<bool>)
    requires
        flags.len() == 5,
    ensures
        entry_params(flags) == builtin_piece(flags, 0) + builtin_piece(flags, 1) + builtin_piece(
            flags,
            2,
        ) + builtin_piece(flags, 3) + builtin_piece(flags, 4),
{
    assert(params_between(flags, 0, 0) == Seq::<char>::empty());
    assert(params_between(flags, 0, 1) =~= builtin_piece(flags, 0));
    assert(params_between(flags, 0, 2) =~= builtin_piece(flags, 0) + builtin_piece(flags, 1));
    assert(params_between(flags, 0, 3) =~= builtin_piece(flags, 0) + builtin_piece(flags, 1)
        + builtin_piece(flags, 2));
    assert(params_between(flags, 0, 4) =~= builtin_piece(flags, 0) + builtin_piece(flags, 1)
        + builtin_piece(flags, 2) + builtin_piece(flags, 3));
    assert(entry_params(flags) =~= builtin_piece(flags, 0) + builtin_piece(flags, 1)
        + builtin_piece(flags, 2) + builtin_piece(flags, 3) + builtin_piece(flags, 4));
}

/// Setting or clearing flag `k` changes only the piece at position `k` of
/// the parameter list: what comes before and after it stays the same.
pub proof fn lemma_builtin_toggle(flags: Seq<bool>, k: int, b: bool)
    requires
        flags.len() == 5,
        0 <= k < 5,
    ensures
        entry_params(flags) == params_between(flags, 0, k) + builtin_piece(flags, k)
            + params_between(flags, k + 1, 5),
        entry_params(flags.update(k, b)) == params_between(flags, 0, k) + builtin_piece(
            flags.update(k, b),
            k,
        ) + params_between(flags, k + 1, 5),
{
    let g = flags.update(k, b);
    lemma_params_split(flags, 0, k, 5);
    lemma_params_split(flags, k, k + 1, 5);
    lemma_params_split(g, 0, k, 5);
    lemma_params_split(g, k, k + 1, 5);
    assert(params_between(flags, k, k) == Seq::<char>::empty());
    assert(params_between(g, k, k) == Seq::<char>::empty());
    assert(params_between(flags, k, k + 1) =~= builtin_piece(flags, k));
    assert(params_between(g, k, k + 1) =~= builtin_piece(g, k));
    lemma_params_frame(flags, k, b, 0, k);
    lemma_params_frame(flags, k, b, k + 1, 5);
    assert(entry_params(flags) =~= params_between(flags, 0, k) + builtin_piece(flags, k)
        + params_between(flags, k + 1, 5));
    assert(entry_params(g) =~= params_between(flags, 0, k) + builtin_piece(g, k)
        + params_between(flags, k + 1, 5));
}

/// A binding without a size is declared as `array<item>`; one of fixed
/// length `k` as `array<item, k>`.
pub proof fn lemma_binding_array_type(name: Seq<char>, b: Binding, index: nat)
    ensures
        b.size is None ==> array_type(b) == "array<"@ + b.item.text() + ">"@,
        b.size is Some ==> array_type(b) == "array<"@ + b.item.text() + ", "@ + dec(
            b.size->0 as nat,
        ) + ">"@,
        binding_decl(name, b, index) == "@group(0)\n@binding("@ + dec(index) + ")\nvar<"@
            + b.location.text() + ", "@ + b.visibility.text() + "> "@ + name + ": "@ + array_type(
            b,
        ) + ";\n\n"@,
{
}

/// The rendered text is a function of what the shader holds: two shaders
/// with the same bindings, arrays, geometry, flags, body and extensions
/// render the same text, whatever their feature flags.
pub proof fn lemma_render_deterministic(a: ComputeShader, b: ComputeShader)
    requires
        a.inputs@ == b.inputs@,
        a.outputs@ == b.outputs@,
        a.named@.map_values(|p: (String, Binding)| (p.0@, p.1)) == b.named@.map_values(
            |p: (String, Binding)| (p.0@, p.1),
        ),
        a.shared_memories@ == b.shared_memories@,
        a.local_arrays@ == b.local_arrays@,
        a.workgroup_size == b.workgroup_size,
        a.global_invocation_id == b.global_invocation_id,
        a.local_invocation_index == b.local_invocation_index,
        a.local_invocation_id == b.local_invocation_id,
        a.num_workgroups == b.num_workgroups,
        a.workgroup_id == b.workgroup_id,
        a.body@ == b.body@,
        a.extensions@.map_values(|e: String| e@) == b.extensions@.map_values(|e: String| e@),
    ensures
        a.rendered() == b.rendered(),
{
    let na = a.named@.map_values(|p: (String, Binding)| (p.0@, p.1));
    let nb = b.named@.map_values(|p: (String, Binding)| (p.0@, p.1));
    assert(a.named@.len() == na.len() && na.len() == nb.len() && nb.len() == b.named@.len());
    assert forall|i: int| 0 <= i < a.named@.len() implies a.named@[i].0@ == b.named@[i].0@
        && a.named@[i].1 == b.named@[i].1 by {
        assert(na[i] == nb[i]);
    }
    assert(binding_slots(a) =~= binding_slots(b));
    let ea = a.extensions@.map_values(|e: String| e@);
    let eb = b.extensions@.map_values(|e: String| e@);
    assert(a.extensions@.len() == ea.len() && ea.len() == eb.len() && eb.len()
        == b.extensions@.len());
    assert forall|i: int| 0 <= i < a.extensions@.len() implies a.extensions@[i]@
        == b.extensions@[i]@ by {
        assert(ea[i] == eb[i]);
    }
    assert(a.extensions@.map_values(|e: String| extension_text(e@)) =~= b.extensions@.map_values(
        |e: String| extension_text(e@),
    ));
    assert(a.shared_memories@.map_values(|s: SharedMemory| crate::render::shared_decl(s))
        =~= b.shared_memories@.map_values(|s: SharedMemory| crate::render::shared_decl(s)));
    assert(a.local_arrays@.map_values(|l: LocalArray| crate::render::local_decl(l))
        =~= b.local_arrays@.map_values(|l: LocalArray| crate::render::local_decl(l)));
}

} // verus!
