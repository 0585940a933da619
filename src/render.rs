//! The WGSL renderer: a single pass over a `ComputeShader` that writes its
//! bindings, auxiliary arrays, workgroup constants, entry point, body and
//! extensions.
use vstd::prelude::*;
use crate::ir::{Binding, ComputeShader, LocalArray, SharedMemory};
use crate::text::{
    concat_all, dec, lemma_concat_all_append, lemma_concat_all_take, push_decimal, push_str,
};

verus! {

/// The array type of a binding: `array<item, k>` with a fixed length `k`,
/// `array<item>` when unsized.
pub open spec fn array_type(b: Binding) -> Seq<char> {
    match b.size {
        Some(k) => "array<"@ + b.item.text() + ", "@ + dec(k as nat) + ">"@,
        None => "array<"@ + b.item.text() + ">"@,
    }
}

/// The declaration of binding `b` under `name` at binding number `index`.
pub open spec fn binding_decl(name: Seq<char>, b: Binding, index: nat) -> Seq<char> {
    "@group(0)\n@binding("@ + dec(index) + ")\nvar<"@ + b.location.text() + ", "@
        + b.visibility.text() + "> "@ + name + ": "@ + array_type(b) + ";\n\n"@
}

/// The synthesized name of the `i`-th binding of a class: `{prefix}_{i}_global`.
pub open spec fn generated_name(prefix: Seq<char>, i: nat) -> Seq<char> {
    prefix + "_"@ + dec(i) + "_global"@
}

/// A binding together with its name and its binding number.
pub type Slot = (Seq<char>, Binding, nat);

/// The slots of `bs`, named after `prefix`, numbered from `start` in order.
pub open spec fn numbered_slots(prefix: Seq<char>, bs: Seq<Binding>, start: nat) -> Seq<Slot> {
    Seq::new(bs.len(), |i: int| (generated_name(prefix, i as nat), bs[i], start + i as nat))
}

/// The slots of the named bindings, numbered from `start` in order.
pub open spec fn named_slots(named: Seq<(String, Binding)>, start: nat) -> Seq<Slot> {
    Seq::new(named.len(), |i: int| (named[i].0@, named[i].1, start + i as nat))
}

/// Every binding of the shader in emission order: inputs, outputs, then
/// the named ones, numbered in one shared sequence.
pub open spec fn binding_slots(sh: ComputeShader) -> Seq<Slot> {
    let n = sh.inputs@.len();
    let m = sh.outputs@.len();
    numbered_slots("input"@, sh.inputs@, 0) + numbered_slots("output"@, sh.outputs@, n)
        + named_slots(sh.named@, n + m)
}

pub open spec fn slot_decls(slots: Seq<Slot>) -> Seq<Seq<char>> {
    slots.map_values(|s: Slot| binding_decl(s.0, s.1, s.2))
}

/// The module-scope declaration of a shared array.
pub open spec fn shared_decl(a: SharedMemory) -> Seq<char> {
    "var<"@ + a.spec_location().text() + "> shared_memory_"@ + dec(a.spec_index() as nat)
        + ": array<"@ + a.spec_item().text() + ", "@ + dec(a.spec_size() as nat) + ">;\n\n"@
}

/// The function-scope declaration of a local array.
pub open spec fn local_decl(a: LocalArray) -> Seq<char> {
    "var a_"@ + dec(a.spec_name() as nat) + "_"@ + dec(a.spec_index() as nat) + ": array<"@
        + a.spec_item().text() + ", "@ + dec(a.spec_size() as nat) + ">;\n\n"@
}

pub open spec fn extension_text(e: Seq<char>) -> Seq<char> {
    e + "\n\n"@
}

/// The built-in parameter line at position `k` of the fixed order
/// global_invocation_id, local_invocation_index, local_invocation_id,
/// num_workgroups, workgroup_id.
pub open spec fn builtin_line(k: int) -> Seq<char> {
    if k == 0 {
        "    @builtin(global_invocation_id) global_id: vec3<u32>,\n"@
    } else if k == 1 {
        "    @builtin(local_invocation_index) local_idx: u32,\n"@
    } else if k == 2 {
        "    @builtin(local_invocation_id) local_invocation_id: vec3<u32>,\n"@
    } else if k == 3 {
        "    @builtin(num_workgroups) num_workgroups: vec3<u32>,\n"@
    } else {
        "    @builtin(workgroup_id) workgroup_id: vec3<u32>,\n"@
    }
}

/// The five built-in usage flags, in the fixed order of `builtin_line`.
pub open spec fn builtin_flags(sh: ComputeShader) -> Seq<bool> {
    seq![
        sh.global_invocation_id,
        sh.local_invocation_index,
        sh.local_invocation_id,
        sh.num_workgroups,
        sh.workgroup_id,
    ]
}

/// Line `k` when flag `k` is set, nothing otherwise.
pub open spec fn builtin_piece(flags: Seq<bool>, k: int) -> Seq<char> {
    if flags[k] {
        builtin_line(k)
    } else {
        Seq::empty()
    }
}

/// The pieces of positions `lo .. hi`, in order.
pub open spec fn params_between(flags: Seq<bool>, lo: int, hi: int) -> Seq<char>
    decreases hi - lo,
{
    if hi <= lo {
        Seq::empty()
    } else {
        params_between(flags, lo, hi - 1) + builtin_piece(flags, hi - 1)
    }
}

/// The entry point's parameter list.
pub open spec fn entry_params(flags: Seq<bool>) -> Seq<char> {
    params_between(flags, 0, 5)
}

/// The three workgroup-size constants.
pub open spec fn workgroup_consts(sh: ComputeShader) -> Seq<char> {
    let w = sh.workgroup_size;
    "const WORKGROUP_SIZE_X = "@ + dec(w.x as nat) + "u;\nconst WORKGROUP_SIZE_Y = "@
        + dec(w.y as nat) + "u;\nconst WORKGROUP_SIZE_Z = "@ + dec(w.z as nat) + "u;\n"@
}

/// The entry-point header up to the parameter list.
pub open spec fn entry_head(sh: ComputeShader) -> Seq<char> {
    let w = sh.workgroup_size;
    "\n@compute\n@workgroup_size("@ + dec(w.x as nat) + ", "@ + dec(w.y as nat) + ", "@
        + dec(w.z as nat) + ")\nfn main(\n"@
}

/// Everything that precedes the entry point's parameter list.
pub open spec fn before_params(sh: ComputeShader) -> Seq<char> {
    concat_all(slot_decls(binding_slots(sh)))
        + concat_all(sh.shared_memories@.map_values(|a: SharedMemory| shared_decl(a)))
        + workgroup_consts(sh) + entry_head(sh)
}

/// Everything that follows the entry point's parameter list.
pub open spec fn after_params(sh: ComputeShader) -> Seq<char> {
    ") {"@ + concat_all(sh.local_arrays@.map_values(|a: LocalArray| local_decl(a))) + sh.body@
        + "}"@ + concat_all(sh.extensions@.map_values(|e: String| extension_text(e@)))
}

impl ComputeShader {
    /// The WGSL text of the shader.
    pub open spec fn rendered(self) -> Seq<char> {
        before_params(self) + entry_params(builtin_flags(self)) + after_params(self)
    }
}

impl ComputeShader {
    /// Appends the array type of `binding`.
    fn format_array_type(out: &mut String, binding: &Binding)
        ensures
            final(out)@ == old(out)@ + array_type(*binding),
    {
        let ghost base = out@;
        push_str(out, "array<");
        binding.item.write_to(out);
        match binding.size {
            Some(size) => {
                push_str(out, ", ");
                push_decimal(out, size as u128);
            },
            None => {},
        }
        push_str(out, ">");
        assert(out@ =~= base + array_type(*binding));
    }

    /// Appends the declaration of `binding` under `name` at number `num_entry`.
    fn format_binding(out: &mut String, name: &str, binding: &Binding, num_entry: u128)
        ensures
            final(out)@ == old(out)@ + binding_decl(name@, *binding, num_entry as nat),
    {
        push_str(out, "@group(0)\n@binding(");
        push_decimal(out, num_entry);
        push_str(out, ")\nvar<");
        binding.location.write_to(out);
        push_str(out, ", ");
        binding.visibility.write_to(out);
        push_str(out, "> ");
        push_str(out, name);
        push_str(out, ": ");
        Self::format_array_type(out, binding);
        push_str(out, ";\n\n");
        assert(final(out)@ =~= old(out)@ + binding_decl(name@, *binding, num_entry as nat));
    }

    /// Appends the declarations of `bindings`, named after `prefix` and
    /// numbered from `num_entry`.
    fn format_bindings(out: &mut String, prefix: &str, bindings: &Vec<Binding>, num_entry: u128)
        requires
            num_entry <= 2 * (usize::MAX as u128),
        ensures
            final(out)@ == old(out)@ + concat_all(
                slot_decls(numbered_slots(prefix@, bindings@, num_entry as nat)),
            ),
    {
        let ghost base = out@;
        let ghost decls = slot_decls(numbered_slots(prefix@, bindings@, num_entry as nat));
        let mut i: usize = 0;
        while i < bindings.len()
            invariant
                i <= bindings.len(),
                num_entry <= 2 * (usize::MAX as u128),
                decls == slot_decls(numbered_slots(prefix@, bindings@, num_entry as nat)),
                out@ == base + concat_all(decls.take(i as int)),
            decreases bindings.len() - i,
        {
            let mut name = String::new();
            push_str(&mut name, prefix);
            push_str(&mut name, "_");
            push_decimal(&mut name, i as u128);
            push_str(&mut name, "_global");
            proof {
                assert(name@ == generated_name(prefix@, i as nat));
            }
            Self::format_binding(out, name.as_str(), &bindings[i], num_entry + i as u128);
            proof {
                lemma_concat_all_take(decls, i as int);
            }
            i = i + 1;
        }
        assert(decls.take(bindings@.len() as int) =~= decls);
    }

    /// Appends the declarations of the named bindings, numbered from
    /// `num_entry`.
    fn format_named(out: &mut String, named: &Vec<(String, Binding)>, num_entry: u128)
        requires
            num_entry <= 2 * (usize::MAX as u128),
        ensures
            final(out)@ == old(out)@ + concat_all(slot_decls(named_slots(named@, num_entry as nat))),
    {
        let ghost base = out@;
        let ghost decls = slot_decls(named_slots(named@, num_entry as nat));
        let mut i: usize = 0;
        while i < named.len()
            invariant
                i <= named.len(),
                num_entry <= 2 * (usize::MAX as u128),
                decls == slot_decls(named_slots(named@, num_entry as nat)),
                out@ == base + concat_all(decls.take(i as int)),
            decreases named.len() - i,
        {
            let entry = &named[i];
            Self::format_binding(out, entry.0.as_str(), &entry.1, num_entry + i as u128);
            proof {
                lemma_concat_all_take(decls, i as int);
            }
            i = i + 1;
        }
        assert(decls.take(named@.len() as int) =~= decls);
    }

    /// Appends the module-scope declarations of the shared arrays.
    fn format_shared_memories(out: &mut String, arrays: &Vec<SharedMemory>)
        ensures
            final(out)@ == old(out)@ + concat_all(
                arrays@.map_values(|a: SharedMemory| shared_decl(a)),
            ),
    {
        let ghost base = out@;
        let ghost decls = arrays@.map_values(|a: SharedMemory| shared_decl(a));
        let mut i: usize = 0;
        while i < arrays.len()
            invariant
                i <= arrays.len(),
                decls == arrays@.map_values(|a: SharedMemory| shared_decl(a)),
                out@ == base + concat_all(decls.take(i as int)),
            decreases arrays.len() - i,
        {
            let array = &arrays[i];
            let ghost before = out@;
            push_str(out, "var<");
            array.location().write_to(out);
            push_str(out, "> shared_memory_");
            push_decimal(out, array.index() as u128);
            push_str(out, ": array<");
            array.item().write_to(out);
            push_str(out, ", ");
            push_decimal(out, array.size() as u128);
            push_str(out, ">;\n\n");
            proof {
                assert(out@ =~= before + shared_decl(*array));
                lemma_concat_all_take(decls, i as int);
            }
            i = i + 1;
        }
        assert(decls.take(arrays@.len() as int) =~= decls);
    }

    /// Appends the function-scope declarations of the local arrays.
    fn format_local_arrays(out: &mut String, arrays: &Vec<LocalArray>)
        ensures
            final(out)@ == old(out)@ + concat_all(
                arrays@.map_values(|a: LocalArray| local_decl(a)),
            ),
    {
        let ghost base = out@;
        let ghost decls = arrays@.map_values(|a: LocalArray| local_decl(a));
        let mut i: usize = 0;
        while i < arrays.len()
            invariant
                i <= arrays.len(),
                decls == arrays@.map_values(|a: LocalArray| local_decl(a)),
                out@ == base + concat_all(decls.take(i as int)),
            decreases arrays.len() - i,
        {
            let array = &arrays[i];
            let ghost before = out@;
            push_str(out, "var a_");
            push_decimal(out, array.name() as u128);
            push_str(out, "_");
            push_decimal(out, array.index() as u128);
            push_str(out, ": array<");
            array.item().write_to(out);
            push_str(out, ", ");
            push_decimal(out, array.size() as u128);
            push_str(out, ">;\n\n");
            proof {
                assert(out@ =~= before + local_decl(*array));
                lemma_concat_all_take(decls, i as int);
            }
            i = i + 1;
        }
        assert(decls.take(arrays@.len() as int) =~= decls);
    }

    /// Appends each extension followed by a blank line.
    fn format_extensions(out: &mut String, extensions: &Vec<String>)
        ensures
            final(out)@ == old(out)@ + concat_all(
                extensions@.map_values(|e: String| extension_text(e@)),
            ),
    {
        let ghost base = out@;
        let ghost decls = extensions@.map_values(|e: String| extension_text(e@));
        let mut i: usize = 0;
        while i < extensions.len()
            invariant
                i <= extensions.len(),
                decls == extensions@.map_values(|e: String| extension_text(e@)),
                out@ == base + concat_all(decls.take(i as int)),
            decreases extensions.len() - i,
        {
            let ghost before = out@;
            push_str(out, extensions[i].as_str());
            push_str(out, "\n\n");
            proof {
                assert(out@ =~= before + extension_text(extensions@[i as int]@));
                lemma_concat_all_take(decls, i as int);
            }
            i = i + 1;
        }
        assert(decls.take(extensions@.len() as int) =~= decls);
    }

    /// Appends the built-in parameters whose flags are set, in the fixed order.
    fn format_builtins(&self, out: &mut String)
        ensures
            final(out)@ == old(out)@ + entry_params(builtin_flags(*self)),
    {
        let ghost base = out@;
        let ghost flags = builtin_flags(*self);
        assert(params_between(flags, 0, 0) == Seq::<char>::empty());
        if self.global_invocation_id {
            push_str(out, "    @builtin(global_invocation_id) global_id: vec3<u32>,\n");
        }
        assert(out@ =~= base + params_between(flags, 0, 1));
        if self.local_invocation_index {
            push_str(out, "    @builtin(local_invocation_index) local_idx: u32,\n");
        }
        assert(out@ =~= base + params_between(flags, 0, 2));
        if self.local_invocation_id {
            push_str(out, "    @builtin(local_invocation_id) local_invocation_id: vec3<u32>,\n");
        }
        assert(out@ =~= base + params_between(flags, 0, 3));
        if self.num_workgroups {
            push_str(out, "    @builtin(num_workgroups) num_workgroups: vec3<u32>,\n");
        }
        assert(out@ =~= base + params_between(flags, 0, 4));
        if self.workgroup_id {
            push_str(out, "    @builtin(workgroup_id) workgroup_id: vec3<u32>,\n");
        }
        assert(out@ =~= base + params_between(flags, 0, 5));
    }
}

impl ComputeShader {
    /// Appends every binding declaration, numbered in one shared sequence.
    fn format_all_bindings(&self, out: &mut String)
        ensures
            final(out)@ == old(out)@ + concat_all(slot_decls(binding_slots(*self))),
    {
        let n = self.inputs.len();
        let m = self.outputs.len();
        let ghost base = out@;
        Self::format_bindings(out, "input", &self.inputs, 0);
        Self::format_bindings(out, "output", &self.outputs, n as u128);
        Self::format_named(out, &self.named, n as u128 + m as u128);
        proof {
            let a = numbered_slots("input"@, self.inputs@, 0);
            let b = numbered_slots("output"@, self.outputs@, n as nat);
            let c = named_slots(self.named@, (n + m) as nat);
            assert(binding_slots(*self) == a + b + c);
            assert(slot_decls(a + b + c) =~= slot_decls(a) + slot_decls(b) + slot_decls(c));
            lemma_concat_all_append(slot_decls(a) + slot_decls(b), slot_decls(c));
            lemma_concat_all_append(slot_decls(a), slot_decls(b));
            assert(out@ =~= base + concat_all(slot_decls(binding_slots(*self))));
        }
    }

    /// Appends the workgroup-size constants and the entry-point header.
    fn format_workgroup(&self, out: &mut String)
        ensures
            final(out)@ == old(out)@ + workgroup_consts(*self) + entry_head(*self),
    {
        let ghost base = out@;
        let w = self.workgroup_size;
        push_str(out, "const WORKGROUP_SIZE_X = ");
        push_decimal(out, w.x as u128);
        push_str(out, "u;\nconst WORKGROUP_SIZE_Y = ");
        push_decimal(out, w.y as u128);
        push_str(out, "u;\nconst WORKGROUP_SIZE_Z = ");
        push_decimal(out, w.z as u128);
        push_str(out, "u;\n");
        assert(out@ =~= base + workgroup_consts(*self));
        let ghost after_consts = out@;
        push_str(out, "\n@compute\n@workgroup_size(");
        push_decimal(out, w.x as u128);
        push_str(out, ", ");
        push_decimal(out, w.y as u128);
        push_str(out, ", ");
        push_decimal(out, w.z as u128);
        push_str(out, ")\nfn main(\n");
        assert(out@ =~= after_consts + entry_head(*self));
    }

    /// Appends the entry-point body and the extensions.
    fn format_tail(&self, out: &mut String)
        ensures
            final(out)@ == old(out)@ + after_params(*self),
    {
        let ghost base = out@;
        push_str(out, ") {");
        Self::format_local_arrays(out, &self.local_arrays);
        push_str(out, self.body.as_str());
        push_str(out, "}");
        Self::format_extensions(out, &self.extensions);
        assert(out@ =~= base + after_params(*self));
    }

    /// Renders the shader as WGSL source text.
    pub fn render(&self) -> (r: String)
        ensures
            r@ == self.rendered(),
    {
        let mut out = String::new();
        self.format_all_bindings(&mut out);
        Self::format_shared_memories(&mut out, &self.shared_memories);
        self.format_workgroup(&mut out);
        assert(out@ =~= before_params(*self));
        self.format_builtins(&mut out);
        self.format_tail(&mut out);
        assert(out@ =~= self.rendered());
        out
    }
}

} // verus!
