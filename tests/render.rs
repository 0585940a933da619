use wgsl_shader::{
    Binding, ComputeShader, Elem, Item, LocalArray, Location, SharedMemory, Visibility,
    WorkgroupSize,
};

fn binding(location: Location, visibility: Visibility, item: Item, size: Option<usize>) -> Binding {
    Binding { location, visibility, item, size }
}

fn f32_binding(visibility: Visibility) -> Binding {
    binding(Location::Storage, visibility, Item::Scalar(Elem::F32), None)
}

fn shader(body: &str) -> ComputeShader {
    ComputeShader {
        inputs: vec![f32_binding(Visibility::Read)],
        outputs: vec![f32_binding(Visibility::ReadWrite)],
        named: vec![],
        shared_memories: vec![],
        local_arrays: vec![],
        workgroup_size: WorkgroupSize { x: 64, y: 1, z: 1 },
        global_invocation_id: true,
        local_invocation_index: false,
        local_invocation_id: false,
        num_workgroups: false,
        workgroup_id: false,
        features: wgpu::Features::empty(),
        body: body.to_string(),
        extensions: vec![],
    }
}

const ALL_BUILTINS: [&str; 5] = [
    "    @builtin(global_invocation_id) global_id: vec3<u32>,\n",
    "    @builtin(local_invocation_index) local_idx: u32,\n",
    "    @builtin(local_invocation_id) local_invocation_id: vec3<u32>,\n",
    "    @builtin(num_workgroups) num_workgroups: vec3<u32>,\n",
    "    @builtin(workgroup_id) workgroup_id: vec3<u32>,\n",
];

fn signature(text: &str) -> String {
    let start = text.find("fn main(\n").unwrap() + "fn main(\n".len();
    let end = text.find(") {").unwrap();
    text[start..end].to_string()
}

#[test]
fn end_to_end_two_bindings() {
    let text = shader("    let x = 1u;\n").render();
    let expected = "@group(0)\n@binding(0)\nvar<storage, read> input_0_global: array<f32>;\n\n\
@group(0)\n@binding(1)\nvar<storage, read_write> output_0_global: array<f32>;\n\n\
const WORKGROUP_SIZE_X = 64u;\nconst WORKGROUP_SIZE_Y = 1u;\nconst WORKGROUP_SIZE_Z = 1u;\n\
\n@compute\n@workgroup_size(64, 1, 1)\nfn main(\n    @builtin(global_invocation_id) global_id: vec3<u32>,\n) {    let x = 1u;\n}";
    assert_eq!(text, expected);
}

#[test]
fn binding_numbers_are_contiguous() {
    let mut sh = shader("");
    sh.inputs.push(f32_binding(Visibility::Read));
    sh.outputs.push(f32_binding(Visibility::ReadWrite));
    sh.named.push(("info".to_string(), binding(Location::Storage, Visibility::Read, Item::Scalar(Elem::U32), None)));
    sh.named.push(("scalars".to_string(), binding(Location::Storage, Visibility::Read, Item::Scalar(Elem::F32), Some(3))));
    let text = sh.render();
    let names = [
        "input_0_global",
        "input_1_global",
        "output_0_global",
        "output_1_global",
        "info",
        "scalars",
    ];
    let mut last = 0;
    for (i, name) in names.iter().enumerate() {
        let decl = format!("@binding({})\nvar<storage, ", i);
        let at = text.find(&decl).unwrap();
        assert!(at >= last);
        let line_end = text[at..].find(';').unwrap() + at;
        assert!(text[at..line_end].contains(&format!("> {}: ", name)));
        last = at;
    }
    assert!(!text.contains("@binding(6)"));
    assert_eq!(text.matches("@group(0)").count(), 6);
}

#[test]
fn rendering_twice_gives_same_text() {
    let mut sh = shader("body");
    sh.shared_memories.push(SharedMemory::new(2, Item::Vec4(Elem::F32), 256));
    sh.extensions.push("fn helper() {}".to_string());
    assert_eq!(sh.render(), sh.render());
}

#[test]
fn each_builtin_flag_toggles_its_line() {
    for k in 0..5 {
        for mask in 0u32..32 {
            let mut sh = shader("");
            let flags = |m: u32, sh: &mut ComputeShader| {
                sh.global_invocation_id = m & 1 != 0;
                sh.local_invocation_index = m & 2 != 0;
                sh.local_invocation_id = m & 4 != 0;
                sh.num_workgroups = m & 8 != 0;
                sh.workgroup_id = m & 16 != 0;
            };
            flags(mask | (1 << k), &mut sh);
            let with = sh.render();
            flags(mask & !(1 << k), &mut sh);
            let without = sh.render();
            let sig_with = signature(&with);
            let sig_without = signature(&without);
            let mut expected = String::new();
            for (j, line) in ALL_BUILTINS.iter().enumerate() {
                if j != k && mask & (1 << j) != 0 {
                    expected.push_str(line);
                }
            }
            assert_eq!(sig_without, expected);
            assert_eq!(sig_with.replace(ALL_BUILTINS[k], ""), sig_without);
            assert_eq!(with.replace(ALL_BUILTINS[k], ""), without);
        }
    }
}

#[test]
fn all_builtins_in_fixed_order() {
    let mut sh = shader("");
    sh.local_invocation_index = true;
    sh.local_invocation_id = true;
    sh.num_workgroups = true;
    sh.workgroup_id = true;
    assert_eq!(signature(&sh.render()), ALL_BUILTINS.concat());
}

#[test]
fn no_builtins_gives_empty_signature() {
    let mut sh = shader("");
    sh.global_invocation_id = false;
    assert_eq!(signature(&sh.render()), "");
}

#[test]
fn sized_and_unsized_array_types() {
    let mut sh = shader("");
    sh.inputs = vec![binding(Location::Storage, Visibility::Read, Item::Vec4(Elem::I32), Some(12))];
    sh.outputs = vec![binding(Location::Storage, Visibility::ReadWrite, Item::Vec2(Elem::U32), None)];
    let text = sh.render();
    assert!(text.contains("var<storage, read> input_0_global: array<vec4<i32>, 12>;\n\n"));
    assert!(text.contains("var<storage, read_write> output_0_global: array<vec2<u32>>;\n\n"));
}

#[test]
fn item_spellings() {
    let mut sh = shader("");
    sh.inputs = vec![
        binding(Location::Storage, Visibility::Read, Item::Vec3(Elem::Bool), None),
        binding(Location::Workgroup, Visibility::ReadWrite, Item::Scalar(Elem::I32), Some(0)),
    ];
    let text = sh.render();
    assert!(text.contains("var<storage, read> input_0_global: array<vec3<bool>>;"));
    assert!(text.contains("var<workgroup, read_write> input_1_global: array<i32, 0>;"));
    assert!(text.contains("@binding(2)\nvar<storage, read_write> output_0_global"));
}

#[test]
fn shared_memory_before_entry_point() {
    let mut sh = shader("");
    sh.shared_memories.push(SharedMemory::new(0, Item::Scalar(Elem::F32), 64));
    sh.shared_memories.push(SharedMemory::new(7, Item::Vec4(Elem::U32), 1024));
    let text = sh.render();
    let first = "var<workgroup> shared_memory_0: array<f32, 64>;\n\n";
    let second = "var<workgroup> shared_memory_7: array<vec4<u32>, 1024>;\n\n";
    let a = text.find(first).unwrap();
    let b = text.find(second).unwrap();
    let consts = text.find("const WORKGROUP_SIZE_X").unwrap();
    assert!(a < b && b < consts);
    assert!(text.contains(&format!("{}{}const WORKGROUP_SIZE_X", first, second)));
}

#[test]
fn local_arrays_inside_entry_point_before_body() {
    let mut sh = shader("BODY");
    sh.local_arrays.push(LocalArray::new(3, Item::Scalar(Elem::F32), 1, 16));
    sh.local_arrays.push(LocalArray::new(0, Item::Vec2(Elem::I32), 255, 4));
    let text = sh.render();
    assert!(text.ends_with(
        ") {var a_1_3: array<f32, 16>;\n\nvar a_255_0: array<vec2<i32>, 4>;\n\nBODY}"
    ));
}

#[test]
fn extensions_after_closing_brace() {
    let mut sh = shader("B");
    sh.extensions.push("fn first() {}".to_string());
    sh.extensions.push("fn second() {}".to_string());
    let text = sh.render();
    assert!(text.ends_with("B}fn first() {}\n\nfn second() {}\n\n"));
}

#[test]
fn workgroup_geometry_large_values() {
    let mut sh = shader("");
    sh.workgroup_size = WorkgroupSize { x: 16, y: 4294967295, z: 10 };
    let text = sh.render();
    assert!(text.contains(
        "const WORKGROUP_SIZE_X = 16u;\nconst WORKGROUP_SIZE_Y = 4294967295u;\nconst WORKGROUP_SIZE_Z = 10u;\n"
    ));
    assert!(text.contains("@workgroup_size(16, 4294967295, 10)\n"));
}

#[test]
fn features_are_not_rendered() {
    let a = shader("x");
    let mut b = shader("x");
    b.features = wgpu::Features::all();
    assert_eq!(a.render(), b.render());
    assert!(!a.render().contains("enable"));
}

#[test]
fn constructors_fix_their_fields() {
    let s = SharedMemory::new(5, Item::Scalar(Elem::U32), 32);
    assert_eq!(s.location(), Location::Workgroup);
    assert_eq!(s.index, 5);
    assert_eq!(s.index(), 5);
    assert_eq!(s.item(), Item::Scalar(Elem::U32));
    assert_eq!(s.size(), 32);
    let l = LocalArray::new(9, Item::Vec4(Elem::F32), 2, 8);
    assert_eq!(l.index, 9);
    assert_eq!(l.item(), Item::Vec4(Elem::F32));
    assert_eq!(l.name(), 2);
    assert_eq!(l.size(), 8);
    assert_eq!(l, LocalArray::new(9, Item::Vec4(Elem::F32), 2, 8));
}
