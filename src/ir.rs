//! The kernel model: bindings, storage classes, auxiliary arrays and the
//! aggregate `ComputeShader`.
use vstd::prelude::*;
use crate::text::push_str;

verus! {

/// Memory space of a binding.
#[derive(Debug, PartialEq, Eq, Clone, Copy)]
pub enum Location {
    Storage,
    Workgroup,
}

impl Location {
    /// The WGSL address-space keyword.
    pub open spec fn text(self) -> Seq<char> {
        match self {
            Location::Storage => "storage"@,
            Location::Workgroup => "workgroup"@,
        }
    }

    /// Appends the WGSL address-space keyword.
    pub fn write_to(&self, out: &mut String)
        ensures
            final(out)@ == old(out)@ + self.text(),
    {
        match self {
            Location::Storage => push_str(out, "storage"),
            Location::Workgroup => push_str(out, "workgroup"),
        }
    }
}

/// Access mode of a storage binding.
#[derive(Debug, PartialEq, Eq, Clone, Copy)]
pub enum Visibility {
    Read,
    ReadWrite,
}

impl Visibility {
    /// The WGSL access-mode keyword.
    pub open spec fn text(self) -> Seq<char> {
        match self {
            Visibility::Read => "read"@,
            Visibility::ReadWrite => "read_write"@,
        }
    }

    /// Appends the WGSL access-mode keyword.
    pub fn write_to(&self, out: &mut String)
        ensures
            final(out)@ == old(out)@ + self.text(),
    {
        match self {
            Visibility::Read => push_str(out, "read"),
            Visibility::ReadWrite => push_str(out, "read_write"),
        }
    }
}

/// Base element kind of an item.
#[derive(Debug, PartialEq, Eq, Clone, Copy)]
pub enum Elem {
    F32,
    I32,
    U32,
    Bool,
}

impl Elem {
    /// The WGSL scalar type name.
    pub open spec fn text(self) -> Seq<char> {
        match self {
            Elem::F32 => "f32"@,
            Elem::I32 => "i32"@,
            Elem::U32 => "u32"@,
            Elem::Bool => "bool"@,
        }
    }

    /// Appends the WGSL scalar type name.
    pub fn write_to(&self, out: &mut String)
        ensures
            final(out)@ == old(out)@ + self.text(),
    {
        match self {
            Elem::F32 => push_str(out, "f32"),
            Elem::I32 => push_str(out, "i32"),
            Elem::U32 => push_str(out, "u32"),
            Elem::Bool => push_str(out, "bool"),
        }
    }
}

/// An element type together with its vectorization width.
#[derive(Debug, PartialEq, Eq, Clone, Copy)]
pub enum Item {
    Vec4(Elem),
    Vec3(Elem),
    Vec2(Elem),
    Scalar(Elem),
}

impl Item {
    /// The WGSL spelling: `vecN<elem>` for a vector, the bare element
    /// name for a scalar.
    pub open spec fn text(self) -> Seq<char> {
        match self {
            Item::Vec4(e) => "vec4<"@ + e.text() + ">"@,
            Item::Vec3(e) => "vec3<"@ + e.text() + ">"@,
            Item::Vec2(e) => "vec2<"@ + e.text() + ">"@,
            Item::Scalar(e) => e.text(),
        }
    }

    /// Appends the WGSL spelling of the item.
    pub fn write_to(&self, out: &mut String)
        ensures
            final(out)@ == old(out)@ + self.text(),
    {
        let e = match self {
            Item::Vec4(e) => {
                push_str(out, "vec4<");
                e
            },
            Item::Vec3(e) => {
                push_str(out, "vec3<");
                e
            },
            Item::Vec2(e) => {
                push_str(out, "vec2<");
                e
            },
            Item::Scalar(e) => e,
        };
        e.write_to(out);
        match self {
            Item::Scalar(_) => {},
            _ => push_str(out, ">"),
        }
        assert(final(out)@ =~= old(out)@ + self.text());
    }
}

/// A kernel-level buffer parameter. Without `size` the buffer is an
/// unsized (runtime-sized) array.
#[derive(Debug, PartialEq, Eq, Clone)]
pub struct Binding {
    pub location: Location,
    pub visibility: Visibility,
    pub item: Item,
    pub size: Option<usize>,
}

/// A workgroup-local array declared at module scope.
#[derive(Debug, PartialEq, Eq, Clone)]
pub struct SharedMemory {
    location: Location,
    pub index: u16,
    item: Item,
    size: u32,
}

impl SharedMemory {
    pub closed spec fn spec_location(&self) -> Location {
        self.location
    }

    pub closed spec fn spec_index(&self) -> u16 {
        self.index
    }

    pub closed spec fn spec_item(&self) -> Item {
        self.item
    }

    pub closed spec fn spec_size(&self) -> u32 {
        self.size
    }

    /// A shared array in the workgroup address space.
    pub fn new(index: u16, item: Item, size: u32) -> (r: Self)
        ensures
            r.spec_location() == Location::Workgroup,
            r.spec_index() == index,
            r.spec_item() == item,
            r.spec_size() == size,
    {
        Self { location: Location::Workgroup, index, item, size }
    }

    pub fn location(&self) -> (r: Location)
        ensures
            r == self.spec_location(),
    {
        self.location
    }

    pub fn index(&self) -> (r: u16)
        ensures
            r == self.spec_index(),
    {
        self.index
    }

    pub fn item(&self) -> (r: Item)
        ensures
            r == self.spec_item(),
    {
        self.item
    }

    pub fn size(&self) -> (r: u32)
        ensures
            r == self.spec_size(),
    {
        self.size
    }
}

/// A per-invocation array declared in the entry point's scope.
#[derive(Debug, PartialEq, Eq, Clone)]
pub struct LocalArray {
    pub index: u16,
    item: Item,
    name: u8,
    size: u32,
}

impl LocalArray {
    pub closed spec fn spec_index(&self) -> u16 {
        self.index
    }

    pub closed spec fn spec_item(&self) -> Item {
        self.item
    }

    pub closed spec fn spec_name(&self) -> u8 {
        self.name
    }

    pub closed spec fn spec_size(&self) -> u32 {
        self.size
    }

    /// A local array tagged by `name` and `index`.
    pub fn new(index: u16, item: Item, name: u8, size: u32) -> (r: Self)
        ensures
            r.spec_index() == index,
            r.spec_item() == item,
            r.spec_name() == name,
            r.spec_size() == size,
    {
        Self { index, item, name, size }
    }

    pub fn index(&self) -> (r: u16)
        ensures
            r == self.spec_index(),
    {
        self.index
    }

    pub fn item(&self) -> (r: Item)
        ensures
            r == self.spec_item(),
    {
        self.item
    }

    pub fn name(&self) -> (r: u8)
        ensures
            r == self.spec_name(),
    {
        self.name
    }

    pub fn size(&self) -> (r: u32)
        ensures
            r == self.spec_size(),
    {
        self.size
    }
}

/// Three-dimensional workgroup geometry.
#[derive(Debug, PartialEq, Eq, Clone, Copy)]
pub struct WorkgroupSize {
    pub x: u32,
    pub y: u32,
    pub z: u32,
}

/// wgpu's feature set, held opaquely: a shader carries it without reading it.
#[verifier::external_type_specification]
#[verifier::external_body]
pub struct ExFeatures(wgpu::Features);

/// A complete compute kernel. `features` is carried along but does not
/// take part in rendering; `body` and each extension are already-rendered
/// WGSL text.
#[derive(Debug)]
pub struct ComputeShader {
    pub inputs: Vec<Binding>,
    pub outputs: Vec<Binding>,
    pub named: Vec<(String, Binding)>,
    pub shared_memories: Vec<SharedMemory>,
    pub local_arrays: Vec<LocalArray>,
    pub workgroup_size: WorkgroupSize,
    pub global_invocation_id: bool,
    pub local_invocation_index: bool,
    pub local_invocation_id: bool,
    pub num_workgroups: bool,
    pub workgroup_id: bool,
    pub features: wgpu::Features,
    pub body: String,
    pub extensions: Vec<String>,
}

} // verus!
