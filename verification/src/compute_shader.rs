//! Compiled compute shaders: registration, reflection and dispatch.
//!
//! A shader reaches the engine as an intermediate representation
//! ([`ShaderIrModule`]) holding the reflected globals and entry points the
//! engine reads. Registration rewrites that representation (storage-texture
//! format reconciliation, work-group clamp), reflects its group-0 bindings
//! into a typed binding map, and appends the result to the device's
//! append-only shader catalog.

use vstd::prelude::*;

use vstd::slice::slice_to_vec;

use crate::render_texture::{GpuTextureFormat, TTRenderTexture};
use crate::storage_buffer::TTStorageBuffer;
use crate::tex_trans_core_engine::{
    BindGroupEntry, BindGroupEntryView, BoundResource, CommandView, ResourceView, TTCEWgpuError,
    TTCommand, TexTransCoreEngineContext, TexTransCoreEngineDevice,
};
use crate::TexTransCoreTextureChannel;

verus! {

/// Binding location of a reflected global: its binding group and its slot
/// within that group.
#[derive(Clone, Copy, PartialEq, Eq, Structural, Debug)]
pub struct IrResourceBinding {
    pub group: u32,
    pub binding: u32,
}

/// Access declared on a storage image; carried through the rewrite pass
/// unchanged.
#[derive(Clone, Copy, PartialEq, Eq, Structural, Debug)]
pub struct IrStorageAccess {
    pub load: bool,
    pub store: bool,
}

/// Dimensionality of a reflected image type.
#[derive(Clone, Copy, PartialEq, Eq, Structural, Debug)]
pub enum IrImageDimension {
    D1,
    D2,
    D3,
    Cube,
}

/// Class of a reflected image type, as far as the engine reads it: a
/// storage image with its texel format and access, or anything else.
#[derive(Clone, Copy, PartialEq, Eq, Structural, Debug)]
pub enum IrImageClass {
    Storage { format: GpuTextureFormat, access: IrStorageAccess },
    Other,
}

/// Shape of a reflected global's type: a structured (buffer-like) type, an
/// image, or anything else.
#[derive(Clone, Copy, PartialEq, Eq, Structural, Debug)]
pub enum IrTypeShape {
    Struct,
    Image { dim: IrImageDimension, arrayed: bool, class: IrImageClass },
    Other,
}

/// Address space a reflected global lives in, as far as classification
/// reads it.
#[derive(Clone, Copy, PartialEq, Eq, Structural, Debug)]
pub enum IrAddressSpace {
    Uniform,
    Storage,
    Other,
}

/// One global variable of the shader intermediate representation: what the
/// engine's reflection and rewrite passes read of it.
#[derive(Clone, PartialEq, Debug)]
pub struct IrGlobalVariable {
    pub name: Option<String>,
    pub binding: Option<IrResourceBinding>,
    pub space: IrAddressSpace,
    pub ty: IrTypeShape,
}

/// Mathematical value of an [`IrGlobalVariable`].
pub struct IrGlobalView {
    pub name: Option<Seq<char>>,
    pub binding: Option<IrResourceBinding>,
    pub space: IrAddressSpace,
    pub ty: IrTypeShape,
}

impl View for IrGlobalVariable {
    type V = IrGlobalView;

    open spec fn view(&self) -> IrGlobalView {
        IrGlobalView {
            name: match self.name {
                Some(s) => Some(s@),
                None => None,
            },
            binding: self.binding,
            space: self.space,
            ty: self.ty,
        }
    }
}

/// One entry point of the intermediate representation: its declared
/// work-group size.
#[derive(Clone, Copy, PartialEq, Eq, Structural, Debug)]
pub struct IrEntryPoint {
    pub workgroup_size_x: u32,
    pub workgroup_size_y: u32,
    pub workgroup_size_z: u32,
}

/// The shader intermediate representation as the engine reads and rewrites
/// it: the reflected globals and the entry points. The host parses compiled
/// bytecode into this form and serializes the rewritten form back to the
/// IR library.
#[derive(Clone, PartialEq, Debug)]
pub struct ShaderIrModule {
    pub global_variables: Vec<IrGlobalVariable>,
    pub entry_points: Vec<IrEntryPoint>,
}

impl ShaderIrModule {
    pub open spec fn globals_view(&self) -> Seq<IrGlobalView> {
        self.global_variables@.map_values(|g: IrGlobalVariable| g@)
    }
}

/// Dense, stable handle into the device's shader catalog.
#[derive(Clone, Copy, PartialEq, Eq, Structural, Hash, Debug)]
pub struct TTComputeShaderID(pub u32);

impl TTComputeShaderID {
    pub fn from(id: u32) -> (r: TTComputeShaderID)
        ensures
            r.0 == id,
    {
        TTComputeShaderID(id)
    }
}

/// Per-dispatch tile dimensions declared by a shader's entry point.
#[derive(Clone, Copy, PartialEq, Eq, Structural, Debug)]
pub struct WorkGroupSize {
    pub x: u32,
    pub y: u32,
    pub z: u32,
}

/// Kind of resource a binding slot accepts, decided at registration time
/// from the reflected shape of the global bound to that slot.
#[derive(Clone, Copy, PartialEq, Eq, Structural, Debug)]
pub enum TTBindingType {
    ConstantsBuffer,
    StorageBuffer,
    RWRenderTexture,
}

/// A registered shader: its reflected name-to-slot map, slot types and
/// work-group size. The GPU pipeline object itself is held by the host,
/// correlated by the shader's position in the catalog.
#[derive(Debug)]
pub struct TTComputeShader {
    pub binding_map: Vec<(String, u32)>,
    pub binding_type: Vec<(u32, TTBindingType)>,
    pub work_group_size: WorkGroupSize,
}

/// The mathematical value of a reflected binding map: names as character
/// sequences beside their slots.
pub open spec fn bind_map_view(m: Seq<(String, u32)>) -> Seq<(Seq<char>, u32)> {
    m.map_values(|p: (String, u32)| (p.0@, p.1))
}

/// The storage-texture rewrite on one global: a 2D, non-arrayed storage
/// image declared in the neutral wide format (32-bit float RGBA) has its
/// format replaced by the device's default format in RGBA layout; every
/// other global is left alone.
pub open spec fn spec_fix_global(
    g: IrGlobalView,
    format: crate::TexTransCoreTextureFormat,
) -> IrGlobalView {
    match g.ty {
        IrTypeShape::Image { dim, arrayed, class } => match class {
            IrImageClass::Storage { format: declared, access } => {
                if dim == IrImageDimension::D2 && !arrayed && declared
                    == GpuTextureFormat::Rgba32Float {
                    IrGlobalView {
                        ty: IrTypeShape::Image {
                            dim,
                            arrayed,
                            class: IrImageClass::Storage {
                                format: TTRenderTexture::spec_to_wgpu_texture_format(
                                    format,
                                    TexTransCoreTextureChannel::RGBA,
                                ),
                                access,
                            },
                        },
                        ..g
                    }
                } else {
                    g
                }
            },
            IrImageClass::Other => g,
        },
        _ => g,
    }
}

/// The storage-texture rewrite over all globals.
pub open spec fn spec_fix_globals(
    gs: Seq<IrGlobalView>,
    format: crate::TexTransCoreTextureFormat,
) -> Seq<IrGlobalView> {
    gs.map_values(|g: IrGlobalView| spec_fix_global(g, format))
}

/// The work-group clamp on one entry point: a declared 32x32x1 tile is
/// forced down to 16x16x1; every other size is kept.
pub open spec fn spec_clamp_entry(e: IrEntryPoint) -> IrEntryPoint {
    if e.workgroup_size_x == 32 && e.workgroup_size_y == 32 && e.workgroup_size_z == 1 {
        IrEntryPoint { workgroup_size_x: 16, workgroup_size_y: 16, workgroup_size_z: 1 }
    } else {
        e
    }
}

/// Whether reflection keeps this global in the binding map: it must be
/// named, bound, and bound in group 0 (the only supported group; globals
/// in other groups are skipped).
pub open spec fn spec_keep_binding(g: IrGlobalView) -> bool {
    &&& g.name is Some
    &&& g.binding is Some
    &&& g.binding.unwrap().group == 0
}

/// Binding-type classification of one global from its reflected shape: a
/// structured type in uniform space is a constants buffer, in storage
/// space a storage buffer; an image is a read/write texture; anything else
/// is unclassified.
pub open spec fn spec_classify(g: IrGlobalView) -> Option<TTBindingType> {
    match g.ty {
        IrTypeShape::Struct => match g.space {
            IrAddressSpace::Uniform => Some(TTBindingType::ConstantsBuffer),
            IrAddressSpace::Storage => Some(TTBindingType::StorageBuffer),
            IrAddressSpace::Other => None,
        },
        IrTypeShape::Image { .. } => Some(TTBindingType::RWRenderTexture),
        IrTypeShape::Other => None,
    }
}

/// The (name, slot) pairs reflection collects, in global order.
pub open spec fn spec_bindings(gs: Seq<IrGlobalView>) -> Seq<(Seq<char>, u32)>
    decreases gs.len(),
{
    if gs.len() == 0 {
        Seq::empty()
    } else {
        spec_bindings(gs.drop_last()) + (if spec_keep_binding(gs.last()) {
            seq![(gs.last().name.unwrap(), gs.last().binding.unwrap().binding)]
        } else {
            Seq::empty()
        })
    }
}

/// The (slot, type) pairs reflection collects, in global order; a kept
/// global that classifies to no type is omitted.
pub open spec fn spec_binding_types(gs: Seq<IrGlobalView>) -> Seq<(u32, TTBindingType)>
    decreases gs.len(),
{
    if gs.len() == 0 {
        Seq::empty()
    } else {
        spec_binding_types(gs.drop_last()) + (if spec_keep_binding(gs.last())
            && spec_classify(gs.last()) is Some {
            seq![(gs.last().binding.unwrap().binding, spec_classify(gs.last()).unwrap())]
        } else {
            Seq::empty()
        })
    }
}

/// Well-formedness the shader toolchain and the IR validator guarantee of
/// a module the engine registers: among the named, bound, group-0 globals,
/// the names are pairwise distinct and the binding slots are pairwise
/// distinct.
pub open spec fn spec_module_bindings_unique(gs: Seq<IrGlobalView>) -> bool {
    forall|i: int, j: int|
        0 <= i < j < gs.len() && spec_keep_binding(#[trigger] gs[i]) && spec_keep_binding(
            #[trigger] gs[j],
        ) ==> {
            &&& gs[i].name.unwrap() != gs[j].name.unwrap()
            &&& gs[i].binding.unwrap().binding != gs[j].binding.unwrap().binding
        }
}

/// The storage-texture rewrite touches only type shapes: every global
/// keeps its name and binding location, so a module with distinct group-0
/// names and slots still has them after the rewrite.
pub proof fn lemma_fix_preserves_bindings(
    gs: Seq<IrGlobalView>,
    format: crate::TexTransCoreTextureFormat,
)
    ensures
        spec_fix_globals(gs, format).len() == gs.len(),
        forall|i: int|
            0 <= i < gs.len() ==> (#[trigger] spec_fix_globals(gs, format)[i]).name == gs[i].name
                && spec_fix_globals(gs, format)[i].binding == gs[i].binding,
        spec_module_bindings_unique(gs) ==> spec_module_bindings_unique(
            spec_fix_globals(gs, format),
        ),
{
    let fixed = spec_fix_globals(gs, format);
    if spec_module_bindings_unique(gs) {
        assert forall|i: int, j: int|
            0 <= i < j < fixed.len() && spec_keep_binding(#[trigger] fixed[i]) && spec_keep_binding(
                #[trigger] fixed[j],
            ) implies (fixed[i].name.unwrap() != fixed[j].name.unwrap()
            && fixed[i].binding.unwrap().binding != fixed[j].binding.unwrap().binding) by {
            assert(spec_keep_binding(gs[i]) && spec_keep_binding(gs[j]));
        }
    }
}

/// Position `k` of the reflected binding map carries the (name, slot)
/// pair of some kept global.
pub open spec fn spec_binding_from_global(gs: Seq<IrGlobalView>, k: int) -> bool {
    exists|i: int|
        0 <= i < gs.len() && spec_keep_binding(#[trigger] gs[i]) && spec_bindings(gs)[k] == (
            gs[i].name.unwrap(),
            gs[i].binding.unwrap().binding,
        )
}

/// Position `k` of the reflected binding-type map carries the (slot, type)
/// pair of some kept, classified global.
pub open spec fn spec_binding_type_from_global(gs: Seq<IrGlobalView>, k: int) -> bool {
    exists|i: int|
        0 <= i < gs.len() && spec_keep_binding(#[trigger] gs[i]) && spec_binding_types(gs)[k] == (
            gs[i].binding.unwrap().binding,
            spec_classify(gs[i]).unwrap(),
        )
}

/// Slot `slot` stands in the mathematical value `m` of a reflected binding
/// map.
pub open spec fn spec_slot_in_bind_map(m: Seq<(Seq<char>, u32)>, slot: u32) -> bool {
    exists|k: int| 0 <= k < m.len() && (#[trigger] m[k]).1 == slot
}

/// Every entry of the reflected binding map is the (name, slot) pair of
/// some kept global.
pub proof fn lemma_bindings_from_globals(gs: Seq<IrGlobalView>)
    ensures
        forall|k: int|
            0 <= k < spec_bindings(gs).len() ==> #[trigger] spec_binding_from_global(gs, k),
    decreases gs.len(),
{
    if gs.len() == 0 {
    } else {
        let prefix = gs.drop_last();
        let last = gs.last();
        lemma_bindings_from_globals(prefix);
        assert forall|k: int|
            0 <= k < spec_bindings(gs).len() implies #[trigger] spec_binding_from_global(
            gs,
            k,
        ) by {
            if k < spec_bindings(prefix).len() {
                assert(spec_binding_from_global(prefix, k));
                let i = choose|i: int|
                    0 <= i < prefix.len() && spec_keep_binding(#[trigger] prefix[i])
                        && spec_bindings(prefix)[k] == (
                        prefix[i].name.unwrap(),
                        prefix[i].binding.unwrap().binding,
                    );
                assert(prefix[i] == gs[i]);
                assert(spec_bindings(gs)[k] == spec_bindings(prefix)[k]);
                assert(spec_keep_binding(gs[i]) && spec_bindings(gs)[k] == (
                    gs[i].name.unwrap(),
                    gs[i].binding.unwrap().binding,
                ));
            } else {
                assert(spec_keep_binding(last));
                assert(spec_bindings(gs)[k] == (last.name.unwrap(), last.binding.unwrap().binding));
                let i = gs.len() - 1;
                assert(gs[i] == last);
                assert(spec_keep_binding(gs[i]) && spec_bindings(gs)[k] == (
                    gs[i].name.unwrap(),
                    gs[i].binding.unwrap().binding,
                ));
            }
        }
    }
}

/// Every kept global's (name, slot) pair appears in the reflected binding
/// map.
pub proof fn lemma_bindings_complete(gs: Seq<IrGlobalView>)
    ensures
        forall|i: int|
            0 <= i < gs.len() && spec_keep_binding(#[trigger] gs[i]) ==> exists|k: int|
                0 <= k < spec_bindings(gs).len() && #[trigger] spec_bindings(gs)[k] == (
                    gs[i].name.unwrap(),
                    gs[i].binding.unwrap().binding,
                ),
    decreases gs.len(),
{
    if gs.len() == 0 {
    } else {
        let prefix = gs.drop_last();
        let last = gs.last();
        lemma_bindings_complete(prefix);
        assert forall|i: int|
            0 <= i < gs.len() && spec_keep_binding(#[trigger] gs[i]) implies exists|k: int|
            0 <= k < spec_bindings(gs).len() && #[trigger] spec_bindings(gs)[k] == (
                gs[i].name.unwrap(),
                gs[i].binding.unwrap().binding,
            ) by {
            if i < gs.len() - 1 {
                assert(prefix[i] == gs[i]);
                assert(spec_keep_binding(prefix[i]));
                let k = choose|k: int|
                    0 <= k < spec_bindings(prefix).len() && #[trigger] spec_bindings(prefix)[k] == (
                        prefix[i].name.unwrap(),
                        prefix[i].binding.unwrap().binding,
                    );
                assert(spec_bindings(gs)[k] == spec_bindings(prefix)[k]);
                assert(0 <= k < spec_bindings(gs).len() && spec_bindings(gs)[k] == (
                    gs[i].name.unwrap(),
                    gs[i].binding.unwrap().binding,
                ));
            } else {
                assert(gs[i] == last);
                let k = spec_bindings(prefix).len() as int;
                assert(0 <= k < spec_bindings(gs).len() && spec_bindings(gs)[k] == (
                    gs[i].name.unwrap(),
                    gs[i].binding.unwrap().binding,
                ));
            }
        }
    }
}

/// When the module's group-0 names and slots are pairwise distinct, a
/// restriction to all globals but the last still has them so.
proof fn lemma_unique_drop_last(gs: Seq<IrGlobalView>)
    requires
        spec_module_bindings_unique(gs),
        gs.len() >= 1,
    ensures
        spec_module_bindings_unique(gs.drop_last()),
{
    let prefix = gs.drop_last();
    assert forall|i: int, j: int|
        0 <= i < j < prefix.len() && spec_keep_binding(#[trigger] prefix[i]) && spec_keep_binding(
            #[trigger] prefix[j],
        ) implies (prefix[i].name.unwrap() != prefix[j].name.unwrap()
        && prefix[i].binding.unwrap().binding != prefix[j].binding.unwrap().binding) by {
        assert(prefix[i] == gs[i] && prefix[j] == gs[j]);
        assert(spec_keep_binding(gs[i]) && spec_keep_binding(gs[j]));
    }
}

/// Over a module with distinct group-0 names and slots, the reflected
/// binding map's entries are pairwise distinct in both the name and the
/// slot.
pub proof fn lemma_bindings_distinct(gs: Seq<IrGlobalView>)
    requires
        spec_module_bindings_unique(gs),
    ensures
        forall|k1: int, k2: int|
            0 <= k1 < k2 < spec_bindings(gs).len() ==> (#[trigger] spec_bindings(gs)[k1]).0 != (
            #[trigger] spec_bindings(gs)[k2]).0 && spec_bindings(gs)[k1].1 != spec_bindings(
                gs,
            )[k2].1,
    decreases gs.len(),
{
    if gs.len() == 0 {
    } else {
        let prefix = gs.drop_last();
        let last = gs.last();
        lemma_unique_drop_last(gs);
        lemma_bindings_distinct(prefix);
        lemma_bindings_from_globals(prefix);
        assert forall|k1: int, k2: int|
            0 <= k1 < k2 < spec_bindings(gs).len() implies (#[trigger] spec_bindings(gs)[k1]).0
            != (#[trigger] spec_bindings(gs)[k2]).0 && spec_bindings(gs)[k1].1 != spec_bindings(
            gs,
        )[k2].1 by {
            if k2 < spec_bindings(prefix).len() {
                assert(spec_bindings(gs)[k1] == spec_bindings(prefix)[k1]);
                assert(spec_bindings(gs)[k2] == spec_bindings(prefix)[k2]);
            } else {
                assert(spec_keep_binding(last));
                assert(spec_bindings(gs)[k2] == (
                    last.name.unwrap(),
                    last.binding.unwrap().binding,
                ));
                assert(spec_bindings(gs)[k1] == spec_bindings(prefix)[k1]);
                assert(spec_binding_from_global(prefix, k1));
                let i = choose|i: int|
                    0 <= i < prefix.len() && spec_keep_binding(#[trigger] prefix[i])
                        && spec_bindings(prefix)[k1] == (
                        prefix[i].name.unwrap(),
                        prefix[i].binding.unwrap().binding,
                    );
                assert(prefix[i] == gs[i]);
                assert(spec_keep_binding(gs[i]) && spec_keep_binding(gs[gs.len() - 1]));
                assert(gs[gs.len() - 1] == last);
                assert(gs[i].name.unwrap() != last.name.unwrap());
                assert(gs[i].binding.unwrap().binding != last.binding.unwrap().binding);
            }
        }
    }
}

/// Every entry of the reflected binding-type map is the (slot, type) pair
/// of some kept, classified global.
pub proof fn lemma_binding_types_from_globals(gs: Seq<IrGlobalView>)
    ensures
        forall|k: int|
            0 <= k < spec_binding_types(gs).len() ==> #[trigger] spec_binding_type_from_global(
                gs,
                k,
            ),
    decreases gs.len(),
{
    if gs.len() == 0 {
    } else {
        let prefix = gs.drop_last();
        let last = gs.last();
        lemma_binding_types_from_globals(prefix);
        assert forall|k: int|
            0 <= k < spec_binding_types(gs).len() implies #[trigger] spec_binding_type_from_global(
            gs,
            k,
        ) by {
            if k < spec_binding_types(prefix).len() {
                assert(spec_binding_type_from_global(prefix, k));
                let i = choose|i: int|
                    0 <= i < prefix.len() && spec_keep_binding(#[trigger] prefix[i])
                        && spec_binding_types(prefix)[k] == (
                        prefix[i].binding.unwrap().binding,
                        spec_classify(prefix[i]).unwrap(),
                    );
                assert(prefix[i] == gs[i]);
                assert(spec_binding_types(gs)[k] == spec_binding_types(prefix)[k]);
                assert(spec_keep_binding(gs[i]) && spec_binding_types(gs)[k] == (
                    gs[i].binding.unwrap().binding,
                    spec_classify(gs[i]).unwrap(),
                ));
            } else {
                assert(spec_keep_binding(last) && spec_classify(last) is Some);
                assert(spec_binding_types(gs)[k] == (
                    last.binding.unwrap().binding,
                    spec_classify(last).unwrap(),
                ));
                let i = gs.len() - 1;
                assert(gs[i] == last);
                assert(spec_keep_binding(gs[i]) && spec_binding_types(gs)[k] == (
                    gs[i].binding.unwrap().binding,
                    spec_classify(gs[i]).unwrap(),
                ));
            }
        }
    }
}

/// Over a module with distinct group-0 names and slots, the reflected
/// binding-type map's slots are pairwise distinct.
pub proof fn lemma_binding_types_distinct(gs: Seq<IrGlobalView>)
    requires
        spec_module_bindings_unique(gs),
    ensures
        forall|k1: int, k2: int|
            0 <= k1 < k2 < spec_binding_types(gs).len() ==> (#[trigger] spec_binding_types(
                gs,
            )[k1]).0 != (#[trigger] spec_binding_types(gs)[k2]).0,
    decreases gs.len(),
{
    if gs.len() == 0 {
    } else {
        let prefix = gs.drop_last();
        let last = gs.last();
        lemma_unique_drop_last(gs);
        lemma_binding_types_distinct(prefix);
        lemma_binding_types_from_globals(prefix);
        assert forall|k1: int, k2: int|
            0 <= k1 < k2 < spec_binding_types(gs).len() implies (#[trigger] spec_binding_types(
            gs,
        )[k1]).0 != (#[trigger] spec_binding_types(gs)[k2]).0 by {
            if k2 < spec_binding_types(prefix).len() {
                assert(spec_binding_types(gs)[k1] == spec_binding_types(prefix)[k1]);
                assert(spec_binding_types(gs)[k2] == spec_binding_types(prefix)[k2]);
            } else {
                assert(spec_keep_binding(last) && spec_classify(last) is Some);
                assert(spec_binding_types(gs)[k2].0 == last.binding.unwrap().binding);
                assert(spec_binding_types(gs)[k1] == spec_binding_types(prefix)[k1]);
                assert(spec_binding_type_from_global(prefix, k1));
                let i = choose|i: int|
                    0 <= i < prefix.len() && spec_keep_binding(#[trigger] prefix[i])
                        && spec_binding_types(prefix)[k1] == (
                        prefix[i].binding.unwrap().binding,
                        spec_classify(prefix[i]).unwrap(),
                    );
                assert(prefix[i] == gs[i]);
                assert(spec_keep_binding(gs[i]) && spec_keep_binding(gs[gs.len() - 1]));
                assert(gs[gs.len() - 1] == last);
                assert(gs[i].binding.unwrap().binding != last.binding.unwrap().binding);
            }
        }
    }
}

/// Every slot of the reflected binding-type map also stands in the
/// reflected binding map: a typed slot is always a named, reflected one.
pub proof fn lemma_binding_types_in_bindings(gs: Seq<IrGlobalView>)
    ensures
        forall|k: int|
            0 <= k < spec_binding_types(gs).len() ==> #[trigger] spec_slot_in_bind_map(
                spec_bindings(gs),
                spec_binding_types(gs)[k].0,
            ),
{
    lemma_binding_types_from_globals(gs);
    lemma_bindings_complete(gs);
    assert forall|k: int|
        0 <= k < spec_binding_types(gs).len() implies #[trigger] spec_slot_in_bind_map(
        spec_bindings(gs),
        spec_binding_types(gs)[k].0,
    ) by {
        assert(spec_binding_type_from_global(gs, k));
        let i = choose|i: int|
            0 <= i < gs.len() && spec_keep_binding(#[trigger] gs[i]) && spec_binding_types(gs)[k]
                == (gs[i].binding.unwrap().binding, spec_classify(gs[i]).unwrap());
        let m = choose|m: int|
            0 <= m < spec_bindings(gs).len() && #[trigger] spec_bindings(gs)[m] == (
                gs[i].name.unwrap(),
                gs[i].binding.unwrap().binding,
            );
        assert(spec_bindings(gs)[m].1 == spec_binding_types(gs)[k].0);
    }
}

/// Rewrites every 2D, non-arrayed storage-image global declared in the
/// neutral wide format to the engine's configured default format, leaving
/// all other globals and all entry points untouched.
pub fn fix_storage_texture_format(ir: &mut ShaderIrModule, tt_format: crate::TexTransCoreTextureFormat)
    ensures
        final(ir).globals_view() == spec_fix_globals(old(ir).globals_view(), tt_format),
        final(ir).entry_points == old(ir).entry_points,
{
    let n = ir.global_variables.len();
    let mut i: usize = 0;
    while i < n
        invariant
            i <= n,
            n == ir.global_variables@.len(),
            ir.global_variables@.len() == old(ir).global_variables@.len(),
            ir.entry_points == old(ir).entry_points,
            forall|j: int|
                0 <= j < i ==> (#[trigger] ir.global_variables@[j])@ == spec_fix_global(
                    old(ir).global_variables@[j]@,
                    tt_format,
                ),
            forall|j: int|
                i <= j < n ==> (#[trigger] ir.global_variables@[j]) == old(
                    ir,
                ).global_variables@[j],
        decreases n - i,
    {
        let g = &mut ir.global_variables[i];
        match g.ty {
            IrTypeShape::Image { dim, arrayed, class } => {
                match class {
                    IrImageClass::Storage { format, access } => {
                        if dim == IrImageDimension::D2 && !arrayed && format
                            == GpuTextureFormat::Rgba32Float {
                            g.ty = IrTypeShape::Image {
                                dim,
                                arrayed,
                                class: IrImageClass::Storage {
                                    format: TTRenderTexture::to_wgpu_texture_format(
                                        tt_format,
                                        TexTransCoreTextureChannel::RGBA,
                                    ),
                                    access,
                                },
                            };
                        }
                    },
                    IrImageClass::Other => {},
                }
            },
            _ => {},
        }
        i = i + 1;
    }
    proof {
        assert(final(ir).globals_view() =~= spec_fix_globals(
            old(ir).globals_view(),
            tt_format,
        ));
    }
}

/// Forces every entry point declaring a 32x32x1 work-group tile down to
/// 16x16x1, a defensive cap; other sizes are kept as declared.
pub fn clamp_work_group_size(ir: &mut ShaderIrModule)
    ensures
        final(ir).entry_points@ == old(ir).entry_points@.map_values(
            |e: IrEntryPoint| spec_clamp_entry(e),
        ),
        final(ir).global_variables == old(ir).global_variables,
{
    let n = ir.entry_points.len();
    let mut i: usize = 0;
    while i < n
        invariant
            i <= n,
            n == ir.entry_points@.len(),
            ir.entry_points@.len() == old(ir).entry_points@.len(),
            ir.global_variables == old(ir).global_variables,
            forall|j: int|
                0 <= j < i ==> (#[trigger] ir.entry_points@[j]) == spec_clamp_entry(
                    old(ir).entry_points@[j],
                ),
            forall|j: int|
                i <= j < n ==> (#[trigger] ir.entry_points@[j]) == old(ir).entry_points@[j],
        decreases n - i,
    {
        let e = &mut ir.entry_points[i];
        if e.workgroup_size_x == 32 && e.workgroup_size_y == 32 && e.workgroup_size_z == 1 {
            e.workgroup_size_x = 16;
            e.workgroup_size_y = 16;
            e.workgroup_size_z = 1;
        }
        i = i + 1;
    }
    proof {
        assert(final(ir).entry_points@ =~= old(ir).entry_points@.map_values(
            |e: IrEntryPoint| spec_clamp_entry(e),
        ));
    }
}

/// The dispatch tile of the module's first entry point.
pub fn get_work_group_size(ir: &ShaderIrModule) -> (r: WorkGroupSize)
    requires
        ir.entry_points@.len() >= 1,
    ensures
        r.x == ir.entry_points@[0].workgroup_size_x,
        r.y == ir.entry_points@[0].workgroup_size_y,
        r.z == ir.entry_points@[0].workgroup_size_z,
{
    let e = ir.entry_points[0];
    WorkGroupSize { x: e.workgroup_size_x, y: e.workgroup_size_y, z: e.workgroup_size_z }
}

/// Collects the (name, slot) pair of every named, bound, group-0 global,
/// in declaration order.
pub fn get_bindings(ir: &ShaderIrModule) -> (r: Vec<(String, u32)>)
    ensures
        bind_map_view(r@) == spec_bindings(ir.globals_view()),
{
    let mut out: Vec<(String, u32)> = Vec::new();
    let n = ir.global_variables.len();
    let mut i: usize = 0;
    while i < n
        invariant
            i <= n,
            n == ir.global_variables@.len(),
            bind_map_view(out@) == spec_bindings(ir.globals_view().take(i as int)),
        decreases n - i,
    {
        let g = &ir.global_variables[i];
        if g.name.is_some() && g.binding.is_some() {
            let b = g.binding.unwrap();
            if b.group == 0 {
                let name = g.name.as_ref().unwrap().clone();
                out.push((name, b.binding));
            }
        }
        proof {
            let gv = ir.globals_view();
            assert(gv.take(i + 1).drop_last() =~= gv.take(i as int));
            assert(gv.take(i + 1).last() == gv[i as int]);
            assert(bind_map_view(out@) =~= spec_bindings(gv.take(i + 1)));
        }
        i = i + 1;
    }
    proof {
        assert(ir.globals_view().take(n as int) =~= ir.globals_view());
    }
    out
}

/// Classifies every named, bound, group-0 global whose shape classification
/// succeeds into its (slot, binding type) pair, in declaration order.
pub fn get_binding_types(ir: &ShaderIrModule) -> (r: Vec<(u32, TTBindingType)>)
    ensures
        r@ == spec_binding_types(ir.globals_view()),
{
    let mut out: Vec<(u32, TTBindingType)> = Vec::new();
    let n = ir.global_variables.len();
    let mut i: usize = 0;
    while i < n
        invariant
            i <= n,
            n == ir.global_variables@.len(),
            out@ == spec_binding_types(ir.globals_view().take(i as int)),
        decreases n - i,
    {
        let g = &ir.global_variables[i];
        if g.name.is_some() && g.binding.is_some() {
            let b = g.binding.unwrap();
            if b.group == 0 {
                let classified: Option<TTBindingType> = match g.ty {
                    IrTypeShape::Struct => match g.space {
                        IrAddressSpace::Uniform => Some(TTBindingType::ConstantsBuffer),
                        IrAddressSpace::Storage => Some(TTBindingType::StorageBuffer),
                        IrAddressSpace::Other => None,
                    },
                    IrTypeShape::Image { .. } => Some(TTBindingType::RWRenderTexture),
                    IrTypeShape::Other => None,
                };
                if let Some(bind_type) = classified {
                    out.push((b.binding, bind_type));
                }
            }
        }
        proof {
            let gv = ir.globals_view();
            assert(gv.take(i + 1).drop_last() =~= gv.take(i as int));
            assert(gv.take(i + 1).last() == gv[i as int]);
            assert(out@ =~= spec_binding_types(gv.take(i + 1)));
        }
        i = i + 1;
    }
    proof {
        assert(ir.globals_view().take(n as int) =~= ir.globals_view());
    }
    out
}

impl TexTransCoreEngineDevice {
    /// Registers a parsed shader module: applies the storage-texture format
    /// rewrite and the work-group clamp to the representation (the host
    /// serializes the rewritten form back to the GPU API), reflects its
    /// group-0 bindings, and appends the result to the catalog. The new
    /// shader's identifier is its dense catalog index; no existing entry is
    /// touched.
    pub fn register_compute_shader(&mut self, ir: &mut ShaderIrModule) -> (id: TTComputeShaderID)
        requires
            old(ir).entry_points@.len() >= 1,
            old(self).compute_shader@.len() < u32::MAX,
            spec_module_bindings_unique(old(ir).globals_view()),
        ensures
            final(ir).globals_view() == spec_fix_globals(
                old(ir).globals_view(),
                old(self).default_render_texture_format,
            ),
            final(ir).entry_points@ == old(ir).entry_points@.map_values(
                |e: IrEntryPoint| spec_clamp_entry(e),
            ),
            id.0 == old(self).compute_shader@.len(),
            final(self).compute_shader@.len() == old(self).compute_shader@.len() + 1,
            forall|j: int|
                0 <= j < old(self).compute_shader@.len() ==> final(self).compute_shader@[j]
                    == old(self).compute_shader@[j],
            bind_map_view(final(self).compute_shader@.last().binding_map@) == spec_bindings(
                final(ir).globals_view(),
            ),
            final(self).compute_shader@.last().binding_type@ == spec_binding_types(
                final(ir).globals_view(),
            ),
            final(self).compute_shader@.last().work_group_size == (WorkGroupSize {
                x: final(ir).entry_points@[0].workgroup_size_x,
                y: final(ir).entry_points@[0].workgroup_size_y,
                z: final(ir).entry_points@[0].workgroup_size_z,
            }),
            forall|k1: int, k2: int|
                0 <= k1 < k2 < final(self).compute_shader@.last().binding_map@.len() ==> (
                #[trigger] bind_map_view(final(self).compute_shader@.last().binding_map@)[k1]).0
                    != (#[trigger] bind_map_view(
                    final(self).compute_shader@.last().binding_map@,
                )[k2]).0 && bind_map_view(final(self).compute_shader@.last().binding_map@)[k1].1
                    != bind_map_view(final(self).compute_shader@.last().binding_map@)[k2].1,
            forall|k1: int, k2: int|
                0 <= k1 < k2 < final(self).compute_shader@.last().binding_type@.len() ==> (
                #[trigger] final(self).compute_shader@.last().binding_type@[k1]).0 != (
                #[trigger] final(self).compute_shader@.last().binding_type@[k2]).0,
            forall|k: int|
                0 <= k < final(self).compute_shader@.last().binding_type@.len()
                    ==> #[trigger] spec_slot_in_bind_map(
                    bind_map_view(final(self).compute_shader@.last().binding_map@),
                    final(self).compute_shader@.last().binding_type@[k].0,
                ),
            final(self).converter_id == old(self).converter_id,
            final(self).default_render_texture_format == old(self).default_render_texture_format,
            final(self).max_command_stack_count == old(self).max_command_stack_count,
    {
        let default_format = self.default_texture_format();
        fix_storage_texture_format(ir, default_format);
        clamp_work_group_size(ir);

        let wg_size = get_work_group_size(ir);
        let bind_map = get_bindings(ir);
        let bind_type = get_binding_types(ir);
        proof {
            lemma_fix_preserves_bindings(old(ir).globals_view(), default_format);
            assert(spec_module_bindings_unique(ir.globals_view()));
            lemma_bindings_distinct(ir.globals_view());
            lemma_binding_types_distinct(ir.globals_view());
            lemma_binding_types_in_bindings(ir.globals_view());
        }

        let id = TTComputeShaderID::from(self.compute_shader.len() as u32);
        self.compute_shader.push(
            TTComputeShader {
                binding_map: bind_map,
                binding_type: bind_type,
                work_group_size: wg_size,
            },
        );
        id
    }
}

/// Registering twice — even the same source twice — yields two distinct
/// identifiers, both of which stay within the catalog and are therefore
/// independently dispatchable; and the second registration leaves the first
/// shader's record untouched. The hypotheses are exactly what two calls of
/// [`TexTransCoreEngineDevice::register_compute_shader`] ensure of the
/// device states `dev0` (before), `dev1` (between) and `dev2` (after).
pub proof fn lemma_shader_registration_ids(
    dev0: TexTransCoreEngineDevice,
    dev1: TexTransCoreEngineDevice,
    dev2: TexTransCoreEngineDevice,
    id1: TTComputeShaderID,
    id2: TTComputeShaderID,
)
    requires
        id1.0 == dev0.compute_shader@.len(),
        dev1.compute_shader@.len() == dev0.compute_shader@.len() + 1,
        forall|j: int|
            0 <= j < dev0.compute_shader@.len() ==> #[trigger] dev1.compute_shader@[j]
                == dev0.compute_shader@[j],
        id2.0 == dev1.compute_shader@.len(),
        dev2.compute_shader@.len() == dev1.compute_shader@.len() + 1,
        forall|j: int|
            0 <= j < dev1.compute_shader@.len() ==> #[trigger] dev2.compute_shader@[j]
                == dev1.compute_shader@[j],
    ensures
        id1.0 != id2.0,
        id1.0 < dev2.compute_shader@.len(),
        id2.0 < dev2.compute_shader@.len(),
        dev2.compute_shader@[id1.0 as int] == dev1.compute_shader@[id1.0 as int],
{
}

/// First-match lookup of a binding name in a reflected binding map, over
/// the map's mathematical value.
pub open spec fn spec_bind_index(m: Seq<(Seq<char>, u32)>, name: Seq<char>) -> Option<u32>
    decreases m.len(),
{
    if m.len() == 0 {
        None
    } else if m[0].0 == name {
        Some(m[0].1)
    } else {
        spec_bind_index(m.drop_first(), name)
    }
}

/// First-match lookup of a slot in a reflected binding-type map.
pub open spec fn spec_binding_type(m: Seq<(u32, TTBindingType)>, slot: u32) -> Option<
    TTBindingType,
>
    decreases m.len(),
{
    if m.len() == 0 {
        None
    } else if m[0].0 == slot {
        Some(m[0].1)
    } else {
        spec_binding_type(m.drop_first(), slot)
    }
}

/// A type with a WGSL storage-texture type name.
pub trait AsTypeStr {
    /// Whether this value has a WGSL storage-texture type name.
    spec fn has_type_str(&self) -> bool;

    /// The name, as a character sequence.
    spec fn spec_type_str(&self) -> Seq<char>;

    /// The WGSL storage-texture type name of this value.
    fn as_type_str(&self) -> (r: &'static str)
        requires
            self.has_type_str(),
        ensures
            r@ == self.spec_type_str(),
    ;
}

/// The four RGBA formats the converter network translates between carry
/// WGSL storage-texture type names; the other formats carry none.
impl AsTypeStr for GpuTextureFormat {
    open spec fn has_type_str(&self) -> bool {
        ||| *self == GpuTextureFormat::Rgba8Unorm
        ||| *self == GpuTextureFormat::Rgba16Unorm
        ||| *self == GpuTextureFormat::Rgba16Float
        ||| *self == GpuTextureFormat::Rgba32Float
    }

    open spec fn spec_type_str(&self) -> Seq<char> {
        match self {
            GpuTextureFormat::Rgba8Unorm => "rgba8unorm"@,
            GpuTextureFormat::Rgba16Unorm => "rgba16unorm"@,
            GpuTextureFormat::Rgba16Float => "rgba16float"@,
            GpuTextureFormat::Rgba32Float => "rgba32float"@,
            _ => Seq::empty(),
        }
    }

    fn as_type_str(&self) -> (r: &'static str) {
        match self {
            GpuTextureFormat::Rgba8Unorm => "rgba8unorm",
            GpuTextureFormat::Rgba16Unorm => "rgba16unorm",
            GpuTextureFormat::Rgba16Float => "rgba16float",
            GpuTextureFormat::Rgba32Float => "rgba32float",
            _ => unreached(),
        }
    }
}

/// A binding name resolves to a slot exactly when the reflected binding
/// map holds an entry of that name: an absent name yields `None`, never a
/// failure.
pub proof fn lemma_bind_index_found(m: Seq<(Seq<char>, u32)>, name: Seq<char>)
    ensures
        (spec_bind_index(m, name) is Some) <==> exists|i: int|
            0 <= i < m.len() && (#[trigger] m[i]).0 == name,
    decreases m.len(),
{
    if m.len() == 0 {
    } else if m[0].0 == name {
        assert(m[0].0 == name);
    } else {
        lemma_bind_index_found(m.drop_first(), name);
        if spec_bind_index(m, name) is Some {
            let i = choose|i: int|
                0 <= i < m.drop_first().len() && (#[trigger] m.drop_first()[i]).0 == name;
            assert(m[i + 1] == m.drop_first()[i]);
        }
        if exists|i: int| 0 <= i < m.len() && (#[trigger] m[i]).0 == name {
            let i = choose|i: int| 0 <= i < m.len() && (#[trigger] m[i]).0 == name;
            assert(m.drop_first()[i - 1] == m[i]);
        }
    }
}

/// Replace-or-append of a slot-keyed association list: the first entry with
/// this slot is replaced in place; with no such entry the pair is appended.
pub open spec fn spec_slot_update<V>(m: Seq<(u32, V)>, slot: u32, value: V) -> Seq<(u32, V)>
    decreases m.len(),
{
    if m.len() == 0 {
        seq![(slot, value)]
    } else if m[0].0 == slot {
        seq![(slot, value)] + m.drop_first()
    } else {
        seq![m[0]] + spec_slot_update(m.drop_first(), slot, value)
    }
}

/// When `slot` first occurs at position `i`, the replace-or-append is an
/// in-place update at `i`.
pub proof fn lemma_spec_slot_update_found<V>(m: Seq<(u32, V)>, slot: u32, value: V, i: int)
    requires
        0 <= i < m.len(),
        m[i].0 == slot,
        forall|j: int| 0 <= j < i ==> (#[trigger] m[j]).0 != slot,
    ensures
        spec_slot_update(m, slot, value) == m.update(i, (slot, value)),
    decreases i,
{
    if i == 0 {
        assert(spec_slot_update(m, slot, value) =~= m.update(0, (slot, value)));
    } else {
        lemma_spec_slot_update_found(m.drop_first(), slot, value, i - 1);
        assert(seq![m[0]] + m.drop_first().update(i - 1, (slot, value)) =~= m.update(
            i,
            (slot, value),
        ));
    }
}

/// When `slot` occurs nowhere, the replace-or-append is an append.
pub proof fn lemma_spec_slot_update_missing<V>(m: Seq<(u32, V)>, slot: u32, value: V)
    requires
        forall|j: int| 0 <= j < m.len() ==> (#[trigger] m[j]).0 != slot,
    ensures
        spec_slot_update(m, slot, value) == m.push((slot, value)),
    decreases m.len(),
{
    if m.len() == 0 {
        assert(spec_slot_update(m, slot, value) =~= m.push((slot, value)));
    } else {
        lemma_spec_slot_update_missing(m.drop_first(), slot, value);
        assert(seq![m[0]] + m.drop_first().push((slot, value)) =~= m.push((slot, value)));
    }
}

/// Mathematical value of a transient constants-buffer binding map.
pub open spec fn constants_view(m: Seq<(u32, Vec<u8>)>) -> Seq<(u32, Seq<u8>)> {
    m.map_values(|p: (u32, Vec<u8>)| (p.0, p.1@))
}

/// Binds concrete resources to one registered shader's slots and issues
/// dispatches. The handler carries a copy of the shader's reflected maps
/// and a transient slot-to-resource mapping; the host keeps the actual
/// texture views and buffers beside it, slot for slot.
pub struct TTComputeHandler {
    pub shader_id: TTComputeShaderID,
    pub binding_map: Vec<(String, u32)>,
    pub binding_type: Vec<(u32, TTBindingType)>,
    pub work_group_size: WorkGroupSize,
    pub bind_tex_view: Vec<(u32, u64)>,
    pub bind_constants_buffer: Vec<(u32, Vec<u8>)>,
    pub bind_storage_buffer: Vec<(u32, u64)>,
}

/// The bind group a dispatch of this handler builds: texture views first,
/// then constants buffers, then storage buffers, each set in binding order.
pub open spec fn spec_entries(h: TTComputeHandler) -> Seq<BindGroupEntryView> {
    h.bind_tex_view@.map_values(
        |p: (u32, u64)|
            BindGroupEntryView {
                binding: p.0,
                resource: ResourceView::TextureView { texture: p.1 },
            },
    ) + h.bind_constants_buffer@.map_values(
        |p: (u32, Vec<u8>)|
            BindGroupEntryView {
                binding: p.0,
                resource: ResourceView::ConstantsBuffer { data: p.1@ },
            },
    ) + h.bind_storage_buffer@.map_values(
        |p: (u32, u64)|
            BindGroupEntryView {
                binding: p.0,
                resource: ResourceView::StorageBuffer { buffer: p.1 },
            },
    )
}

impl TTComputeHandler {
    /// The slot reflected for a binding name, or `None` when the shader has
    /// no resource of that name.
    pub fn get_bind_index(&self, name: &str) -> (r: Option<u32>)
        ensures
            r == spec_bind_index(bind_map_view(self.binding_map@), name@),
    {
        let key: String = name.to_owned();
        let n = self.binding_map.len();
        let mut i: usize = 0;
        proof {
            assert(bind_map_view(self.binding_map@).skip(0) =~= bind_map_view(self.binding_map@));
        }
        while i < n
            invariant
                i <= n,
                n == self.binding_map@.len(),
                key@ == name@,
                spec_bind_index(bind_map_view(self.binding_map@), name@) == spec_bind_index(
                    bind_map_view(self.binding_map@).skip(i as int),
                    name@,
                ),
            decreases n - i,
        {
            let entry = &self.binding_map[i];
            let hit = entry.0 == key;
            proof {
                let m = bind_map_view(self.binding_map@);
                assert(m.skip(i as int)[0] == m[i as int]);
                assert(m.skip(i as int).drop_first() =~= m.skip(i + 1));
            }
            if hit {
                return Some(entry.1);
            }
            i = i + 1;
        }
        None
    }

    /// The reflected binding type of a slot, or `None` when the shader has
    /// no binding in that slot.
    pub fn lookup_binding_type(&self, bind_index: u32) -> (r: Option<TTBindingType>)
        ensures
            r == spec_binding_type(self.binding_type@, bind_index),
    {
        let n = self.binding_type.len();
        let mut i: usize = 0;
        proof {
            assert(self.binding_type@.skip(0) =~= self.binding_type@);
        }
        while i < n
            invariant
                i <= n,
                n == self.binding_type@.len(),
                spec_binding_type(self.binding_type@, bind_index) == spec_binding_type(
                    self.binding_type@.skip(i as int),
                    bind_index,
                ),
            decreases n - i,
        {
            let entry = self.binding_type[i];
            proof {
                let m = self.binding_type@;
                assert(m.skip(i as int)[0] == m[i as int]);
                assert(m.skip(i as int).drop_first() =~= m.skip(i + 1));
            }
            if entry.0 == bind_index {
                return Some(entry.1);
            }
            i = i + 1;
        }
        None
    }

    /// Binds the given bytes as the constants buffer of a slot. The slot
    /// must be reflected and classified as a constants buffer; otherwise
    /// the typed error is returned and the handler is left untouched.
    /// Re-binding a slot replaces its prior transient binding.
    pub fn upload_constants_buffer(&mut self, bind_index: u32, buffer_data_span: &[u8]) -> (r:
        Result<(), TTCEWgpuError>)
        ensures
            spec_binding_type(old(self).binding_type@, bind_index) is None ==> {
                &&& r matches Err(e) && e == TTCEWgpuError::BindingNotFound
                &&& *final(self) == *old(self)
            },
            (spec_binding_type(old(self).binding_type@, bind_index) matches Some(t) && t
                != TTBindingType::ConstantsBuffer) ==> {
                &&& r matches Err(e) && e == TTCEWgpuError::BindingIsNotConstantsBuffer
                &&& *final(self) == *old(self)
            },
            spec_binding_type(old(self).binding_type@, bind_index) == Some(
                TTBindingType::ConstantsBuffer,
            ) ==> {
                &&& r is Ok
                &&& constants_view(final(self).bind_constants_buffer@) == spec_slot_update(
                    constants_view(old(self).bind_constants_buffer@),
                    bind_index,
                    buffer_data_span@,
                )
                &&& final(self).bind_tex_view == old(self).bind_tex_view
                &&& final(self).bind_storage_buffer == old(self).bind_storage_buffer
                &&& final(self).shader_id == old(self).shader_id
                &&& final(self).binding_map == old(self).binding_map
                &&& final(self).binding_type == old(self).binding_type
                &&& final(self).work_group_size == old(self).work_group_size
            },
    {
        let bind_type = match self.lookup_binding_type(bind_index) {
            Some(t) => t,
            None => {
                return Err(TTCEWgpuError::BindingNotFound);
            },
        };
        if bind_type != TTBindingType::ConstantsBuffer {
            return Err(TTCEWgpuError::BindingIsNotConstantsBuffer);
        }

        let data: Vec<u8> = slice_to_vec(buffer_data_span);
        let n = self.bind_constants_buffer.len();
        let mut i: usize = 0;
        while i < n
            invariant
                i <= n,
                n == self.bind_constants_buffer@.len(),
                forall|j: int|
                    0 <= j < i ==> (#[trigger] self.bind_constants_buffer@[j]).0 != bind_index,
                data@ == buffer_data_span@,
                *self == *old(self),
                spec_binding_type(old(self).binding_type@, bind_index) == Some(
                    TTBindingType::ConstantsBuffer,
                ),
            decreases n - i,
        {
            if self.bind_constants_buffer[i].0 == bind_index {
                proof {
                    lemma_spec_slot_update_found(
                        constants_view(self.bind_constants_buffer@),
                        bind_index,
                        data@,
                        i as int,
                    );
                }
                self.bind_constants_buffer[i] = (bind_index, data);
                proof {
                    assert(constants_view(self.bind_constants_buffer@) =~= constants_view(
                        old(self).bind_constants_buffer@,
                    ).update(i as int, (bind_index, buffer_data_span@)));
                }
                return Ok(());
            }
            i = i + 1;
        }
        proof {
            lemma_spec_slot_update_missing(
                constants_view(self.bind_constants_buffer@),
                bind_index,
                data@,
            );
        }
        self.bind_constants_buffer.push((bind_index, data));
        proof {
            assert(constants_view(self.bind_constants_buffer@) =~= constants_view(
                old(self).bind_constants_buffer@,
            ).push((bind_index, buffer_data_span@)));
        }
        Ok(())
    }

    /// Binds a storage buffer into a slot. The slot must be reflected and
    /// classified as a storage buffer; otherwise the typed error is
    /// returned and the handler is left untouched. Re-binding a slot
    /// replaces its prior transient binding.
    pub fn set_storage_buffer(&mut self, bind_index: u32, buffer: &TTStorageBuffer) -> (r: Result<
        (),
        TTCEWgpuError,
    >)
        ensures
            spec_binding_type(old(self).binding_type@, bind_index) is None ==> {
                &&& r matches Err(e) && e == TTCEWgpuError::BindingNotFound
                &&& *final(self) == *old(self)
            },
            (spec_binding_type(old(self).binding_type@, bind_index) matches Some(t) && t
                != TTBindingType::StorageBuffer) ==> {
                &&& r matches Err(e) && e == TTCEWgpuError::BindingIsNotStorageBuffer
                &&& *final(self) == *old(self)
            },
            spec_binding_type(old(self).binding_type@, bind_index) == Some(
                TTBindingType::StorageBuffer,
            ) ==> {
                &&& r is Ok
                &&& final(self).bind_storage_buffer@ == spec_slot_update(
                    old(self).bind_storage_buffer@,
                    bind_index,
                    buffer.handle,
                )
                &&& final(self).bind_tex_view == old(self).bind_tex_view
                &&& final(self).bind_constants_buffer == old(self).bind_constants_buffer
                &&& final(self).shader_id == old(self).shader_id
                &&& final(self).binding_map == old(self).binding_map
                &&& final(self).binding_type == old(self).binding_type
                &&& final(self).work_group_size == old(self).work_group_size
            },
    {
        let bind_type = match self.lookup_binding_type(bind_index) {
            Some(t) => t,
            None => {
                return Err(TTCEWgpuError::BindingNotFound);
            },
        };
        if bind_type != TTBindingType::StorageBuffer {
            return Err(TTCEWgpuError::BindingIsNotStorageBuffer);
        }

        let n = self.bind_storage_buffer.len();
        let mut i: usize = 0;
        while i < n
            invariant
                i <= n,
                n == self.bind_storage_buffer@.len(),
                forall|j: int|
                    0 <= j < i ==> (#[trigger] self.bind_storage_buffer@[j]).0 != bind_index,
                *self == *old(self),
                spec_binding_type(old(self).binding_type@, bind_index) == Some(
                    TTBindingType::StorageBuffer,
                ),
            decreases n - i,
        {
            if self.bind_storage_buffer[i].0 == bind_index {
                proof {
                    lemma_spec_slot_update_found(
                        self.bind_storage_buffer@,
                        bind_index,
                        buffer.handle,
                        i as int,
                    );
                }
                self.bind_storage_buffer[i] = (bind_index, buffer.handle);
                return Ok(());
            }
            i = i + 1;
        }
        proof {
            lemma_spec_slot_update_missing(self.bind_storage_buffer@, bind_index, buffer.handle);
        }
        self.bind_storage_buffer.push((bind_index, buffer.handle));
        Ok(())
    }

    /// Binds a render texture into a slot as a storage-image view. The slot
    /// must be reflected and classified as a read/write texture; otherwise
    /// the typed error is returned and the handler is left untouched.
    /// Re-binding a slot replaces its prior transient binding.
    pub fn set_render_texture(&mut self, bind_index: u32, render_texture: &TTRenderTexture) -> (r:
        Result<(), TTCEWgpuError>)
        ensures
            spec_binding_type(old(self).binding_type@, bind_index) is None ==> {
                &&& r matches Err(e) && e == TTCEWgpuError::BindingNotFound
                &&& *final(self) == *old(self)
            },
            (spec_binding_type(old(self).binding_type@, bind_index) matches Some(t) && t
                != TTBindingType::RWRenderTexture) ==> {
                &&& r matches Err(e) && e == TTCEWgpuError::BindingIsNotRWTexture
                &&& *final(self) == *old(self)
            },
            spec_binding_type(old(self).binding_type@, bind_index) == Some(
                TTBindingType::RWRenderTexture,
            ) ==> {
                &&& r is Ok
                &&& final(self).bind_tex_view@ == spec_slot_update(
                    old(self).bind_tex_view@,
                    bind_index,
                    render_texture.handle,
                )
                &&& final(self).bind_constants_buffer == old(self).bind_constants_buffer
                &&& final(self).bind_storage_buffer == old(self).bind_storage_buffer
                &&& final(self).shader_id == old(self).shader_id
                &&& final(self).binding_map == old(self).binding_map
                &&& final(self).binding_type == old(self).binding_type
                &&& final(self).work_group_size == old(self).work_group_size
            },
    {
        let bind_type = match self.lookup_binding_type(bind_index) {
            Some(t) => t,
            None => {
                return Err(TTCEWgpuError::BindingNotFound);
            },
        };
        if bind_type != TTBindingType::RWRenderTexture {
            return Err(TTCEWgpuError::BindingIsNotRWTexture);
        }

        let n = self.bind_tex_view.len();
        let mut i: usize = 0;
        while i < n
            invariant
                i <= n,
                n == self.bind_tex_view@.len(),
                forall|j: int| 0 <= j < i ==> (#[trigger] self.bind_tex_view@[j]).0 != bind_index,
                *self == *old(self),
                spec_binding_type(old(self).binding_type@, bind_index) == Some(
                    TTBindingType::RWRenderTexture,
                ),
            decreases n - i,
        {
            if self.bind_tex_view[i].0 == bind_index {
                proof {
                    lemma_spec_slot_update_found(
                        self.bind_tex_view@,
                        bind_index,
                        render_texture.handle,
                        i as int,
                    );
                }
                self.bind_tex_view[i] = (bind_index, render_texture.handle);
                return Ok(());
            }
            i = i + 1;
        }
        proof {
            lemma_spec_slot_update_missing(self.bind_tex_view@, bind_index, render_texture.handle);
        }
        self.bind_tex_view.push((bind_index, render_texture.handle));
        Ok(())
    }

    /// The dispatch tile of the bound shader.
    pub fn get_work_group_size(&self) -> (r: WorkGroupSize)
        ensures
            r == self.work_group_size,
    {
        self.work_group_size
    }

    /// The bind group one dispatch of this handler builds, from every
    /// currently bound slot: texture views, then constants buffers, then
    /// storage buffers.
    fn build_bind_group_entries(&self) -> (entries: Vec<BindGroupEntry>)
        ensures
            entries@.map_values(|e: BindGroupEntry| e@) == spec_entries(*self),
    {
        let mut entries: Vec<BindGroupEntry> = Vec::new();

        let n1 = self.bind_tex_view.len();
        let mut i: usize = 0;
        while i < n1
            invariant
                i <= n1,
                n1 == self.bind_tex_view@.len(),
                entries@.len() == i,
                forall|k: int|
                    0 <= k < i ==> (#[trigger] entries@[k])@ == (BindGroupEntryView {
                        binding: self.bind_tex_view@[k].0,
                        resource: ResourceView::TextureView { texture: self.bind_tex_view@[k].1 },
                    }),
            decreases n1 - i,
        {
            let p = self.bind_tex_view[i];
            entries.push(
                BindGroupEntry { binding: p.0, resource: BoundResource::TextureView { texture: p.1 } },
            );
            i = i + 1;
        }

        let n2 = self.bind_constants_buffer.len();
        let mut i2: usize = 0;
        while i2 < n2
            invariant
                i2 <= n2,
                n1 == self.bind_tex_view@.len(),
                n2 == self.bind_constants_buffer@.len(),
                entries@.len() == n1 + i2,
                forall|k: int|
                    0 <= k < n1 ==> (#[trigger] entries@[k])@ == (BindGroupEntryView {
                        binding: self.bind_tex_view@[k].0,
                        resource: ResourceView::TextureView { texture: self.bind_tex_view@[k].1 },
                    }),
                forall|k: int|
                    0 <= k < i2 ==> (#[trigger] entries@[n1 + k])@ == (BindGroupEntryView {
                        binding: self.bind_constants_buffer@[k].0,
                        resource: ResourceView::ConstantsBuffer {
                            data: self.bind_constants_buffer@[k].1@,
                        },
                    }),
            decreases n2 - i2,
        {
            let slot = self.bind_constants_buffer[i2].0;
            let data: Vec<u8> = slice_to_vec(self.bind_constants_buffer[i2].1.as_slice());
            entries.push(
                BindGroupEntry { binding: slot, resource: BoundResource::ConstantsBuffer { data } },
            );
            i2 = i2 + 1;
        }

        let n3 = self.bind_storage_buffer.len();
        let mut i3: usize = 0;
        while i3 < n3
            invariant
                i3 <= n3,
                n1 == self.bind_tex_view@.len(),
                n2 == self.bind_constants_buffer@.len(),
                n3 == self.bind_storage_buffer@.len(),
                entries@.len() == n1 + n2 + i3,
                forall|k: int|
                    0 <= k < n1 ==> (#[trigger] entries@[k])@ == (BindGroupEntryView {
                        binding: self.bind_tex_view@[k].0,
                        resource: ResourceView::TextureView { texture: self.bind_tex_view@[k].1 },
                    }),
                forall|k: int|
                    0 <= k < n2 ==> (#[trigger] entries@[n1 + k])@ == (BindGroupEntryView {
                        binding: self.bind_constants_buffer@[k].0,
                        resource: ResourceView::ConstantsBuffer {
                            data: self.bind_constants_buffer@[k].1@,
                        },
                    }),
                forall|k: int|
                    0 <= k < i3 ==> (#[trigger] entries@[n1 + n2 + k])@ == (BindGroupEntryView {
                        binding: self.bind_storage_buffer@[k].0,
                        resource: ResourceView::StorageBuffer {
                            buffer: self.bind_storage_buffer@[k].1,
                        },
                    }),
            decreases n3 - i3,
        {
            let p = self.bind_storage_buffer[i3];
            entries.push(
                BindGroupEntry { binding: p.0, resource: BoundResource::StorageBuffer { buffer: p.1 } },
            );
            i3 = i3 + 1;
        }

        proof {
            let ev = entries@.map_values(|e: BindGroupEntry| e@);
            let se = spec_entries(*self);
            assert forall|k: int| 0 <= k < ev.len() implies ev[k] == se[k] by {
                assert(ev[k] == entries@[k]@);
                if k < n1 {
                    assert(se[k] == (BindGroupEntryView {
                        binding: self.bind_tex_view@[k].0,
                        resource: ResourceView::TextureView { texture: self.bind_tex_view@[k].1 },
                    }));
                } else if k < n1 + n2 {
                    let kk = k - n1;
                    assert(se[k] == (BindGroupEntryView {
                        binding: self.bind_constants_buffer@[kk].0,
                        resource: ResourceView::ConstantsBuffer {
                            data: self.bind_constants_buffer@[kk].1@,
                        },
                    }));
                    assert(entries@[n1 + kk]@ == (BindGroupEntryView {
                        binding: self.bind_constants_buffer@[kk].0,
                        resource: ResourceView::ConstantsBuffer {
                            data: self.bind_constants_buffer@[kk].1@,
                        },
                    }));
                    assert(n1 + kk == k);
                } else {
                    let kk = k - n1 - n2;
                    assert(se[k] == (BindGroupEntryView {
                        binding: self.bind_storage_buffer@[kk].0,
                        resource: ResourceView::StorageBuffer {
                            buffer: self.bind_storage_buffer@[kk].1,
                        },
                    }));
                    assert(entries@[n1 + n2 + kk]@ == (BindGroupEntryView {
                        binding: self.bind_storage_buffer@[kk].0,
                        resource: ResourceView::StorageBuffer {
                            buffer: self.bind_storage_buffer@[kk].1,
                        },
                    }));
                    assert(n1 + n2 + kk == k);
                }
            }
            assert(entries@.map_values(|e: BindGroupEntry| e@) =~= spec_entries(*self));
        }
        entries
    }

    /// Records one dispatch of the bound shader into the context's encoder:
    /// a compute pass that sets the pipeline, sets the bind group built
    /// from every currently bound slot, and dispatches an `x` by `y` by `z`
    /// grid of work-groups — then checks the context's backlog, flushing
    /// exactly when the pending-command counter exceeds the device's
    /// threshold. Returns the recorded command (for the host to mirror into
    /// its encoder) and the flushed batch, if the backlog check flushed.
    pub fn dispatch(
        &self,
        ctx: &mut TexTransCoreEngineContext,
        engine: &TexTransCoreEngineDevice,
        x: u32,
        y: u32,
        z: u32,
    ) -> (r: (TTCommand, Option<Vec<TTCommand>>))
        requires
            old(ctx).command_stack_count < u32::MAX,
        ensures
            r.0@ == spec_dispatch_command(*self, x, y, z),
            old(ctx).command_stack_count + 1 > engine.max_command_stack_count ==> {
                &&& r.1 matches Some(batch) && batch@.map_values(|c: TTCommand| c@)
                    == old(ctx).pending().push(spec_dispatch_command(*self, x, y, z))
                &&& final(ctx).command_encoder is None
                &&& final(ctx).command_stack_count == 0
            },
            old(ctx).command_stack_count + 1 <= engine.max_command_stack_count ==> {
                &&& r.1 is None
                &&& final(ctx).pending() == old(ctx).pending().push(
                    spec_dispatch_command(*self, x, y, z),
                )
                &&& final(ctx).command_stack_count == old(ctx).command_stack_count + 1
            },
            final(ctx).next_resource_handle == old(ctx).next_resource_handle,
    {
        let entries = self.build_bind_group_entries();
        let cmd = TTCommand::ComputeDispatch { pipeline: self.shader_id, entries, x, y, z };
        let entries_ret = self.build_bind_group_entries();
        let cmd_ret = TTCommand::ComputeDispatch {
            pipeline: self.shader_id,
            entries: entries_ret,
            x,
            y,
            z,
        };
        proof {
            assert(cmd@ == spec_dispatch_command(*self, x, y, z));
            assert(cmd_ret@ == spec_dispatch_command(*self, x, y, z));
        }
        let ghost pending0 = ctx.pending();
        let encoder = ctx.get_command_encoder_as_mut();
        encoder.push(cmd);
        proof {
            assert(ctx.pending() =~= pending0.push(spec_dispatch_command(*self, x, y, z)));
        }
        let flushed = ctx.check_command_stack(engine);
        (cmd_ret, flushed)
    }
}

/// The one command a dispatch of this handler records.
pub open spec fn spec_dispatch_command(h: TTComputeHandler, x: u32, y: u32, z: u32) -> CommandView {
    CommandView::ComputeDispatch { pipeline: h.shader_id, entries: spec_entries(h), x, y, z }
}

impl TexTransCoreEngineContext {
    /// A fresh handler for a registered shader: a copy of the shader's
    /// reflected maps and empty transient bindings. An identifier outside
    /// the catalog is refused.
    pub fn get_compute_handler(&self, engine: &TexTransCoreEngineDevice, id: &TTComputeShaderID)
        -> (r: Result<TTComputeHandler, &'static str>)
        ensures
            r is Ok <==> id.0 < engine.compute_shader@.len(),
            r matches Ok(h) ==> {
                &&& h.shader_id == *id
                &&& bind_map_view(h.binding_map@) == bind_map_view(
                    engine.compute_shader@[id.0 as int].binding_map@,
                )
                &&& h.binding_type@ == engine.compute_shader@[id.0 as int].binding_type@
                &&& h.work_group_size == engine.compute_shader@[id.0 as int].work_group_size
                &&& h.bind_tex_view@.len() == 0
                &&& h.bind_constants_buffer@.len() == 0
                &&& h.bind_storage_buffer@.len() == 0
            },
    {
        if !((id.0 as usize) < engine.compute_shader.len()) {
            return Err("un registered id");
        }
        let cs = &engine.compute_shader[id.0 as usize];

        let mut bm: Vec<(String, u32)> = Vec::new();
        let n = cs.binding_map.len();
        let mut i: usize = 0;
        while i < n
            invariant
                i <= n,
                n == cs.binding_map@.len(),
                bm@.len() == i,
                forall|k: int|
                    0 <= k < i ==> (#[trigger] bm@[k]).0@ == cs.binding_map@[k].0@ && bm@[k].1
                        == cs.binding_map@[k].1,
            decreases n - i,
        {
            let entry = &cs.binding_map[i];
            bm.push((entry.0.clone(), entry.1));
            i = i + 1;
        }
        proof {
            assert(bind_map_view(bm@) =~= bind_map_view(cs.binding_map@));
        }

        let mut bt: Vec<(u32, TTBindingType)> = Vec::new();
        let n2 = cs.binding_type.len();
        let mut i2: usize = 0;
        while i2 < n2
            invariant
                i2 <= n2,
                n2 == cs.binding_type@.len(),
                bt@.len() == i2,
                forall|k: int| 0 <= k < i2 ==> (#[trigger] bt@[k]) == cs.binding_type@[k],
            decreases n2 - i2,
        {
            bt.push(cs.binding_type[i2]);
            i2 = i2 + 1;
        }
        proof {
            assert(bt@ =~= cs.binding_type@);
        }

        Ok(
            TTComputeHandler {
                shader_id: *id,
                binding_map: bm,
                binding_type: bt,
                work_group_size: cs.work_group_size,
                bind_tex_view: Vec::new(),
                bind_constants_buffer: Vec::new(),
                bind_storage_buffer: Vec::new(),
            },
        )
    }
}

} // verus!
