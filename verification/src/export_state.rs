//! State shared by the emitters of one exported module.

use crate::emission::outcome;
use crate::emission::put_rendered;
use crate::emission::after;
use crate::ir::Context;
use crate::symbols::SymbolTable;
use vstd::prelude::*;

verus! {

/// The NVVM IR dialect that a module is exported in.
#[derive(Debug, Clone, Copy, PartialEq, Eq, Structural)]
pub enum NvvmIrDialect {
    /// The LLVM 7 dialect with typed pointers.
    LegacyLlvm7,
    /// The dialect with opaque pointers.
    Modern,
}

/// A kernel with compile-time cluster dimensions.
#[derive(Debug)]
pub struct KernelClusterConfig {
    /// Exported name.
    pub name: String,
    /// Cluster width.
    pub dim_x: u32,
    /// Cluster height.
    pub dim_y: u32,
    /// Cluster depth.
    pub dim_z: u32,
}

/// A kernel with launch bounds.
#[derive(Debug)]
pub struct KernelLaunchBounds {
    /// Exported name.
    pub name: String,
    /// Most threads per block.
    pub max_threads: u32,
    /// Fewest blocks per multiprocessor, where given.
    pub min_blocks: Option<u32>,
}

/// A kernel.
#[derive(Debug)]
pub struct KernelInfo {
    /// Exported name.
    pub name: String,
}

/// What [`KernelClusterConfig`] holds.
pub struct ClusterView {
    /// Exported name.
    pub name: Seq<char>,
    /// Cluster width.
    pub dim_x: u32,
    /// Cluster height.
    pub dim_y: u32,
    /// Cluster depth.
    pub dim_z: u32,
}

/// What [`KernelLaunchBounds`] holds.
pub struct BoundsView {
    /// Exported name.
    pub name: Seq<char>,
    /// Most threads per block.
    pub max_threads: u32,
    /// Fewest blocks per multiprocessor, where given.
    pub min_blocks: Option<u32>,
}

impl View for KernelClusterConfig {
    type V = ClusterView;

    open spec fn view(&self) -> ClusterView {
        ClusterView { name: self.name@, dim_x: self.dim_x, dim_y: self.dim_y, dim_z: self.dim_z }
    }
}

impl View for KernelLaunchBounds {
    type V = BoundsView;

    open spec fn view(&self) -> BoundsView {
        BoundsView {
            name: self.name@,
            max_threads: self.max_threads,
            min_blocks: self.min_blocks,
        }
    }
}

impl View for KernelInfo {
    type V = Seq<char>;

    open spec fn view(&self) -> Seq<char> {
        self.name@
    }
}

/// State shared by the emitters of one exported module.
#[derive(Debug)]
pub struct ModuleExportState<'a> {
    /// The types of the module.
    pub ctx: &'a Context,
    /// Whether every kernel needs an annotation.
    pub track_all_kernels: bool,
    /// Whether kernels are defined with the `ptx_kernel` calling convention.
    pub emit_ptx_kernel_keyword: bool,
    /// The NVVM IR dialect, where the module is exported as NVVM IR.
    pub nvvm_ir_dialect: Option<NvvmIrDialect>,
    /// Kernels with cluster dimensions.
    pub cluster_kernels: Vec<KernelClusterConfig>,
    /// Kernels with launch bounds.
    pub launch_bounds_kernels: Vec<KernelLaunchBounds>,
    /// All kernels, where they are tracked.
    pub all_kernels: Vec<KernelInfo>,
    /// Standalone device functions that are defined.
    pub device_functions: Vec<String>,
    /// The types of the functions seen so far, by exported name.
    pub function_types: SymbolTable<usize>,
    /// The address spaces of the globals, by symbol.
    pub global_symbols: SymbolTable<u32>,
    /// Whether anything refers to the convergent attribute group.
    pub convergent_used: bool,
    /// The next free metadata identifier.
    pub metadata_ids: u64,
}

/// The part of [`ModuleExportState`] that the emitters change.
pub struct ExportView {
    /// Kernels with cluster dimensions.
    pub cluster_kernels: Seq<ClusterView>,
    /// Kernels with launch bounds.
    pub launch_bounds_kernels: Seq<BoundsView>,
    /// All kernels, where they are tracked.
    pub all_kernels: Seq<Seq<char>>,
    /// Standalone device functions that are defined.
    pub device_functions: Seq<Seq<char>>,
    /// The types of the functions seen so far, by exported name.
    pub function_types: Map<Seq<char>, usize>,
    /// Whether anything refers to the convergent attribute group.
    pub convergent_used: bool,
    /// The next free metadata identifier.
    pub next_metadata_id: nat,
}

impl<'a> View for ModuleExportState<'a> {
    type V = ExportView;

    open spec fn view(&self) -> ExportView {
        ExportView {
            cluster_kernels: self.cluster_kernels@.map_values(|k: KernelClusterConfig| k@),
            launch_bounds_kernels: self.launch_bounds_kernels@.map_values(
                |k: KernelLaunchBounds| k@,
            ),
            all_kernels: self.all_kernels@.map_values(|k: KernelInfo| k@),
            device_functions: self.device_functions@.map_values(|s: String| s@),
            function_types: self.function_types@,
            convergent_used: self.convergent_used,
            next_metadata_id: self.metadata_ids as nat,
        }
    }
}

/// The part of [`ModuleExportState`] that no emitter changes.
pub open spec fn same_setup(a: ModuleExportState, b: ModuleExportState) -> bool {
    &&& a.ctx == b.ctx
    &&& a.track_all_kernels == b.track_all_kernels
    &&& a.emit_ptx_kernel_keyword == b.emit_ptx_kernel_keyword
    &&& a.nvvm_ir_dialect == b.nvvm_ir_dialect
    &&& a.global_symbols == b.global_symbols
}

/// The message for a function without a known type.
pub open spec fn unknown_function_message(name: Seq<char>) -> Seq<char> {
    "missing function type for `@"@ + name + "`"@
}

impl<'a> ModuleExportState<'a> {
    /// How the module spells a reference to the function `name`.
    pub open spec fn function_reference(self, name: Seq<char>) -> Result<Seq<char>, Seq<char>> {
        if self.legacy() {
            if !self@.function_types.dom().contains(name) {
                Err(unknown_function_message(name))
            } else {
                self.ctx.pointer_exported(self@.function_types[name])
            }
        } else {
            Ok("ptr"@)
        }
    }

    /// The module is exported with typed pointers.
    pub open spec fn legacy(self) -> bool {
        self.nvvm_ir_dialect == Some(NvvmIrDialect::LegacyLlvm7)
    }

    /// The recorded function types are types of the context.
    pub open spec fn wf(self) -> bool {
        &&& self.ctx.wf()
        &&& forall|name: Seq<char>|
            self@.function_types.dom().contains(name) ==> self.ctx.has(
                #[trigger] self@.function_types[name],
            )
    }

    /// The state before anything is exported.
    pub fn new(
        ctx: &'a Context,
        track_all_kernels: bool,
        emit_ptx_kernel_keyword: bool,
        nvvm_ir_dialect: Option<NvvmIrDialect>,
    ) -> (r: ModuleExportState<'a>)
        ensures
            r.ctx == ctx,
            r.track_all_kernels == track_all_kernels,
            r.emit_ptx_kernel_keyword == emit_ptx_kernel_keyword,
            r.nvvm_ir_dialect == nvvm_ir_dialect,
            r.global_symbols@ == Map::<Seq<char>, u32>::empty(),
            r@ == (ExportView {
                cluster_kernels: seq![],
                launch_bounds_kernels: seq![],
                all_kernels: seq![],
                device_functions: seq![],
                function_types: Map::empty(),
                convergent_used: false,
                next_metadata_id: 0,
            }),
            ctx.wf() ==> r.wf(),
    {
        let r = ModuleExportState {
            ctx,
            track_all_kernels,
            emit_ptx_kernel_keyword,
            nvvm_ir_dialect,
            cluster_kernels: Vec::new(),
            launch_bounds_kernels: Vec::new(),
            all_kernels: Vec::new(),
            device_functions: Vec::new(),
            function_types: SymbolTable::new(),
            global_symbols: SymbolTable::new(),
            convergent_used: false,
            metadata_ids: 0,
        };
        assert(r@.cluster_kernels =~= seq![]);
        assert(r@.launch_bounds_kernels =~= seq![]);
        assert(r@.all_kernels =~= seq![]);
        assert(r@.device_functions =~= seq![]);
        r
    }

    /// Whether the module is exported with typed pointers.
    pub fn legacy_typed_pointers(&self) -> (r: bool)
        ensures
            r == self.legacy(),
    {
        match self.nvvm_ir_dialect {
            Some(NvvmIrDialect::LegacyLlvm7) => true,
            _ => false,
        }
    }

    /// The next free metadata identifier.
    pub fn next_metadata_id(&self) -> (r: u64)
        ensures
            r == self@.next_metadata_id,
    {
        self.metadata_ids
    }

    /// Takes the next free metadata identifier.
    pub fn alloc_metadata_id(&mut self) -> (r: u64)
        requires
            old(self)@.next_metadata_id < u64::MAX,
        ensures
            r == old(self)@.next_metadata_id,
            final(self)@ == (ExportView {
                next_metadata_id: old(self)@.next_metadata_id + 1,
                ..old(self)@
            }),
            same_setup(*old(self), *final(self)),
    {
        let id: u64 = self.metadata_ids;
        self.metadata_ids = id + 1;
        id
    }

    /// Writes the spelling of `ty`.
    pub fn export_type(&self, ty: usize, out: &mut String) -> (r: Result<(), String>)
        requires
            self.ctx.has(ty),
        ensures
            outcome(final(out)@, r) == after(old(out)@).put_rendered(self.ctx.exported(ty)),
    {
        put_rendered(out, &self.ctx.types[ty].exported)
    }

    /// Writes a reference to the function `name`, without the name.
    pub fn export_function_pointer(&self, name: &str, out: &mut String) -> (r: Result<(), String>)
        requires
            self.wf(),
        ensures
            outcome(final(out)@, r) == after(old(out)@).put_rendered(
                self.function_reference(name@),
            ),
    {
        if self.legacy_typed_pointers() {
            match self.function_types.get(name) {
                Some(ty) => {
                    assert(self@.function_types[name@] == ty);
                    put_rendered(out, &self.ctx.types[ty].pointer_exported)
                },
                None => {
                    let mut message = "missing function type for `@".to_owned();
                    message.append(name);
                    message.append("`");
                    Err(message)
                },
            }
        } else {
            out.append("ptr");
            Ok(())
        }
    }

    /// Records a kernel with cluster dimensions.
    pub fn push_cluster_kernel(&mut self, config: KernelClusterConfig)
        ensures
            final(self)@ == (ExportView {
                cluster_kernels: old(self)@.cluster_kernels.push(config@),
                ..old(self)@
            }),
            same_setup(*old(self), *final(self)),
    {
        self.cluster_kernels.push(config);
        assert(self@.cluster_kernels =~= old(self)@.cluster_kernels.push(config@));
    }

    /// Records a kernel with launch bounds.
    pub fn push_launch_bounds_kernel(&mut self, bounds: KernelLaunchBounds)
        ensures
            final(self)@ == (ExportView {
                launch_bounds_kernels: old(self)@.launch_bounds_kernels.push(bounds@),
                ..old(self)@
            }),
            same_setup(*old(self), *final(self)),
    {
        self.launch_bounds_kernels.push(bounds);
        assert(self@.launch_bounds_kernels =~= old(self)@.launch_bounds_kernels.push(bounds@));
    }

    /// Records a kernel.
    pub fn push_kernel(&mut self, name: &str)
        ensures
            final(self)@ == (ExportView {
                all_kernels: old(self)@.all_kernels.push(name@),
                ..old(self)@
            }),
            same_setup(*old(self), *final(self)),
    {
        self.all_kernels.push(KernelInfo { name: name.to_owned() });
        assert(self@.all_kernels =~= old(self)@.all_kernels.push(name@));
    }

    /// Records a standalone device function.
    pub fn push_device_function(&mut self, name: &str)
        ensures
            final(self)@ == (ExportView {
                device_functions: old(self)@.device_functions.push(name@),
                ..old(self)@
            }),
            same_setup(*old(self), *final(self)),
    {
        self.device_functions.push(name.to_owned());
        assert(self@.device_functions =~= old(self)@.device_functions.push(name@));
    }

    /// Records the type of a function.
    pub fn set_function_type(&mut self, name: &str, ty: usize)
        ensures
            final(self)@ == (ExportView {
                function_types: old(self)@.function_types.insert(name@, ty),
                ..old(self)@
            }),
            same_setup(*old(self), *final(self)),
    {
        self.function_types.insert(name, ty);
    }

    /// Records that something refers to the convergent attribute group.
    pub fn use_convergent(&mut self)
        ensures
            final(self)@ == (ExportView { convergent_used: true, ..old(self)@ }),
            same_setup(*old(self), *final(self)),
    {
        self.convergent_used = true;
    }
}

}
