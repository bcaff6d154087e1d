//! Verified core of a Rust-to-PTX compilation pipeline.
//!
//! The modules follow a kernel on its way to the device:
//!
//! - what the compiler says of a function becomes attributes ([`abi_attrs`],
//!   [`arg_attrs`]), declarations ([`device_extern`]) and debug scopes
//!   ([`debug_scopes`]), and a request to the pipeline ([`device_codegen`]);
//! - calls of device functions become operations ([`importer`], [`float_math`],
//!   [`float_math_laws`]), which are registered and checked ([`op_arena`],
//!   [`memory_ops`], [`nvvm`]) and lowered ([`lowering`], [`atomic_lowering`],
//!   [`intrinsic_lowering`]);
//! - the pipeline runs step by step ([`pipeline`]), and the module is written as text
//!   ([`ir`], [`export_state`], [`naming`], [`edges`], [`function`], [`global`],
//!   [`metadata`], [`metadata_laws`], [`export_laws`]);
//! - the host builds and loads what was written ([`ltoir`], [`sidecar`],
//!   [`cuda_arch`], [`libdevice`], [`cache_key`], [`cache_result`], [`ltoir_error`]);
//! - device code holds register values ([`cusimd`]).
//!
//! Every function says in its contract what it returns or changes. The modules whose names
//! end in `laws` state what holds of these functions in terms of what goes into a call and
//! what comes out of it: of the front end ([`frontend_laws`], [`debug_laws`]), of imported
//! and lowered operations ([`import_laws`], [`lowering_laws`], [`memory_laws`],
//! [`nvvm_laws`]), of the pipeline ([`pipeline_laws`]), of the written text
//! ([`export_text_laws`], [`export_success_laws`], [`naming_laws`], [`module_laws`],
//! [`text_laws`]), and of what is built and loaded ([`load_laws`], [`build_laws`]).
//!
//! What performs input and output, or needs the NVIDIA libraries, stands outside and
//! exchanges plain values with this crate.

pub mod apint;
pub mod emission;
pub mod fx_map;
pub mod identifier;
pub mod paths;
pub mod symbols;
pub mod text;
pub mod text_laws;

pub mod abi_attrs;
pub mod arg_attrs;
pub mod debug_laws;
pub mod debug_scopes;
pub mod device_codegen;
pub mod device_extern;
pub mod frontend_laws;

pub mod atomic_lowering;
pub mod float_math;
pub mod float_math_laws;
pub mod import_laws;
pub mod importer;
pub mod intrinsic_lowering;
pub mod lowering;
pub mod lowering_laws;
pub mod memory_laws;
pub mod memory_ops;
pub mod nvvm;
pub mod nvvm_laws;
pub mod op_arena;

pub mod edges;
pub mod export_laws;
pub mod export_state;
pub mod export_success_laws;
pub mod export_text_laws;
pub mod function;
pub mod global;
pub mod ir;
pub mod metadata;
pub mod metadata_laws;
pub mod module_laws;
pub mod naming;
pub mod naming_laws;
pub mod pipeline;
pub mod pipeline_laws;

pub mod build_laws;
pub mod cache_key;
pub mod cache_result;
pub mod cuda_arch;
pub mod libdevice;
pub mod load_laws;
pub mod ltoir;
pub mod ltoir_error;
pub mod sidecar;

pub mod cusimd;
