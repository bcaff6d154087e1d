//! Parameter attributes from the computed calling convention of a function.
//!
//! The attributes are passed through as the compiler computed them. The one type
//! that gets more is `cuda_device::DisjointSlice`: it wraps a raw pointer, but its
//! contract promises exclusive, aligned and valid access, and that promise is
//! what the attributes say.

use crate::arg_attrs::no_attrs;
use crate::arg_attrs::nonzero;
use crate::arg_attrs::ArgAttrs;
use crate::arg_attrs::ArgExt;
use crate::text::str_eq;
use vstd::prelude::*;

verus! {

broadcast use vstd::string::group_string_axioms;

/// The flag of `noalias`.
pub const NO_ALIAS: u16 = 8;

/// The flag of `nonnull`.
pub const NON_NULL: u16 = 16;

/// The flag of `readonly`.
pub const READ_ONLY: u16 = 32;

/// The flag of `noundef`.
pub const NO_UNDEF: u16 = 128;

/// Extension of a narrow integer at a call boundary.
#[derive(Debug, Clone, Copy, PartialEq, Eq, Structural)]
pub enum ArgExtension {
    /// No extension.
    NoExt,
    /// Zero extension.
    Zext,
    /// Sign extension.
    Sext,
}

/// The attributes that the compiler computed for one passed value.
#[derive(Debug, Clone, Copy, PartialEq, Eq, Structural)]
pub struct ArgAttributes {
    /// The flags.
    pub regular: u16,
    /// Extension of a narrow integer.
    pub arg_ext: ArgExtension,
    /// Bytes behind a pointer; zero where unknown.
    pub pointee_size: u64,
    /// Alignment behind a pointer, in bytes.
    pub pointee_align: Option<u64>,
}

/// How an argument is passed.
#[derive(Debug, Clone, Copy, PartialEq, Eq, Structural)]
pub enum PassMode {
    /// Not at all.
    Ignore,
    /// Directly.
    Direct(ArgAttributes),
    /// As two values, such as the data and the length of a slice.
    Pair(ArgAttributes, ArgAttributes),
    /// Through another type.
    Cast,
    /// Behind a pointer.
    Indirect(ArgAttributes),
}

/// A structure type, as far as it is recognized by name.
#[derive(Debug)]
pub struct AdtInfo {
    /// Name of the type.
    pub item_name: String,
    /// Name of the crate that defines it.
    pub crate_name: String,
    /// Alignment of its first type argument, where it has one of known layout.
    pub element_align: Option<u64>,
}

/// One argument of a function.
#[derive(Debug)]
pub struct ArgAbi {
    /// The type, where it is a structure.
    pub adt: Option<AdtInfo>,
    /// How it is passed.
    pub mode: PassMode,
}

/// What a set of computed attributes says.
pub open spec fn decoded_attrs(attrs: ArgAttributes) -> ArgAttrs {
    ArgAttrs {
        noalias: attrs.regular & NO_ALIAS != 0,
        readonly: attrs.regular & READ_ONLY != 0,
        nonnull: attrs.regular & NON_NULL != 0,
        noundef: attrs.regular & NO_UNDEF != 0,
        dereferenceable: nonzero(attrs.pointee_size),
        align: attrs.pointee_align,
        ext: match attrs.arg_ext {
            ArgExtension::NoExt => ArgExt::NoExt,
            ArgExtension::Sext => ArgExt::Sign,
            ArgExtension::Zext => ArgExt::Zero,
        },
    }
}

/// What a set of computed attributes says, where it says anything.
pub open spec fn decoded(attrs: ArgAttributes) -> Option<ArgAttrs> {
    if decoded_attrs(attrs) == no_attrs() {
        None
    } else {
        Some(decoded_attrs(attrs))
    }
}

/// The type is `cuda_device::DisjointSlice`.
pub open spec fn is_disjoint_slice(adt: AdtInfo) -> bool {
    adt.item_name@ == "DisjointSlice"@ && adt.crate_name@ == "cuda_device"@
}

/// What the contract of a disjoint slice promises.
pub open spec fn promised_attrs(align: Option<u64>) -> ArgAttrs {
    ArgAttrs {
        noalias: true,
        readonly: false,
        nonnull: true,
        noundef: true,
        dereferenceable: None,
        align,
        ext: ArgExt::NoExt,
    }
}

/// The attributes of one argument.
pub open spec fn derived(arg: ArgAbi) -> Option<ArgAttrs> {
    match arg.adt {
        Some(adt) if is_disjoint_slice(adt) => Some(promised_attrs(adt.element_align)),
        _ => match arg.mode {
            PassMode::Direct(attrs) => decoded(attrs),
            PassMode::Indirect(attrs) => decoded(attrs),
            PassMode::Pair(data, meta) => decoded(data),
            PassMode::Ignore => None,
            PassMode::Cast => None,
        },
    }
}

/// Decodes the attributes of one passed value; `None` where nothing is set.
pub fn decode(attrs: &ArgAttributes) -> (r: Option<ArgAttrs>)
    ensures
        r == decoded(*attrs),
{
    let regular: u16 = attrs.regular;
    let decoded = ArgAttrs {
        noalias: regular & NO_ALIAS != 0,
        readonly: regular & READ_ONLY != 0,
        nonnull: regular & NON_NULL != 0,
        noundef: regular & NO_UNDEF != 0,
        dereferenceable: if attrs.pointee_size != 0 {
            Some(attrs.pointee_size)
        } else {
            None
        },
        align: attrs.pointee_align,
        ext: match attrs.arg_ext {
            ArgExtension::NoExt => ArgExt::NoExt,
            ArgExtension::Sext => ArgExt::Sign,
            ArgExtension::Zext => ArgExt::Zero,
        },
    };
    if decoded.is_empty() {
        None
    } else {
        Some(decoded)
    }
}

/// The attributes that the contract of a disjoint slice promises; `None` for any
/// other type.
pub fn disjoint_slice_attrs(adt: &Option<AdtInfo>) -> (r: Option<ArgAttrs>)
    ensures
        r == (match *adt {
            Some(info) if is_disjoint_slice(info) => Some(promised_attrs(info.element_align)),
            _ => None,
        }),
{
    match adt {
        Some(info) => {
            if !str_eq(info.item_name.as_str(), "DisjointSlice") || !str_eq(
                info.crate_name.as_str(),
                "cuda_device",
            ) {
                return None;
            }
            Some(
                ArgAttrs {
                    noalias: true,
                    readonly: false,
                    nonnull: true,
                    noundef: true,
                    dereferenceable: None,
                    align: info.element_align,
                    ext: ArgExt::NoExt,
                },
            )
        },
        None => None,
    }
}

fn derive_one(arg: &ArgAbi) -> (r: Option<ArgAttrs>)
    ensures
        r == derived(*arg),
{
    if let Some(attrs) = disjoint_slice_attrs(&arg.adt) {
        return Some(attrs);
    }
    match &arg.mode {
        PassMode::Direct(attrs) => decode(attrs),
        PassMode::Indirect(attrs) => decode(attrs),
        PassMode::Pair(data_attrs, _) => decode(data_attrs),
        PassMode::Ignore => None,
        PassMode::Cast => None,
    }
}

/// The attributes of every argument of a function, in source order. Without a
/// computed calling convention there are none.
pub fn derive_arg_attrs(fn_abi: &Option<Vec<ArgAbi>>) -> (r: Vec<Option<ArgAttrs>>)
    ensures
        match *fn_abi {
            Some(args) => r@ == args@.map_values(|arg: ArgAbi| derived(arg)),
            None => r@.len() == 0,
        },
{
    let mut r: Vec<Option<ArgAttrs>> = Vec::new();
    match fn_abi {
        Some(args) => {
            let mut i: usize = 0;
            while i < args.len()
                invariant
                    i <= args.len(),
                    r@ == args@.map_values(|arg: ArgAbi| derived(arg)).take(i as int),
                decreases args.len() - i,
            {
                r.push(derive_one(&args[i]));
                i += 1;
                assert(r@ =~= args@.map_values(|arg: ArgAbi| derived(arg)).take(i as int));
            }
            assert(r@ =~= args@.map_values(|arg: ArgAbi| derived(arg)));
        },
        None => {},
    }
    r
}

/// An argument that is given attributes is given at least one.
pub proof fn derived_attributes_say_something(arg: ArgAbi)
    ensures
        derived(arg) != Some(no_attrs()),
{
}

/// Apart from disjoint slices, an argument gets `noalias` only where the compiler
/// computed it.
pub proof fn noalias_comes_from_the_compiler(arg: ArgAbi)
    requires
        !(arg.adt matches Some(adt) && is_disjoint_slice(adt)),
        derived(arg) matches Some(attrs) && attrs.noalias,
    ensures
        match arg.mode {
            PassMode::Direct(attrs) => attrs.regular & NO_ALIAS != 0,
            PassMode::Indirect(attrs) => attrs.regular & NO_ALIAS != 0,
            PassMode::Pair(data, meta) => data.regular & NO_ALIAS != 0,
            _ => false,
        },
{
}

/// What is carried on the operation is what was derived: no derived attribute is
/// an explicit zero where the alignment is not.
pub proof fn derived_attributes_survive_the_carrier(arg: ArgAbi)
    requires
        derived(arg) matches Some(attrs) && attrs.align != Some(0u64),
    ensures
        crate::arg_attrs::carrier_of(derived(arg)->0).arg_attrs() == derived(arg)->0,
{
}

}
