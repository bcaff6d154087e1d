//! Floating-point functions of the standard library that the importer recognises.

use crate::importer::Operand;
use crate::text::has_prefix;
use crate::text::str_eq;
use crate::text::strip_prefix;
use vstd::prelude::*;

verus! {

broadcast use vstd::string::group_string_axioms;

/// A floating-point function of the standard library.
#[derive(Debug, Clone, Copy, PartialEq, Eq, Structural)]
pub enum RustFloatMathIntrinsic {
    /// `core::intrinsics::sqrtf32`.
    SqrtF32,
    /// `core::intrinsics::sqrtf64`.
    SqrtF64,
    /// `core::intrinsics::powif32`.
    PowiF32,
    /// `core::intrinsics::powif64`.
    PowiF64,
    /// `core::intrinsics::sinf32`.
    SinF32,
    /// `core::intrinsics::sinf64`.
    SinF64,
    /// `core::intrinsics::cosf32`.
    CosF32,
    /// `core::intrinsics::cosf64`.
    CosF64,
    /// `core::intrinsics::tanf32`.
    TanF32,
    /// `core::intrinsics::tanf64`.
    TanF64,
    /// `core::intrinsics::powf32`.
    PowfF32,
    /// `core::intrinsics::powf64`.
    PowfF64,
    /// `core::intrinsics::expf32`.
    ExpF32,
    /// `core::intrinsics::expf64`.
    ExpF64,
    /// `core::intrinsics::exp2f32`.
    Exp2F32,
    /// `core::intrinsics::exp2f64`.
    Exp2F64,
    /// `core::intrinsics::logf32`.
    LogF32,
    /// `core::intrinsics::logf64`.
    LogF64,
    /// `core::intrinsics::log2f32`.
    Log2F32,
    /// `core::intrinsics::log2f64`.
    Log2F64,
    /// `core::intrinsics::log10f32`.
    Log10F32,
    /// `core::intrinsics::log10f64`.
    Log10F64,
    /// `core::intrinsics::fmaf32`.
    FmaF32,
    /// `core::intrinsics::fmaf64`.
    FmaF64,
    /// `core::intrinsics::fmuladdf32`.
    FmuladdF32,
    /// `core::intrinsics::fmuladdf64`.
    FmuladdF64,
    /// `core::intrinsics::floorf32`.
    FloorF32,
    /// `core::intrinsics::floorf64`.
    FloorF64,
    /// `core::intrinsics::ceilf32`.
    CeilF32,
    /// `core::intrinsics::ceilf64`.
    CeilF64,
    /// `core::intrinsics::truncf32`.
    TruncF32,
    /// `core::intrinsics::truncf64`.
    TruncF64,
    /// `core::intrinsics::roundf32`.
    RoundF32,
    /// `core::intrinsics::roundf64`.
    RoundF64,
    /// `core::intrinsics::round_ties_even_f32`.
    RoundevenF32,
    /// `core::intrinsics::round_ties_even_f64`.
    RoundevenF64,
    /// Generic `core::intrinsics::fabs`.
    Fabs,
    /// `core::intrinsics::copysignf32`.
    CopysignF32,
    /// `core::intrinsics::copysignf64`.
    CopysignF64,
    /// `f32::atan2` / `std::sys::cmath::atan2f`.
    Atan2F32,
    /// `f64::atan2` / `std::sys::cmath::atan2`.
    Atan2F64,
    /// `f32::atan` / `std::sys::cmath::atanf`.
    AtanF32,
    /// `f64::atan` / `std::sys::cmath::atan`.
    AtanF64,
}

/// The names of the functions that stand for the intrinsics until they are lowered.
#[derive(Debug)]
pub struct PlaceholderNames {
    /// Stands for [`RustFloatMathIntrinsic::SqrtF32`].
    pub sqrt_f32: String,
    /// Stands for [`RustFloatMathIntrinsic::SqrtF64`].
    pub sqrt_f64: String,
    /// Stands for [`RustFloatMathIntrinsic::PowiF32`].
    pub powi_f32: String,
    /// Stands for [`RustFloatMathIntrinsic::PowiF64`].
    pub powi_f64: String,
    /// Stands for [`RustFloatMathIntrinsic::SinF32`].
    pub sin_f32: String,
    /// Stands for [`RustFloatMathIntrinsic::SinF64`].
    pub sin_f64: String,
    /// Stands for [`RustFloatMathIntrinsic::CosF32`].
    pub cos_f32: String,
    /// Stands for [`RustFloatMathIntrinsic::CosF64`].
    pub cos_f64: String,
    /// Stands for [`RustFloatMathIntrinsic::TanF32`].
    pub tan_f32: String,
    /// Stands for [`RustFloatMathIntrinsic::TanF64`].
    pub tan_f64: String,
    /// Stands for [`RustFloatMathIntrinsic::PowfF32`].
    pub powf_f32: String,
    /// Stands for [`RustFloatMathIntrinsic::PowfF64`].
    pub powf_f64: String,
    /// Stands for [`RustFloatMathIntrinsic::ExpF32`].
    pub exp_f32: String,
    /// Stands for [`RustFloatMathIntrinsic::ExpF64`].
    pub exp_f64: String,
    /// Stands for [`RustFloatMathIntrinsic::Exp2F32`].
    pub exp2_f32: String,
    /// Stands for [`RustFloatMathIntrinsic::Exp2F64`].
    pub exp2_f64: String,
    /// Stands for [`RustFloatMathIntrinsic::LogF32`].
    pub log_f32: String,
    /// Stands for [`RustFloatMathIntrinsic::LogF64`].
    pub log_f64: String,
    /// Stands for [`RustFloatMathIntrinsic::Log2F32`].
    pub log2_f32: String,
    /// Stands for [`RustFloatMathIntrinsic::Log2F64`].
    pub log2_f64: String,
    /// Stands for [`RustFloatMathIntrinsic::Log10F32`].
    pub log10_f32: String,
    /// Stands for [`RustFloatMathIntrinsic::Log10F64`].
    pub log10_f64: String,
    /// Stands for [`RustFloatMathIntrinsic::FmaF32`].
    pub fma_f32: String,
    /// Stands for [`RustFloatMathIntrinsic::FmaF64`].
    pub fma_f64: String,
    /// Stands for [`RustFloatMathIntrinsic::FmuladdF32`].
    pub fmuladd_f32: String,
    /// Stands for [`RustFloatMathIntrinsic::FmuladdF64`].
    pub fmuladd_f64: String,
    /// Stands for [`RustFloatMathIntrinsic::FloorF32`].
    pub floor_f32: String,
    /// Stands for [`RustFloatMathIntrinsic::FloorF64`].
    pub floor_f64: String,
    /// Stands for [`RustFloatMathIntrinsic::CeilF32`].
    pub ceil_f32: String,
    /// Stands for [`RustFloatMathIntrinsic::CeilF64`].
    pub ceil_f64: String,
    /// Stands for [`RustFloatMathIntrinsic::TruncF32`].
    pub trunc_f32: String,
    /// Stands for [`RustFloatMathIntrinsic::TruncF64`].
    pub trunc_f64: String,
    /// Stands for [`RustFloatMathIntrinsic::RoundF32`].
    pub round_f32: String,
    /// Stands for [`RustFloatMathIntrinsic::RoundF64`].
    pub round_f64: String,
    /// Stands for [`RustFloatMathIntrinsic::RoundevenF32`].
    pub roundeven_f32: String,
    /// Stands for [`RustFloatMathIntrinsic::RoundevenF64`].
    pub roundeven_f64: String,
    /// Stands for [`RustFloatMathIntrinsic::Fabs`].
    pub fabs: String,
    /// Stands for [`RustFloatMathIntrinsic::CopysignF32`].
    pub copysign_f32: String,
    /// Stands for [`RustFloatMathIntrinsic::CopysignF64`].
    pub copysign_f64: String,
    /// Stands for [`RustFloatMathIntrinsic::Atan2F32`].
    pub atan2_f32: String,
    /// Stands for [`RustFloatMathIntrinsic::Atan2F64`].
    pub atan2_f64: String,
    /// Stands for [`RustFloatMathIntrinsic::AtanF32`].
    pub atan_f32: String,
    /// Stands for [`RustFloatMathIntrinsic::AtanF64`].
    pub atan_f64: String,
}

impl RustFloatMathIntrinsic {
    /// The name of an intrinsic of the core library.
    pub open spec fn core_name(self) -> Option<Seq<char>> {
        match self {
            RustFloatMathIntrinsic::SqrtF32 => Some("sqrtf32"@),
            RustFloatMathIntrinsic::SqrtF64 => Some("sqrtf64"@),
            RustFloatMathIntrinsic::PowiF32 => Some("powif32"@),
            RustFloatMathIntrinsic::PowiF64 => Some("powif64"@),
            RustFloatMathIntrinsic::SinF32 => Some("sinf32"@),
            RustFloatMathIntrinsic::SinF64 => Some("sinf64"@),
            RustFloatMathIntrinsic::CosF32 => Some("cosf32"@),
            RustFloatMathIntrinsic::CosF64 => Some("cosf64"@),
            RustFloatMathIntrinsic::TanF32 => Some("tanf32"@),
            RustFloatMathIntrinsic::TanF64 => Some("tanf64"@),
            RustFloatMathIntrinsic::PowfF32 => Some("powf32"@),
            RustFloatMathIntrinsic::PowfF64 => Some("powf64"@),
            RustFloatMathIntrinsic::ExpF32 => Some("expf32"@),
            RustFloatMathIntrinsic::ExpF64 => Some("expf64"@),
            RustFloatMathIntrinsic::Exp2F32 => Some("exp2f32"@),
            RustFloatMathIntrinsic::Exp2F64 => Some("exp2f64"@),
            RustFloatMathIntrinsic::LogF32 => Some("logf32"@),
            RustFloatMathIntrinsic::LogF64 => Some("logf64"@),
            RustFloatMathIntrinsic::Log2F32 => Some("log2f32"@),
            RustFloatMathIntrinsic::Log2F64 => Some("log2f64"@),
            RustFloatMathIntrinsic::Log10F32 => Some("log10f32"@),
            RustFloatMathIntrinsic::Log10F64 => Some("log10f64"@),
            RustFloatMathIntrinsic::FmaF32 => Some("fmaf32"@),
            RustFloatMathIntrinsic::FmaF64 => Some("fmaf64"@),
            RustFloatMathIntrinsic::FmuladdF32 => Some("fmuladdf32"@),
            RustFloatMathIntrinsic::FmuladdF64 => Some("fmuladdf64"@),
            RustFloatMathIntrinsic::FloorF32 => Some("floorf32"@),
            RustFloatMathIntrinsic::FloorF64 => Some("floorf64"@),
            RustFloatMathIntrinsic::CeilF32 => Some("ceilf32"@),
            RustFloatMathIntrinsic::CeilF64 => Some("ceilf64"@),
            RustFloatMathIntrinsic::TruncF32 => Some("truncf32"@),
            RustFloatMathIntrinsic::TruncF64 => Some("truncf64"@),
            RustFloatMathIntrinsic::RoundF32 => Some("roundf32"@),
            RustFloatMathIntrinsic::RoundF64 => Some("roundf64"@),
            RustFloatMathIntrinsic::RoundevenF32 => Some("round_ties_even_f32"@),
            RustFloatMathIntrinsic::RoundevenF64 => Some("round_ties_even_f64"@),
            RustFloatMathIntrinsic::Fabs => Some("fabs"@),
            RustFloatMathIntrinsic::CopysignF32 => Some("copysignf32"@),
            RustFloatMathIntrinsic::CopysignF64 => Some("copysignf64"@),
            _ => None,
        }
    }

    /// The name of a function of the C mathematics library.
    pub open spec fn cmath_name(self) -> Option<Seq<char>> {
        match self {
            RustFloatMathIntrinsic::Atan2F32 => Some("atan2f"@),
            RustFloatMathIntrinsic::Atan2F64 => Some("atan2"@),
            RustFloatMathIntrinsic::AtanF32 => Some("atanf"@),
            RustFloatMathIntrinsic::AtanF64 => Some("atan"@),
            _ => None,
        }
    }

    /// `path` is a path of the function: an intrinsic is reached through `core` and
    /// through `std`, a function of the C library through `std`.
    pub open spec fn has_path(self, path: Seq<char>) -> bool {
        ||| self.core_name() matches Some(name) && (path == "core::intrinsics::"@ + name || path
            == "std::intrinsics::"@ + name)
        ||| self.cmath_name() matches Some(name) && path == "std::sys::cmath::"@ + name
    }

    /// Some function has this path.
    pub open spec fn recognises(path: Seq<char>) -> bool {
        exists|i: RustFloatMathIntrinsic| #[trigger] i.has_path(path)
    }

    fn from_core_name(name: &str) -> (r: Option<RustFloatMathIntrinsic>)
        ensures
            match r {
                Some(intrinsic) => intrinsic.core_name() == Some(name@),
                None => forall|i: RustFloatMathIntrinsic| #[trigger] i.core_name() != Some(name@),
            },
    {
        if str_eq(name, "sqrtf32") {
            Some(RustFloatMathIntrinsic::SqrtF32)
        } else if str_eq(name, "sqrtf64") {
            Some(RustFloatMathIntrinsic::SqrtF64)
        } else if str_eq(name, "powif32") {
            Some(RustFloatMathIntrinsic::PowiF32)
        } else if str_eq(name, "powif64") {
            Some(RustFloatMathIntrinsic::PowiF64)
        } else if str_eq(name, "sinf32") {
            Some(RustFloatMathIntrinsic::SinF32)
        } else if str_eq(name, "sinf64") {
            Some(RustFloatMathIntrinsic::SinF64)
        } else if str_eq(name, "cosf32") {
            Some(RustFloatMathIntrinsic::CosF32)
        } else if str_eq(name, "cosf64") {
            Some(RustFloatMathIntrinsic::CosF64)
        } else if str_eq(name, "tanf32") {
            Some(RustFloatMathIntrinsic::TanF32)
        } else if str_eq(name, "tanf64") {
            Some(RustFloatMathIntrinsic::TanF64)
        } else if str_eq(name, "powf32") {
            Some(RustFloatMathIntrinsic::PowfF32)
        } else if str_eq(name, "powf64") {
            Some(RustFloatMathIntrinsic::PowfF64)
        } else if str_eq(name, "expf32") {
            Some(RustFloatMathIntrinsic::ExpF32)
        } else if str_eq(name, "expf64") {
            Some(RustFloatMathIntrinsic::ExpF64)
        } else if str_eq(name, "exp2f32") {
            Some(RustFloatMathIntrinsic::Exp2F32)
        } else if str_eq(name, "exp2f64") {
            Some(RustFloatMathIntrinsic::Exp2F64)
        } else if str_eq(name, "logf32") {
            Some(RustFloatMathIntrinsic::LogF32)
        } else if str_eq(name, "logf64") {
            Some(RustFloatMathIntrinsic::LogF64)
        } else if str_eq(name, "log2f32") {
            Some(RustFloatMathIntrinsic::Log2F32)
        } else if str_eq(name, "log2f64") {
            Some(RustFloatMathIntrinsic::Log2F64)
        } else if str_eq(name, "log10f32") {
            Some(RustFloatMathIntrinsic::Log10F32)
        } else if str_eq(name, "log10f64") {
            Some(RustFloatMathIntrinsic::Log10F64)
        } else if str_eq(name, "fmaf32") {
            Some(RustFloatMathIntrinsic::FmaF32)
        } else if str_eq(name, "fmaf64") {
            Some(RustFloatMathIntrinsic::FmaF64)
        } else if str_eq(name, "fmuladdf32") {
            Some(RustFloatMathIntrinsic::FmuladdF32)
        } else if str_eq(name, "fmuladdf64") {
            Some(RustFloatMathIntrinsic::FmuladdF64)
        } else if str_eq(name, "floorf32") {
            Some(RustFloatMathIntrinsic::FloorF32)
        } else if str_eq(name, "floorf64") {
            Some(RustFloatMathIntrinsic::FloorF64)
        } else if str_eq(name, "ceilf32") {
            Some(RustFloatMathIntrinsic::CeilF32)
        } else if str_eq(name, "ceilf64") {
            Some(RustFloatMathIntrinsic::CeilF64)
        } else if str_eq(name, "truncf32") {
            Some(RustFloatMathIntrinsic::TruncF32)
        } else if str_eq(name, "truncf64") {
            Some(RustFloatMathIntrinsic::TruncF64)
        } else if str_eq(name, "roundf32") {
            Some(RustFloatMathIntrinsic::RoundF32)
        } else if str_eq(name, "roundf64") {
            Some(RustFloatMathIntrinsic::RoundF64)
        } else if str_eq(name, "round_ties_even_f32") {
            Some(RustFloatMathIntrinsic::RoundevenF32)
        } else if str_eq(name, "round_ties_even_f64") {
            Some(RustFloatMathIntrinsic::RoundevenF64)
        } else if str_eq(name, "fabs") {
            Some(RustFloatMathIntrinsic::Fabs)
        } else if str_eq(name, "copysignf32") {
            Some(RustFloatMathIntrinsic::CopysignF32)
        } else if str_eq(name, "copysignf64") {
            Some(RustFloatMathIntrinsic::CopysignF64)
        } else {
            None
        }
    }

    fn from_cmath_name(name: &str) -> (r: Option<RustFloatMathIntrinsic>)
        ensures
            match r {
                Some(intrinsic) => intrinsic.cmath_name() == Some(name@),
                None => forall|i: RustFloatMathIntrinsic| #[trigger] i.cmath_name() != Some(name@),
            },
    {
        if str_eq(name, "atan2f") {
            Some(RustFloatMathIntrinsic::Atan2F32)
        } else if str_eq(name, "atan2") {
            Some(RustFloatMathIntrinsic::Atan2F64)
        } else if str_eq(name, "atanf") {
            Some(RustFloatMathIntrinsic::AtanF32)
        } else if str_eq(name, "atan") {
            Some(RustFloatMathIntrinsic::AtanF64)
        } else {
            None
        }
    }

    /// The function that a path names.
    pub fn from_core_path(name: &str) -> (r: Option<RustFloatMathIntrinsic>)
        ensures
            match r {
                Some(intrinsic) => intrinsic.has_path(name@),
                None => forall|i: RustFloatMathIntrinsic| !#[trigger] i.has_path(name@),
            },
            r is Some <==> RustFloatMathIntrinsic::recognises(name@),
    {
        if let Some(rest) = strip_prefix(name, "core::intrinsics::") {
            if let Some(intrinsic) = RustFloatMathIntrinsic::from_core_name(rest.as_str()) {
                assert(name@ =~= "core::intrinsics::"@ + rest@);
                assert(intrinsic.has_path(name@));
                return Some(intrinsic);
            }
        }
        if let Some(rest) = strip_prefix(name, "std::intrinsics::") {
            if let Some(intrinsic) = RustFloatMathIntrinsic::from_core_name(rest.as_str()) {
                assert(name@ =~= "std::intrinsics::"@ + rest@);
                assert(intrinsic.has_path(name@));
                return Some(intrinsic);
            }
        }
        if let Some(rest) = strip_prefix(name, "std::sys::cmath::") {
            if let Some(intrinsic) = RustFloatMathIntrinsic::from_cmath_name(rest.as_str()) {
                assert(name@ =~= "std::sys::cmath::"@ + rest@);
                assert(intrinsic.has_path(name@));
                return Some(intrinsic);
            }
        }
        proof {
            assert forall|i: RustFloatMathIntrinsic| !#[trigger] i.has_path(name@) by {
                if let Some(rest) = i.core_name() {
                    lemma_prefix_splits("core::intrinsics::"@, rest);
                    lemma_prefix_splits("std::intrinsics::"@, rest);
                }
                if let Some(rest) = i.cmath_name() {
                    lemma_prefix_splits("std::sys::cmath::"@, rest);
                }
            }
            assert(!RustFloatMathIntrinsic::recognises(name@));
        }
        None
    }

    /// The name that stands for the function until it is lowered.
    pub open spec fn placeholder(self, names: PlaceholderNames) -> Seq<char> {
        match self {
            RustFloatMathIntrinsic::SqrtF32 => names.sqrt_f32@,
            RustFloatMathIntrinsic::SqrtF64 => names.sqrt_f64@,
            RustFloatMathIntrinsic::PowiF32 => names.powi_f32@,
            RustFloatMathIntrinsic::PowiF64 => names.powi_f64@,
            RustFloatMathIntrinsic::SinF32 => names.sin_f32@,
            RustFloatMathIntrinsic::SinF64 => names.sin_f64@,
            RustFloatMathIntrinsic::CosF32 => names.cos_f32@,
            RustFloatMathIntrinsic::CosF64 => names.cos_f64@,
            RustFloatMathIntrinsic::TanF32 => names.tan_f32@,
            RustFloatMathIntrinsic::TanF64 => names.tan_f64@,
            RustFloatMathIntrinsic::PowfF32 => names.powf_f32@,
            RustFloatMathIntrinsic::PowfF64 => names.powf_f64@,
            RustFloatMathIntrinsic::ExpF32 => names.exp_f32@,
            RustFloatMathIntrinsic::ExpF64 => names.exp_f64@,
            RustFloatMathIntrinsic::Exp2F32 => names.exp2_f32@,
            RustFloatMathIntrinsic::Exp2F64 => names.exp2_f64@,
            RustFloatMathIntrinsic::LogF32 => names.log_f32@,
            RustFloatMathIntrinsic::LogF64 => names.log_f64@,
            RustFloatMathIntrinsic::Log2F32 => names.log2_f32@,
            RustFloatMathIntrinsic::Log2F64 => names.log2_f64@,
            RustFloatMathIntrinsic::Log10F32 => names.log10_f32@,
            RustFloatMathIntrinsic::Log10F64 => names.log10_f64@,
            RustFloatMathIntrinsic::FmaF32 => names.fma_f32@,
            RustFloatMathIntrinsic::FmaF64 => names.fma_f64@,
            RustFloatMathIntrinsic::FmuladdF32 => names.fmuladd_f32@,
            RustFloatMathIntrinsic::FmuladdF64 => names.fmuladd_f64@,
            RustFloatMathIntrinsic::FloorF32 => names.floor_f32@,
            RustFloatMathIntrinsic::FloorF64 => names.floor_f64@,
            RustFloatMathIntrinsic::CeilF32 => names.ceil_f32@,
            RustFloatMathIntrinsic::CeilF64 => names.ceil_f64@,
            RustFloatMathIntrinsic::TruncF32 => names.trunc_f32@,
            RustFloatMathIntrinsic::TruncF64 => names.trunc_f64@,
            RustFloatMathIntrinsic::RoundF32 => names.round_f32@,
            RustFloatMathIntrinsic::RoundF64 => names.round_f64@,
            RustFloatMathIntrinsic::RoundevenF32 => names.roundeven_f32@,
            RustFloatMathIntrinsic::RoundevenF64 => names.roundeven_f64@,
            RustFloatMathIntrinsic::Fabs => names.fabs@,
            RustFloatMathIntrinsic::CopysignF32 => names.copysign_f32@,
            RustFloatMathIntrinsic::CopysignF64 => names.copysign_f64@,
            RustFloatMathIntrinsic::Atan2F32 => names.atan2_f32@,
            RustFloatMathIntrinsic::Atan2F64 => names.atan2_f64@,
            RustFloatMathIntrinsic::AtanF32 => names.atan_f32@,
            RustFloatMathIntrinsic::AtanF64 => names.atan_f64@,
        }
    }

    /// The name that stands for the function until it is lowered.
    pub fn placeholder_callee<'a>(self, names: &'a PlaceholderNames) -> (r: &'a str)
        ensures
            r@ == self.placeholder(*names),
    {
        match self {
            RustFloatMathIntrinsic::SqrtF32 => names.sqrt_f32.as_str(),
            RustFloatMathIntrinsic::SqrtF64 => names.sqrt_f64.as_str(),
            RustFloatMathIntrinsic::PowiF32 => names.powi_f32.as_str(),
            RustFloatMathIntrinsic::PowiF64 => names.powi_f64.as_str(),
            RustFloatMathIntrinsic::SinF32 => names.sin_f32.as_str(),
            RustFloatMathIntrinsic::SinF64 => names.sin_f64.as_str(),
            RustFloatMathIntrinsic::CosF32 => names.cos_f32.as_str(),
            RustFloatMathIntrinsic::CosF64 => names.cos_f64.as_str(),
            RustFloatMathIntrinsic::TanF32 => names.tan_f32.as_str(),
            RustFloatMathIntrinsic::TanF64 => names.tan_f64.as_str(),
            RustFloatMathIntrinsic::PowfF32 => names.powf_f32.as_str(),
            RustFloatMathIntrinsic::PowfF64 => names.powf_f64.as_str(),
            RustFloatMathIntrinsic::ExpF32 => names.exp_f32.as_str(),
            RustFloatMathIntrinsic::ExpF64 => names.exp_f64.as_str(),
            RustFloatMathIntrinsic::Exp2F32 => names.exp2_f32.as_str(),
            RustFloatMathIntrinsic::Exp2F64 => names.exp2_f64.as_str(),
            RustFloatMathIntrinsic::LogF32 => names.log_f32.as_str(),
            RustFloatMathIntrinsic::LogF64 => names.log_f64.as_str(),
            RustFloatMathIntrinsic::Log2F32 => names.log2_f32.as_str(),
            RustFloatMathIntrinsic::Log2F64 => names.log2_f64.as_str(),
            RustFloatMathIntrinsic::Log10F32 => names.log10_f32.as_str(),
            RustFloatMathIntrinsic::Log10F64 => names.log10_f64.as_str(),
            RustFloatMathIntrinsic::FmaF32 => names.fma_f32.as_str(),
            RustFloatMathIntrinsic::FmaF64 => names.fma_f64.as_str(),
            RustFloatMathIntrinsic::FmuladdF32 => names.fmuladd_f32.as_str(),
            RustFloatMathIntrinsic::FmuladdF64 => names.fmuladd_f64.as_str(),
            RustFloatMathIntrinsic::FloorF32 => names.floor_f32.as_str(),
            RustFloatMathIntrinsic::FloorF64 => names.floor_f64.as_str(),
            RustFloatMathIntrinsic::CeilF32 => names.ceil_f32.as_str(),
            RustFloatMathIntrinsic::CeilF64 => names.ceil_f64.as_str(),
            RustFloatMathIntrinsic::TruncF32 => names.trunc_f32.as_str(),
            RustFloatMathIntrinsic::TruncF64 => names.trunc_f64.as_str(),
            RustFloatMathIntrinsic::RoundF32 => names.round_f32.as_str(),
            RustFloatMathIntrinsic::RoundF64 => names.round_f64.as_str(),
            RustFloatMathIntrinsic::RoundevenF32 => names.roundeven_f32.as_str(),
            RustFloatMathIntrinsic::RoundevenF64 => names.roundeven_f64.as_str(),
            RustFloatMathIntrinsic::Fabs => names.fabs.as_str(),
            RustFloatMathIntrinsic::CopysignF32 => names.copysign_f32.as_str(),
            RustFloatMathIntrinsic::CopysignF64 => names.copysign_f64.as_str(),
            RustFloatMathIntrinsic::Atan2F32 => names.atan2_f32.as_str(),
            RustFloatMathIntrinsic::Atan2F64 => names.atan2_f64.as_str(),
            RustFloatMathIntrinsic::AtanF32 => names.atan_f32.as_str(),
            RustFloatMathIntrinsic::AtanF64 => names.atan_f64.as_str(),
        }
    }
}

/// A call of a function.
#[derive(Debug, PartialEq, Eq)]
pub struct FunctionCall {
    /// Name of the function.
    pub callee: String,
    /// The arguments.
    pub args: Vec<Result<Operand, String>>,
    /// The local variable that takes the result.
    pub destination: usize,
    /// Type of the result.
    pub return_type: u64,
    /// The block that follows.
    pub target: Option<usize>,
    /// The position of the block behind which the call is inserted.
    pub prev: Option<usize>,
    /// The source location.
    pub loc: u64,
}

/// The call that stands for a floating-point function. `return_type` is the translated
/// type of the destination, or why it has none.
pub fn emit_rust_float_math_intrinsic(
    names: &PlaceholderNames,
    intrinsic: RustFloatMathIntrinsic,
    args: Vec<Result<Operand, String>>,
    destination: usize,
    return_type: Result<u64, String>,
    target: Option<usize>,
    prev: Option<usize>,
    loc: u64,
) -> (r: Result<FunctionCall, String>)
    ensures
        match return_type {
            Ok(ty) => r matches Ok(call) && call.callee@ == intrinsic.placeholder(*names)
                && call.args == args && call.destination == destination && call.return_type == ty
                && call.target == target && call.prev == prev && call.loc == loc,
            Err(reason) => r == Err::<FunctionCall, String>(reason),
        },
{
    match return_type {
        Ok(return_type) => Ok(
            FunctionCall {
                callee: intrinsic.placeholder_callee(names).to_owned(),
                args,
                destination,
                return_type,
                target,
                prev,
                loc,
            },
        ),
        Err(reason) => Err(reason),
    }
}

// ---------------------------------------------------------------------------
// Laws
// ---------------------------------------------------------------------------

/// The function whose intrinsic has a name.
spec fn named(name: Seq<char>) -> Option<RustFloatMathIntrinsic> {
    if name == "sqrtf32"@ {
        Some(RustFloatMathIntrinsic::SqrtF32)
    } else if name == "sqrtf64"@ {
        Some(RustFloatMathIntrinsic::SqrtF64)
    } else if name == "powif32"@ {
        Some(RustFloatMathIntrinsic::PowiF32)
    } else if name == "powif64"@ {
        Some(RustFloatMathIntrinsic::PowiF64)
    } else if name == "sinf32"@ {
        Some(RustFloatMathIntrinsic::SinF32)
    } else if name == "sinf64"@ {
        Some(RustFloatMathIntrinsic::SinF64)
    } else if name == "cosf32"@ {
        Some(RustFloatMathIntrinsic::CosF32)
    } else if name == "cosf64"@ {
        Some(RustFloatMathIntrinsic::CosF64)
    } else if name == "tanf32"@ {
        Some(RustFloatMathIntrinsic::TanF32)
    } else if name == "tanf64"@ {
        Some(RustFloatMathIntrinsic::TanF64)
    } else if name == "powf32"@ {
        Some(RustFloatMathIntrinsic::PowfF32)
    } else if name == "powf64"@ {
        Some(RustFloatMathIntrinsic::PowfF64)
    } else if name == "expf32"@ {
        Some(RustFloatMathIntrinsic::ExpF32)
    } else if name == "expf64"@ {
        Some(RustFloatMathIntrinsic::ExpF64)
    } else if name == "exp2f32"@ {
        Some(RustFloatMathIntrinsic::Exp2F32)
    } else if name == "exp2f64"@ {
        Some(RustFloatMathIntrinsic::Exp2F64)
    } else if name == "logf32"@ {
        Some(RustFloatMathIntrinsic::LogF32)
    } else if name == "logf64"@ {
        Some(RustFloatMathIntrinsic::LogF64)
    } else if name == "log2f32"@ {
        Some(RustFloatMathIntrinsic::Log2F32)
    } else if name == "log2f64"@ {
        Some(RustFloatMathIntrinsic::Log2F64)
    } else if name == "log10f32"@ {
        Some(RustFloatMathIntrinsic::Log10F32)
    } else if name == "log10f64"@ {
        Some(RustFloatMathIntrinsic::Log10F64)
    } else if name == "fmaf32"@ {
        Some(RustFloatMathIntrinsic::FmaF32)
    } else if name == "fmaf64"@ {
        Some(RustFloatMathIntrinsic::FmaF64)
    } else if name == "fmuladdf32"@ {
        Some(RustFloatMathIntrinsic::FmuladdF32)
    } else if name == "fmuladdf64"@ {
        Some(RustFloatMathIntrinsic::FmuladdF64)
    } else if name == "floorf32"@ {
        Some(RustFloatMathIntrinsic::FloorF32)
    } else if name == "floorf64"@ {
        Some(RustFloatMathIntrinsic::FloorF64)
    } else if name == "ceilf32"@ {
        Some(RustFloatMathIntrinsic::CeilF32)
    } else if name == "ceilf64"@ {
        Some(RustFloatMathIntrinsic::CeilF64)
    } else if name == "truncf32"@ {
        Some(RustFloatMathIntrinsic::TruncF32)
    } else if name == "truncf64"@ {
        Some(RustFloatMathIntrinsic::TruncF64)
    } else if name == "roundf32"@ {
        Some(RustFloatMathIntrinsic::RoundF32)
    } else if name == "roundf64"@ {
        Some(RustFloatMathIntrinsic::RoundF64)
    } else if name == "round_ties_even_f32"@ {
        Some(RustFloatMathIntrinsic::RoundevenF32)
    } else if name == "round_ties_even_f64"@ {
        Some(RustFloatMathIntrinsic::RoundevenF64)
    } else if name == "fabs"@ {
        Some(RustFloatMathIntrinsic::Fabs)
    } else if name == "copysignf32"@ {
        Some(RustFloatMathIntrinsic::CopysignF32)
    } else if name == "copysignf64"@ {
        Some(RustFloatMathIntrinsic::CopysignF64)
    } else {
        None
    }
}

proof fn lemma_core_names_differ(i: RustFloatMathIntrinsic)
    ensures
        i.core_name() matches Some(name) ==> named(name) == Some(i),
{
    reveal_strlit("sqrtf32");
    assert("sqrtf32"@[0] == 's' && "sqrtf32"@[5] == '3');
    reveal_strlit("sqrtf64");
    assert("sqrtf64"@[0] == 's' && "sqrtf64"@[5] == '6');
    reveal_strlit("powif32");
    assert("powif32"@[0] == 'p' && "powif32"@[5] == '3');
    reveal_strlit("powif64");
    assert("powif64"@[0] == 'p' && "powif64"@[5] == '6');
    reveal_strlit("sinf32");
    assert("sinf32"@[0] == 's' && "sinf32"@[4] == '3');
    reveal_strlit("sinf64");
    assert("sinf64"@[0] == 's' && "sinf64"@[4] == '6');
    reveal_strlit("cosf32");
    assert("cosf32"@[0] == 'c' && "cosf32"@[4] == '3');
    reveal_strlit("cosf64");
    assert("cosf64"@[0] == 'c' && "cosf64"@[4] == '6');
    reveal_strlit("tanf32");
    assert("tanf32"@[0] == 't' && "tanf32"@[4] == '3');
    reveal_strlit("tanf64");
    assert("tanf64"@[0] == 't' && "tanf64"@[4] == '6');
    reveal_strlit("powf32");
    assert("powf32"@[0] == 'p' && "powf32"@[4] == '3');
    reveal_strlit("powf64");
    assert("powf64"@[0] == 'p' && "powf64"@[4] == '6');
    reveal_strlit("expf32");
    assert("expf32"@[0] == 'e' && "expf32"@[4] == '3');
    reveal_strlit("expf64");
    assert("expf64"@[0] == 'e' && "expf64"@[4] == '6');
    reveal_strlit("exp2f32");
    assert("exp2f32"@[0] == 'e' && "exp2f32"@[5] == '3');
    reveal_strlit("exp2f64");
    assert("exp2f64"@[0] == 'e' && "exp2f64"@[5] == '6');
    reveal_strlit("logf32");
    assert("logf32"@[0] == 'l' && "logf32"@[4] == '3');
    reveal_strlit("logf64");
    assert("logf64"@[0] == 'l' && "logf64"@[4] == '6');
    reveal_strlit("log2f32");
    assert("log2f32"@[0] == 'l' && "log2f32"@[5] == '3');
    reveal_strlit("log2f64");
    assert("log2f64"@[0] == 'l' && "log2f64"@[5] == '6');
    reveal_strlit("log10f32");
    assert("log10f32"@[0] == 'l' && "log10f32"@[6] == '3');
    reveal_strlit("log10f64");
    assert("log10f64"@[0] == 'l' && "log10f64"@[6] == '6');
    reveal_strlit("fmaf32");
    assert("fmaf32"@[0] == 'f' && "fmaf32"@[4] == '3');
    reveal_strlit("fmaf64");
    assert("fmaf64"@[0] == 'f' && "fmaf64"@[4] == '6');
    reveal_strlit("fmuladdf32");
    assert("fmuladdf32"@[0] == 'f' && "fmuladdf32"@[8] == '3');
    reveal_strlit("fmuladdf64");
    assert("fmuladdf64"@[0] == 'f' && "fmuladdf64"@[8] == '6');
    reveal_strlit("floorf32");
    assert("floorf32"@[0] == 'f' && "floorf32"@[6] == '3');
    reveal_strlit("floorf64");
    assert("floorf64"@[0] == 'f' && "floorf64"@[6] == '6');
    reveal_strlit("ceilf32");
    assert("ceilf32"@[0] == 'c' && "ceilf32"@[5] == '3');
    reveal_strlit("ceilf64");
    assert("ceilf64"@[0] == 'c' && "ceilf64"@[5] == '6');
    reveal_strlit("truncf32");
    assert("truncf32"@[0] == 't' && "truncf32"@[6] == '3');
    reveal_strlit("truncf64");
    assert("truncf64"@[0] == 't' && "truncf64"@[6] == '6');
    reveal_strlit("roundf32");
    assert("roundf32"@[0] == 'r' && "roundf32"@[6] == '3');
    reveal_strlit("roundf64");
    assert("roundf64"@[0] == 'r' && "roundf64"@[6] == '6');
    reveal_strlit("round_ties_even_f32");
    assert("round_ties_even_f32"@[0] == 'r' && "round_ties_even_f32"@[17] == '3');
    reveal_strlit("round_ties_even_f64");
    assert("round_ties_even_f64"@[0] == 'r' && "round_ties_even_f64"@[17] == '6');
    reveal_strlit("fabs");
    assert("fabs"@[0] == 'f' && "fabs"@[2] == 'b');
    reveal_strlit("copysignf32");
    assert("copysignf32"@[0] == 'c' && "copysignf32"@[9] == '3');
    reveal_strlit("copysignf64");
    assert("copysignf64"@[0] == 'c' && "copysignf64"@[9] == '6');
}

proof fn lemma_cmath_names_differ(i: RustFloatMathIntrinsic, j: RustFloatMathIntrinsic)
    requires
        i.cmath_name() is Some,
        i.cmath_name() == j.cmath_name(),
    ensures
        i == j,
{
    reveal_strlit("atan2f");
    reveal_strlit("atan2");
    reveal_strlit("atanf");
    reveal_strlit("atan");
    assert("atan2f"@.len() == 6 && "atan2"@.len() == 5 && "atanf"@.len() == 5 && "atan"@.len()
        == 4);
    assert("atan2"@[4] == '2' && "atanf"@[4] == 'f');
}

proof fn lemma_prefix_splits(prefix: Seq<char>, rest: Seq<char>)
    ensures
        has_prefix(prefix + rest, prefix),
        (prefix + rest).skip(prefix.len() as int) == rest,
{
    assert((prefix + rest).take(prefix.len() as int) =~= prefix);
    assert((prefix + rest).skip(prefix.len() as int) =~= rest);
}

/// A path names at most one function.
pub proof fn paths_are_unambiguous(
    path: Seq<char>,
    i: RustFloatMathIntrinsic,
    j: RustFloatMathIntrinsic,
)
    requires
        i.has_path(path),
        j.has_path(path),
    ensures
        i == j,
{
    reveal_strlit("core::intrinsics::");
    reveal_strlit("std::intrinsics::");
    reveal_strlit("std::sys::cmath::");
    let core = "core::intrinsics::"@;
    let std_path = "std::intrinsics::"@;
    let cmath = "std::sys::cmath::"@;
    if path[0] == 'c' {
        assert((std_path + i.core_name()->0)[0] == std_path[0]);
        assert((std_path + j.core_name()->0)[0] == std_path[0]);
        assert((cmath + i.cmath_name()->0)[0] == cmath[0]);
        assert((cmath + j.cmath_name()->0)[0] == cmath[0]);
        lemma_prefix_splits(core, i.core_name()->0);
        lemma_prefix_splits(core, j.core_name()->0);
        lemma_core_names_differ(i);
        lemma_core_names_differ(j);
    } else {
        assert((core + i.core_name()->0)[0] == core[0]);
        assert((core + j.core_name()->0)[0] == core[0]);
        assert((std_path + i.core_name()->0)[5] == std_path[5]);
        assert((std_path + j.core_name()->0)[5] == std_path[5]);
        assert((cmath + i.cmath_name()->0)[5] == cmath[5]);
        assert((cmath + j.cmath_name()->0)[5] == cmath[5]);
        if path[5] == 'i' {
            lemma_prefix_splits(std_path, i.core_name()->0);
            lemma_prefix_splits(std_path, j.core_name()->0);
            lemma_core_names_differ(i);
            lemma_core_names_differ(j);
        } else {
            lemma_prefix_splits(cmath, i.cmath_name()->0);
            lemma_prefix_splits(cmath, j.cmath_name()->0);
            lemma_cmath_names_differ(i, j);
        }
    }
}

}
