//! Signatures of external device functions.
//!
//! A `#[device] extern` function is declared in the exported module, so its
//! signature has to be expressed exactly. Types that the boundary cannot express
//! are refused; none is passed as an arbitrary pointer in its place.

use crate::text::decimal;
use crate::text::push_decimal;
use vstd::prelude::*;

verus! {

broadcast use vstd::string::group_string_axioms;

/// Where a type stands in a signature.
#[derive(Debug, Clone, Copy, PartialEq, Eq, Structural)]
pub enum DeviceExternTypePosition {
    /// A parameter.
    Parameter,
    /// The result.
    Result,
    /// Behind a pointer.
    Pointee,
}

/// A signed integer type.
#[derive(Debug, Clone, Copy, PartialEq, Eq, Structural)]
pub enum IntTy {
    /// `i8`.
    I8,
    /// `i16`.
    I16,
    /// `i32`.
    I32,
    /// `i64`.
    I64,
    /// `i128`.
    I128,
    /// `isize`.
    Isize,
}

/// An unsigned integer type.
#[derive(Debug, Clone, Copy, PartialEq, Eq, Structural)]
pub enum UintTy {
    /// `u8`.
    U8,
    /// `u16`.
    U16,
    /// `u32`.
    U32,
    /// `u64`.
    U64,
    /// `u128`.
    U128,
    /// `usize`.
    Usize,
}

/// A floating-point type.
#[derive(Debug, Clone, Copy, PartialEq, Eq, Structural)]
pub enum FloatTy {
    /// `f16`.
    F16,
    /// `f32`.
    F32,
    /// `f64`.
    F64,
    /// `f128`.
    F128,
}

/// What a Rust type is, as far as a device boundary distinguishes it.
#[derive(Debug)]
pub enum RustTyKind {
    /// C's `void`.
    CVoid,
    /// A signed integer.
    Int(IntTy),
    /// An unsigned integer.
    Uint(UintTy),
    /// A floating-point number.
    Float(FloatTy),
    /// A raw pointer.
    RawPtr(Box<RustTy>),
    /// A reference.
    Ref(Box<RustTy>),
    /// An array; its length is known where it is a concrete constant.
    Array {
        /// Type of the elements.
        element: Box<RustTy>,
        /// Number of elements.
        len: Option<u64>,
    },
    /// A tuple.
    Tuple {
        /// Number of fields.
        fields: usize,
    },
    /// `bool`.
    Bool,
    /// `char`.
    Char,
    /// The never type.
    Never,
    /// Any other type.
    Other,
}

/// A Rust type in a signature.
#[derive(Debug)]
pub struct RustTy {
    /// What it is.
    pub kind: RustTyKind,
    /// How diagnostics show it.
    pub shown: String,
}

/// A type at the boundary of an external device function.
#[derive(Debug, PartialEq, Eq)]
pub enum DeviceExternType {
    /// No value.
    Void,
    /// An integer of this many bits.
    Integer(u32),
    /// A half-precision number.
    Float16,
    /// A single-precision number.
    Float32,
    /// A double-precision number.
    Float64,
    /// A pointer.
    Pointer {
        /// What it points to.
        pointee: Box<DeviceExternType>,
        /// Its address space.
        address_space: u32,
    },
    /// An array.
    Array {
        /// Type of the elements.
        element: Box<DeviceExternType>,
        /// Number of elements.
        len: u64,
    },
}

impl DeviceExternType {
    /// A pointer to `pointee` in `address_space`.
    pub fn pointer_to(pointee: DeviceExternType, address_space: u32) -> (r: DeviceExternType)
        ensures
            r == (DeviceExternType::Pointer { pointee: Box::new(pointee), address_space }),
    {
        DeviceExternType::Pointer { pointee: Box::new(pointee), address_space }
    }
}

/// What is known of an external device function besides its signature.
#[derive(Debug, Clone, Copy, PartialEq, Eq, Structural)]
pub struct DeviceExternAttrs {
    /// It performs a convergent operation.
    pub is_convergent: bool,
    /// It has no side effects.
    pub is_pure: bool,
    /// It only reads memory.
    pub is_readonly: bool,
}

/// An external device function with its signature at the device boundary.
#[derive(Debug)]
pub struct DeviceExternDecl {
    /// The name to export.
    pub export_name: String,
    /// Types of the parameters.
    pub param_types: Vec<DeviceExternType>,
    /// Type of the result.
    pub return_type: DeviceExternType,
    /// What else is known of it.
    pub attrs: DeviceExternAttrs,
}

/// The width of a signed integer on the device.
pub open spec fn int_bits(ty: IntTy) -> u32 {
    match ty {
        IntTy::I8 => 8,
        IntTy::I16 => 16,
        IntTy::I32 => 32,
        IntTy::I64 => 64,
        IntTy::I128 => 128,
        IntTy::Isize => 64,
    }
}

/// The width of an unsigned integer on the device.
pub open spec fn uint_bits(ty: UintTy) -> u32 {
    match ty {
        UintTy::U8 => 8,
        UintTy::U16 => 16,
        UintTy::U32 => 32,
        UintTy::U64 => 64,
        UintTy::U128 => 128,
        UintTy::Usize => 64,
    }
}

/// An integer of `bits` bits at `position`: any width behind a pointer, but only
/// 32 and 64 bits by value.
pub open spec fn extern_integer(
    bits: u32,
    position: DeviceExternTypePosition,
) -> Result<DeviceExternType, Seq<char>> {
    if position == DeviceExternTypePosition::Pointee || bits == 32 || bits == 64 {
        Ok(DeviceExternType::Integer(bits))
    } else {
        Err(
            "`i"@ + decimal(bits as nat)
                + "` is not yet supported by value in a device extern; use i32/i64 or pass a pointer"@,
        )
    }
}

/// A floating-point number at `position`.
pub open spec fn extern_float(
    ty: FloatTy,
    position: DeviceExternTypePosition,
) -> Result<DeviceExternType, Seq<char>> {
    match ty {
        FloatTy::F16 => if position == DeviceExternTypePosition::Pointee {
            Ok(DeviceExternType::Float16)
        } else {
            Err(
                "`f16` is not yet supported by value in a device extern; pass a pointer or use a CUDA C wrapper"@,
            )
        },
        FloatTy::F32 => Ok(DeviceExternType::Float32),
        FloatTy::F64 => Ok(DeviceExternType::Float64),
        FloatTy::F128 => Err("f128 device externs are not supported"@),
    }
}

/// The message for a type that has no place in a signature.
pub open spec fn unsupported_message(shown: Seq<char>) -> Seq<char> {
    "unsupported device-extern ABI type `"@ + shown
        + "`; use scalar C types or raw pointers to supported scalar/array pointees"@
}

/// What a pointer to `pointee` points to. The empty tuple stands for C's `void`.
pub open spec fn extern_pointee(pointee: RustTy) -> Result<DeviceExternType, Seq<char>>
    decreases pointee, 1nat,
{
    match pointee.kind {
        RustTyKind::Tuple { fields } => if fields == 0 {
            Ok(DeviceExternType::Integer(8))
        } else {
            extern_type(pointee, DeviceExternTypePosition::Pointee)
        },
        _ => extern_type(pointee, DeviceExternTypePosition::Pointee),
    }
}

/// How the type `ty` is expressed at `position`, or why it is refused.
pub open spec fn extern_type(
    ty: RustTy,
    position: DeviceExternTypePosition,
) -> Result<DeviceExternType, Seq<char>>
    decreases ty, 0nat,
{
    match ty.kind {
        RustTyKind::CVoid => if position == DeviceExternTypePosition::Pointee {
            Ok(DeviceExternType::Integer(8))
        } else {
            Err("`c_void` is only supported behind a pointer"@)
        },
        RustTyKind::Int(int_ty) => extern_integer(int_bits(int_ty), position),
        RustTyKind::Uint(uint_ty) => extern_integer(uint_bits(uint_ty), position),
        RustTyKind::Float(float_ty) => extern_float(float_ty, position),
        RustTyKind::RawPtr(pointee) => match extern_pointee(*pointee) {
            Ok(inner) => Ok(
                DeviceExternType::Pointer { pointee: Box::new(inner), address_space: 0 },
            ),
            Err(reason) => Err(reason),
        },
        RustTyKind::Ref(pointee) => match extern_pointee(*pointee) {
            Ok(inner) => Ok(
                DeviceExternType::Pointer { pointee: Box::new(inner), address_space: 0 },
            ),
            Err(reason) => Err(reason),
        },
        RustTyKind::Array { element, len } => if position == DeviceExternTypePosition::Pointee {
            match len {
                Some(n) => match extern_type(*element, DeviceExternTypePosition::Pointee) {
                    Ok(inner) => Ok(
                        DeviceExternType::Array { element: Box::new(inner), len: n },
                    ),
                    Err(reason) => Err(reason),
                },
                None => Err(
                    "device-extern array length for `"@ + ty.shown@
                        + "` is not a concrete constant"@,
                ),
            }
        } else {
            Err(unsupported_message(ty.shown@))
        },
        RustTyKind::Tuple { fields } => if fields == 0 && position
            == DeviceExternTypePosition::Result {
            Ok(DeviceExternType::Void)
        } else {
            Err(unsupported_message(ty.shown@))
        },
        RustTyKind::Bool => Err(
            "`bool` is not yet supported in device extern signatures; use `u32` in a C-compatible wrapper"@,
        ),
        RustTyKind::Char => Err(
            "Rust `char` is not supported in device extern signatures; use `u32` in a C-compatible wrapper"@,
        ),
        RustTyKind::Never => Err("never-returning device externs are not yet supported"@),
        RustTyKind::Other => Err(unsupported_message(ty.shown@)),
    }
}

/// The executable result and the specified one agree.
pub open spec fn same_type_result(
    r: Result<DeviceExternType, String>,
    expected: Result<DeviceExternType, Seq<char>>,
) -> bool {
    match (r, expected) {
        (Ok(ty), Ok(want)) => ty == want,
        (Err(message), Err(want)) => message@ == want,
        _ => false,
    }
}

fn integer_type(bits: u32, position: DeviceExternTypePosition) -> (r: Result<
    DeviceExternType,
    String,
>)
    ensures
        same_type_result(r, extern_integer(bits, position)),
{
    if position == DeviceExternTypePosition::Pointee || bits == 32 || bits == 64 {
        Ok(DeviceExternType::Integer(bits))
    } else {
        let mut message = "`i".to_owned();
        push_decimal(&mut message, bits as u64);
        message.append(
            "` is not yet supported by value in a device extern; use i32/i64 or pass a pointer",
        );
        Err(message)
    }
}

fn unsupported(ty: &RustTy) -> (r: String)
    ensures
        r@ == unsupported_message(ty.shown@),
{
    let mut message = "unsupported device-extern ABI type `".to_owned();
    message.append(ty.shown.as_str());
    message.append("`; use scalar C types or raw pointers to supported scalar/array pointees");
    message
}

fn pointee_type(pointee: &RustTy) -> (r: Result<DeviceExternType, String>)
    ensures
        same_type_result(r, extern_pointee(*pointee)),
    decreases pointee, 1nat,
{
    if let RustTyKind::Tuple { fields } = &pointee.kind {
        if *fields == 0 {
            return Ok(DeviceExternType::Integer(8));
        }
    }
    rustc_ty_to_device_extern_type(pointee, DeviceExternTypePosition::Pointee)
}

/// Expresses a Rust type at the boundary of an external device function.
pub fn rustc_ty_to_device_extern_type(ty: &RustTy, position: DeviceExternTypePosition) -> (r: Result<
    DeviceExternType,
    String,
>)
    ensures
        same_type_result(r, extern_type(*ty, position)),
    decreases ty, 0nat,
{
    match &ty.kind {
        RustTyKind::CVoid => {
            if position == DeviceExternTypePosition::Pointee {
                Ok(DeviceExternType::Integer(8))
            } else {
                Err("`c_void` is only supported behind a pointer".to_owned())
            }
        },
        RustTyKind::Int(int_ty) => match int_ty {
            IntTy::I8 => integer_type(8, position),
            IntTy::I16 => integer_type(16, position),
            IntTy::I32 => integer_type(32, position),
            IntTy::I64 => integer_type(64, position),
            IntTy::I128 => integer_type(128, position),
            IntTy::Isize => integer_type(64, position),
        },
        RustTyKind::Uint(uint_ty) => match uint_ty {
            UintTy::U8 => integer_type(8, position),
            UintTy::U16 => integer_type(16, position),
            UintTy::U32 => integer_type(32, position),
            UintTy::U64 => integer_type(64, position),
            UintTy::U128 => integer_type(128, position),
            UintTy::Usize => integer_type(64, position),
        },
        RustTyKind::Float(float_ty) => match float_ty {
            FloatTy::F16 => {
                if position == DeviceExternTypePosition::Pointee {
                    Ok(DeviceExternType::Float16)
                } else {
                    Err(
                        "`f16` is not yet supported by value in a device extern; pass a pointer or use a CUDA C wrapper".to_owned(),
                    )
                }
            },
            FloatTy::F32 => Ok(DeviceExternType::Float32),
            FloatTy::F64 => Ok(DeviceExternType::Float64),
            FloatTy::F128 => Err("f128 device externs are not supported".to_owned()),
        },
        RustTyKind::RawPtr(pointee) => match pointee_type(pointee) {
            Ok(inner) => Ok(DeviceExternType::pointer_to(inner, 0)),
            Err(reason) => Err(reason),
        },
        RustTyKind::Ref(pointee) => match pointee_type(pointee) {
            Ok(inner) => Ok(DeviceExternType::pointer_to(inner, 0)),
            Err(reason) => Err(reason),
        },
        RustTyKind::Array { element, len } => {
            if position == DeviceExternTypePosition::Pointee {
                match len {
                    Some(n) => match rustc_ty_to_device_extern_type(
                        element,
                        DeviceExternTypePosition::Pointee,
                    ) {
                        Ok(inner) => Ok(
                            DeviceExternType::Array { element: Box::new(inner), len: *n },
                        ),
                        Err(reason) => Err(reason),
                    },
                    None => {
                        let mut message = "device-extern array length for `".to_owned();
                        message.append(ty.shown.as_str());
                        message.append("` is not a concrete constant");
                        Err(message)
                    },
                }
            } else {
                Err(unsupported(ty))
            }
        },
        RustTyKind::Tuple { fields } => {
            if *fields == 0 && position == DeviceExternTypePosition::Result {
                Ok(DeviceExternType::Void)
            } else {
                Err(unsupported(ty))
            }
        },
        RustTyKind::Bool => Err(
            "`bool` is not yet supported in device extern signatures; use `u32` in a C-compatible wrapper".to_owned(),
        ),
        RustTyKind::Char => Err(
            "Rust `char` is not supported in device extern signatures; use `u32` in a C-compatible wrapper".to_owned(),
        ),
        RustTyKind::Never => Err(
            "never-returning device externs are not yet supported".to_owned(),
        ),
        RustTyKind::Other => Err(unsupported(ty)),
    }
}

/// Only pointers and references become pointers.
pub proof fn only_pointers_become_pointers(ty: RustTy, position: DeviceExternTypePosition)
    requires
        extern_type(ty, position) matches Ok(DeviceExternType::Pointer { .. }),
    ensures
        ty.kind is RawPtr || ty.kind is Ref,
{
}

/// By value, a parameter is a 32- or 64-bit integer, a single- or double-precision
/// number, or a pointer.
pub proof fn parameters_are_scalars_or_pointers(ty: RustTy)
    ensures
        match extern_type(ty, DeviceExternTypePosition::Parameter) {
            Ok(DeviceExternType::Integer(bits)) => bits == 32 || bits == 64,
            Ok(DeviceExternType::Float32) => true,
            Ok(DeviceExternType::Float64) => true,
            Ok(DeviceExternType::Pointer { pointee, address_space }) => address_space == 0,
            Ok(_) => false,
            Err(_) => true,
        },
{
}

/// Only the empty tuple in result position becomes `void`.
pub proof fn only_unit_results_become_void(ty: RustTy, position: DeviceExternTypePosition)
    requires
        extern_type(ty, position) == Ok::<DeviceExternType, Seq<char>>(DeviceExternType::Void),
    ensures
        position == DeviceExternTypePosition::Result,
        ty.kind == (RustTyKind::Tuple { fields: 0 }),
{
}

/// Whatever is accepted by value is accepted behind a pointer in the same form,
/// except for `void`.
pub proof fn values_are_accepted_behind_pointers(ty: RustTy, position: DeviceExternTypePosition)
    requires
        extern_type(ty, position) is Ok,
        extern_type(ty, position) != Ok::<DeviceExternType, Seq<char>>(DeviceExternType::Void),
    ensures
        extern_type(ty, DeviceExternTypePosition::Pointee) == extern_type(ty, position),
{
}

}
