//! LLVM function-parameter attributes: the decision, the carrier that rides on a
//! function operation, and the rendering into the textual signature.
//!
//! An [`ArgAttrs`] says what was decided for one parameter. A
//! [`LlvmParamAttrsAttr`] is the flat form stored on the operation. Both render
//! through [`ArgAttrs::to_fragment`], which keeps only the tokens that are legal
//! on the class of parameter they land on.

use crate::text::join;
use crate::text::push_decimal;
use vstd::prelude::*;
use vstd::std_specs::convert::FromSpecImpl;

verus! {

broadcast use vstd::string::group_string_axioms;

/// Sign or zero extension of a narrow integer at a call boundary.
#[derive(Debug, Clone, Copy, PartialEq, Eq, Structural)]
pub enum ArgExt {
    /// No extension.
    NoExt,
    /// `signext`: extend with the sign bit.
    Sign,
    /// `zeroext`: extend with zero.
    Zero,
}

impl Default for ArgExt {
    fn default() -> (r: ArgExt)
        ensures
            r == ArgExt::NoExt,
    {
        ArgExt::NoExt
    }
}

/// The kind of lowered parameter that attributes land on.
#[derive(Debug, Clone, Copy, PartialEq, Eq, Structural)]
pub enum LlvmParamClass {
    /// An LLVM `ptr`.
    Pointer,
    /// An LLVM integer.
    Integer,
    /// Any other lowered type.
    Other,
}

/// The attributes decided for one function parameter.
#[derive(Debug, Clone, Copy, PartialEq, Eq, Structural)]
pub struct ArgAttrs {
    /// `noalias`. Pointer-only.
    pub noalias: bool,
    /// `readonly`. Pointer-only.
    pub readonly: bool,
    /// `nonnull`. Pointer-only.
    pub nonnull: bool,
    /// `noundef`. Legal on every parameter.
    pub noundef: bool,
    /// `dereferenceable(N)`. Pointer-only.
    pub dereferenceable: Option<u64>,
    /// `align N`. Pointer-only.
    pub align: Option<u64>,
    /// `signext` or `zeroext`. Integer-only.
    pub ext: ArgExt,
}

impl Default for ArgAttrs {
    fn default() -> (r: ArgAttrs)
        ensures
            r == no_attrs(),
    {
        ArgAttrs {
            noalias: false,
            readonly: false,
            nonnull: false,
            noundef: false,
            dereferenceable: None,
            align: None,
            ext: ArgExt::NoExt,
        }
    }
}

/// No attribute at all.
pub open spec fn no_attrs() -> ArgAttrs {
    ArgAttrs {
        noalias: false,
        readonly: false,
        nonnull: false,
        noundef: false,
        dereferenceable: None,
        align: None,
        ext: ArgExt::NoExt,
    }
}

/// `token` where `present`, and nothing otherwise.
pub open spec fn token_when(present: bool, token: Seq<char>) -> Seq<Seq<char>> {
    if present {
        seq![token]
    } else {
        seq![]
    }
}

impl ArgAttrs {
    /// The tokens that apply to a parameter of class `class`, in canonical order.
    pub open spec fn tokens(self, class: LlvmParamClass) -> Seq<Seq<char>> {
        let integer = class == LlvmParamClass::Integer;
        let pointer = class == LlvmParamClass::Pointer;
        token_when(integer && self.ext == ArgExt::Sign, "signext"@) + token_when(
            integer && self.ext == ArgExt::Zero,
            "zeroext"@,
        ) + token_when(pointer && self.noalias, "noalias"@) + token_when(
            pointer && self.readonly,
            "readonly"@,
        ) + token_when(pointer && self.nonnull, "nonnull"@) + token_when(
            self.noundef,
            "noundef"@,
        ) + token_when(
            pointer && self.dereferenceable is Some,
            "dereferenceable("@ + crate::text::decimal(self.dereferenceable->0 as nat) + ")"@,
        ) + token_when(
            pointer && self.align is Some,
            "align "@ + crate::text::decimal(self.align->0 as nat),
        )
    }

    /// The text between a parameter's type and its name, where there is any.
    pub open spec fn fragment(self, class: LlvmParamClass) -> Option<Seq<char>> {
        if self.tokens(class).len() == 0 {
            None
        } else {
            Some(crate::text::joined(self.tokens(class), " "@))
        }
    }

    /// True when nothing would be emitted on a parameter of any class.
    pub fn is_empty(&self) -> (r: bool)
        ensures
            r == (*self == no_attrs()),
    {
        !self.noalias && !self.readonly && !self.nonnull && !self.noundef
            && self.dereferenceable.is_none() && self.align.is_none() && self.ext == ArgExt::NoExt
    }

    /// Renders the tokens that are legal on `class`, or nothing where none is.
    pub fn to_fragment(&self, class: LlvmParamClass) -> (r: Option<String>)
        ensures
            r is Some <==> self.fragment(class) is Some,
            r matches Some(s) ==> s@ == self.fragment(class)->0,
    {
        let mut parts: Vec<String> = Vec::new();
        if class == LlvmParamClass::Integer {
            match self.ext {
                ArgExt::Sign => parts.push("signext".to_owned()),
                ArgExt::Zero => parts.push("zeroext".to_owned()),
                ArgExt::NoExt => {},
            }
        }
        let is_ptr = class == LlvmParamClass::Pointer;
        if is_ptr && self.noalias {
            parts.push("noalias".to_owned());
        }
        if is_ptr && self.readonly {
            parts.push("readonly".to_owned());
        }
        if is_ptr && self.nonnull {
            parts.push("nonnull".to_owned());
        }
        if self.noundef {
            parts.push("noundef".to_owned());
        }
        if let Some(n) = self.dereferenceable {
            if is_ptr {
                let mut token = "dereferenceable(".to_owned();
                push_decimal(&mut token, n);
                token.append(")");
                parts.push(token);
            }
        }
        if let Some(a) = self.align {
            if is_ptr {
                let mut token = "align ".to_owned();
                push_decimal(&mut token, a);
                parts.push(token);
            }
        }
        assert(crate::text::texts(parts@) == self.tokens(class));
        if parts.is_empty() {
            None
        } else {
            Some(join(&parts, " "))
        }
    }
}

/// The flat form of one parameter's attributes, as an operation carries it.
///
/// An absent `dereferenceable` or `align` is written as zero, and the extension
/// is split into two flags.
#[derive(Debug, Clone, Copy, PartialEq, Eq, Hash, Structural)]
pub struct LlvmParamAttrsAttr {
    /// `noalias`. Pointer-only.
    pub noalias: bool,
    /// `readonly`. Pointer-only.
    pub readonly: bool,
    /// `nonnull`. Pointer-only.
    pub nonnull: bool,
    /// `noundef`. Legal on every parameter.
    pub noundef: bool,
    /// `signext`. Integer-only.
    pub signext: bool,
    /// `zeroext`. Integer-only.
    pub zeroext: bool,
    /// `dereferenceable(N)`; zero where absent. Pointer-only.
    pub dereferenceable: u64,
    /// `align N`; zero where absent. Pointer-only.
    pub align: u64,
}

/// A carrier without any attribute.
pub open spec fn no_param_attrs() -> LlvmParamAttrsAttr {
    LlvmParamAttrsAttr {
        noalias: false,
        readonly: false,
        nonnull: false,
        noundef: false,
        signext: false,
        zeroext: false,
        dereferenceable: 0,
        align: 0,
    }
}

impl Default for LlvmParamAttrsAttr {
    fn default() -> (r: LlvmParamAttrsAttr)
        ensures
            r == no_param_attrs(),
    {
        LlvmParamAttrsAttr {
            noalias: false,
            readonly: false,
            nonnull: false,
            noundef: false,
            signext: false,
            zeroext: false,
            dereferenceable: 0,
            align: 0,
        }
    }
}

/// Zero stands for an absent number.
pub open spec fn nonzero(n: u64) -> Option<u64> {
    if n == 0 {
        None
    } else {
        Some(n)
    }
}

impl LlvmParamAttrsAttr {
    /// The attributes that this carrier stands for. `signext` wins where both
    /// extension flags are set.
    pub open spec fn arg_attrs(self) -> ArgAttrs {
        ArgAttrs {
            noalias: self.noalias,
            readonly: self.readonly,
            nonnull: self.nonnull,
            noundef: self.noundef,
            dereferenceable: nonzero(self.dereferenceable),
            align: nonzero(self.align),
            ext: if self.signext {
                ArgExt::Sign
            } else if self.zeroext {
                ArgExt::Zero
            } else {
                ArgExt::NoExt
            },
        }
    }

    /// True when the carrier holds no attribute.
    pub fn is_empty(&self) -> (r: bool)
        ensures
            r == (self.arg_attrs() == no_attrs()),
            r == (*self == no_param_attrs()),
    {
        self.to_arg_attrs().is_empty()
    }

    /// The attributes that this carrier stands for.
    pub fn to_arg_attrs(&self) -> (r: ArgAttrs)
        ensures
            r == self.arg_attrs(),
    {
        ArgAttrs {
            noalias: self.noalias,
            readonly: self.readonly,
            nonnull: self.nonnull,
            noundef: self.noundef,
            dereferenceable: if self.dereferenceable != 0 {
                Some(self.dereferenceable)
            } else {
                None
            },
            align: if self.align != 0 {
                Some(self.align)
            } else {
                None
            },
            ext: match (self.signext, self.zeroext) {
                (true, _) => ArgExt::Sign,
                (_, true) => ArgExt::Zero,
                _ => ArgExt::NoExt,
            },
        }
    }

    /// Renders the tokens that are legal on `class`, or nothing where none is.
    pub fn to_fragment(&self, class: LlvmParamClass) -> (r: Option<String>)
        ensures
            r is Some <==> self.arg_attrs().fragment(class) is Some,
            r matches Some(s) ==> s@ == self.arg_attrs().fragment(class)->0,
    {
        self.to_arg_attrs().to_fragment(class)
    }
}

/// The carrier of `attrs`.
pub open spec fn carrier_of(attrs: ArgAttrs) -> LlvmParamAttrsAttr {
    LlvmParamAttrsAttr {
        noalias: attrs.noalias,
        readonly: attrs.readonly,
        nonnull: attrs.nonnull,
        noundef: attrs.noundef,
        signext: attrs.ext == ArgExt::Sign,
        zeroext: attrs.ext == ArgExt::Zero,
        dereferenceable: match attrs.dereferenceable {
            Some(n) => n,
            None => 0,
        },
        align: match attrs.align {
            Some(n) => n,
            None => 0,
        },
    }
}

impl FromSpecImpl<&ArgAttrs> for LlvmParamAttrsAttr {
    open spec fn obeys_from_spec() -> bool {
        true
    }

    open spec fn from_spec(attrs: &ArgAttrs) -> LlvmParamAttrsAttr {
        carrier_of(*attrs)
    }
}

impl From<&ArgAttrs> for LlvmParamAttrsAttr {
    fn from(attrs: &ArgAttrs) -> (r: LlvmParamAttrsAttr) {
        LlvmParamAttrsAttr {
            noalias: attrs.noalias,
            readonly: attrs.readonly,
            nonnull: attrs.nonnull,
            noundef: attrs.noundef,
            signext: attrs.ext == ArgExt::Sign,
            zeroext: attrs.ext == ArgExt::Zero,
            dereferenceable: match attrs.dereferenceable {
                Some(n) => n,
                None => 0,
            },
            align: match attrs.align {
                Some(n) => n,
                None => 0,
            },
        }
    }
}

/// The attribute key under which a function operation holds its carriers, one
/// per parameter.
pub const ARG_ATTRS_KEY: &'static str = "llvm_arg_attrs";

/// Attributes survive the way through the carrier, except for an explicit zero,
/// which the carrier cannot tell from an absent number.
pub proof fn carrier_round_trips(attrs: ArgAttrs)
    requires
        attrs.dereferenceable != Some(0u64),
        attrs.align != Some(0u64),
    ensures
        carrier_of(attrs).arg_attrs() == attrs,
{
}

/// A carrier whose two extension flags are not both set survives the way through
/// the attributes.
pub proof fn attrs_round_trip(carrier: LlvmParamAttrsAttr)
    requires
        !(carrier.signext && carrier.zeroext),
    ensures
        carrier_of(carrier.arg_attrs()) == carrier,
{
}

/// Attributes are empty exactly when they render to nothing on every class of
/// parameter.
pub proof fn empty_renders_nowhere(attrs: ArgAttrs)
    ensures
        attrs == no_attrs() <==> (forall|class: LlvmParamClass|
            (#[trigger] attrs.fragment(class)) is None),
{
    if attrs != no_attrs() {
        if attrs.ext != ArgExt::NoExt {
            assert(attrs.tokens(LlvmParamClass::Integer).len() > 0);
            assert(attrs.fragment(LlvmParamClass::Integer) is Some);
        } else {
            assert(attrs.tokens(LlvmParamClass::Pointer).len() > 0);
            assert(attrs.fragment(LlvmParamClass::Pointer) is Some);
        }
    }
}

/// On a parameter that is no pointer only `noundef` and, on an integer, the
/// extension are ever rendered.
pub proof fn pointer_tokens_stay_on_pointers(attrs: ArgAttrs, class: LlvmParamClass, i: int)
    requires
        class != LlvmParamClass::Pointer,
        0 <= i < attrs.tokens(class).len(),
    ensures
        attrs.tokens(class)[i] == "noundef"@ || (class == LlvmParamClass::Integer && (
        attrs.tokens(class)[i] == "signext"@ || attrs.tokens(class)[i] == "zeroext"@)),
{
}

/// On a parameter that is no integer no extension decides anything: the same
/// attributes without their extension render alike.
pub proof fn extension_stays_on_integers(attrs: ArgAttrs, class: LlvmParamClass)
    requires
        class != LlvmParamClass::Integer,
    ensures
        attrs.tokens(class) == (ArgAttrs { ext: ArgExt::NoExt, ..attrs }).tokens(class),
{
}

}
