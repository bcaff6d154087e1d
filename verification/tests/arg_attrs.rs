//! Parameter attributes and their carrier.

use cuda_oxide::arg_attrs::ArgAttrs;
use cuda_oxide::arg_attrs::ArgExt;
use cuda_oxide::arg_attrs::LlvmParamAttrsAttr;
use cuda_oxide::arg_attrs::LlvmParamClass;

#[test]
fn pointer_family_renders_in_canonical_order() {
    let attrs = ArgAttrs {
        noalias: true,
        readonly: true,
        nonnull: true,
        noundef: true,
        dereferenceable: Some(16),
        align: Some(4),
        ext: ArgExt::NoExt,
    };
    assert_eq!(
        attrs.to_fragment(LlvmParamClass::Pointer).as_deref(),
        Some("noalias readonly nonnull noundef dereferenceable(16) align 4")
    );
}

#[test]
fn pointer_tokens_are_dropped_on_non_pointer_classes() {
    // A `noundef` on a scalar survives; pointer-only tokens that would be illegal on
    // that scalar are dropped.
    let attrs = ArgAttrs {
        noalias: true,
        nonnull: true,
        noundef: true,
        align: Some(4),
        ..Default::default()
    };
    assert_eq!(
        attrs.to_fragment(LlvmParamClass::Integer).as_deref(),
        Some("noundef")
    );
    assert_eq!(
        attrs.to_fragment(LlvmParamClass::Other).as_deref(),
        Some("noundef")
    );
}

#[test]
fn integer_extension_only_on_integers() {
    let sext = ArgAttrs {
        ext: ArgExt::Sign,
        noundef: true,
        ..Default::default()
    };
    assert_eq!(
        sext.to_fragment(LlvmParamClass::Integer).as_deref(),
        Some("signext noundef")
    );
    // On a pointer the extension is meaningless and dropped.
    assert_eq!(
        sext.to_fragment(LlvmParamClass::Pointer).as_deref(),
        Some("noundef")
    );
}

#[test]
fn empty_renders_to_nothing() {
    assert!(ArgAttrs::default().is_empty());
    assert_eq!(
        ArgAttrs::default().to_fragment(LlvmParamClass::Pointer),
        None
    );
}

#[test]
fn carrier_round_trips_through_policy_struct() {
    for attrs in [
        ArgAttrs {
            noalias: true,
            nonnull: true,
            noundef: true,
            dereferenceable: Some(8),
            align: Some(8),
            ..Default::default()
        },
        ArgAttrs {
            readonly: true,
            ext: ArgExt::Zero,
            ..Default::default()
        },
        ArgAttrs::default(),
    ] {
        let carrier = LlvmParamAttrsAttr::from(&attrs);
        assert_eq!(carrier.to_arg_attrs(), attrs);
        assert_eq!(carrier.is_empty(), attrs.is_empty());
    }
}

#[test]
fn zero_extension_precedes_noundef() {
    let zext = ArgAttrs {
        ext: ArgExt::Zero,
        noundef: true,
        ..Default::default()
    };
    assert_eq!(
        zext.to_fragment(LlvmParamClass::Integer).as_deref(),
        Some("zeroext noundef")
    );
}

#[test]
fn carrier_renders_as_the_attributes_do() {
    let attrs = ArgAttrs {
        noalias: true,
        align: Some(64),
        ext: ArgExt::Sign,
        ..Default::default()
    };
    let carrier = LlvmParamAttrsAttr::from(&attrs);
    for class in [
        LlvmParamClass::Pointer,
        LlvmParamClass::Integer,
        LlvmParamClass::Other,
    ] {
        assert_eq!(carrier.to_fragment(class), attrs.to_fragment(class));
    }
    assert_eq!(carrier.align, 64);
    assert!(carrier.signext);
}

#[test]
fn zero_counts_are_lost_in_the_carrier() {
    let attrs = ArgAttrs {
        dereferenceable: Some(0),
        ..Default::default()
    };
    let carrier = LlvmParamAttrsAttr::from(&attrs);
    assert_eq!(carrier.to_arg_attrs().dereferenceable, None);
}
