//! Module metadata.

use cuda_oxide::export_state::KernelClusterConfig;
use cuda_oxide::export_state::KernelInfo;
use cuda_oxide::export_state::KernelLaunchBounds;
use cuda_oxide::export_state::ModuleExportState;
use cuda_oxide::export_state::NvvmIrDialect;
use cuda_oxide::ir::Context;
use cuda_oxide::metadata::emit_nvvm_annotations;
use cuda_oxide::metadata::emit_nvvmir_version;
use cuda_oxide::metadata::needs_nvvm_annotations;

fn test_state(ctx: &Context) -> ModuleExportState<'_> {
    ModuleExportState::new(ctx, true, false, None)
}

#[test]
fn allocator_returns_contiguous_module_metadata_ids() {
    let ctx = Context { types: vec![] };
    let mut state = test_state(&ctx);

    assert_eq!(state.alloc_metadata_id(), 0);
    assert_eq!(state.alloc_metadata_id(), 1);
    assert_eq!(state.alloc_metadata_id(), 2);
    assert_eq!(state.next_metadata_id(), 3);
}

#[test]
fn nvvm_metadata_uses_one_shared_allocator() {
    let ctx = Context { types: vec![] };
    let mut state = test_state(&ctx);
    state.all_kernels.push(KernelInfo {
        name: "plain".into(),
    });
    state.all_kernels.push(KernelInfo {
        name: "clustered".into(),
    });
    state.all_kernels.push(KernelInfo {
        name: "bounded".into(),
    });
    state.cluster_kernels.push(KernelClusterConfig {
        name: "clustered".into(),
        dim_x: 2,
        dim_y: 3,
        dim_z: 4,
    });
    state.launch_bounds_kernels.push(KernelLaunchBounds {
        name: "bounded".into(),
        max_threads: 256,
        min_blocks: Some(2),
    });

    let mut output = String::new();
    emit_nvvm_annotations(&mut output, &mut state, true).unwrap();
    emit_nvvmir_version(&mut output, &mut state, [2, 0, 3, 2]);

    assert_eq!(
        output,
        "!0 = !{ptr @plain, !\"kernel\", i32 1}\n\
         !1 = !{ptr @clustered, !\"kernel\", i32 1, !\"cluster_dim_x\", i32 2, !\"cluster_dim_y\", i32 3, !\"cluster_dim_z\", i32 4}\n\
         !2 = !{ptr @bounded, !\"kernel\", i32 1}\n\
         !3 = !{ptr @bounded, !\"maxntidx\", i32 256}\n\
         !4 = !{ptr @bounded, !\"maxntidy\", i32 1}\n\
         !5 = !{ptr @bounded, !\"maxntidz\", i32 1}\n\
         !6 = !{ptr @bounded, !\"minctasm\", i32 2}\n\
         !nvvm.annotations = !{!0, !1, !2, !3, !4, !5, !6}\n\
         !nvvmir.version = !{!7}\n\
         !7 = !{i32 2, i32 0, i32 3, i32 2}\n"
    );
    assert_eq!(state.next_metadata_id(), 8);
}

#[test]
fn basic_kernel_annotations_are_skipped_when_backend_does_not_need_them() {
    let ctx = Context { types: vec![] };
    let mut state = test_state(&ctx);
    state.all_kernels.push(KernelInfo {
        name: "plain".into(),
    });

    let mut output = String::new();
    emit_nvvm_annotations(&mut output, &mut state, false).unwrap();

    assert!(output.is_empty());
    assert_eq!(state.next_metadata_id(), 0);
}

#[test]
fn annotations_are_needed_for_special_kernels_only() {
    let ctx = Context { types: vec![] };
    let mut state = test_state(&ctx);
    assert!(!needs_nvvm_annotations(&state, true));
    state.push_kernel("plain");
    assert!(needs_nvvm_annotations(&state, true));
    assert!(!needs_nvvm_annotations(&state, false));
    state.push_launch_bounds_kernel(KernelLaunchBounds {
        name: "plain".into(),
        max_threads: 32,
        min_blocks: None,
    });
    assert!(needs_nvvm_annotations(&state, false));
}

#[test]
fn negative_versions_print_with_their_sign() {
    let ctx = Context { types: vec![] };
    let mut state = test_state(&ctx);
    let mut output = String::new();
    emit_nvvmir_version(&mut output, &mut state, [-2, 0, i32::MIN, 7]);
    assert_eq!(
        output,
        "!nvvmir.version = !{!0}\n!0 = !{i32 -2, i32 0, i32 -2147483648, i32 7}\n"
    );
}

#[test]
fn legacy_annotations_need_a_function_type() {
    let ctx = Context { types: vec![] };
    let mut state =
        ModuleExportState::new(&ctx, true, false, Some(NvvmIrDialect::LegacyLlvm7));
    state.push_kernel("lost");
    let mut output = String::new();
    assert!(emit_nvvm_annotations(&mut output, &mut state, true).is_err());
    assert_eq!(state.next_metadata_id(), 1);
}

#[test]
fn unlisted_kernels_have_no_node() {
    let ctx = Context { types: vec![] };
    let mut state = test_state(&ctx);
    state.push_kernel("plain");
    state.push_launch_bounds_kernel(KernelLaunchBounds {
        name: "bounded".into(),
        max_threads: 64,
        min_blocks: None,
    });
    let mut output = String::from("; before\n");
    emit_nvvm_annotations(&mut output, &mut state, false).unwrap();
    assert_eq!(
        output,
        "; before\n\
         !0 = !{ptr @bounded, !\"kernel\", i32 1}\n\
         !1 = !{ptr @bounded, !\"maxntidx\", i32 64}\n\
         !2 = !{ptr @bounded, !\"maxntidy\", i32 1}\n\
         !3 = !{ptr @bounded, !\"maxntidz\", i32 1}\n\
         !nvvm.annotations = !{!0, !1, !2, !3}\n"
    );
    assert_eq!(state.next_metadata_id(), 4);
}
