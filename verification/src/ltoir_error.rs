//! Failures of building or loading a module through LTOIR.

use crate::cuda_arch::CudaArchParseError;
use crate::text::push_signed_decimal;
use crate::text::signed_decimal;
use vstd::prelude::*;

verus! {

broadcast use vstd::string::group_string_axioms;

/// Why a module could not be built or loaded.
#[derive(Debug)]
pub enum LtoirError {
    /// A text names no concrete CUDA architecture.
    InvalidTarget(CudaArchParseError),
    /// The artifact does not record the target that it was emitted for.
    TargetNotFound,
    /// The artifact was emitted for another target than the requested one.
    TargetMismatch {
        /// Path of the NVVM IR.
        ir_path: String,
        /// Target that it was emitted for.
        emitted: String,
        /// Target that was requested.
        requested: String,
    },
    /// A sidecar file of the artifact is malformed.
    InvalidCompileOptions {
        /// Path of the sidecar.
        path: String,
        /// What it says.
        value: String,
    },
    /// The artifact cannot run on the device.
    IncompatibleExecutionTarget {
        /// Target that it was emitted for.
        emitted: String,
        /// Architecture of the device.
        execution: String,
        /// Why it cannot.
        reason: String,
    },
    /// The installed libNVVM accepts another version of NVVM IR.
    UnsupportedNvvmIrVersion {
        /// Major version that it accepts.
        major: i32,
        /// Minor version that it accepts.
        minor: i32,
    },
    /// The installed libNVVM uses another dialect than the target asks for.
    DialectMismatch {
        /// The target.
        target: String,
        /// LLVM version that libNVVM reports.
        llvm_major: i32,
        /// The dialect that the target asks for.
        expected: String,
    },
    /// libNVVM failed.
    Nvvm(String),
    /// nvJitLink failed.
    NvJitLink(String),
    /// The libdevice bitcode was not found.
    LibdeviceNotFound {
        /// The paths that were tried, one per line.
        tried: String,
    },
    /// A file could not be read or written.
    Io {
        /// Path of the file.
        path: String,
        /// Why not.
        source: String,
    },
    /// There is no artifact to load.
    NoArtifact {
        /// Name of the artifact.
        name: String,
        /// Directory that was searched.
        dir: String,
    },
    /// The CUDA driver failed.
    Driver(String),
}

/// What [`LtoirError`] says.
pub enum LtoirErrorView {
    /// A text names no concrete CUDA architecture.
    InvalidTarget(Seq<char>),
    /// The artifact does not record its target.
    TargetNotFound,
    /// The artifact was emitted for another target.
    TargetMismatch {
        /// Path of the NVVM IR.
        ir_path: Seq<char>,
        /// Target that it was emitted for.
        emitted: Seq<char>,
        /// Target that was requested.
        requested: Seq<char>,
    },
    /// A sidecar file is malformed.
    InvalidCompileOptions {
        /// Path of the sidecar.
        path: Seq<char>,
        /// What it says.
        value: Seq<char>,
    },
    /// The artifact cannot run on the device.
    IncompatibleExecutionTarget {
        /// Target that it was emitted for.
        emitted: Seq<char>,
        /// Architecture of the device.
        execution: Seq<char>,
        /// Why it cannot.
        reason: Seq<char>,
    },
    /// libNVVM accepts another version of NVVM IR.
    UnsupportedNvvmIrVersion {
        /// Major version.
        major: i32,
        /// Minor version.
        minor: i32,
    },
    /// libNVVM uses another dialect.
    DialectMismatch {
        /// The target.
        target: Seq<char>,
        /// LLVM version that libNVVM reports.
        llvm_major: i32,
        /// The dialect that the target asks for.
        expected: Seq<char>,
    },
    /// libNVVM failed.
    Nvvm(Seq<char>),
    /// nvJitLink failed.
    NvJitLink(Seq<char>),
    /// The libdevice bitcode was not found.
    LibdeviceNotFound {
        /// The paths that were tried.
        tried: Seq<char>,
    },
    /// A file could not be read or written.
    Io {
        /// Path of the file.
        path: Seq<char>,
        /// Why not.
        source: Seq<char>,
    },
    /// There is no artifact to load.
    NoArtifact {
        /// Name of the artifact.
        name: Seq<char>,
        /// Directory that was searched.
        dir: Seq<char>,
    },
    /// The CUDA driver failed.
    Driver(Seq<char>),
}

impl View for LtoirError {
    type V = LtoirErrorView;

    open spec fn view(&self) -> LtoirErrorView {
        match self {
            LtoirError::InvalidTarget(error) => LtoirErrorView::InvalidTarget(error.value@),
            LtoirError::TargetNotFound => LtoirErrorView::TargetNotFound,
            LtoirError::TargetMismatch { ir_path, emitted, requested } => {
                LtoirErrorView::TargetMismatch {
                    ir_path: ir_path@,
                    emitted: emitted@,
                    requested: requested@,
                }
            },
            LtoirError::InvalidCompileOptions { path, value } => {
                LtoirErrorView::InvalidCompileOptions { path: path@, value: value@ }
            },
            LtoirError::IncompatibleExecutionTarget { emitted, execution, reason } => {
                LtoirErrorView::IncompatibleExecutionTarget {
                    emitted: emitted@,
                    execution: execution@,
                    reason: reason@,
                }
            },
            LtoirError::UnsupportedNvvmIrVersion { major, minor } => {
                LtoirErrorView::UnsupportedNvvmIrVersion { major: *major, minor: *minor }
            },
            LtoirError::DialectMismatch { target, llvm_major, expected } => {
                LtoirErrorView::DialectMismatch {
                    target: target@,
                    llvm_major: *llvm_major,
                    expected: expected@,
                }
            },
            LtoirError::Nvvm(s) => LtoirErrorView::Nvvm(s@),
            LtoirError::NvJitLink(s) => LtoirErrorView::NvJitLink(s@),
            LtoirError::LibdeviceNotFound { tried } => LtoirErrorView::LibdeviceNotFound {
                tried: tried@,
            },
            LtoirError::Io { path, source } => LtoirErrorView::Io { path: path@, source: source@ },
            LtoirError::NoArtifact { name, dir } => LtoirErrorView::NoArtifact {
                name: name@,
                dir: dir@,
            },
            LtoirError::Driver(s) => LtoirErrorView::Driver(s@),
        }
    }
}

impl LtoirErrorView {
    /// The message of the error.
    pub open spec fn text(self) -> Seq<char> {
        match self {
            LtoirErrorView::InvalidTarget(value) => "invalid CUDA architecture `"@ + value
                + "`: expected sm_XX or compute_XX"@,
            LtoirErrorView::TargetNotFound => {
                "NVVM IR/LTOIR does not record its CUDA target. Keep the generated .target file, rebuild the artifact, or explicitly set CUDA_OXIDE_TARGET to its original target."@
            },
            LtoirErrorView::TargetMismatch { ir_path, emitted, requested } => {
                "NVVM IR target mismatch: "@ + ir_path + " was emitted for "@ + emitted
                    + ", but the loader requested "@ + requested
            },
            LtoirErrorView::InvalidCompileOptions { path, value } => {
                "invalid cuda-oxide compile metadata in "@ + path + ": "@ + value
            },
            LtoirErrorView::IncompatibleExecutionTarget { emitted, execution, reason } => {
                "cannot execute CUDA artifact emitted for "@ + emitted + " on "@ + execution
                    + ": "@ + reason
            },
            LtoirErrorView::UnsupportedNvvmIrVersion { major, minor } => {
                "installed libNVVM accepts NVVM IR "@ + signed_decimal(major as int) + "."@
                    + signed_decimal(minor as int) + ", but cuda-oxide emits NVVM IR 2.0"@
            },
            LtoirErrorView::DialectMismatch { target, llvm_major, expected } => {
                "libNVVM reports LLVM "@ + signed_decimal(llvm_major as int) + " for "@ + target
                    + ", which disagrees with cuda-oxide's expected "@ + expected + " dialect"@
            },
            LtoirErrorView::Nvvm(s) => "libnvvm: "@ + s,
            LtoirErrorView::NvJitLink(s) => "nvJitLink: "@ + s,
            LtoirErrorView::LibdeviceNotFound { tried } => {
                "Could not locate libdevice.10.bc. Set CUDA_OXIDE_LIBDEVICE, CUDA_TOOLKIT_PATH, or CUDA_HOME, or install the CUDA Toolkit. Tried:\n  "@
                    + tried
            },
            LtoirErrorView::Io { path, source } => "Failed reading "@ + path + ": "@ + source,
            LtoirErrorView::NoArtifact { name, dir } => {
                "Could not find any kernel artifact for "@ + name + " in "@ + dir
                    + ". Looked for "@ + name + ".cubin, "@ + name + ".ptx, "@ + name + ".ll, "@
                    + name + ".ltoir. Did `cargo oxide run` complete successfully?"@
            },
            LtoirErrorView::Driver(s) => "CUDA driver: "@ + s,
        }
    }
}

fn text_of(head: &str, tail: &str) -> (r: String)
    ensures
        r@ == head@ + tail@,
{
    let mut r = head.to_owned();
    r.append(tail);
    r
}

impl LtoirError {
    /// The message of the error.
    pub fn message(&self) -> (r: String)
        ensures
            r@ == self@.text(),
    {
        match self {
            LtoirError::InvalidTarget(error) => {
                let mut r = text_of("invalid CUDA architecture `", error.value.as_str());
                r.append("`: expected sm_XX or compute_XX");
                r
            },
            LtoirError::TargetNotFound => {
                "NVVM IR/LTOIR does not record its CUDA target. Keep the generated .target file, rebuild the artifact, or explicitly set CUDA_OXIDE_TARGET to its original target.".to_owned()
            },
            LtoirError::TargetMismatch { ir_path, emitted, requested } => {
                let mut r = text_of("NVVM IR target mismatch: ", ir_path.as_str());
                r.append(" was emitted for ");
                r.append(emitted.as_str());
                r.append(", but the loader requested ");
                r.append(requested.as_str());
                r
            },
            LtoirError::InvalidCompileOptions { path, value } => {
                let mut r = text_of("invalid cuda-oxide compile metadata in ", path.as_str());
                r.append(": ");
                r.append(value.as_str());
                r
            },
            LtoirError::IncompatibleExecutionTarget { emitted, execution, reason } => {
                let mut r = text_of("cannot execute CUDA artifact emitted for ", emitted.as_str());
                r.append(" on ");
                r.append(execution.as_str());
                r.append(": ");
                r.append(reason.as_str());
                r
            },
            LtoirError::UnsupportedNvvmIrVersion { major, minor } => {
                let mut r = "installed libNVVM accepts NVVM IR ".to_owned();
                push_signed_decimal(&mut r, *major);
                r.append(".");
                push_signed_decimal(&mut r, *minor);
                r.append(", but cuda-oxide emits NVVM IR 2.0");
                r
            },
            LtoirError::DialectMismatch { target, llvm_major, expected } => {
                let mut r = "libNVVM reports LLVM ".to_owned();
                push_signed_decimal(&mut r, *llvm_major);
                r.append(" for ");
                r.append(target.as_str());
                r.append(", which disagrees with cuda-oxide's expected ");
                r.append(expected.as_str());
                r.append(" dialect");
                r
            },
            LtoirError::Nvvm(s) => text_of("libnvvm: ", s.as_str()),
            LtoirError::NvJitLink(s) => text_of("nvJitLink: ", s.as_str()),
            LtoirError::LibdeviceNotFound { tried } => text_of(
                "Could not locate libdevice.10.bc. Set CUDA_OXIDE_LIBDEVICE, CUDA_TOOLKIT_PATH, or CUDA_HOME, or install the CUDA Toolkit. Tried:\n  ",
                tried.as_str(),
            ),
            LtoirError::Io { path, source } => {
                let mut r = text_of("Failed reading ", path.as_str());
                r.append(": ");
                r.append(source.as_str());
                r
            },
            LtoirError::NoArtifact { name, dir } => {
                let mut r = text_of("Could not find any kernel artifact for ", name.as_str());
                r.append(" in ");
                r.append(dir.as_str());
                r.append(". Looked for ");
                r.append(name.as_str());
                r.append(".cubin, ");
                r.append(name.as_str());
                r.append(".ptx, ");
                r.append(name.as_str());
                r.append(".ll, ");
                r.append(name.as_str());
                r.append(".ltoir. Did `cargo oxide run` complete successfully?");
                r
            },
            LtoirError::Driver(s) => text_of("CUDA driver: ", s.as_str()),
        }
    }
}

}
