//! Sidecar files that record the target and the options of an artifact.
//!
//! Beside `kernel.ll` stand `kernel.target`, which names the architecture that the
//! artifact was emitted for, and `kernel.options`, which records the contraction
//! policy. A target file with a marker line says that the options file is required.
//! The files are read and written by the caller; how an options file is parsed is
//! the caller's business too.

use crate::cuda_arch::parsed_arch;
use crate::cuda_arch::CudaArch;
use crate::ltoir_error::LtoirError;
use crate::ltoir_error::LtoirErrorView;
use crate::paths::with_extension;
use crate::paths::with_extension_of;
use crate::text::lines;
use crate::text::lines_from;
use crate::text::split_lines;
use crate::text::str_eq;
use crate::text::trim;
use crate::text::trimmed;
use vstd::prelude::*;

verus! {

broadcast use vstd::string::group_string_axioms;

/// What came of reading a text file.
#[derive(Debug)]
pub enum FileText {
    /// Its contents.
    Contents(String),
    /// There is no such file.
    NotFound,
    /// It could not be read, for this reason.
    Failed(String),
}

/// What came of reading and parsing an options file.
#[derive(Debug)]
pub enum OptionsFile {
    /// The contraction policy that it records.
    Policy(bool),
    /// Its contents are malformed, for this reason.
    Malformed(String),
    /// There is no such file.
    NotFound,
    /// It could not be read, for this reason.
    Failed(String),
}

/// What is known of the sidecar files of an artifact.
#[derive(Debug)]
pub struct Sidecars {
    /// The target file.
    pub target: FileText,
    /// Whether there is an options file, or why that is unknown.
    pub options_exist: Result<bool, String>,
    /// The options file.
    pub options: OptionsFile,
}

/// The path of the target file of an artifact.
pub open spec fn target_path(artifact: Seq<char>) -> Seq<char> {
    with_extension_of(artifact, "target"@)
}

/// The path of the options file of an artifact.
pub open spec fn options_path(artifact: Seq<char>) -> Seq<char> {
    with_extension_of(artifact, "options"@)
}

/// The path of the target file of an artifact.
pub fn emitted_target_path(artifact: &str) -> (r: String)
    ensures
        r@ == target_path(artifact@),
{
    with_extension(artifact, "target")
}

/// The path of the options file of an artifact.
pub fn emitted_compile_options_path(artifact: &str) -> (r: String)
    ensures
        r@ == options_path(artifact@),
{
    with_extension(artifact, "options")
}

/// An error with its texts viewed.
pub open spec fn viewed<T>(r: Result<T, LtoirError>) -> Result<T, LtoirErrorView> {
    match r {
        Ok(value) => Ok(value),
        Err(error) => Err(error@),
    }
}

/// The contraction policy of an artifact. Without an options file contraction is
/// allowed.
pub open spec fn fma_contraction(artifact: Seq<char>, options: OptionsFile) -> Result<
    bool,
    LtoirErrorView,
> {
    match options {
        OptionsFile::Policy(allow) => Ok(allow),
        OptionsFile::Malformed(value) => Err(
            LtoirErrorView::InvalidCompileOptions { path: options_path(artifact), value: value@ },
        ),
        OptionsFile::NotFound => Ok(true),
        OptionsFile::Failed(source) => Err(
            LtoirErrorView::Io { path: options_path(artifact), source: source@ },
        ),
    }
}

/// The contraction policy of an artifact.
pub fn read_fma_contraction_option(artifact: &str, options: &OptionsFile) -> (r: Result<
    bool,
    LtoirError,
>)
    ensures
        viewed(r) == fma_contraction(artifact@, *options),
{
    match options {
        OptionsFile::Policy(allow) => Ok(*allow),
        OptionsFile::Malformed(value) => Err(
            LtoirError::InvalidCompileOptions {
                path: emitted_compile_options_path(artifact),
                value: value.clone(),
            },
        ),
        OptionsFile::NotFound => Ok(true),
        OptionsFile::Failed(source) => Err(
            LtoirError::Io {
                path: emitted_compile_options_path(artifact),
                source: source.clone(),
            },
        ),
    }
}

/// The requirement that a marked target file puts on the options file: it has to
/// be there and well formed.
pub open spec fn required_options(artifact: Seq<char>, sidecars: Sidecars) -> Result<
    bool,
    LtoirErrorView,
> {
    match sidecars.options_exist {
        Err(source) => Err(
            LtoirErrorView::Io { path: options_path(artifact), source: source@ },
        ),
        Ok(false) => Err(
            LtoirErrorView::InvalidCompileOptions {
                path: options_path(artifact),
                value: "required sidecar is missing"@,
            },
        ),
        Ok(true) => fma_contraction(artifact, sidecars.options),
    }
}

/// The first line of a text, or nothing.
pub open spec fn first_line(text: Seq<char>) -> Seq<char> {
    if lines(text).len() > 0 {
        lines(text)[0]
    } else {
        seq![]
    }
}

/// The target that a target file of these contents records.
pub open spec fn recorded_target(
    artifact: Seq<char>,
    text: Seq<char>,
    sidecars: Sidecars,
    marker: Seq<char>,
) -> Result<Option<CudaArch>, LtoirErrorView> {
    let all = lines(text);
    match parsed_arch(first_line(text)) {
        None => Err(LtoirErrorView::InvalidTarget(first_line(text))),
        Some(arch) => if all.len() <= 1 {
            Ok(Some(arch))
        } else if all.len() == 2 && all[1] == marker {
            match required_options(artifact, sidecars) {
                Ok(_) => Ok(Some(arch)),
                Err(error) => Err(error),
            }
        } else {
            Err(
                LtoirErrorView::InvalidCompileOptions {
                    path: target_path(artifact),
                    value: trimmed(text),
                },
            )
        },
    }
}

/// The target that the sidecar files of an artifact record.
pub open spec fn emitted_target(
    artifact: Seq<char>,
    sidecars: Sidecars,
    marker: Seq<char>,
) -> Result<Option<CudaArch>, LtoirErrorView> {
    match sidecars.target {
        FileText::Contents(text) => recorded_target(artifact, text@, sidecars, marker),
        FileText::NotFound => Ok(None),
        FileText::Failed(source) => Err(
            LtoirErrorView::Io { path: target_path(artifact), source: source@ },
        ),
    }
}

/// The target that the sidecar files of an artifact record, where they record one.
pub fn read_emitted_target(artifact: &str, sidecars: &Sidecars, marker: &str) -> (r: Result<
    Option<CudaArch>,
    LtoirError,
>)
    ensures
        viewed(r) == emitted_target(artifact@, *sidecars, marker@),
{
    let text = match &sidecars.target {
        FileText::Contents(text) => text,
        FileText::NotFound => {
            return Ok(None);
        },
        FileText::Failed(source) => {
            return Err(
                LtoirError::Io { path: emitted_target_path(artifact), source: source.clone() },
            );
        },
    };
    let all = split_lines(text.as_str());
    let first: String = if all.len() > 0 {
        all[0].clone()
    } else {
        String::new()
    };
    assert(first@ =~= first_line(text@));
    let arch = match CudaArch::parse(first.as_str()) {
        Ok(arch) => arch,
        Err(error) => {
            return Err(LtoirError::InvalidTarget(error));
        },
    };
    if all.len() <= 1 {
        return Ok(Some(arch));
    }
    if all.len() == 2 && str_eq(all[1].as_str(), marker) {
        match &sidecars.options_exist {
            Err(source) => {
                return Err(
                    LtoirError::Io {
                        path: emitted_compile_options_path(artifact),
                        source: source.clone(),
                    },
                );
            },
            Ok(exists) => {
                if !*exists {
                    return Err(
                        LtoirError::InvalidCompileOptions {
                            path: emitted_compile_options_path(artifact),
                            value: "required sidecar is missing".to_owned(),
                        },
                    );
                }
            },
        }
        if let Err(error) = read_fma_contraction_option(artifact, &sidecars.options) {
            return Err(error);
        }
        return Ok(Some(arch));
    }
    Err(
        LtoirError::InvalidCompileOptions {
            path: emitted_target_path(artifact),
            value: trim(text.as_str()),
        },
    )
}

/// The target that an artifact is taken to be emitted for: the recorded one, or
/// else the explicit one.
pub open spec fn source_target(recorded: Option<CudaArch>, explicit: Option<Seq<char>>) -> Result<
    CudaArch,
    LtoirErrorView,
> {
    match recorded {
        Some(arch) => Ok(arch),
        None => match explicit {
            None => Err(LtoirErrorView::TargetNotFound),
            Some(text) => match parsed_arch(text) {
                Some(arch) => Ok(arch),
                None => Err(LtoirErrorView::InvalidTarget(text)),
            },
        },
    }
}

/// The target that an artifact is taken to be emitted for. The executing device
/// plays no part in it.
pub fn resolve_source_target(recorded: Option<CudaArch>, explicit: Option<&str>) -> (r: Result<
    CudaArch,
    LtoirError,
>)
    ensures
        viewed(r) == source_target(
            recorded,
            match explicit {
                Some(text) => Some(text@),
                None => None,
            },
        ),
{
    if let Some(arch) = recorded {
        return Ok(arch);
    }
    match explicit {
        None => Err(LtoirError::TargetNotFound),
        Some(text) => match CudaArch::parse(text) {
            Ok(arch) => Ok(arch),
            Err(error) => Err(LtoirError::InvalidTarget(error)),
        },
    }
}

/// The explicit source target, in its real spelling.
pub fn target_arch(explicit: Option<&str>) -> (r: Result<String, LtoirError>)
    ensures
        match (
            r,
            source_target(
                None,
                match explicit {
                    Some(text) => Some(text@),
                    None => None,
                },
            ),
        ) {
            (Ok(text), Ok(arch)) => text@ == arch.sm_text(),
            (Err(error), Err(expected)) => error@ == expected,
            _ => false,
        },
{
    match resolve_source_target(None, explicit) {
        Ok(arch) => Ok(arch.sm()),
        Err(error) => Err(error),
    }
}

/// The target of an artifact from its sidecar files and the explicit target.
pub open spec fn artifact_target(
    artifact: Seq<char>,
    sidecars: Sidecars,
    marker: Seq<char>,
    explicit: Option<Seq<char>>,
) -> Result<CudaArch, LtoirErrorView> {
    match emitted_target(artifact, sidecars, marker) {
        Ok(recorded) => source_target(recorded, explicit),
        Err(error) => Err(error),
    }
}

/// The target of an artifact: the recorded one takes precedence over the explicit
/// one.
pub fn target_arch_for_artifact_with_explicit(
    artifact: &str,
    sidecars: &Sidecars,
    marker: &str,
    explicit: Option<&str>,
) -> (r: Result<CudaArch, LtoirError>)
    ensures
        viewed(r) == artifact_target(
            artifact@,
            *sidecars,
            marker@,
            match explicit {
                Some(text) => Some(text@),
                None => None,
            },
        ),
{
    match read_emitted_target(artifact, sidecars, marker) {
        Ok(recorded) => resolve_source_target(recorded, explicit),
        Err(error) => Err(error),
    }
}

/// The artifact may be compiled for `requested`: it records no target or this one.
pub open spec fn validated_target(
    artifact: Seq<char>,
    sidecars: Sidecars,
    marker: Seq<char>,
    requested: CudaArch,
) -> Result<(), LtoirErrorView> {
    match emitted_target(artifact, sidecars, marker) {
        Err(error) => Err(error),
        Ok(None) => Ok(()),
        Ok(Some(emitted)) => if emitted != requested {
            Err(
                LtoirErrorView::TargetMismatch {
                    ir_path: artifact,
                    emitted: emitted.sm_text(),
                    requested: requested.sm_text(),
                },
            )
        } else {
            Ok(())
        },
    }
}

/// Fails where an artifact records another target than the requested one.
pub fn validate_ir_target_sidecar(
    artifact: &str,
    sidecars: &Sidecars,
    marker: &str,
    requested: &CudaArch,
) -> (r: Result<(), LtoirError>)
    ensures
        viewed(r) == validated_target(artifact@, *sidecars, marker@, *requested),
{
    match read_emitted_target(artifact, sidecars, marker) {
        Err(error) => Err(error),
        Ok(None) => Ok(()),
        Ok(Some(emitted)) => {
            if emitted != *requested {
                Err(
                    LtoirError::TargetMismatch {
                        ir_path: artifact.to_owned(),
                        emitted: emitted.sm(),
                        requested: requested.sm(),
                    },
                )
            } else {
                Ok(())
            }
        },
    }
}

/// What the target file of an artifact for `target` says: with the marker where
/// there is an options file, which then has to be well formed.
pub open spec fn target_file_text(
    artifact: Seq<char>,
    sidecars: Sidecars,
    marker: Seq<char>,
    target: CudaArch,
) -> Result<Seq<char>, LtoirErrorView> {
    match sidecars.options_exist {
        Err(source) => Err(
            LtoirErrorView::Io { path: options_path(artifact), source: source@ },
        ),
        Ok(true) => match fma_contraction(artifact, sidecars.options) {
            Ok(_) => Ok(target.sm_text() + "\n"@ + marker + "\n"@),
            Err(error) => Err(error),
        },
        Ok(false) => Ok(target.sm_text() + "\n"@),
    }
}

/// The text to write to the target file of an artifact for `target`.
pub fn write_artifact_target_sidecar(
    artifact: &str,
    sidecars: &Sidecars,
    marker: &str,
    target: &CudaArch,
) -> (r: Result<String, LtoirError>)
    ensures
        match (r, target_file_text(artifact@, *sidecars, marker@, *target)) {
            (Ok(text), Ok(expected)) => text@ == expected,
            (Err(error), Err(expected)) => error@ == expected,
            _ => false,
        },
{
    let exists: bool = match &sidecars.options_exist {
        Err(source) => {
            return Err(
                LtoirError::Io {
                    path: emitted_compile_options_path(artifact),
                    source: source.clone(),
                },
            );
        },
        Ok(exists) => *exists,
    };
    let mut text = target.sm();
    text.append("\n");
    if exists {
        if let Err(error) = read_fma_contraction_option(artifact, &sidecars.options) {
            return Err(error);
        }
        text.append(marker);
        text.append("\n");
    }
    Ok(text)
}

// ---------------------------------------------------------------------------
// Laws
// ---------------------------------------------------------------------------

/// `s` is one line: it holds no line feed and does not end with a carriage return.
pub open spec fn is_line(s: Seq<char>) -> bool {
    &&& forall|i: int| 0 <= i < s.len() ==> #[trigger] s[i] != '\n'
    &&& s.len() > 0 ==> s.last() != '\r'
}

proof fn lemma_line_ends_at(s: Seq<char>, from: int, at: int)
    requires
        0 <= from <= at < s.len(),
        s[at] == '\n',
        forall|i: int| from <= i < at ==> s[i] != '\n',
    ensures
        crate::text::line_end(s, from) == at,
    decreases at - from,
{
    if from < at {
        lemma_line_ends_at(s, from + 1, at);
    }
}

proof fn lemma_one_line(a: Seq<char>)
    requires
        is_line(a),
    ensures
        lines(a + "\n"@) =~= seq![a],
{
    reveal_strlit("\n");
    let s = a + "\n"@;
    lemma_line_ends_at(s, 0, a.len() as int);
    assert(s.subrange(0, a.len() as int) =~= a);
    assert(lines_from(s, a.len() as int + 1) =~= seq![]);
}

proof fn lemma_two_lines(a: Seq<char>, b: Seq<char>)
    requires
        is_line(a),
        is_line(b),
    ensures
        lines(a + "\n"@ + b + "\n"@) =~= seq![a, b],
{
    reveal_strlit("\n");
    let s = a + "\n"@ + b + "\n"@;
    let first = a.len() as int;
    let second = first + 1 + b.len();
    assert forall|i: int| 0 <= i < first implies s[i] != '\n' by {
        assert(s[i] == a[i]);
    }
    lemma_line_ends_at(s, 0, first);
    assert forall|i: int| first + 1 <= i < second implies s[i] != '\n' by {
        assert(s[i] == b[i - first - 1]);
    }
    lemma_line_ends_at(s, first + 1, second);
    assert(s.subrange(0, first) =~= a);
    assert(s.subrange(first + 1, second) =~= b);
    assert(lines_from(s, second + 1) =~= seq![]);
    assert(lines_from(s, first + 1) =~= seq![b]);
    assert(lines(s) =~= seq![a] + lines_from(s, first + 1));
}

/// The spelling of an architecture is one line.
pub proof fn architectures_are_lines(arch: CudaArch)
    ensures
        is_line(arch.sm_text()),
{
    reveal_strlit("sm_");
    crate::text::lemma_decimal_digits(arch.capability as nat);
    crate::text::lemma_decimal_value(arch.capability as nat);
    let digits = decimal_of(arch);
    let s = arch.sm_text();
    assert forall|i: int| 0 <= i < s.len() implies #[trigger] s[i] != '\n' && s[i] != '\r' by {
        if i >= 3 && i < 3 + digits.len() {
            assert(s[i] == digits[i - 3]);
            assert('0' <= digits[i - 3] <= '9');
        }
    }
    assert(s.last() == s[s.len() - 1]);
}

spec fn decimal_of(arch: CudaArch) -> Seq<char> {
    crate::text::decimal(arch.capability as nat)
}

/// A target file that was written for an architecture, read back while the options
/// file is as it was, records that architecture.
pub proof fn written_target_is_read_back(
    artifact: Seq<char>,
    before: Sidecars,
    after: Sidecars,
    marker: Seq<char>,
    target: CudaArch,
    text: String,
)
    requires
        is_line(marker),
        target_file_text(artifact, before, marker, target) == Ok::<Seq<char>, LtoirErrorView>(
            text@,
        ),
        after.target == FileText::Contents(text),
        after.options_exist == before.options_exist,
        after.options == before.options,
    ensures
        emitted_target(artifact, after, marker) == Ok::<Option<CudaArch>, LtoirErrorView>(
            Some(target),
        ),
        validated_target(artifact, after, marker, target) is Ok,
{
    crate::cuda_arch::spellings_name_the_architecture(target);
    architectures_are_lines(target);
    if before.options_exist == Ok::<bool, String>(true) {
        lemma_two_lines(target.sm_text(), marker);
    } else {
        lemma_one_line(target.sm_text());
    }
}

/// What the pipeline records beside NVVM IR is read back as the target it was
/// emitted for, where its options file is there and well formed.
pub proof fn pipeline_target_is_read_back(
    artifact: Seq<char>,
    sidecars: Sidecars,
    marker: Seq<char>,
    target: Seq<char>,
    text: String,
)
    requires
        is_line(marker),
        is_line(target),
        parsed_arch(target) is Some,
        text@ == crate::pipeline::target_sidecar(target, marker),
        sidecars.target == FileText::Contents(text),
        sidecars.options_exist == Ok::<bool, String>(true),
        sidecars.options is Policy,
    ensures
        emitted_target(artifact, sidecars, marker) == Ok::<Option<CudaArch>, LtoirErrorView>(
            parsed_arch(target),
        ),
{
    lemma_two_lines(target, marker);
}

/// A recorded target is never overridden by an explicit one.
pub proof fn recorded_target_takes_precedence(
    artifact: Seq<char>,
    sidecars: Sidecars,
    marker: Seq<char>,
    explicit: Option<Seq<char>>,
    arch: CudaArch,
)
    requires
        emitted_target(artifact, sidecars, marker) == Ok::<Option<CudaArch>, LtoirErrorView>(
            Some(arch),
        ),
    ensures
        artifact_target(artifact, sidecars, marker, explicit) == Ok::<CudaArch, LtoirErrorView>(
            arch,
        ),
{
}

/// A marked target file without a well-formed options file is refused.
pub proof fn marked_targets_require_options(
    artifact: Seq<char>,
    sidecars: Sidecars,
    marker: Seq<char>,
    text: String,
)
    requires
        sidecars.target == FileText::Contents(text),
        lines(text@).len() == 2,
        emitted_target(artifact, sidecars, marker) is Ok,
    ensures
        sidecars.options_exist == Ok::<bool, String>(true),
        sidecars.options is Policy || sidecars.options is NotFound,
{
}

}
