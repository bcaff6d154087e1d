//! Keys of the native cubin cache.
//!
//! A key is the ordered list of everything that decides what a build produces.
//! The cache stores an entry under a digest of the list; two builds share an entry
//! exactly when their lists are equal.

use crate::cache_result::changed_tool_text;
use crate::cache_result::report_changed_tool;
use crate::cuda_arch::spellings_are_distinct;
use crate::cuda_arch::CudaArch;
use crate::text::copy_bytes;
use crate::text::opt_text;
use vstd::prelude::*;
use vstd::utf8::encode_utf8;

verus! {

broadcast use {
    vstd::string::group_string_axioms,
    vstd::utf8::encode_utf8_decode_utf8,
    vstd::utf8::encode_utf8_valid_utf8,
};

/// One labelled input of a build.
#[derive(Debug, PartialEq, Eq)]
pub struct KeyField {
    /// The label.
    pub label: String,
    /// The bytes.
    pub value: Vec<u8>,
}

/// The key of a cache entry.
#[derive(Debug, PartialEq, Eq)]
pub struct CacheKey {
    /// The inputs in order.
    pub fields: Vec<KeyField>,
}

/// What [`KeyField`] holds.
pub struct FieldView {
    /// The label.
    pub label: Seq<char>,
    /// The bytes.
    pub value: Seq<u8>,
}

impl View for KeyField {
    type V = FieldView;

    open spec fn view(&self) -> FieldView {
        FieldView { label: self.label@, value: self.value@ }
    }
}

impl View for CacheKey {
    type V = Seq<FieldView>;

    open spec fn view(&self) -> Seq<FieldView> {
        self.fields@.map_values(|f: KeyField| f@)
    }
}

/// The recipe of the builds. It changes whenever something decides what a build
/// produces that is not listed in its key.
pub const CACHE_RECIPE: &'static str = "cuda-host/native-ltoir-cubin/v2";

/// A field whose bytes are a text.
pub open spec fn text_field(label: Seq<char>, value: Seq<char>) -> FieldView {
    FieldView { label, value: encode_utf8(value) }
}

/// A field of raw bytes.
pub open spec fn byte_field(label: Seq<char>, value: Seq<u8>) -> FieldView {
    FieldView { label, value }
}

/// The option for a contraction policy.
pub open spec fn fma_option(allow: bool) -> Seq<char> {
    if allow {
        "-fma=1"@
    } else {
        "-fma=0"@
    }
}

/// The option for a target.
pub open spec fn arch_option(target: Seq<char>) -> Seq<char> {
    "-arch="@ + target
}

/// Everything that decides what the build of a cubin from NVVM IR produces.
pub struct NvvmInputs {
    /// The NVVM IR.
    pub nvvm_ir: Seq<u8>,
    /// Name of the NVVM module.
    pub nvvm_module_name: Seq<char>,
    /// Name of the LTOIR module.
    pub ltoir_module_name: Seq<char>,
    /// The target.
    pub arch: CudaArch,
    /// The libdevice bitcode.
    pub libdevice: Seq<u8>,
    /// Digest of the loaded libNVVM.
    pub libnvvm_digest: Seq<u8>,
    /// Digest of the loaded nvJitLink.
    pub nvjitlink_digest: Seq<u8>,
    /// Whether contraction is allowed.
    pub allow_fma_contraction: bool,
}

/// Everything that decides what the build of a cubin from LTOIR produces.
pub struct LtoirInputs {
    /// The LTOIR.
    pub ltoir: Seq<u8>,
    /// Name of the module.
    pub module_name: Seq<char>,
    /// The target.
    pub arch: CudaArch,
    /// Digest of the loaded nvJitLink.
    pub nvjitlink_digest: Seq<u8>,
    /// Whether contraction is allowed.
    pub allow_fma_contraction: bool,
}

/// The key of a build from NVVM IR.
pub open spec fn nvvm_key(i: NvvmInputs) -> Seq<FieldView> {
    let nvvm_arch = arch_option(i.arch.compute_text());
    let linker_arch = arch_option(i.arch.sm_text());
    seq![
        text_field("recipe"@, "cuda-host/native-ltoir-cubin/v2"@),
        text_field("route"@, "nvvm-ir-to-native-cubin"@),
        text_field("output"@, "elf-cubin"@),
        byte_field("nvvm-ir"@, i.nvvm_ir),
        text_field("nvvm-module-name"@, i.nvvm_module_name),
        byte_field("libdevice"@, i.libdevice),
        text_field("libdevice-module-name"@, "libdevice.10.bc"@),
        text_field("module-order"@, "libdevice,nvvm-ir"@),
        text_field("nvvm-verify-option"@, nvvm_arch),
        text_field("nvvm-compile-option"@, nvvm_arch),
        text_field("nvvm-compile-option"@, "-gen-lto"@),
        text_field("nvvm-fma-policy"@, fma_option(i.allow_fma_contraction)),
        text_field("nvjitlink-input-kind"@, "ltoir"@),
        text_field("nvjitlink-module-name"@, i.ltoir_module_name),
        text_field("nvjitlink-option"@, linker_arch),
        text_field("nvjitlink-option"@, "-lto"@),
        text_field("nvjitlink-option"@, "-O3"@),
        text_field("nvjitlink-fma-policy"@, fma_option(i.allow_fma_contraction)),
        byte_field("libnvvm-sha256"@, i.libnvvm_digest),
        byte_field("libnvjitlink-sha256"@, i.nvjitlink_digest),
    ]
}

/// The key of a build from LTOIR.
pub open spec fn ltoir_key(i: LtoirInputs) -> Seq<FieldView> {
    seq![
        text_field("recipe"@, "cuda-host/native-ltoir-cubin/v2"@),
        text_field("route"@, "standalone-ltoir-to-native-cubin"@),
        text_field("output"@, "elf-cubin"@),
        byte_field("ltoir"@, i.ltoir),
        text_field("nvjitlink-input-kind"@, "ltoir"@),
        text_field("nvjitlink-module-name"@, i.module_name),
        text_field("nvjitlink-option"@, arch_option(i.arch.sm_text())),
        text_field("nvjitlink-option"@, "-lto"@),
        text_field("nvjitlink-option"@, "-O3"@),
        text_field("nvjitlink-fma-policy"@, fma_option(i.allow_fma_contraction)),
        byte_field("libnvjitlink-sha256"@, i.nvjitlink_digest),
    ]
}

fn push_bytes(key: &mut CacheKey, label: &str, value: &[u8])
    ensures
        final(key)@ == old(key)@.push(byte_field(label@, value@)),
{
    key.fields.push(KeyField { label: label.to_owned(), value: copy_bytes(value) });
    assert(key@ =~= old(key)@.push(byte_field(label@, value@)));
}

fn push_text(key: &mut CacheKey, label: &str, value: &str)
    ensures
        final(key)@ == old(key)@.push(text_field(label@, value@)),
{
    push_bytes(key, label, value.as_bytes());
}

/// The option for a contraction policy.
pub fn fma_option_text(allow: bool) -> (r: &'static str)
    ensures
        r@ == fma_option(allow),
{
    if allow {
        "-fma=1"
    } else {
        "-fma=0"
    }
}

/// The option for a target.
pub fn arch_option_text(target: &str) -> (r: String)
    ensures
        r@ == arch_option(target@),
{
    let mut r = "-arch=".to_owned();
    r.append(target);
    r
}

/// The key of a build of a cubin from NVVM IR.
pub fn nvvm_ir_cubin_cache_key_with_options(
    nvvm_ir: &[u8],
    nvvm_module_name: &str,
    ltoir_module_name: &str,
    arch: &CudaArch,
    libdevice: &[u8],
    tool_digests: (&[u8; 32], &[u8; 32]),
    allow_fma_contraction: bool,
) -> (key: CacheKey)
    ensures
        key@ == nvvm_key(
            NvvmInputs {
                nvvm_ir: nvvm_ir@,
                nvvm_module_name: nvvm_module_name@,
                ltoir_module_name: ltoir_module_name@,
                arch: *arch,
                libdevice: libdevice@,
                libnvvm_digest: tool_digests.0@,
                nvjitlink_digest: tool_digests.1@,
                allow_fma_contraction,
            },
        ),
{
    let nvvm_arch = arch_option_text(arch.compute().as_str());
    let linker_arch = arch_option_text(arch.sm().as_str());
    let fma = fma_option_text(allow_fma_contraction);
    let mut key = CacheKey { fields: Vec::new() };
    push_text(&mut key, "recipe", CACHE_RECIPE);
    push_text(&mut key, "route", "nvvm-ir-to-native-cubin");
    push_text(&mut key, "output", "elf-cubin");
    push_bytes(&mut key, "nvvm-ir", nvvm_ir);
    push_text(&mut key, "nvvm-module-name", nvvm_module_name);
    push_bytes(&mut key, "libdevice", libdevice);
    push_text(&mut key, "libdevice-module-name", "libdevice.10.bc");
    push_text(&mut key, "module-order", "libdevice,nvvm-ir");
    push_text(&mut key, "nvvm-verify-option", nvvm_arch.as_str());
    push_text(&mut key, "nvvm-compile-option", nvvm_arch.as_str());
    push_text(&mut key, "nvvm-compile-option", "-gen-lto");
    push_text(&mut key, "nvvm-fma-policy", fma);
    push_text(&mut key, "nvjitlink-input-kind", "ltoir");
    push_text(&mut key, "nvjitlink-module-name", ltoir_module_name);
    push_text(&mut key, "nvjitlink-option", linker_arch.as_str());
    push_text(&mut key, "nvjitlink-option", "-lto");
    push_text(&mut key, "nvjitlink-option", "-O3");
    push_text(&mut key, "nvjitlink-fma-policy", fma);
    push_bytes(&mut key, "libnvvm-sha256", tool_digests.0.as_slice());
    push_bytes(&mut key, "libnvjitlink-sha256", tool_digests.1.as_slice());
    proof {
        let inputs = NvvmInputs {
            nvvm_ir: nvvm_ir@,
            nvvm_module_name: nvvm_module_name@,
            ltoir_module_name: ltoir_module_name@,
            arch: *arch,
            libdevice: libdevice@,
            libnvvm_digest: tool_digests.0@,
            nvjitlink_digest: tool_digests.1@,
            allow_fma_contraction,
        };
        assert(key@ =~= nvvm_key(inputs));
    }
    key
}

/// The key of a build of a cubin from LTOIR.
pub fn ltoir_cubin_cache_key_with_options(
    ltoir: &[u8],
    module_name: &str,
    arch: &CudaArch,
    nvjitlink_digest: &[u8; 32],
    allow_fma_contraction: bool,
) -> (key: CacheKey)
    ensures
        key@ == ltoir_key(
            LtoirInputs {
                ltoir: ltoir@,
                module_name: module_name@,
                arch: *arch,
                nvjitlink_digest: nvjitlink_digest@,
                allow_fma_contraction,
            },
        ),
{
    let linker_arch = arch_option_text(arch.sm().as_str());
    let mut key = CacheKey { fields: Vec::new() };
    push_text(&mut key, "recipe", CACHE_RECIPE);
    push_text(&mut key, "route", "standalone-ltoir-to-native-cubin");
    push_text(&mut key, "output", "elf-cubin");
    push_bytes(&mut key, "ltoir", ltoir);
    push_text(&mut key, "nvjitlink-input-kind", "ltoir");
    push_text(&mut key, "nvjitlink-module-name", module_name);
    push_text(&mut key, "nvjitlink-option", linker_arch.as_str());
    push_text(&mut key, "nvjitlink-option", "-lto");
    push_text(&mut key, "nvjitlink-option", "-O3");
    push_text(&mut key, "nvjitlink-fma-policy", fma_option_text(allow_fma_contraction));
    push_bytes(&mut key, "libnvjitlink-sha256", nvjitlink_digest.as_slice());
    proof {
        let inputs = LtoirInputs {
            ltoir: ltoir@,
            module_name: module_name@,
            arch: *arch,
            nvjitlink_digest: nvjitlink_digest@,
            allow_fma_contraction,
        };
        assert(key@ =~= ltoir_key(inputs));
    }
    key
}

/// The key of a build from NVVM IR, or none where a tool cannot be identified.
pub fn identified_nvvm_key(
    nvvm_ir: &[u8],
    nvvm_module_name: &str,
    ltoir_module_name: &str,
    arch: &CudaArch,
    libdevice: &[u8],
    tool_digests: (&Option<[u8; 32]>, &Option<[u8; 32]>),
    allow_fma_contraction: bool,
) -> (r: Option<CacheKey>)
    ensures
        r is Some <==> *tool_digests.0 is Some && *tool_digests.1 is Some,
        r matches Some(key) ==> key@ == nvvm_key(
            NvvmInputs {
                nvvm_ir: nvvm_ir@,
                nvvm_module_name: nvvm_module_name@,
                ltoir_module_name: ltoir_module_name@,
                arch: *arch,
                libdevice: libdevice@,
                libnvvm_digest: tool_digests.0->0@,
                nvjitlink_digest: tool_digests.1->0@,
                allow_fma_contraction,
            },
        ),
{
    match (tool_digests.0, tool_digests.1) {
        (Some(nvvm), Some(nvjitlink)) => Some(
            nvvm_ir_cubin_cache_key_with_options(
                nvvm_ir,
                nvvm_module_name,
                ltoir_module_name,
                arch,
                libdevice,
                (nvvm, nvjitlink),
                allow_fma_contraction,
            ),
        ),
        _ => None,
    }
}

/// The key of a build from LTOIR, or none where the linker cannot be identified.
pub fn identified_ltoir_key(
    ltoir: &[u8],
    module_name: &str,
    arch: &CudaArch,
    nvjitlink_digest: &Option<[u8; 32]>,
    allow_fma_contraction: bool,
) -> (r: Option<CacheKey>)
    ensures
        r is Some <==> *nvjitlink_digest is Some,
        r matches Some(key) ==> key@ == ltoir_key(
            LtoirInputs {
                ltoir: ltoir@,
                module_name: module_name@,
                arch: *arch,
                nvjitlink_digest: nvjitlink_digest->0@,
                allow_fma_contraction,
            },
        ),
{
    match nvjitlink_digest {
        Some(digest) => Some(
            ltoir_cubin_cache_key_with_options(
                ltoir,
                module_name,
                arch,
                digest,
                allow_fma_contraction,
            ),
        ),
        None => None,
    }
}

/// What is known of the file that a tool was loaded from.
#[derive(Debug)]
pub enum ToolFile {
    /// Not which file it is.
    Unknown,
    /// Its contents could not be digested, for this reason.
    Unreadable(String),
    /// The digest of its contents.
    Digest([u8; 32]),
}

/// The digest of a loaded tool: it counts only where the loaded file is known, could be
/// digested and was still unchanged after that.
pub open spec fn counted_digest(file: ToolFile, unchanged_after: bool) -> Option<[u8; 32]> {
    match file {
        ToolFile::Digest(digest) if unchanged_after => Some(digest),
        _ => None,
    }
}

/// Why a tool has no digest.
pub open spec fn digest_report(label: Seq<char>, file: ToolFile, unchanged_after: bool) -> Option<
    Seq<char>,
> {
    match file {
        ToolFile::Unknown => Some(
            "cuda-oxide: "@ + label
                + " has no exact loaded-file identity; bypassing the cubin cache"@,
        ),
        ToolFile::Unreadable(reason) => Some(
            "cuda-oxide: could not fingerprint the loaded "@ + label + " file ("@ + reason@
                + "); bypassing the cubin cache"@,
        ),
        ToolFile::Digest(_) => if unchanged_after {
            None
        } else {
            Some(changed_tool_text(label))
        },
    }
}

/// The digest of a loaded tool, and why it has none, where that is to be told.
pub fn loaded_tool_digest(
    label: &str,
    file: &ToolFile,
    unchanged_after: bool,
    verbose: bool,
) -> (r: (Option<[u8; 32]>, Option<String>))
    ensures
        r.0 == counted_digest(*file, unchanged_after),
        opt_text(r.1) == (if verbose {
            digest_report(label@, *file, unchanged_after)
        } else {
            None
        }),
{
    match file {
        ToolFile::Unknown => {
            if !verbose {
                return (None, None);
            }
            let mut line = "cuda-oxide: ".to_owned();
            line.append(label);
            line.append(" has no exact loaded-file identity; bypassing the cubin cache");
            (None, Some(line))
        },
        ToolFile::Unreadable(reason) => {
            if !verbose {
                return (None, None);
            }
            let mut line = "cuda-oxide: could not fingerprint the loaded ".to_owned();
            line.append(label);
            line.append(" file (");
            line.append(reason.as_str());
            line.append("); bypassing the cubin cache");
            (None, Some(line))
        },
        ToolFile::Digest(digest) => {
            if unchanged_after {
                (Some(*digest), None)
            } else {
                (None, report_changed_tool(label, verbose))
            }
        },
    }
}

// ---------------------------------------------------------------------------
// Laws
// ---------------------------------------------------------------------------

proof fn lemma_text_value(a: Seq<char>, b: Seq<char>)
    requires
        encode_utf8(a) == encode_utf8(b),
    ensures
        a == b,
{
    assert(vstd::utf8::decode_utf8(encode_utf8(a)) == a);
    assert(vstd::utf8::decode_utf8(encode_utf8(b)) == b);
}

proof fn lemma_arch_option(a: CudaArch, b: CudaArch)
    requires
        arch_option(a.sm_text()) == arch_option(b.sm_text()),
    ensures
        a == b,
{
    let head = "-arch="@;
    assert(arch_option(a.sm_text()).skip(head.len() as int) =~= a.sm_text());
    assert(arch_option(b.sm_text()).skip(head.len() as int) =~= b.sm_text());
    spellings_are_distinct(a, b);
}

proof fn lemma_fma_option(a: bool, b: bool)
    requires
        fma_option(a) == fma_option(b),
    ensures
        a == b,
{
    reveal_strlit("-fma=1");
    reveal_strlit("-fma=0");
    assert("-fma=1"@[5] == '1');
    assert("-fma=0"@[5] == '0');
}

/// Two builds from NVVM IR share a key only where every input is the same.
pub proof fn nvvm_key_tracks_every_input(a: NvvmInputs, b: NvvmInputs)
    requires
        nvvm_key(a) == nvvm_key(b),
    ensures
        a == b,
{
    let (ka, kb) = (nvvm_key(a), nvvm_key(b));
    assert(ka[3].value == kb[3].value);
    assert(ka[4].value == kb[4].value);
    assert(ka[5].value == kb[5].value);
    assert(ka[11].value == kb[11].value);
    assert(ka[13].value == kb[13].value);
    assert(ka[14].value == kb[14].value);
    assert(ka[18].value == kb[18].value);
    assert(ka[19].value == kb[19].value);
    lemma_text_value(a.nvvm_module_name, b.nvvm_module_name);
    lemma_text_value(a.ltoir_module_name, b.ltoir_module_name);
    lemma_text_value(
        fma_option(a.allow_fma_contraction),
        fma_option(b.allow_fma_contraction),
    );
    lemma_fma_option(a.allow_fma_contraction, b.allow_fma_contraction);
    lemma_text_value(arch_option(a.arch.sm_text()), arch_option(b.arch.sm_text()));
    lemma_arch_option(a.arch, b.arch);
}

/// Two builds from LTOIR share a key only where every input is the same.
pub proof fn ltoir_key_tracks_every_input(a: LtoirInputs, b: LtoirInputs)
    requires
        ltoir_key(a) == ltoir_key(b),
    ensures
        a == b,
{
    let (ka, kb) = (ltoir_key(a), ltoir_key(b));
    assert(ka[3].value == kb[3].value);
    assert(ka[5].value == kb[5].value);
    assert(ka[6].value == kb[6].value);
    assert(ka[9].value == kb[9].value);
    assert(ka[10].value == kb[10].value);
    lemma_text_value(a.module_name, b.module_name);
    lemma_text_value(arch_option(a.arch.sm_text()), arch_option(b.arch.sm_text()));
    lemma_arch_option(a.arch, b.arch);
    lemma_text_value(
        fma_option(a.allow_fma_contraction),
        fma_option(b.allow_fma_contraction),
    );
    lemma_fma_option(a.allow_fma_contraction, b.allow_fma_contraction);
}

/// A build from NVVM IR and a build from LTOIR never share a key.
pub proof fn routes_never_share_a_key(a: NvvmInputs, b: LtoirInputs)
    ensures
        nvvm_key(a) != ltoir_key(b),
{
    assert(nvvm_key(a).len() != ltoir_key(b).len());
}

}
