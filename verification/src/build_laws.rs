//! What builds are planned, how they are told apart, and where their files lie.

use crate::cache_key::identified_ltoir_key;
use crate::cache_key::identified_nvvm_key;
use crate::cache_key::loaded_tool_digest;
use crate::cache_key::ltoir_cubin_cache_key_with_options;
use crate::cache_key::nvvm_ir_cubin_cache_key_with_options;
use crate::cache_key::CacheKey;
use crate::cache_key::ToolFile;
use crate::cache_result::report_cache_result;
use crate::cache_result::CacheResult;
use crate::cuda_arch::CudaArch;
use crate::libdevice::find_libdevice;
use crate::libdevice::libdevice_candidates;
use crate::libdevice::ToolkitEnv;
use crate::load_laws::spelling;
use crate::ltoir::build_cubin_from_ll_file;
use crate::ltoir::build_cubin_from_nvvm_ir;
use crate::ltoir::build_cubin_from_nvvm_ir_with_options;
use crate::ltoir::build_ptx_from_nvvm_ir;
use crate::ltoir::build_ptx_from_nvvm_ir_with_options;
use crate::ltoir::link_ltoir_to_cubin;
use crate::ltoir::link_ltoir_to_cubin_with_options;
use crate::ltoir::link_ltoir_to_ptx;
use crate::ltoir::link_ltoir_to_ptx_with_options;
use crate::ltoir::BuildOutput;
use crate::ltoir::BuildPlan;
use crate::ltoir::BuildSource;
use crate::ltoir::FileBuildPlan;
use crate::ltoir_error::LtoirError;
use crate::paths::component_start;
use crate::paths::file_name;
use crate::paths::file_stem;
use crate::paths::last_component_end;
use crate::paths::parent;
use crate::paths::stem_end;
use crate::paths::with_extension;
use crate::pipeline_laws::leads_to;
use crate::pipeline_laws::lemma_leads_to;
use crate::sidecar::emitted_compile_options_path;
use crate::sidecar::emitted_target_path;
use crate::sidecar::Sidecars;
use crate::text::texts;
use vstd::prelude::*;

verus! {

broadcast use vstd::string::group_string_axioms;

// ---------------------------------------------------------------------------
// Plans
// ---------------------------------------------------------------------------

/// `r` is the uncached plan of a build of exactly this input for the architecture that
/// `text` spells, or it fails where that spells none.
pub open spec fn plans_exactly(
    r: Result<BuildPlan, LtoirError>,
    source: BuildSource,
    output: BuildOutput,
    input: Seq<u8>,
    module: Seq<char>,
    text: Seq<char>,
    allow: bool,
) -> bool {
    &&& r is Err ==> r->Err_0 is InvalidTarget
    &&& forall|arch: CudaArch|
        #![trigger spelling("sm_"@, arch)]
        text == spelling("sm_"@, arch) ==> (r matches Ok(plan) && plan.arch == arch)
    &&& r matches Ok(plan) ==> {
        &&& plan.source == source
        &&& plan.output == output
        &&& plan.input@ == input
        &&& plan.nvvm_module_name@ == module
        &&& source == BuildSource::Ltoir ==> plan.ltoir_module_name@ == module
        &&& source == BuildSource::NvvmIr ==> plan.ltoir_module_name@ == module + ".ltoir"@
        &&& plan.allow_fma_contraction == allow
        &&& !plan.cached
    }
}

proof fn lemma_planned(
    r: Result<BuildPlan, LtoirError>,
    source: BuildSource,
    output: BuildOutput,
    input: Seq<u8>,
    module: Seq<char>,
    text: Seq<char>,
    allow: bool,
)
    requires
        crate::ltoir::planned(r, source, output, input, module, text, allow),
    ensures
        plans_exactly(r, source, output, input, module, text, allow),
{
    assert forall|arch: CudaArch|
        #![trigger spelling("sm_"@, arch)]
        text == spelling("sm_"@, arch) implies (r matches Ok(plan) && plan.arch == arch) by {
        assert(arch.sm_text() =~= spelling("sm_"@, arch));
        crate::cuda_arch::spellings_name_the_architecture(arch);
    }
}

/// The planners differ only in what they start from, what they produce and whether the
/// contraction policy is given or contraction is allowed.
pub proof fn planners_plan_what_their_names_say(
    input: &[u8],
    module: &str,
    arch: &str,
    allow: bool,
    r: Result<BuildPlan, LtoirError>,
)
    ensures
        call_ensures(build_cubin_from_nvvm_ir_with_options, (input, module, arch, allow), r)
            ==> plans_exactly(
            r,
            BuildSource::NvvmIr,
            BuildOutput::Cubin,
            input@,
            module@,
            arch@,
            allow,
        ),
        call_ensures(build_ptx_from_nvvm_ir_with_options, (input, module, arch, allow), r)
            ==> plans_exactly(
            r,
            BuildSource::NvvmIr,
            BuildOutput::Ptx,
            input@,
            module@,
            arch@,
            allow,
        ),
        call_ensures(link_ltoir_to_cubin_with_options, (input, module, arch, allow), r)
            ==> plans_exactly(
            r,
            BuildSource::Ltoir,
            BuildOutput::Cubin,
            input@,
            module@,
            arch@,
            allow,
        ),
        call_ensures(link_ltoir_to_ptx_with_options, (input, module, arch, allow), r)
            ==> plans_exactly(
            r,
            BuildSource::Ltoir,
            BuildOutput::Ptx,
            input@,
            module@,
            arch@,
            allow,
        ),
        call_ensures(build_cubin_from_nvvm_ir, (input, module, arch), r) ==> plans_exactly(
            r,
            BuildSource::NvvmIr,
            BuildOutput::Cubin,
            input@,
            module@,
            arch@,
            true,
        ),
        call_ensures(build_ptx_from_nvvm_ir, (input, module, arch), r) ==> plans_exactly(
            r,
            BuildSource::NvvmIr,
            BuildOutput::Ptx,
            input@,
            module@,
            arch@,
            true,
        ),
        call_ensures(link_ltoir_to_cubin, (input, module, arch), r) ==> plans_exactly(
            r,
            BuildSource::Ltoir,
            BuildOutput::Cubin,
            input@,
            module@,
            arch@,
            true,
        ),
        call_ensures(link_ltoir_to_ptx, (input, module, arch), r) ==> plans_exactly(
            r,
            BuildSource::Ltoir,
            BuildOutput::Ptx,
            input@,
            module@,
            arch@,
            true,
        ),
{
    let i = input@;
    let m = module@;
    let a = arch@;
    if call_ensures(build_cubin_from_nvvm_ir_with_options, (input, module, arch, allow), r) {
        lemma_planned(r, BuildSource::NvvmIr, BuildOutput::Cubin, i, m, a, allow);
    }
    if call_ensures(build_ptx_from_nvvm_ir_with_options, (input, module, arch, allow), r) {
        lemma_planned(r, BuildSource::NvvmIr, BuildOutput::Ptx, i, m, a, allow);
    }
    if call_ensures(link_ltoir_to_cubin_with_options, (input, module, arch, allow), r) {
        lemma_planned(r, BuildSource::Ltoir, BuildOutput::Cubin, i, m, a, allow);
    }
    if call_ensures(link_ltoir_to_ptx_with_options, (input, module, arch, allow), r) {
        lemma_planned(r, BuildSource::Ltoir, BuildOutput::Ptx, i, m, a, allow);
    }
    if call_ensures(build_cubin_from_nvvm_ir, (input, module, arch), r) {
        lemma_planned(r, BuildSource::NvvmIr, BuildOutput::Cubin, i, m, a, true);
    }
    if call_ensures(build_ptx_from_nvvm_ir, (input, module, arch), r) {
        lemma_planned(r, BuildSource::NvvmIr, BuildOutput::Ptx, i, m, a, true);
    }
    if call_ensures(link_ltoir_to_cubin, (input, module, arch), r) {
        lemma_planned(r, BuildSource::Ltoir, BuildOutput::Cubin, i, m, a, true);
    }
    if call_ensures(link_ltoir_to_ptx, (input, module, arch), r) {
        lemma_planned(r, BuildSource::Ltoir, BuildOutput::Ptx, i, m, a, true);
    }
}

// ---------------------------------------------------------------------------
// Keys
// ---------------------------------------------------------------------------

/// The two keys have the same fields in the same order.
pub open spec fn same_key(a: CacheKey, b: CacheKey) -> bool {
    &&& a.fields@.len() == b.fields@.len()
    &&& forall|i: int|
        0 <= i < a.fields@.len() ==> (#[trigger] a.fields@[i]).label@ == b.fields@[i].label@
            && a.fields@[i].value@ == b.fields@[i].value@
}

proof fn lemma_same_key(a: CacheKey, b: CacheKey)
    requires
        same_key(a, b),
    ensures
        a@ == b@,
{
    assert forall|i: int| 0 <= i < a@.len() implies a@[i] == b@[i] by {
        assert(a.fields@[i].label@ == b.fields@[i].label@);
    }
    assert(a@ =~= b@);
}

/// Two builds from NVVM IR have the same key only where the IR, both module names, the
/// architecture, the libdevice bitcode, both tools and the contraction policy are the same.
pub proof fn nvvm_keys_tell_builds_apart(
    ir: &[u8],
    nvvm_name: &str,
    ltoir_name: &str,
    arch: CudaArch,
    libdevice: &[u8],
    nvvm_digest: [u8; 32],
    link_digest: [u8; 32],
    allow: bool,
    key: CacheKey,
    ir2: &[u8],
    nvvm_name2: &str,
    ltoir_name2: &str,
    arch2: CudaArch,
    libdevice2: &[u8],
    nvvm_digest2: [u8; 32],
    link_digest2: [u8; 32],
    allow2: bool,
    key2: CacheKey,
)
    requires
        call_ensures(
            nvvm_ir_cubin_cache_key_with_options,
            (ir, nvvm_name, ltoir_name, &arch, libdevice, (&nvvm_digest, &link_digest), allow),
            key,
        ),
        call_ensures(
            nvvm_ir_cubin_cache_key_with_options,
            (
                ir2,
                nvvm_name2,
                ltoir_name2,
                &arch2,
                libdevice2,
                (&nvvm_digest2, &link_digest2),
                allow2,
            ),
            key2,
        ),
        same_key(key, key2),
    ensures
        ir@ == ir2@,
        nvvm_name@ == nvvm_name2@,
        ltoir_name@ == ltoir_name2@,
        arch == arch2,
        libdevice@ == libdevice2@,
        nvvm_digest@ == nvvm_digest2@,
        link_digest@ == link_digest2@,
        allow == allow2,
{
    lemma_same_key(key, key2);
    crate::cache_key::nvvm_key_tracks_every_input(
        crate::cache_key::NvvmInputs {
            nvvm_ir: ir@,
            nvvm_module_name: nvvm_name@,
            ltoir_module_name: ltoir_name@,
            arch,
            libdevice: libdevice@,
            libnvvm_digest: nvvm_digest@,
            nvjitlink_digest: link_digest@,
            allow_fma_contraction: allow,
        },
        crate::cache_key::NvvmInputs {
            nvvm_ir: ir2@,
            nvvm_module_name: nvvm_name2@,
            ltoir_module_name: ltoir_name2@,
            arch: arch2,
            libdevice: libdevice2@,
            libnvvm_digest: nvvm_digest2@,
            nvjitlink_digest: link_digest2@,
            allow_fma_contraction: allow2,
        },
    );
}

/// Two builds from LTOIR have the same key only where the LTOIR, the module name, the
/// architecture, the linker and the contraction policy are the same, and no build from NVVM
/// IR has their key.
pub proof fn ltoir_keys_tell_builds_apart(
    ltoir: &[u8],
    name: &str,
    arch: CudaArch,
    digest: [u8; 32],
    allow: bool,
    key: CacheKey,
    ltoir2: &[u8],
    name2: &str,
    arch2: CudaArch,
    digest2: [u8; 32],
    allow2: bool,
    key2: CacheKey,
)
    requires
        call_ensures(
            ltoir_cubin_cache_key_with_options,
            (ltoir, name, &arch, &digest, allow),
            key,
        ),
        call_ensures(
            ltoir_cubin_cache_key_with_options,
            (ltoir2, name2, &arch2, &digest2, allow2),
            key2,
        ),
        same_key(key, key2),
    ensures
        ltoir@ == ltoir2@,
        name@ == name2@,
        arch == arch2,
        digest@ == digest2@,
        allow == allow2,
{
    lemma_same_key(key, key2);
    crate::cache_key::ltoir_key_tracks_every_input(
        crate::cache_key::LtoirInputs {
            ltoir: ltoir@,
            module_name: name@,
            arch,
            nvjitlink_digest: digest@,
            allow_fma_contraction: allow,
        },
        crate::cache_key::LtoirInputs {
            ltoir: ltoir2@,
            module_name: name2@,
            arch: arch2,
            nvjitlink_digest: digest2@,
            allow_fma_contraction: allow2,
        },
    );
}

/// The key of a build from NVVM IR holds the IR, the libdevice bitcode and the digests of
/// the tools as they are.
pub proof fn nvvm_keys_hold_their_inputs(
    ir: &[u8],
    nvvm_name: &str,
    ltoir_name: &str,
    arch: CudaArch,
    libdevice: &[u8],
    nvvm_digest: Option<[u8; 32]>,
    link_digest: Option<[u8; 32]>,
    allow: bool,
    r: Option<CacheKey>,
)
    requires
        call_ensures(
            identified_nvvm_key,
            (ir, nvvm_name, ltoir_name, &arch, libdevice, (&nvvm_digest, &link_digest), allow),
            r,
        ),
    ensures
        r is Some <==> nvvm_digest is Some && link_digest is Some,
        r matches Some(key) ==> {
            &&& holds(key, "nvvm-ir"@, ir@)
            &&& holds(key, "libdevice"@, libdevice@)
            &&& holds(key, "libnvvm-sha256"@, nvvm_digest->0@)
            &&& holds(key, "libnvjitlink-sha256"@, link_digest->0@)
            &&& holds(key, "nvvm-module-name"@, vstd::utf8::encode_utf8(nvvm_name@))
            &&& holds(key, "nvjitlink-module-name"@, vstd::utf8::encode_utf8(ltoir_name@))
        },
{
    if let Some(key) = r {
        assert(key@.len() == key.fields@.len());
        assert(key@[3] == key.fields@[3]@ && key@[4] == key.fields@[4]@ && key@[5]
            == key.fields@[5]@ && key@[13] == key.fields@[13]@ && key@[18] == key.fields@[18]@
            && key@[19] == key.fields@[19]@);
        assert(is_field(key, 3, "nvvm-ir"@, ir@));
        assert(is_field(key, 4, "nvvm-module-name"@, vstd::utf8::encode_utf8(nvvm_name@)));
        assert(is_field(key, 5, "libdevice"@, libdevice@));
        assert(is_field(key, 13, "nvjitlink-module-name"@, vstd::utf8::encode_utf8(ltoir_name@)));
        assert(is_field(key, 18, "libnvvm-sha256"@, nvvm_digest->0@));
        assert(is_field(key, 19, "libnvjitlink-sha256"@, link_digest->0@));
    }
}

/// The field at `i` has this label and this value.
pub open spec fn is_field(key: CacheKey, i: int, label: Seq<char>, value: Seq<u8>) -> bool {
    0 <= i < key.fields@.len() && key.fields@[i].label@ == label && key.fields@[i].value@ == value
}

/// Some field has this label and this value.
pub open spec fn holds(key: CacheKey, label: Seq<char>, value: Seq<u8>) -> bool {
    exists|i: int| #[trigger] is_field(key, i, label, value)
}

/// A build from LTOIR has a key exactly where its linker is identified, and the key holds
/// the LTOIR and the digest of the linker as they are.
pub proof fn ltoir_keys_hold_their_inputs(
    ltoir: &[u8],
    name: &str,
    arch: CudaArch,
    digest: Option<[u8; 32]>,
    allow: bool,
    r: Option<CacheKey>,
)
    requires
        call_ensures(identified_ltoir_key, (ltoir, name, &arch, &digest, allow), r),
    ensures
        r is Some <==> digest is Some,
        r matches Some(key) ==> {
            &&& holds(key, "ltoir"@, ltoir@)
            &&& holds(key, "libnvjitlink-sha256"@, digest->0@)
            &&& holds(key, "nvjitlink-module-name"@, vstd::utf8::encode_utf8(name@))
        },
{
    if let Some(key) = r {
        assert(key@.len() == key.fields@.len());
        assert(key@[3] == key.fields@[3]@ && key@[5] == key.fields@[5]@ && key@[10]
            == key.fields@[10]@);
        assert(is_field(key, 3, "ltoir"@, ltoir@));
        assert(is_field(key, 5, "nvjitlink-module-name"@, vstd::utf8::encode_utf8(name@)));
        assert(is_field(key, 10, "libnvjitlink-sha256"@, digest->0@));
    }
}

/// A tool is identified by the digest of its file exactly where that is known and the file
/// has not changed meanwhile. What prevents it is told only on request, and only then.
pub proof fn tools_are_identified_by_unchanged_files(
    label: &str,
    file: ToolFile,
    unchanged: bool,
    verbose: bool,
    r: (Option<[u8; 32]>, Option<String>),
)
    requires
        call_ensures(loaded_tool_digest, (label, &file, unchanged, verbose), r),
    ensures
        r.0 is Some <==> file is Digest && unchanged,
        r.0 matches Some(digest) ==> file == ToolFile::Digest(digest),
        r.1 is Some <==> verbose && r.0 is None,
{
}

/// A report of a build is given exactly on request, and names the cached cubin, found or
/// made, where there is one.
pub proof fn builds_are_reported_on_request(result: CacheResult, verbose: bool, r: Option<String>)
    requires
        call_ensures(report_cache_result, (&result, verbose), r),
    ensures
        r is Some <==> verbose,
        r matches Some(line) ==> {
            &&& result.immutable_cubin_path is None ==> line@
                == "cuda-oxide: using an uncached cubin"@
            &&& result.immutable_cubin_path matches Some(path) ==> (result.cache_hit ==> line@
                == "cuda-oxide: cubin cache hit: "@ + path@) && (!result.cache_hit ==> line@
                == "cuda-oxide: cached cubin: "@ + path@)
        },
{
}

// ---------------------------------------------------------------------------
// Libdevice
// ---------------------------------------------------------------------------

/// The bitcode is looked for first where the environment names it, then below the toolkit,
/// the home and the path that it names, then below the two usual roots; the first file that
/// is there is taken.
pub proof fn libdevice_is_looked_for_in_order(
    env: ToolkitEnv,
    there: Vec<bool>,
    places: Vec<String>,
    r: Result<String, LtoirError>,
)
    requires
        call_ensures(libdevice_candidates, (&env,), places),
        there@.len() == places@.len(),
        call_ensures(find_libdevice, (&env, &there), r),
    ensures
        ({
            let named: int = if env.libdevice is Some {
                1
            } else {
                0
            };
            let second: int = if env.toolkit_path is Some {
                named + 1
            } else {
                named
            };
            let third: int = if env.home is Some {
                second + 1
            } else {
                second
            };
            let fourth: int = if env.path is Some {
                third + 1
            } else {
                third
            };
            let file = "nvvm/libdevice/libdevice.10.bc"@;
            &&& places@.len() == fourth + 2
            &&& env.libdevice matches Some(path) ==> places@[0]@ == path@
            &&& env.toolkit_path matches Some(root) ==> leads_to(places@[named]@, root@, file)
            &&& env.home matches Some(root) ==> leads_to(places@[second]@, root@, file)
            &&& env.path matches Some(root) ==> leads_to(places@[third]@, root@, file)
            &&& leads_to(places@[fourth]@, "/usr/local/cuda"@, file)
            &&& leads_to(places@[fourth + 1]@, "/opt/cuda"@, file)
        }),
        forall|i: int|
            #![trigger there@[i]]
            0 <= i < there@.len() && there@[i] && (forall|j: int|
                0 <= j < i ==> !#[trigger] there@[j]) ==> (r matches Ok(path) && path@
                == places@[i]@),
        (forall|i: int| 0 <= i < there@.len() ==> !#[trigger] there@[i]) <==> r is Err,
{
    let all = crate::libdevice::candidates(env);
    let file = "nvvm/libdevice/libdevice.10.bc"@;
    lemma_leads_to("/usr/local/cuda"@, file);
    lemma_leads_to("/opt/cuda"@, file);
    if let Some(root) = env.toolkit_path {
        lemma_leads_to(root@, file);
    }
    if let Some(root) = env.home {
        lemma_leads_to(root@, file);
    }
    if let Some(root) = env.path {
        lemma_leads_to(root@, file);
    }
    assert(texts(places@).len() == places@.len());
    assert forall|i: int| 0 <= i < places@.len() implies all[i] == (#[trigger] places@[i])@ by {
        assert(texts(places@)[i] == places@[i]@);
    }
    lemma_found(env, there, r, places@);
}

proof fn lemma_found(
    env: ToolkitEnv,
    there: Vec<bool>,
    r: Result<String, LtoirError>,
    places: Seq<String>,
)
    requires
        crate::libdevice::finds(env, there@, r),
        texts(places) == crate::libdevice::candidates(env),
        there@.len() == places.len(),
    ensures
        forall|i: int|
            #![trigger there@[i]]
            0 <= i < there@.len() && there@[i] && (forall|j: int|
                0 <= j < i ==> !#[trigger] there@[j]) ==> (r matches Ok(path) && path@
                == places[i]@),
        (forall|i: int| 0 <= i < there@.len() ==> !#[trigger] there@[i]) <==> r is Err,
{
    let all = crate::libdevice::candidates(env);
    if let Ok(path) = r {
        let k = choose|k: int|
            {
                &&& 0 <= k < there@.len()
                &&& #[trigger] there@[k]
                &&& forall|j: int| 0 <= j < k ==> !#[trigger] there@[j]
                &&& path@ == all[k]
            };
        assert(there@[k]);
        assert(texts(places)[k] == places[k]@);
        assert forall|i: int|
            #![trigger there@[i]]
            0 <= i < there@.len() && there@[i] && (forall|j: int|
                0 <= j < i ==> !#[trigger] there@[j]) implies path@ == places[i]@ by {
            if i < k {
                assert(!there@[i]);
            }
            if k < i {
                assert(!there@[k]);
            }
        }
    }
}

// ---------------------------------------------------------------------------
// Files beside an artifact
// ---------------------------------------------------------------------------

/// No character of `s` separates components or extensions.
pub open spec fn is_plain(s: Seq<char>) -> bool {
    s.len() > 0 && forall|i: int| 0 <= i < s.len() ==> (#[trigger] s[i]) != '/' && s[i] != '.'
}

/// `path` is the file `stem`, with the extension `ext`, in the directory `dir`.
pub open spec fn is_file(path: Seq<char>, dir: Seq<char>, stem: Seq<char>, ext: Seq<char>) -> bool {
    path == dir.push('/') + stem.push('.') + ext
}

proof fn lemma_component(s: Seq<char>, start: int, end: int)
    requires
        0 < start <= end <= s.len(),
        s[start - 1] == '/',
        forall|i: int| start <= i < end ==> s[i] != '/',
    ensures
        component_start(s, end) == start,
    decreases end - start,
{
    if start < end {
        assert(s[end - 1] != '/');
        lemma_component(s, start, end - 1);
    }
}

proof fn lemma_stem(s: Seq<char>, start: int, end: int, dot: int, at: int)
    requires
        0 <= start,
        start + 1 <= dot < at <= end <= s.len(),
        s[dot] == '.',
        forall|i: int| dot < i < end ==> s[i] != '.',
    ensures
        stem_end(s, start, end, at) == dot,
    decreases at - dot,
{
    if at - 1 > dot {
        assert(s[at - 1] != '.');
        lemma_stem(s, start, end, dot, at - 1);
    }
}

proof fn lemma_parts(path: Seq<char>, dir: Seq<char>, stem: Seq<char>, ext: Seq<char>)
    requires
        is_file(path, dir, stem, ext),
        is_plain(stem),
        is_plain(ext),
    ensures
        last_component_end(path, path.len() as int) == path.len(),
        component_start(path, path.len() as int) == dir.len() + 1,
        stem_end(path, dir.len() as int + 1, path.len() as int, path.len() as int) == dir.len() + 1
            + stem.len(),
        path.take(dir.len() as int + 1 + stem.len() as int) == dir.push('/') + stem,
        path.subrange(dir.len() as int + 1, dir.len() as int + 1 + stem.len() as int) == stem,
        crate::paths::file_name_bounds(path) == Some((dir.len() as int + 1, path.len() as int)),
{
    let start = dir.len() as int + 1;
    let dot = start + stem.len();
    let end = path.len() as int;
    assert(path.len() == dir.len() + 1 + stem.len() + 1 + ext.len());
    assert(path[end - 1] == ext[ext.len() - 1]);
    assert(path[start - 1] == '/');
    assert(path[dot] == '.');
    assert forall|i: int| start <= i < end implies path[i] != '/' by {
        if i < dot {
            assert(path[i] == stem[i - start]);
        } else if i > dot {
            assert(path[i] == ext[i - dot - 1]);
        }
    }
    assert forall|i: int| dot < i < end implies path[i] != '.' by {
        assert(path[i] == ext[i - dot - 1]);
    }
    lemma_component(path, start, end);
    lemma_stem(path, start, end, dot, end);
    assert(path.take(dot) =~= dir.push('/') + stem);
    assert(path.subrange(start, dot) =~= stem);
    let component = path.subrange(start, end);
    assert(component.len() > 2);
}

/// The target file of an artifact lies beside it, under the same name with the extension
/// `target`.
pub proof fn target_files_lie_beside_their_artifact(
    path: &str,
    dir: Seq<char>,
    stem: Seq<char>,
    ext: Seq<char>,
    r: String,
)
    requires
        is_file(path@, dir, stem, ext),
        is_plain(stem),
        is_plain(ext),
        call_ensures(emitted_target_path, (path,), r),
    ensures
        is_file(r@, dir, stem, "target"@),
{
    lemma_parts(path@, dir, stem, ext);
    reveal_strlit("target");
    reveal_strlit(".");
    assert(r@ =~= dir.push('/') + stem.push('.') + "target"@);
}

/// The options file of an artifact lies beside it, under the same name with the extension
/// `options`.
pub proof fn options_files_lie_beside_their_artifact(
    path: &str,
    dir: Seq<char>,
    stem: Seq<char>,
    ext: Seq<char>,
    r: String,
)
    requires
        is_file(path@, dir, stem, ext),
        is_plain(stem),
        is_plain(ext),
        call_ensures(emitted_compile_options_path, (path,), r),
    ensures
        is_file(r@, dir, stem, "options"@),
{
    lemma_parts(path@, dir, stem, ext);
    reveal_strlit("options");
    reveal_strlit(".");
    assert(r@ =~= dir.push('/') + stem.push('.') + "options"@);
}

/// A build of a file writes its target, its LTOIR and its cubin beside it under the same
/// name, asks the cache of its directory, and builds exactly its bytes for the requested
/// architecture.
pub proof fn file_builds_write_beside_their_source(
    path: &str,
    dir: Seq<char>,
    stem: Seq<char>,
    ext: Seq<char>,
    arch: CudaArch,
    source: Result<Vec<u8>, String>,
    sidecars: Sidecars,
    marker: &str,
    r: Result<FileBuildPlan, LtoirError>,
)
    requires
        is_file(path@, dir, stem, ext),
        is_plain(stem),
        is_plain(ext),
        is_plain(dir),
        call_ensures(build_cubin_from_ll_file, (path, &arch, source, &sidecars, marker), r),
    ensures
        source is Err ==> r is Err,
        r matches Ok(plan) ==> {
            &&& is_file(plan.target_path@, dir, stem, "target"@)
            &&& is_file(plan.ltoir_path@, dir, stem, "ltoir"@)
            &&& is_file(plan.cubin_path@, dir, stem, "cubin"@)
            &&& plan.source_dir@ == dir
            &&& source matches Ok(bytes) && plan.build.input@ == bytes@
            &&& plan.build.source == BuildSource::NvvmIr
            &&& plan.build.output == BuildOutput::Cubin
            &&& plan.build.arch == arch
            &&& plan.build.cached
            &&& plan.build.nvvm_module_name@ == path@
            &&& plan.build.ltoir_module_name@ == plan.ltoir_path@
            &&& sidecars.options_exist == Ok::<bool, String>(false) ==> plan.target_text@
                == spelling("sm_"@, arch).push('\n')
            &&& sidecars.options_exist == Ok::<bool, String>(true) ==> plan.target_text@ == (
            spelling("sm_"@, arch).push('\n') + marker@).push('\n')
        },
{
    lemma_parts(path@, dir, stem, ext);
    reveal_strlit("target");
    reveal_strlit(".");
    reveal_strlit(".ltoir");
    reveal_strlit(".cubin");
    reveal_strlit("ltoir");
    reveal_strlit("cubin");
    reveal_strlit("\n");
    reveal_strlit("/");
    let p = path@;
    let start = dir.len() as int + 1;
    assert(p[start - 1] == '/');
    assert(p[start - 2] == dir[dir.len() - 1]);
    assert(last_component_end(p, start) == dir.len()) by {
        assert(last_component_end(p, start) == last_component_end(p, start - 1));
        assert(last_component_end(p, start - 1) == start - 1);
    }
    assert(p.take(dir.len() as int) =~= dir);
    assert(crate::paths::parent_of(p) == Some(dir));
    assert(crate::ltoir::directory_of(p) == dir);
    assert(stem[0] != '/');
    assert(crate::ltoir::sibling_of(p, ".ltoir"@) =~= dir.push('/') + stem.push('.') + "ltoir"@);
    assert(crate::ltoir::sibling_of(p, ".cubin"@) =~= dir.push('/') + stem.push('.') + "cubin"@);
    assert(crate::sidecar::target_path(p) =~= dir.push('/') + stem.push('.') + "target"@);
    assert(arch.sm_text() =~= spelling("sm_"@, arch));
    assert(arch.sm_text() + "\n"@ =~= spelling("sm_"@, arch).push('\n'));
    assert(arch.sm_text() + "\n"@ + marker@ + "\n"@ =~= (spelling("sm_"@, arch).push('\n')
        + marker@).push('\n'));
}

/// A file that can be read, with readable options and no other target recorded, is always
/// planned to be built, under the policy of its options.
pub proof fn readable_files_are_built(
    path: &str,
    arch: CudaArch,
    source: Result<Vec<u8>, String>,
    sidecars: Sidecars,
    marker: &str,
    r: Result<FileBuildPlan, LtoirError>,
)
    requires
        source is Ok,
        sidecars.target is NotFound,
        sidecars.options_exist is Ok,
        sidecars.options is Policy || sidecars.options is NotFound,
        call_ensures(build_cubin_from_ll_file, (path, &arch, source, &sidecars, marker), r),
    ensures
        r matches Ok(plan) && crate::load_laws::keeps_the_policy(
            plan.build.allow_fma_contraction,
            sidecars.options,
        ),
{
}

/// A path is taken apart into its directory, its file name and the stem of that, and its
/// extension is replaced alone.
pub proof fn paths_are_taken_apart(
    path: &str,
    dir: Seq<char>,
    stem: Seq<char>,
    ext: Seq<char>,
    other: &str,
    name: Option<String>,
    short: Option<String>,
    above: Option<String>,
    changed: String,
)
    requires
        is_file(path@, dir, stem, ext),
        is_plain(stem),
        is_plain(ext),
        is_plain(dir),
        other@.len() > 0,
        call_ensures(file_name, (path,), name),
        call_ensures(file_stem, (path,), short),
        call_ensures(parent, (path,), above),
        call_ensures(with_extension, (path, other), changed),
    ensures
        name matches Some(s) && s@ == stem.push('.') + ext,
        short matches Some(s) && s@ == stem,
        above matches Some(s) && s@ == dir,
        is_file(changed@, dir, stem, other@),
{
    lemma_parts(path@, dir, stem, ext);
    reveal_strlit(".");
    let p = path@;
    let start = dir.len() as int + 1;
    assert(p[start - 1] == '/');
    assert(p[start - 2] == dir[dir.len() - 1]);
    assert(last_component_end(p, start) == dir.len()) by {
        assert(last_component_end(p, start) == last_component_end(p, start - 1));
        assert(last_component_end(p, start - 1) == start - 1);
    }
    assert(p.take(dir.len() as int) =~= dir);
    assert(p.subrange(start, p.len() as int) =~= stem.push('.') + ext);
    assert(changed@ =~= dir.push('/') + stem.push('.') + other@);
}

}
