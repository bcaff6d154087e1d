//! What a cached build gives and what is told of it.

use vstd::prelude::*;

verus! {

broadcast use vstd::string::group_string_axioms;

/// The outcome of a build that may have gone through the cache.
#[derive(Debug, PartialEq, Eq)]
pub struct CacheResult {
    /// The cubin.
    pub cubin: Vec<u8>,
    /// The LTOIR that it was linked from, where there was a compilation.
    pub ltoir: Option<Vec<u8>>,
    /// Where the cache keeps the cubin.
    pub immutable_cubin_path: Option<String>,
    /// Where the cache keeps the LTOIR.
    pub immutable_ltoir_path: Option<String>,
    /// The cache had the cubin.
    pub cache_hit: bool,
}

/// The outcome of a build without a cache.
pub fn uncached_result(cubin: Vec<u8>, ltoir: Option<Vec<u8>>) -> (r: CacheResult)
    ensures
        r.cubin == cubin,
        r.ltoir == ltoir,
        r.immutable_cubin_path is None,
        r.immutable_ltoir_path is None,
        !r.cache_hit,
{
    CacheResult {
        cubin,
        ltoir,
        immutable_cubin_path: None,
        immutable_ltoir_path: None,
        cache_hit: false,
    }
}

/// What is told of a build.
pub open spec fn cache_report(result: CacheResult) -> Seq<char> {
    match result.immutable_cubin_path {
        Some(path) => if result.cache_hit {
            "cuda-oxide: cubin cache hit: "@ + path@
        } else {
            "cuda-oxide: cached cubin: "@ + path@
        },
        None => "cuda-oxide: using an uncached cubin"@,
    }
}

/// What is told of a build, where anything is told at all.
pub fn report_cache_result(result: &CacheResult, verbose: bool) -> (r: Option<String>)
    ensures
        r is Some <==> verbose,
        r matches Some(line) ==> line@ == cache_report(*result),
{
    if !verbose {
        return None;
    }
    match &result.immutable_cubin_path {
        Some(path) => {
            let mut line = if result.cache_hit {
                "cuda-oxide: cubin cache hit: ".to_owned()
            } else {
                "cuda-oxide: cached cubin: ".to_owned()
            };
            line.append(path.as_str());
            Some(line)
        },
        None => Some("cuda-oxide: using an uncached cubin".to_owned()),
    }
}

/// What is told of a tool that changed while it was fingerprinted.
pub open spec fn changed_tool_text(label: Seq<char>) -> Seq<char> {
    "cuda-oxide: "@ + label + " changed while it was fingerprinted; bypassing the cubin cache"@
}

/// What is told of a tool that changed while it was fingerprinted, where anything is
/// told at all.
pub fn report_changed_tool(label: &str, verbose: bool) -> (r: Option<String>)
    ensures
        r is Some <==> verbose,
        r matches Some(line) ==> line@ == changed_tool_text(label@),
{
    if !verbose {
        return None;
    }
    let mut line = "cuda-oxide: ".to_owned();
    line.append(label);
    line.append(" changed while it was fingerprinted; bypassing the cubin cache");
    Some(line)
}

}
