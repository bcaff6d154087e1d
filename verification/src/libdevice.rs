//! Where the libdevice bitcode is looked for.

use crate::ltoir_error::LtoirError;
use crate::ltoir_error::LtoirErrorView;
use crate::paths::join_path;
use crate::paths::joined_path;
use crate::text::join;
use crate::text::joined;
use crate::text::texts;
use vstd::prelude::*;

verus! {

broadcast use vstd::string::group_string_axioms;

/// What the environment says of the toolkit.
#[derive(Debug)]
pub struct ToolkitEnv {
    /// `CUDA_OXIDE_LIBDEVICE`: the bitcode itself.
    pub libdevice: Option<String>,
    /// `CUDA_TOOLKIT_PATH`.
    pub toolkit_path: Option<String>,
    /// `CUDA_HOME`.
    pub home: Option<String>,
    /// `CUDA_PATH`.
    pub path: Option<String>,
}

/// The bitcode below the root of a toolkit.
pub open spec fn below(root: Seq<char>) -> Seq<char> {
    joined_path(root, "nvvm/libdevice/libdevice.10.bc"@)
}

/// The bitcode below a root that the environment may name.
pub open spec fn below_named(root: Option<String>) -> Seq<Seq<char>> {
    match root {
        Some(root) => seq![below(root@)],
        None => seq![],
    }
}

/// The places to look at, in order: the one that the environment names, then those
/// below the roots that it names, then those below the usual roots.
pub open spec fn candidates(env: ToolkitEnv) -> Seq<Seq<char>> {
    (match env.libdevice {
        Some(path) => seq![path@],
        None => seq![],
    }) + below_named(env.toolkit_path) + below_named(env.home) + below_named(env.path) + seq![
        below("/usr/local/cuda"@),
        below("/opt/cuda"@),
    ]
}

fn push_below(places: &mut Vec<String>, root: &Option<String>)
    ensures
        texts(final(places)@) == texts(old(places)@) + below_named(*root),
{
    if let Some(root) = root {
        places.push(join_path(root.as_str(), "nvvm/libdevice/libdevice.10.bc"));
    }
    assert(texts(places@) =~= texts(old(places)@) + below_named(*root));
}

/// The places to look at, in order.
pub fn libdevice_candidates(env: &ToolkitEnv) -> (r: Vec<String>)
    ensures
        texts(r@) == candidates(*env),
{
    let mut r: Vec<String> = Vec::new();
    if let Some(path) = &env.libdevice {
        r.push(path.as_str().to_owned());
    }
    assert(texts(r@) =~= match env.libdevice {
        Some(path) => seq![path@],
        None => seq![],
    });
    push_below(&mut r, &env.toolkit_path);
    push_below(&mut r, &env.home);
    push_below(&mut r, &env.path);
    let ghost named = texts(r@);
    r.push(join_path("/usr/local/cuda", "nvvm/libdevice/libdevice.10.bc"));
    r.push(join_path("/opt/cuda", "nvvm/libdevice/libdevice.10.bc"));
    assert(texts(r@) =~= named + seq![below("/usr/local/cuda"@), below("/opt/cuda"@)]);
    assert(texts(r@) =~= candidates(*env));
    r
}

/// The result is the first place where there is a file, or the list of all places where
/// there is none.
pub open spec fn finds(
    env: ToolkitEnv,
    there: Seq<bool>,
    r: Result<String, LtoirError>,
) -> bool {
    match r {
        Ok(path) => exists|i: int|
            {
                &&& 0 <= i < there.len()
                &&& #[trigger] there[i]
                &&& forall|j: int| 0 <= j < i ==> !#[trigger] there[j]
                &&& path@ == candidates(env)[i]
            },
        Err(error) => {
            &&& forall|i: int| 0 <= i < there.len() ==> !#[trigger] there[i]
            &&& error@ == (LtoirErrorView::LibdeviceNotFound {
                tried: joined(candidates(env), "\n"@),
            })
        },
    }
}

/// The bitcode: the first place where there is a file. `exists` says it of each place
/// in turn.
pub fn find_libdevice(env: &ToolkitEnv, exists: &Vec<bool>) -> (r: Result<String, LtoirError>)
    requires
        exists@.len() == candidates(*env).len(),
    ensures
        finds(*env, exists@, r),
{
    let places = libdevice_candidates(env);
    let mut i: usize = 0;
    while i < places.len()
        invariant
            i <= places.len(),
            texts(places@) == candidates(*env),
            exists@.len() == places@.len(),
            forall|j: int| 0 <= j < i ==> !#[trigger] exists@[j],
        decreases places.len() - i,
    {
        if exists[i] {
            assert(places@[i as int]@ == candidates(*env)[i as int]);
            return Ok(places[i].as_str().to_owned());
        }
        i += 1;
    }
    Err(LtoirError::LibdeviceNotFound { tried: join(&places, "\n") })
}

/// The place that the environment names comes first.
pub proof fn named_bitcode_comes_first(env: ToolkitEnv)
    requires
        env.libdevice is Some,
    ensures
        candidates(env)[0] == env.libdevice->0@,
{
}

}
