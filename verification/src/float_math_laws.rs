//! Which paths name floating-point functions.

use crate::float_math::emit_rust_float_math_intrinsic;
use crate::float_math::paths_are_unambiguous;
use crate::float_math::FunctionCall;
use crate::float_math::PlaceholderNames;
use crate::float_math::RustFloatMathIntrinsic;
use crate::identifier::is_identifier;
use crate::importer::Operand;
use vstd::prelude::*;

verus! {

broadcast use vstd::string::group_string_axioms;

/// The functions, in order.
pub open spec fn functions() -> Seq<RustFloatMathIntrinsic> {
    seq![
        RustFloatMathIntrinsic::SqrtF32,
        RustFloatMathIntrinsic::SqrtF64,
        RustFloatMathIntrinsic::PowiF32,
        RustFloatMathIntrinsic::PowiF64,
        RustFloatMathIntrinsic::SinF32,
        RustFloatMathIntrinsic::SinF64,
        RustFloatMathIntrinsic::CosF32,
        RustFloatMathIntrinsic::CosF64,
        RustFloatMathIntrinsic::TanF32,
        RustFloatMathIntrinsic::TanF64,
        RustFloatMathIntrinsic::PowfF32,
        RustFloatMathIntrinsic::PowfF64,
        RustFloatMathIntrinsic::ExpF32,
        RustFloatMathIntrinsic::ExpF64,
        RustFloatMathIntrinsic::Exp2F32,
        RustFloatMathIntrinsic::Exp2F64,
        RustFloatMathIntrinsic::LogF32,
        RustFloatMathIntrinsic::LogF64,
        RustFloatMathIntrinsic::Log2F32,
        RustFloatMathIntrinsic::Log2F64,
        RustFloatMathIntrinsic::Log10F32,
        RustFloatMathIntrinsic::Log10F64,
        RustFloatMathIntrinsic::FmaF32,
        RustFloatMathIntrinsic::FmaF64,
        RustFloatMathIntrinsic::FmuladdF32,
        RustFloatMathIntrinsic::FmuladdF64,
        RustFloatMathIntrinsic::FloorF32,
        RustFloatMathIntrinsic::FloorF64,
        RustFloatMathIntrinsic::CeilF32,
        RustFloatMathIntrinsic::CeilF64,
        RustFloatMathIntrinsic::TruncF32,
        RustFloatMathIntrinsic::TruncF64,
        RustFloatMathIntrinsic::RoundF32,
        RustFloatMathIntrinsic::RoundF64,
        RustFloatMathIntrinsic::RoundevenF32,
        RustFloatMathIntrinsic::RoundevenF64,
        RustFloatMathIntrinsic::Fabs,
        RustFloatMathIntrinsic::CopysignF32,
        RustFloatMathIntrinsic::CopysignF64,
        RustFloatMathIntrinsic::Atan2F32,
        RustFloatMathIntrinsic::Atan2F64,
        RustFloatMathIntrinsic::AtanF32,
        RustFloatMathIntrinsic::AtanF64,
    ]
}

/// The position of a function among the functions.
pub open spec fn position(i: RustFloatMathIntrinsic) -> int {
    match i {
        RustFloatMathIntrinsic::SqrtF32 => 0,
        RustFloatMathIntrinsic::SqrtF64 => 1,
        RustFloatMathIntrinsic::PowiF32 => 2,
        RustFloatMathIntrinsic::PowiF64 => 3,
        RustFloatMathIntrinsic::SinF32 => 4,
        RustFloatMathIntrinsic::SinF64 => 5,
        RustFloatMathIntrinsic::CosF32 => 6,
        RustFloatMathIntrinsic::CosF64 => 7,
        RustFloatMathIntrinsic::TanF32 => 8,
        RustFloatMathIntrinsic::TanF64 => 9,
        RustFloatMathIntrinsic::PowfF32 => 10,
        RustFloatMathIntrinsic::PowfF64 => 11,
        RustFloatMathIntrinsic::ExpF32 => 12,
        RustFloatMathIntrinsic::ExpF64 => 13,
        RustFloatMathIntrinsic::Exp2F32 => 14,
        RustFloatMathIntrinsic::Exp2F64 => 15,
        RustFloatMathIntrinsic::LogF32 => 16,
        RustFloatMathIntrinsic::LogF64 => 17,
        RustFloatMathIntrinsic::Log2F32 => 18,
        RustFloatMathIntrinsic::Log2F64 => 19,
        RustFloatMathIntrinsic::Log10F32 => 20,
        RustFloatMathIntrinsic::Log10F64 => 21,
        RustFloatMathIntrinsic::FmaF32 => 22,
        RustFloatMathIntrinsic::FmaF64 => 23,
        RustFloatMathIntrinsic::FmuladdF32 => 24,
        RustFloatMathIntrinsic::FmuladdF64 => 25,
        RustFloatMathIntrinsic::FloorF32 => 26,
        RustFloatMathIntrinsic::FloorF64 => 27,
        RustFloatMathIntrinsic::CeilF32 => 28,
        RustFloatMathIntrinsic::CeilF64 => 29,
        RustFloatMathIntrinsic::TruncF32 => 30,
        RustFloatMathIntrinsic::TruncF64 => 31,
        RustFloatMathIntrinsic::RoundF32 => 32,
        RustFloatMathIntrinsic::RoundF64 => 33,
        RustFloatMathIntrinsic::RoundevenF32 => 34,
        RustFloatMathIntrinsic::RoundevenF64 => 35,
        RustFloatMathIntrinsic::Fabs => 36,
        RustFloatMathIntrinsic::CopysignF32 => 37,
        RustFloatMathIntrinsic::CopysignF64 => 38,
        RustFloatMathIntrinsic::Atan2F32 => 39,
        RustFloatMathIntrinsic::Atan2F64 => 40,
        RustFloatMathIntrinsic::AtanF32 => 41,
        RustFloatMathIntrinsic::AtanF64 => 42,
    }
}

/// The paths of a function.
pub open spec fn paths_of(i: RustFloatMathIntrinsic) -> Seq<Seq<char>> {
    (match i.core_name() {
        Some(name) => seq!["core::intrinsics::"@ + name, "std::intrinsics::"@ + name],
        None => seq![],
    }) + (match i.cmath_name() {
        Some(name) => seq!["std::sys::cmath::"@ + name],
        None => seq![],
    })
}

/// The paths of the first `n` functions.
pub open spec fn paths_of_first(n: nat) -> Seq<Seq<char>>
    decreases n,
{
    if n == 0 {
        seq![]
    } else {
        paths_of_first((n - 1) as nat) + paths_of(functions()[n - 1])
    }
}

/// All paths that name a function.
pub open spec fn all_paths() -> Seq<Seq<char>> {
    paths_of_first(functions().len())
}

proof fn lemma_positions(i: RustFloatMathIntrinsic)
    ensures
        functions().len() == 43,
        0 <= position(i) < 43,
        functions()[position(i)] == i,
{
    let all = functions();
    assert(all[0] == RustFloatMathIntrinsic::SqrtF32);
    assert(all[1] == RustFloatMathIntrinsic::SqrtF64);
    assert(all[2] == RustFloatMathIntrinsic::PowiF32);
    assert(all[3] == RustFloatMathIntrinsic::PowiF64);
    assert(all[4] == RustFloatMathIntrinsic::SinF32);
    assert(all[5] == RustFloatMathIntrinsic::SinF64);
    assert(all[6] == RustFloatMathIntrinsic::CosF32);
    assert(all[7] == RustFloatMathIntrinsic::CosF64);
    assert(all[8] == RustFloatMathIntrinsic::TanF32);
    assert(all[9] == RustFloatMathIntrinsic::TanF64);
    assert(all[10] == RustFloatMathIntrinsic::PowfF32);
    assert(all[11] == RustFloatMathIntrinsic::PowfF64);
    assert(all[12] == RustFloatMathIntrinsic::ExpF32);
    assert(all[13] == RustFloatMathIntrinsic::ExpF64);
    assert(all[14] == RustFloatMathIntrinsic::Exp2F32);
    assert(all[15] == RustFloatMathIntrinsic::Exp2F64);
    assert(all[16] == RustFloatMathIntrinsic::LogF32);
    assert(all[17] == RustFloatMathIntrinsic::LogF64);
    assert(all[18] == RustFloatMathIntrinsic::Log2F32);
    assert(all[19] == RustFloatMathIntrinsic::Log2F64);
    assert(all[20] == RustFloatMathIntrinsic::Log10F32);
    assert(all[21] == RustFloatMathIntrinsic::Log10F64);
    assert(all[22] == RustFloatMathIntrinsic::FmaF32);
    assert(all[23] == RustFloatMathIntrinsic::FmaF64);
    assert(all[24] == RustFloatMathIntrinsic::FmuladdF32);
    assert(all[25] == RustFloatMathIntrinsic::FmuladdF64);
    assert(all[26] == RustFloatMathIntrinsic::FloorF32);
    assert(all[27] == RustFloatMathIntrinsic::FloorF64);
    assert(all[28] == RustFloatMathIntrinsic::CeilF32);
    assert(all[29] == RustFloatMathIntrinsic::CeilF64);
    assert(all[30] == RustFloatMathIntrinsic::TruncF32);
    assert(all[31] == RustFloatMathIntrinsic::TruncF64);
    assert(all[32] == RustFloatMathIntrinsic::RoundF32);
    assert(all[33] == RustFloatMathIntrinsic::RoundF64);
    assert(all[34] == RustFloatMathIntrinsic::RoundevenF32);
    assert(all[35] == RustFloatMathIntrinsic::RoundevenF64);
    assert(all[36] == RustFloatMathIntrinsic::Fabs);
    assert(all[37] == RustFloatMathIntrinsic::CopysignF32);
    assert(all[38] == RustFloatMathIntrinsic::CopysignF64);
    assert(all[39] == RustFloatMathIntrinsic::Atan2F32);
    assert(all[40] == RustFloatMathIntrinsic::Atan2F64);
    assert(all[41] == RustFloatMathIntrinsic::AtanF32);
    assert(all[42] == RustFloatMathIntrinsic::AtanF64);
}

proof fn lemma_at(k: int)
    requires
        0 <= k < 43,
    ensures
        position(functions()[k]) == k,
        k < 39 ==> functions()[k].core_name() is Some && functions()[k].cmath_name() is None,
        k >= 39 ==> functions()[k].core_name() is None && functions()[k].cmath_name() is Some,
{
    let all = functions();
    assert(all[0] == RustFloatMathIntrinsic::SqrtF32);
    assert(all[1] == RustFloatMathIntrinsic::SqrtF64);
    assert(all[2] == RustFloatMathIntrinsic::PowiF32);
    assert(all[3] == RustFloatMathIntrinsic::PowiF64);
    assert(all[4] == RustFloatMathIntrinsic::SinF32);
    assert(all[5] == RustFloatMathIntrinsic::SinF64);
    assert(all[6] == RustFloatMathIntrinsic::CosF32);
    assert(all[7] == RustFloatMathIntrinsic::CosF64);
    assert(all[8] == RustFloatMathIntrinsic::TanF32);
    assert(all[9] == RustFloatMathIntrinsic::TanF64);
    assert(all[10] == RustFloatMathIntrinsic::PowfF32);
    assert(all[11] == RustFloatMathIntrinsic::PowfF64);
    assert(all[12] == RustFloatMathIntrinsic::ExpF32);
    assert(all[13] == RustFloatMathIntrinsic::ExpF64);
    assert(all[14] == RustFloatMathIntrinsic::Exp2F32);
    assert(all[15] == RustFloatMathIntrinsic::Exp2F64);
    assert(all[16] == RustFloatMathIntrinsic::LogF32);
    assert(all[17] == RustFloatMathIntrinsic::LogF64);
    assert(all[18] == RustFloatMathIntrinsic::Log2F32);
    assert(all[19] == RustFloatMathIntrinsic::Log2F64);
    assert(all[20] == RustFloatMathIntrinsic::Log10F32);
    assert(all[21] == RustFloatMathIntrinsic::Log10F64);
    assert(all[22] == RustFloatMathIntrinsic::FmaF32);
    assert(all[23] == RustFloatMathIntrinsic::FmaF64);
    assert(all[24] == RustFloatMathIntrinsic::FmuladdF32);
    assert(all[25] == RustFloatMathIntrinsic::FmuladdF64);
    assert(all[26] == RustFloatMathIntrinsic::FloorF32);
    assert(all[27] == RustFloatMathIntrinsic::FloorF64);
    assert(all[28] == RustFloatMathIntrinsic::CeilF32);
    assert(all[29] == RustFloatMathIntrinsic::CeilF64);
    assert(all[30] == RustFloatMathIntrinsic::TruncF32);
    assert(all[31] == RustFloatMathIntrinsic::TruncF64);
    assert(all[32] == RustFloatMathIntrinsic::RoundF32);
    assert(all[33] == RustFloatMathIntrinsic::RoundF64);
    assert(all[34] == RustFloatMathIntrinsic::RoundevenF32);
    assert(all[35] == RustFloatMathIntrinsic::RoundevenF64);
    assert(all[36] == RustFloatMathIntrinsic::Fabs);
    assert(all[37] == RustFloatMathIntrinsic::CopysignF32);
    assert(all[38] == RustFloatMathIntrinsic::CopysignF64);
    assert(all[39] == RustFloatMathIntrinsic::Atan2F32);
    assert(all[40] == RustFloatMathIntrinsic::Atan2F64);
    assert(all[41] == RustFloatMathIntrinsic::AtanF32);
    assert(all[42] == RustFloatMathIntrinsic::AtanF64);
}

proof fn lemma_own_paths(i: RustFloatMathIntrinsic)
    ensures
        forall|path: Seq<char>| #[trigger] paths_of(i).contains(path) <==> i.has_path(path),
        paths_of(i).no_duplicates(),
        i.core_name() is Some && i.cmath_name() is None ==> paths_of(i).len() == 2,
        i.core_name() is None && i.cmath_name() is Some ==> paths_of(i).len() == 1,
        i.core_name() is None || i.cmath_name() is None,
{
    let own = paths_of(i);
    reveal_strlit("core::intrinsics::");
    reveal_strlit("std::intrinsics::");
    if let Some(name) = i.core_name() {
        assert(own[0] == "core::intrinsics::"@ + name);
        assert(own[1] == "std::intrinsics::"@ + name);
        assert(own[0][0] == "core::intrinsics::"@[0]);
        assert(own[1][0] == "std::intrinsics::"@[0]);
    }
    if let Some(name) = i.cmath_name() {
        assert(own[0] == "std::sys::cmath::"@ + name);
    }
}

proof fn lemma_members(n: nat, path: Seq<char>)
    requires
        n <= functions().len(),
    ensures
        paths_of_first(n).contains(path) <==> exists|k: int|
            0 <= k < n && (#[trigger] functions()[k]).has_path(path),
    decreases n,
{
    if n > 0 {
        let m = (n - 1) as nat;
        lemma_members(m, path);
        let head = paths_of_first(m);
        let last = paths_of(functions()[m as int]);
        let now = paths_of_first(n);
        lemma_own_paths(functions()[m as int]);
        assert(last.contains(path) <==> functions()[m as int].has_path(path));
        if head.contains(path) {
            let j = choose|j: int| 0 <= j < head.len() && head[j] == path;
            assert(now[j] == path);
        }
        if last.contains(path) {
            let j = choose|j: int| 0 <= j < last.len() && last[j] == path;
            assert(now[head.len() + j] == path);
        }
        if now.contains(path) {
            let j = choose|j: int| 0 <= j < now.len() && now[j] == path;
            if j < head.len() {
                assert(head[j] == path);
            } else {
                assert(last[j - head.len()] == path);
            }
        }
    }
}

proof fn lemma_no_duplicates(n: nat)
    requires
        n <= 43,
    ensures
        paths_of_first(n).no_duplicates(),
        paths_of_first(n).len() == if n <= 39 {
            2 * n
        } else {
            n + 39
        },
    decreases n,
{
    lemma_positions(RustFloatMathIntrinsic::Fabs);
    if n > 0 {
        let m = (n - 1) as nat;
        lemma_no_duplicates(m);
        lemma_at(m as int);
        let f = functions()[m as int];
        let head = paths_of_first(m);
        let last = paths_of(f);
        let now = paths_of_first(n);
        lemma_own_paths(f);
        assert forall|a: int, b: int| 0 <= a < now.len() && 0 <= b < now.len() && a != b implies now[a]
            != now[b] by {
            if now[a] == now[b] {
                let path = now[a];
                if a >= head.len() && b >= head.len() {
                    assert(last[a - head.len()] == last[b - head.len()]);
                } else if a < head.len() && b < head.len() {
                    assert(head[a] == head[b]);
                } else {
                    let (low, high) = if a < b {
                        (a, b)
                    } else {
                        (b, a)
                    };
                    assert(head[low] == path);
                    assert(head.contains(path));
                    assert(last[high - head.len()] == path);
                    assert(last.contains(path));
                    lemma_members(m, path);
                    let k = choose|k: int|
                        0 <= k < m && (#[trigger] functions()[k]).has_path(path);
                    paths_are_unambiguous(path, functions()[k], f);
                    lemma_at(k);
                }
            }
        }
    }
}

/// There are exactly 82 paths, all different, and a text names a function exactly where
/// it is one of them.
pub proof fn exactly_these_paths_are_recognised(path: Seq<char>)
    ensures
        all_paths().len() == 82,
        all_paths().no_duplicates(),
        all_paths().contains(path) <==> exists|i: RustFloatMathIntrinsic| #[trigger] i.has_path(path),
{
    lemma_positions(RustFloatMathIntrinsic::Fabs);
    lemma_no_duplicates(43);
    lemma_members(43, path);
    if all_paths().contains(path) {
        let k = choose|k: int| 0 <= k < 43 && (#[trigger] functions()[k]).has_path(path);
        assert(functions()[k].has_path(path));
    }
    if exists|i: RustFloatMathIntrinsic| #[trigger] i.has_path(path) {
        let i = choose|i: RustFloatMathIntrinsic| #[trigger] i.has_path(path);
        lemma_positions(i);
        assert(functions()[position(i)].has_path(path));
    }
}

/// Every function is named by some path.
pub proof fn every_function_has_a_path(i: RustFloatMathIntrinsic)
    ensures
        paths_of(i).len() > 0,
        i.has_path(paths_of(i)[0]),
{
    lemma_positions(i);
    lemma_at(position(i));
    lemma_own_paths(i);
    assert(paths_of(i).contains(paths_of(i)[0]));
}

/// The last segment of a path: what follows its last colon.
pub open spec fn last_segment(path: Seq<char>) -> Seq<char>
    decreases path.len(),
{
    if path.len() == 0 || path.last() == ':' {
        seq![]
    } else {
        last_segment(path.drop_last()).push(path.last())
    }
}

proof fn lemma_last_segment(prefix: Seq<char>, name: Seq<char>)
    requires
        prefix.len() > 0,
        prefix.last() == ':',
        forall|k: int| 0 <= k < name.len() ==> #[trigger] name[k] != ':',
    ensures
        last_segment(prefix + name) == name,
    decreases name.len(),
{
    let path = prefix + name;
    if name.len() == 0 {
        assert(path =~= prefix);
        assert(last_segment(path) =~= name);
    } else {
        let rest = name.drop_last();
        assert(path.drop_last() =~= prefix + rest);
        assert forall|k: int| 0 <= k < rest.len() implies #[trigger] rest[k] != ':' by {
            assert(rest[k] == name[k]);
        }
        lemma_last_segment(prefix, rest);
        assert(path.last() == name.last());
        assert(name.last() == name[name.len() - 1]);
        assert(last_segment(path) =~= name);
    }
}

proof fn lemma_names_are_identifiers(i: RustFloatMathIntrinsic)
    ensures
        i.core_name() matches Some(name) ==> is_identifier(name),
        i.cmath_name() matches Some(name) ==> is_identifier(name),
{
    match i {
        RustFloatMathIntrinsic::SqrtF32 => {
            reveal_strlit("sqrtf32");
            assert(is_identifier("sqrtf32"@));
        },
        RustFloatMathIntrinsic::SqrtF64 => {
            reveal_strlit("sqrtf64");
            assert(is_identifier("sqrtf64"@));
        },
        RustFloatMathIntrinsic::PowiF32 => {
            reveal_strlit("powif32");
            assert(is_identifier("powif32"@));
        },
        RustFloatMathIntrinsic::PowiF64 => {
            reveal_strlit("powif64");
            assert(is_identifier("powif64"@));
        },
        RustFloatMathIntrinsic::SinF32 => {
            reveal_strlit("sinf32");
            assert(is_identifier("sinf32"@));
        },
        RustFloatMathIntrinsic::SinF64 => {
            reveal_strlit("sinf64");
            assert(is_identifier("sinf64"@));
        },
        RustFloatMathIntrinsic::CosF32 => {
            reveal_strlit("cosf32");
            assert(is_identifier("cosf32"@));
        },
        RustFloatMathIntrinsic::CosF64 => {
            reveal_strlit("cosf64");
            assert(is_identifier("cosf64"@));
        },
        RustFloatMathIntrinsic::TanF32 => {
            reveal_strlit("tanf32");
            assert(is_identifier("tanf32"@));
        },
        RustFloatMathIntrinsic::TanF64 => {
            reveal_strlit("tanf64");
            assert(is_identifier("tanf64"@));
        },
        RustFloatMathIntrinsic::PowfF32 => {
            reveal_strlit("powf32");
            assert(is_identifier("powf32"@));
        },
        RustFloatMathIntrinsic::PowfF64 => {
            reveal_strlit("powf64");
            assert(is_identifier("powf64"@));
        },
        RustFloatMathIntrinsic::ExpF32 => {
            reveal_strlit("expf32");
            assert(is_identifier("expf32"@));
        },
        RustFloatMathIntrinsic::ExpF64 => {
            reveal_strlit("expf64");
            assert(is_identifier("expf64"@));
        },
        RustFloatMathIntrinsic::Exp2F32 => {
            reveal_strlit("exp2f32");
            assert(is_identifier("exp2f32"@));
        },
        RustFloatMathIntrinsic::Exp2F64 => {
            reveal_strlit("exp2f64");
            assert(is_identifier("exp2f64"@));
        },
        RustFloatMathIntrinsic::LogF32 => {
            reveal_strlit("logf32");
            assert(is_identifier("logf32"@));
        },
        RustFloatMathIntrinsic::LogF64 => {
            reveal_strlit("logf64");
            assert(is_identifier("logf64"@));
        },
        RustFloatMathIntrinsic::Log2F32 => {
            reveal_strlit("log2f32");
            assert(is_identifier("log2f32"@));
        },
        RustFloatMathIntrinsic::Log2F64 => {
            reveal_strlit("log2f64");
            assert(is_identifier("log2f64"@));
        },
        RustFloatMathIntrinsic::Log10F32 => {
            reveal_strlit("log10f32");
            assert(is_identifier("log10f32"@));
        },
        RustFloatMathIntrinsic::Log10F64 => {
            reveal_strlit("log10f64");
            assert(is_identifier("log10f64"@));
        },
        RustFloatMathIntrinsic::FmaF32 => {
            reveal_strlit("fmaf32");
            assert(is_identifier("fmaf32"@));
        },
        RustFloatMathIntrinsic::FmaF64 => {
            reveal_strlit("fmaf64");
            assert(is_identifier("fmaf64"@));
        },
        RustFloatMathIntrinsic::FmuladdF32 => {
            reveal_strlit("fmuladdf32");
            assert(is_identifier("fmuladdf32"@));
        },
        RustFloatMathIntrinsic::FmuladdF64 => {
            reveal_strlit("fmuladdf64");
            assert(is_identifier("fmuladdf64"@));
        },
        RustFloatMathIntrinsic::FloorF32 => {
            reveal_strlit("floorf32");
            assert(is_identifier("floorf32"@));
        },
        RustFloatMathIntrinsic::FloorF64 => {
            reveal_strlit("floorf64");
            assert(is_identifier("floorf64"@));
        },
        RustFloatMathIntrinsic::CeilF32 => {
            reveal_strlit("ceilf32");
            assert(is_identifier("ceilf32"@));
        },
        RustFloatMathIntrinsic::CeilF64 => {
            reveal_strlit("ceilf64");
            assert(is_identifier("ceilf64"@));
        },
        RustFloatMathIntrinsic::TruncF32 => {
            reveal_strlit("truncf32");
            assert(is_identifier("truncf32"@));
        },
        RustFloatMathIntrinsic::TruncF64 => {
            reveal_strlit("truncf64");
            assert(is_identifier("truncf64"@));
        },
        RustFloatMathIntrinsic::RoundF32 => {
            reveal_strlit("roundf32");
            assert(is_identifier("roundf32"@));
        },
        RustFloatMathIntrinsic::RoundF64 => {
            reveal_strlit("roundf64");
            assert(is_identifier("roundf64"@));
        },
        RustFloatMathIntrinsic::RoundevenF32 => {
            reveal_strlit("round_ties_even_f32");
            assert(is_identifier("round_ties_even_f32"@));
        },
        RustFloatMathIntrinsic::RoundevenF64 => {
            reveal_strlit("round_ties_even_f64");
            assert(is_identifier("round_ties_even_f64"@));
        },
        RustFloatMathIntrinsic::Fabs => {
            reveal_strlit("fabs");
            assert(is_identifier("fabs"@));
        },
        RustFloatMathIntrinsic::CopysignF32 => {
            reveal_strlit("copysignf32");
            assert(is_identifier("copysignf32"@));
        },
        RustFloatMathIntrinsic::CopysignF64 => {
            reveal_strlit("copysignf64");
            assert(is_identifier("copysignf64"@));
        },
        RustFloatMathIntrinsic::Atan2F32 => {
            reveal_strlit("atan2f");
            assert(is_identifier("atan2f"@));
        },
        RustFloatMathIntrinsic::Atan2F64 => {
            reveal_strlit("atan2");
            assert(is_identifier("atan2"@));
        },
        RustFloatMathIntrinsic::AtanF32 => {
            reveal_strlit("atanf");
            assert(is_identifier("atanf"@));
        },
        RustFloatMathIntrinsic::AtanF64 => {
            reveal_strlit("atan");
            assert(is_identifier("atan"@));
        },
    }
}

/// The name that every path of a function ends in.
pub open spec fn segment_of(i: RustFloatMathIntrinsic) -> Seq<char> {
    match i.core_name() {
        Some(name) => name,
        None => i.cmath_name()->0,
    }
}

/// All paths of a function end in the same segment.
pub proof fn paths_of_a_function_share_a_segment(
    i: RustFloatMathIntrinsic,
    a: Seq<char>,
    b: Seq<char>,
)
    requires
        i.has_path(a),
        i.has_path(b),
    ensures
        last_segment(a) == segment_of(i),
        last_segment(a) == last_segment(b),
{
    lemma_segment(i, a);
    lemma_segment(i, b);
}

proof fn lemma_segment(i: RustFloatMathIntrinsic, path: Seq<char>)
    requires
        i.has_path(path),
    ensures
        last_segment(path) == segment_of(i),
{
    lemma_names_are_identifiers(i);
    lemma_own_paths(i);
    reveal_strlit("core::intrinsics::");
    reveal_strlit("std::intrinsics::");
    reveal_strlit("std::sys::cmath::");
    assert("core::intrinsics::"@.last() == ':');
    assert("std::intrinsics::"@.last() == ':');
    assert("std::sys::cmath::"@.last() == ':');
    let name = segment_of(i);
    lemma_last_segment("core::intrinsics::"@, name);
    lemma_last_segment("std::intrinsics::"@, name);
    lemma_last_segment("std::sys::cmath::"@, name);
}

// ---------------------------------------------------------------------------
// Callees
// ---------------------------------------------------------------------------

/// The call of an intrinsic, by either of its paths, goes to the placeholder of the same
/// function and width.
pub proof fn intrinsics_call_their_own_placeholder(
    names: PlaceholderNames,
    name: Seq<char>,
    path: Seq<char>,
    i: RustFloatMathIntrinsic,
)
    requires
        path == "core::intrinsics::"@ + name || path == "std::intrinsics::"@ + name,
        i.has_path(path),
    ensures
        name == "sqrtf32"@ ==> i.placeholder(names) == names.sqrt_f32@,
        name == "sqrtf64"@ ==> i.placeholder(names) == names.sqrt_f64@,
        name == "powif32"@ ==> i.placeholder(names) == names.powi_f32@,
        name == "powif64"@ ==> i.placeholder(names) == names.powi_f64@,
        name == "sinf32"@ ==> i.placeholder(names) == names.sin_f32@,
        name == "sinf64"@ ==> i.placeholder(names) == names.sin_f64@,
        name == "cosf32"@ ==> i.placeholder(names) == names.cos_f32@,
        name == "cosf64"@ ==> i.placeholder(names) == names.cos_f64@,
        name == "tanf32"@ ==> i.placeholder(names) == names.tan_f32@,
        name == "tanf64"@ ==> i.placeholder(names) == names.tan_f64@,
        name == "powf32"@ ==> i.placeholder(names) == names.powf_f32@,
        name == "powf64"@ ==> i.placeholder(names) == names.powf_f64@,
        name == "expf32"@ ==> i.placeholder(names) == names.exp_f32@,
        name == "expf64"@ ==> i.placeholder(names) == names.exp_f64@,
        name == "exp2f32"@ ==> i.placeholder(names) == names.exp2_f32@,
        name == "exp2f64"@ ==> i.placeholder(names) == names.exp2_f64@,
        name == "logf32"@ ==> i.placeholder(names) == names.log_f32@,
        name == "logf64"@ ==> i.placeholder(names) == names.log_f64@,
        name == "log2f32"@ ==> i.placeholder(names) == names.log2_f32@,
        name == "log2f64"@ ==> i.placeholder(names) == names.log2_f64@,
        name == "log10f32"@ ==> i.placeholder(names) == names.log10_f32@,
        name == "log10f64"@ ==> i.placeholder(names) == names.log10_f64@,
        name == "fmaf32"@ ==> i.placeholder(names) == names.fma_f32@,
        name == "fmaf64"@ ==> i.placeholder(names) == names.fma_f64@,
        name == "fmuladdf32"@ ==> i.placeholder(names) == names.fmuladd_f32@,
        name == "fmuladdf64"@ ==> i.placeholder(names) == names.fmuladd_f64@,
        name == "floorf32"@ ==> i.placeholder(names) == names.floor_f32@,
        name == "floorf64"@ ==> i.placeholder(names) == names.floor_f64@,
        name == "ceilf32"@ ==> i.placeholder(names) == names.ceil_f32@,
        name == "ceilf64"@ ==> i.placeholder(names) == names.ceil_f64@,
        name == "truncf32"@ ==> i.placeholder(names) == names.trunc_f32@,
        name == "truncf64"@ ==> i.placeholder(names) == names.trunc_f64@,
        name == "roundf32"@ ==> i.placeholder(names) == names.round_f32@,
        name == "roundf64"@ ==> i.placeholder(names) == names.round_f64@,
        name == "round_ties_even_f32"@ ==> i.placeholder(names) == names.roundeven_f32@,
        name == "round_ties_even_f64"@ ==> i.placeholder(names) == names.roundeven_f64@,
        name == "fabs"@ ==> i.placeholder(names) == names.fabs@,
        name == "copysignf32"@ ==> i.placeholder(names) == names.copysign_f32@,
        name == "copysignf64"@ ==> i.placeholder(names) == names.copysign_f64@,
{
    if name == "sqrtf32"@ {
        paths_are_unambiguous(path, i, RustFloatMathIntrinsic::SqrtF32);
    }
    if name == "sqrtf64"@ {
        paths_are_unambiguous(path, i, RustFloatMathIntrinsic::SqrtF64);
    }
    if name == "powif32"@ {
        paths_are_unambiguous(path, i, RustFloatMathIntrinsic::PowiF32);
    }
    if name == "powif64"@ {
        paths_are_unambiguous(path, i, RustFloatMathIntrinsic::PowiF64);
    }
    if name == "sinf32"@ {
        paths_are_unambiguous(path, i, RustFloatMathIntrinsic::SinF32);
    }
    if name == "sinf64"@ {
        paths_are_unambiguous(path, i, RustFloatMathIntrinsic::SinF64);
    }
    if name == "cosf32"@ {
        paths_are_unambiguous(path, i, RustFloatMathIntrinsic::CosF32);
    }
    if name == "cosf64"@ {
        paths_are_unambiguous(path, i, RustFloatMathIntrinsic::CosF64);
    }
    if name == "tanf32"@ {
        paths_are_unambiguous(path, i, RustFloatMathIntrinsic::TanF32);
    }
    if name == "tanf64"@ {
        paths_are_unambiguous(path, i, RustFloatMathIntrinsic::TanF64);
    }
    if name == "powf32"@ {
        paths_are_unambiguous(path, i, RustFloatMathIntrinsic::PowfF32);
    }
    if name == "powf64"@ {
        paths_are_unambiguous(path, i, RustFloatMathIntrinsic::PowfF64);
    }
    if name == "expf32"@ {
        paths_are_unambiguous(path, i, RustFloatMathIntrinsic::ExpF32);
    }
    if name == "expf64"@ {
        paths_are_unambiguous(path, i, RustFloatMathIntrinsic::ExpF64);
    }
    if name == "exp2f32"@ {
        paths_are_unambiguous(path, i, RustFloatMathIntrinsic::Exp2F32);
    }
    if name == "exp2f64"@ {
        paths_are_unambiguous(path, i, RustFloatMathIntrinsic::Exp2F64);
    }
    if name == "logf32"@ {
        paths_are_unambiguous(path, i, RustFloatMathIntrinsic::LogF32);
    }
    if name == "logf64"@ {
        paths_are_unambiguous(path, i, RustFloatMathIntrinsic::LogF64);
    }
    if name == "log2f32"@ {
        paths_are_unambiguous(path, i, RustFloatMathIntrinsic::Log2F32);
    }
    if name == "log2f64"@ {
        paths_are_unambiguous(path, i, RustFloatMathIntrinsic::Log2F64);
    }
    if name == "log10f32"@ {
        paths_are_unambiguous(path, i, RustFloatMathIntrinsic::Log10F32);
    }
    if name == "log10f64"@ {
        paths_are_unambiguous(path, i, RustFloatMathIntrinsic::Log10F64);
    }
    if name == "fmaf32"@ {
        paths_are_unambiguous(path, i, RustFloatMathIntrinsic::FmaF32);
    }
    if name == "fmaf64"@ {
        paths_are_unambiguous(path, i, RustFloatMathIntrinsic::FmaF64);
    }
    if name == "fmuladdf32"@ {
        paths_are_unambiguous(path, i, RustFloatMathIntrinsic::FmuladdF32);
    }
    if name == "fmuladdf64"@ {
        paths_are_unambiguous(path, i, RustFloatMathIntrinsic::FmuladdF64);
    }
    if name == "floorf32"@ {
        paths_are_unambiguous(path, i, RustFloatMathIntrinsic::FloorF32);
    }
    if name == "floorf64"@ {
        paths_are_unambiguous(path, i, RustFloatMathIntrinsic::FloorF64);
    }
    if name == "ceilf32"@ {
        paths_are_unambiguous(path, i, RustFloatMathIntrinsic::CeilF32);
    }
    if name == "ceilf64"@ {
        paths_are_unambiguous(path, i, RustFloatMathIntrinsic::CeilF64);
    }
    if name == "truncf32"@ {
        paths_are_unambiguous(path, i, RustFloatMathIntrinsic::TruncF32);
    }
    if name == "truncf64"@ {
        paths_are_unambiguous(path, i, RustFloatMathIntrinsic::TruncF64);
    }
    if name == "roundf32"@ {
        paths_are_unambiguous(path, i, RustFloatMathIntrinsic::RoundF32);
    }
    if name == "roundf64"@ {
        paths_are_unambiguous(path, i, RustFloatMathIntrinsic::RoundF64);
    }
    if name == "round_ties_even_f32"@ {
        paths_are_unambiguous(path, i, RustFloatMathIntrinsic::RoundevenF32);
    }
    if name == "round_ties_even_f64"@ {
        paths_are_unambiguous(path, i, RustFloatMathIntrinsic::RoundevenF64);
    }
    if name == "fabs"@ {
        paths_are_unambiguous(path, i, RustFloatMathIntrinsic::Fabs);
    }
    if name == "copysignf32"@ {
        paths_are_unambiguous(path, i, RustFloatMathIntrinsic::CopysignF32);
    }
    if name == "copysignf64"@ {
        paths_are_unambiguous(path, i, RustFloatMathIntrinsic::CopysignF64);
    }
}

/// The call of a function of the C library goes to the placeholder of the same function
/// and width.
pub proof fn library_functions_call_their_own_placeholder(
    names: PlaceholderNames,
    name: Seq<char>,
    i: RustFloatMathIntrinsic,
)
    requires
        i.has_path("std::sys::cmath::"@ + name),
    ensures
        name == "atan2f"@ ==> i.placeholder(names) == names.atan2_f32@,
        name == "atan2"@ ==> i.placeholder(names) == names.atan2_f64@,
        name == "atanf"@ ==> i.placeholder(names) == names.atan_f32@,
        name == "atan"@ ==> i.placeholder(names) == names.atan_f64@,
{
    let path = "std::sys::cmath::"@ + name;
    if name == "atan2f"@ {
        paths_are_unambiguous(path, i, RustFloatMathIntrinsic::Atan2F32);
    }
    if name == "atan2"@ {
        paths_are_unambiguous(path, i, RustFloatMathIntrinsic::Atan2F64);
    }
    if name == "atanf"@ {
        paths_are_unambiguous(path, i, RustFloatMathIntrinsic::AtanF32);
    }
    if name == "atan"@ {
        paths_are_unambiguous(path, i, RustFloatMathIntrinsic::AtanF64);
    }
}

/// The call that stands for a function has its placeholder for the callee and keeps the
/// operands, the destination, the continuation and the place of the call. It fails only
/// where the destination has no type, and then with that reason.
pub proof fn calls_keep_their_operands(
    names: PlaceholderNames,
    intrinsic: RustFloatMathIntrinsic,
    args: Vec<Result<Operand, String>>,
    destination: usize,
    return_type: Result<u64, String>,
    target: Option<usize>,
    prev: Option<usize>,
    loc: u64,
    r: Result<FunctionCall, String>,
)
    requires
        call_ensures(
            emit_rust_float_math_intrinsic,
            (&names, intrinsic, args, destination, return_type, target, prev, loc),
            r,
        ),
    ensures
        r is Ok <==> return_type is Ok,
        r matches Err(reason) ==> return_type == Err::<u64, String>(reason),
        r matches Ok(call) ==> {
            &&& call.args == args
            &&& call.destination == destination
            &&& return_type == Ok::<u64, String>(call.return_type)
            &&& call.target == target
            &&& call.prev == prev
            &&& call.loc == loc
            &&& match intrinsic {
                RustFloatMathIntrinsic::SqrtF32 => call.callee@ == names.sqrt_f32@,
                RustFloatMathIntrinsic::SqrtF64 => call.callee@ == names.sqrt_f64@,
                RustFloatMathIntrinsic::PowiF32 => call.callee@ == names.powi_f32@,
                RustFloatMathIntrinsic::PowiF64 => call.callee@ == names.powi_f64@,
                RustFloatMathIntrinsic::SinF32 => call.callee@ == names.sin_f32@,
                RustFloatMathIntrinsic::SinF64 => call.callee@ == names.sin_f64@,
                RustFloatMathIntrinsic::CosF32 => call.callee@ == names.cos_f32@,
                RustFloatMathIntrinsic::CosF64 => call.callee@ == names.cos_f64@,
                RustFloatMathIntrinsic::TanF32 => call.callee@ == names.tan_f32@,
                RustFloatMathIntrinsic::TanF64 => call.callee@ == names.tan_f64@,
                RustFloatMathIntrinsic::PowfF32 => call.callee@ == names.powf_f32@,
                RustFloatMathIntrinsic::PowfF64 => call.callee@ == names.powf_f64@,
                RustFloatMathIntrinsic::ExpF32 => call.callee@ == names.exp_f32@,
                RustFloatMathIntrinsic::ExpF64 => call.callee@ == names.exp_f64@,
                RustFloatMathIntrinsic::Exp2F32 => call.callee@ == names.exp2_f32@,
                RustFloatMathIntrinsic::Exp2F64 => call.callee@ == names.exp2_f64@,
                RustFloatMathIntrinsic::LogF32 => call.callee@ == names.log_f32@,
                RustFloatMathIntrinsic::LogF64 => call.callee@ == names.log_f64@,
                RustFloatMathIntrinsic::Log2F32 => call.callee@ == names.log2_f32@,
                RustFloatMathIntrinsic::Log2F64 => call.callee@ == names.log2_f64@,
                RustFloatMathIntrinsic::Log10F32 => call.callee@ == names.log10_f32@,
                RustFloatMathIntrinsic::Log10F64 => call.callee@ == names.log10_f64@,
                RustFloatMathIntrinsic::FmaF32 => call.callee@ == names.fma_f32@,
                RustFloatMathIntrinsic::FmaF64 => call.callee@ == names.fma_f64@,
                RustFloatMathIntrinsic::FmuladdF32 => call.callee@ == names.fmuladd_f32@,
                RustFloatMathIntrinsic::FmuladdF64 => call.callee@ == names.fmuladd_f64@,
                RustFloatMathIntrinsic::FloorF32 => call.callee@ == names.floor_f32@,
                RustFloatMathIntrinsic::FloorF64 => call.callee@ == names.floor_f64@,
                RustFloatMathIntrinsic::CeilF32 => call.callee@ == names.ceil_f32@,
                RustFloatMathIntrinsic::CeilF64 => call.callee@ == names.ceil_f64@,
                RustFloatMathIntrinsic::TruncF32 => call.callee@ == names.trunc_f32@,
                RustFloatMathIntrinsic::TruncF64 => call.callee@ == names.trunc_f64@,
                RustFloatMathIntrinsic::RoundF32 => call.callee@ == names.round_f32@,
                RustFloatMathIntrinsic::RoundF64 => call.callee@ == names.round_f64@,
                RustFloatMathIntrinsic::RoundevenF32 => call.callee@ == names.roundeven_f32@,
                RustFloatMathIntrinsic::RoundevenF64 => call.callee@ == names.roundeven_f64@,
                RustFloatMathIntrinsic::Fabs => call.callee@ == names.fabs@,
                RustFloatMathIntrinsic::CopysignF32 => call.callee@ == names.copysign_f32@,
                RustFloatMathIntrinsic::CopysignF64 => call.callee@ == names.copysign_f64@,
                RustFloatMathIntrinsic::Atan2F32 => call.callee@ == names.atan2_f32@,
                RustFloatMathIntrinsic::Atan2F64 => call.callee@ == names.atan2_f64@,
                RustFloatMathIntrinsic::AtanF32 => call.callee@ == names.atan_f32@,
                RustFloatMathIntrinsic::AtanF64 => call.callee@ == names.atan_f64@,
            }
        },
{
}

/// A path is recognised exactly where it is one of those that some function has, and the
/// function that is recognised is the one of that path.
pub proof fn recognised_paths_name_their_function(path: &str, r: Option<RustFloatMathIntrinsic>)
    requires
        call_ensures(RustFloatMathIntrinsic::from_core_path, (path,), r),
    ensures
        r == Some(RustFloatMathIntrinsic::SqrtF32) <==> path@ == "core::intrinsics::"@ + "sqrtf32"@ || path@
            == "std::intrinsics::"@ + "sqrtf32"@,
        r == Some(RustFloatMathIntrinsic::SqrtF64) <==> path@ == "core::intrinsics::"@ + "sqrtf64"@ || path@
            == "std::intrinsics::"@ + "sqrtf64"@,
        r == Some(RustFloatMathIntrinsic::PowiF32) <==> path@ == "core::intrinsics::"@ + "powif32"@ || path@
            == "std::intrinsics::"@ + "powif32"@,
        r == Some(RustFloatMathIntrinsic::PowiF64) <==> path@ == "core::intrinsics::"@ + "powif64"@ || path@
            == "std::intrinsics::"@ + "powif64"@,
        r == Some(RustFloatMathIntrinsic::SinF32) <==> path@ == "core::intrinsics::"@ + "sinf32"@ || path@
            == "std::intrinsics::"@ + "sinf32"@,
        r == Some(RustFloatMathIntrinsic::SinF64) <==> path@ == "core::intrinsics::"@ + "sinf64"@ || path@
            == "std::intrinsics::"@ + "sinf64"@,
        r == Some(RustFloatMathIntrinsic::CosF32) <==> path@ == "core::intrinsics::"@ + "cosf32"@ || path@
            == "std::intrinsics::"@ + "cosf32"@,
        r == Some(RustFloatMathIntrinsic::CosF64) <==> path@ == "core::intrinsics::"@ + "cosf64"@ || path@
            == "std::intrinsics::"@ + "cosf64"@,
        r == Some(RustFloatMathIntrinsic::TanF32) <==> path@ == "core::intrinsics::"@ + "tanf32"@ || path@
            == "std::intrinsics::"@ + "tanf32"@,
        r == Some(RustFloatMathIntrinsic::TanF64) <==> path@ == "core::intrinsics::"@ + "tanf64"@ || path@
            == "std::intrinsics::"@ + "tanf64"@,
        r == Some(RustFloatMathIntrinsic::PowfF32) <==> path@ == "core::intrinsics::"@ + "powf32"@ || path@
            == "std::intrinsics::"@ + "powf32"@,
        r == Some(RustFloatMathIntrinsic::PowfF64) <==> path@ == "core::intrinsics::"@ + "powf64"@ || path@
            == "std::intrinsics::"@ + "powf64"@,
        r == Some(RustFloatMathIntrinsic::ExpF32) <==> path@ == "core::intrinsics::"@ + "expf32"@ || path@
            == "std::intrinsics::"@ + "expf32"@,
        r == Some(RustFloatMathIntrinsic::ExpF64) <==> path@ == "core::intrinsics::"@ + "expf64"@ || path@
            == "std::intrinsics::"@ + "expf64"@,
        r == Some(RustFloatMathIntrinsic::Exp2F32) <==> path@ == "core::intrinsics::"@ + "exp2f32"@ || path@
            == "std::intrinsics::"@ + "exp2f32"@,
        r == Some(RustFloatMathIntrinsic::Exp2F64) <==> path@ == "core::intrinsics::"@ + "exp2f64"@ || path@
            == "std::intrinsics::"@ + "exp2f64"@,
        r == Some(RustFloatMathIntrinsic::LogF32) <==> path@ == "core::intrinsics::"@ + "logf32"@ || path@
            == "std::intrinsics::"@ + "logf32"@,
        r == Some(RustFloatMathIntrinsic::LogF64) <==> path@ == "core::intrinsics::"@ + "logf64"@ || path@
            == "std::intrinsics::"@ + "logf64"@,
        r == Some(RustFloatMathIntrinsic::Log2F32) <==> path@ == "core::intrinsics::"@ + "log2f32"@ || path@
            == "std::intrinsics::"@ + "log2f32"@,
        r == Some(RustFloatMathIntrinsic::Log2F64) <==> path@ == "core::intrinsics::"@ + "log2f64"@ || path@
            == "std::intrinsics::"@ + "log2f64"@,
        r == Some(RustFloatMathIntrinsic::Log10F32) <==> path@ == "core::intrinsics::"@ + "log10f32"@ || path@
            == "std::intrinsics::"@ + "log10f32"@,
        r == Some(RustFloatMathIntrinsic::Log10F64) <==> path@ == "core::intrinsics::"@ + "log10f64"@ || path@
            == "std::intrinsics::"@ + "log10f64"@,
        r == Some(RustFloatMathIntrinsic::FmaF32) <==> path@ == "core::intrinsics::"@ + "fmaf32"@ || path@
            == "std::intrinsics::"@ + "fmaf32"@,
        r == Some(RustFloatMathIntrinsic::FmaF64) <==> path@ == "core::intrinsics::"@ + "fmaf64"@ || path@
            == "std::intrinsics::"@ + "fmaf64"@,
        r == Some(RustFloatMathIntrinsic::FmuladdF32) <==> path@ == "core::intrinsics::"@ + "fmuladdf32"@ || path@
            == "std::intrinsics::"@ + "fmuladdf32"@,
        r == Some(RustFloatMathIntrinsic::FmuladdF64) <==> path@ == "core::intrinsics::"@ + "fmuladdf64"@ || path@
            == "std::intrinsics::"@ + "fmuladdf64"@,
        r == Some(RustFloatMathIntrinsic::FloorF32) <==> path@ == "core::intrinsics::"@ + "floorf32"@ || path@
            == "std::intrinsics::"@ + "floorf32"@,
        r == Some(RustFloatMathIntrinsic::FloorF64) <==> path@ == "core::intrinsics::"@ + "floorf64"@ || path@
            == "std::intrinsics::"@ + "floorf64"@,
        r == Some(RustFloatMathIntrinsic::CeilF32) <==> path@ == "core::intrinsics::"@ + "ceilf32"@ || path@
            == "std::intrinsics::"@ + "ceilf32"@,
        r == Some(RustFloatMathIntrinsic::CeilF64) <==> path@ == "core::intrinsics::"@ + "ceilf64"@ || path@
            == "std::intrinsics::"@ + "ceilf64"@,
        r == Some(RustFloatMathIntrinsic::TruncF32) <==> path@ == "core::intrinsics::"@ + "truncf32"@ || path@
            == "std::intrinsics::"@ + "truncf32"@,
        r == Some(RustFloatMathIntrinsic::TruncF64) <==> path@ == "core::intrinsics::"@ + "truncf64"@ || path@
            == "std::intrinsics::"@ + "truncf64"@,
        r == Some(RustFloatMathIntrinsic::RoundF32) <==> path@ == "core::intrinsics::"@ + "roundf32"@ || path@
            == "std::intrinsics::"@ + "roundf32"@,
        r == Some(RustFloatMathIntrinsic::RoundF64) <==> path@ == "core::intrinsics::"@ + "roundf64"@ || path@
            == "std::intrinsics::"@ + "roundf64"@,
        r == Some(RustFloatMathIntrinsic::RoundevenF32) <==> path@ == "core::intrinsics::"@ + "round_ties_even_f32"@ || path@
            == "std::intrinsics::"@ + "round_ties_even_f32"@,
        r == Some(RustFloatMathIntrinsic::RoundevenF64) <==> path@ == "core::intrinsics::"@ + "round_ties_even_f64"@ || path@
            == "std::intrinsics::"@ + "round_ties_even_f64"@,
        r == Some(RustFloatMathIntrinsic::Fabs) <==> path@ == "core::intrinsics::"@ + "fabs"@ || path@
            == "std::intrinsics::"@ + "fabs"@,
        r == Some(RustFloatMathIntrinsic::CopysignF32) <==> path@ == "core::intrinsics::"@ + "copysignf32"@ || path@
            == "std::intrinsics::"@ + "copysignf32"@,
        r == Some(RustFloatMathIntrinsic::CopysignF64) <==> path@ == "core::intrinsics::"@ + "copysignf64"@ || path@
            == "std::intrinsics::"@ + "copysignf64"@,
        r == Some(RustFloatMathIntrinsic::Atan2F32) <==> path@ == "std::sys::cmath::"@ + "atan2f"@,
        r == Some(RustFloatMathIntrinsic::Atan2F64) <==> path@ == "std::sys::cmath::"@ + "atan2"@,
        r == Some(RustFloatMathIntrinsic::AtanF32) <==> path@ == "std::sys::cmath::"@ + "atanf"@,
        r == Some(RustFloatMathIntrinsic::AtanF64) <==> path@ == "std::sys::cmath::"@ + "atan"@,
{
    lemma_recognised(path@, r, RustFloatMathIntrinsic::SqrtF32);
    lemma_recognised(path@, r, RustFloatMathIntrinsic::SqrtF64);
    lemma_recognised(path@, r, RustFloatMathIntrinsic::PowiF32);
    lemma_recognised(path@, r, RustFloatMathIntrinsic::PowiF64);
    lemma_recognised(path@, r, RustFloatMathIntrinsic::SinF32);
    lemma_recognised(path@, r, RustFloatMathIntrinsic::SinF64);
    lemma_recognised(path@, r, RustFloatMathIntrinsic::CosF32);
    lemma_recognised(path@, r, RustFloatMathIntrinsic::CosF64);
    lemma_recognised(path@, r, RustFloatMathIntrinsic::TanF32);
    lemma_recognised(path@, r, RustFloatMathIntrinsic::TanF64);
    lemma_recognised(path@, r, RustFloatMathIntrinsic::PowfF32);
    lemma_recognised(path@, r, RustFloatMathIntrinsic::PowfF64);
    lemma_recognised(path@, r, RustFloatMathIntrinsic::ExpF32);
    lemma_recognised(path@, r, RustFloatMathIntrinsic::ExpF64);
    lemma_recognised(path@, r, RustFloatMathIntrinsic::Exp2F32);
    lemma_recognised(path@, r, RustFloatMathIntrinsic::Exp2F64);
    lemma_recognised(path@, r, RustFloatMathIntrinsic::LogF32);
    lemma_recognised(path@, r, RustFloatMathIntrinsic::LogF64);
    lemma_recognised(path@, r, RustFloatMathIntrinsic::Log2F32);
    lemma_recognised(path@, r, RustFloatMathIntrinsic::Log2F64);
    lemma_recognised(path@, r, RustFloatMathIntrinsic::Log10F32);
    lemma_recognised(path@, r, RustFloatMathIntrinsic::Log10F64);
    lemma_recognised(path@, r, RustFloatMathIntrinsic::FmaF32);
    lemma_recognised(path@, r, RustFloatMathIntrinsic::FmaF64);
    lemma_recognised(path@, r, RustFloatMathIntrinsic::FmuladdF32);
    lemma_recognised(path@, r, RustFloatMathIntrinsic::FmuladdF64);
    lemma_recognised(path@, r, RustFloatMathIntrinsic::FloorF32);
    lemma_recognised(path@, r, RustFloatMathIntrinsic::FloorF64);
    lemma_recognised(path@, r, RustFloatMathIntrinsic::CeilF32);
    lemma_recognised(path@, r, RustFloatMathIntrinsic::CeilF64);
    lemma_recognised(path@, r, RustFloatMathIntrinsic::TruncF32);
    lemma_recognised(path@, r, RustFloatMathIntrinsic::TruncF64);
    lemma_recognised(path@, r, RustFloatMathIntrinsic::RoundF32);
    lemma_recognised(path@, r, RustFloatMathIntrinsic::RoundF64);
    lemma_recognised(path@, r, RustFloatMathIntrinsic::RoundevenF32);
    lemma_recognised(path@, r, RustFloatMathIntrinsic::RoundevenF64);
    lemma_recognised(path@, r, RustFloatMathIntrinsic::Fabs);
    lemma_recognised(path@, r, RustFloatMathIntrinsic::CopysignF32);
    lemma_recognised(path@, r, RustFloatMathIntrinsic::CopysignF64);
    lemma_recognised(path@, r, RustFloatMathIntrinsic::Atan2F32);
    lemma_recognised(path@, r, RustFloatMathIntrinsic::Atan2F64);
    lemma_recognised(path@, r, RustFloatMathIntrinsic::AtanF32);
    lemma_recognised(path@, r, RustFloatMathIntrinsic::AtanF64);
}

proof fn lemma_recognised(
    path: Seq<char>,
    r: Option<RustFloatMathIntrinsic>,
    i: RustFloatMathIntrinsic,
)
    requires
        r is Some ==> r->0.has_path(path),
        r is Some <==> RustFloatMathIntrinsic::recognises(path),
    ensures
        r == Some(i) <==> i.has_path(path),
{
    if i.has_path(path) {
        if let Some(found) = r {
            paths_are_unambiguous(path, i, found);
        }
    }
}

}
