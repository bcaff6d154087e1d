//! What the text building blocks and the sidecar files mean.

use crate::apint::IntegerAttr;
use crate::cuda_arch::CudaArch;
use crate::load_laws::spelling;
use crate::ltoir_error::LtoirError;
use crate::sidecar::is_line;
use crate::sidecar::read_emitted_target;
use crate::sidecar::read_fma_contraction_option;
use crate::sidecar::resolve_source_target;
use crate::sidecar::validate_ir_target_sidecar;
use crate::sidecar::write_artifact_target_sidecar;
use crate::sidecar::FileText;
use crate::sidecar::OptionsFile;
use crate::sidecar::Sidecars;
use crate::text::contains;
use crate::text::decimal;
use crate::text::push_decimal;
use crate::text::push_signed_decimal;
use crate::text::replace_char;
use crate::text::starts_with;
use crate::text::str_eq;
use crate::text::strip_prefix;
use crate::text::trim;
use vstd::prelude::*;

verus! {

broadcast use vstd::string::group_string_axioms;

// ---------------------------------------------------------------------------
// Numbers
// ---------------------------------------------------------------------------

/// The number that the first `n` digits of `s` spell in base ten.
pub open spec fn value_of(s: Seq<char>, n: nat) -> nat
    decreases n,
{
    if n == 0 {
        0
    } else {
        10 * value_of(s, (n - 1) as nat) + (s[n - 1] as nat - '0' as nat) as nat
    }
}

/// `s` consists of decimal digits and begins with a zero only where it is nothing else.
pub open spec fn is_number(s: Seq<char>) -> bool {
    &&& s.len() > 0
    &&& forall|i: int| 0 <= i < s.len() ==> '0' <= #[trigger] s[i] <= '9'
    &&& s.len() > 1 ==> s[0] != '0'
}

proof fn lemma_value(s: Seq<char>, t: Seq<char>, n: nat)
    requires
        n <= s.len(),
        n <= t.len(),
        forall|i: int| 0 <= i < n ==> s[i] == t[i],
    ensures
        value_of(s, n) == value_of(t, n),
    decreases n,
{
    if n > 0 {
        lemma_value(s, t, (n - 1) as nat);
    }
}

proof fn lemma_decimal(n: nat)
    ensures
        is_number(decimal(n)),
        value_of(decimal(n), decimal(n).len()) == n,
        n > 0 ==> decimal(n)[0] != '0',
    decreases n,
{
    if n < 10 {
        assert(value_of(decimal(n), 0) == 0);
        assert(value_of(decimal(n), 1) == n);
    } else {
        let head = decimal(n / 10);
        lemma_decimal(n / 10);
        lemma_value(decimal(n), head, head.len());
        assert(decimal(n).len() == head.len() + 1);
        assert(decimal(n)[0] == head[0]);
    }
}

/// A number is written behind the text in decimal digits that spell it, without leading
/// zeros.
pub proof fn numbers_are_written_in_decimal(out: &mut String, n: u64)
    requires
        call_ensures(push_decimal, (out, n), ()),
    ensures
        exists|digits: Seq<char>|
            #![trigger is_number(digits)]
            is_number(digits) && value_of(digits, digits.len()) == n && final(out)@ == old(out)@
                + digits,
{
    lemma_decimal(n as nat);
    let digits = decimal(n as nat);
    assert(is_number(digits));
}

/// A negative number is written as a minus sign and its magnitude, any other as itself.
pub proof fn signed_numbers_are_written_in_decimal(out: &mut String, n: i32)
    requires
        call_ensures(push_signed_decimal, (out, n), ()),
    ensures
        exists|digits: Seq<char>|
            #![trigger is_number(digits)]
            is_number(digits) && value_of(digits, digits.len()) == (if n < 0 {
                -n
            } else {
                n as int
            }) && final(out)@ == (if n < 0 {
                old(out)@.push('-') + digits
            } else {
                old(out)@ + digits
            }),
{
    let size = if n < 0 {
        (-n) as nat
    } else {
        n as nat
    };
    lemma_decimal(size);
    let digits = decimal(size);
    assert(is_number(digits));
    assert(old(out)@ + (seq!['-'] + digits) =~= old(out)@.push('-') + digits);
}

/// An integer attribute keeps a number of up to 63 bits that fits its width, prints it in
/// decimal and gives it back.
pub proof fn integers_keep_what_fits(
    value: i64,
    width: u32,
    attr: IntegerAttr,
    text: String,
    word: u32,
)
    requires
        0 < width <= 128,
        0 <= value,
        value < vstd::arithmetic::power2::pow2(width as nat),
        call_ensures(IntegerAttr::from_i64, (value, width), attr),
        call_ensures(IntegerAttr::to_string_unsigned_decimal, (&attr,), text),
        call_ensures(IntegerAttr::to_u32, (&attr,), word),
    ensures
        attr.width == width,
        is_number(text@) && value_of(text@, text@.len()) == value,
        value <= u32::MAX ==> word == value,
{
    crate::apint::unsigned_gives_back_what_fits(value as nat, width as nat);
    lemma_decimal(value as nat);
    vstd::arithmetic::power2::lemma2_to64();
    if value <= u32::MAX {
        crate::apint::unsigned_gives_back_what_fits(value as nat, 32);
    }
}

// ---------------------------------------------------------------------------
// Parts of texts
// ---------------------------------------------------------------------------

/// `s` is the three parts one behind the other.
pub open spec fn three_parts(s: Seq<char>, a: Seq<char>, b: Seq<char>, c: Seq<char>) -> bool {
    s == a + b + c
}

/// Two texts are equal exactly where they have the same characters.
pub proof fn equal_texts_have_the_same_characters(a: &str, b: &str, r: bool)
    requires
        call_ensures(str_eq, (a, b), r),
    ensures
        r <==> a@.len() == b@.len() && forall|i: int|
            0 <= i < a@.len() ==> #[trigger] a@[i] == b@[i],
{
    if a@.len() == b@.len() && forall|i: int| 0 <= i < a@.len() ==> #[trigger] a@[i] == b@[i] {
        assert(a@ =~= b@);
    }
}

/// A text begins with a prefix exactly where something follows the prefix in it, and that is
/// what is left without the prefix.
pub proof fn prefixes_are_followed_by_the_rest(
    s: &str,
    prefix: &str,
    begins: bool,
    left: Option<String>,
)
    requires
        call_ensures(starts_with, (s, prefix), begins),
        call_ensures(strip_prefix, (s, prefix), left),
    ensures
        begins <==> left is Some,
        left matches Some(rest) ==> s@ == prefix@ + rest@,
        forall|rest: Seq<char>|
            s@ == #[trigger] (prefix@ + rest) ==> (left matches Some(found) && found@ == rest),
{
    if crate::text::has_prefix(s@, prefix@) {
        assert(s@ =~= prefix@ + s@.skip(prefix@.len() as int));
    }
    assert forall|rest: Seq<char>| s@ == #[trigger] (prefix@ + rest) implies (
    left matches Some(found) && found@ == rest) by {
        assert(s@.take(prefix@.len() as int) =~= prefix@);
        assert(s@.skip(prefix@.len() as int) =~= rest);
    }
}

/// A text contains another exactly where it is some text, the other and some text.
pub proof fn contained_texts_stand_between_two_others(s: &str, needle: &str, r: bool)
    requires
        call_ensures(contains, (s, needle), r),
    ensures
        r <==> exists|a: Seq<char>, c: Seq<char>| #[trigger] three_parts(s@, a, needle@, c),
{
    if crate::text::has_substring(s@, needle@) {
        let at = choose|at: int| #[trigger] crate::text::occurs_at(s@, needle@, at);
        let a = s@.take(at);
        let c = s@.skip(at + needle@.len());
        assert(s@ =~= a + needle@ + c);
        assert(three_parts(s@, a, needle@, c));
    }
    if exists|a: Seq<char>, c: Seq<char>| #[trigger] three_parts(s@, a, needle@, c) {
        let (a, c) = choose|a: Seq<char>, c: Seq<char>| #[trigger]
            three_parts(s@, a, needle@, c);
        assert(s@.subrange(a.len() as int, a.len() as int + needle@.len()) =~= needle@);
        assert(crate::text::occurs_at(s@, needle@, a.len() as int));
    }
}

/// Replacing a character changes its occurrences and nothing else.
pub proof fn replacements_change_one_character(s: &str, from: char, to: char, r: String)
    requires
        call_ensures(replace_char, (s, from, to), r),
    ensures
        r@.len() == s@.len(),
        forall|i: int| 0 <= i < s@.len() && s@[i] == from ==> #[trigger] r@[i] == to,
        forall|i: int| 0 <= i < s@.len() && s@[i] != from ==> #[trigger] r@[i] == s@[i],
{
}

proof fn lemma_trimmed_start(s: Seq<char>)
    ensures
        ({
            let t = crate::text::trimmed_start(s);
            &&& t.len() <= s.len()
            &&& t == s.skip(s.len() - t.len())
            &&& t.len() > 0 ==> !crate::text::is_white_space(t[0])
            &&& forall|i: int|
                0 <= i < s.len() - t.len() ==> crate::text::is_white_space(#[trigger] s[i])
        }),
    decreases s.len(),
{
    let t = crate::text::trimmed_start(s);
    if s.len() > 0 && crate::text::is_white_space(s[0]) {
        let u = s.skip(1);
        lemma_trimmed_start(u);
        assert(u.skip(u.len() - t.len()) =~= s.skip(s.len() - t.len()));
        assert forall|i: int| 0 <= i < s.len() - t.len() implies crate::text::is_white_space(
            #[trigger] s[i],
        ) by {
            if i > 0 {
                assert(u[i - 1] == s[i]);
            }
        }
    } else {
        assert(s.skip(0) =~= s);
    }
}

proof fn lemma_trimmed_end(s: Seq<char>)
    ensures
        ({
            let t = crate::text::trimmed_end(s);
            &&& t.len() <= s.len()
            &&& t == s.take(t.len() as int)
            &&& t.len() > 0 ==> !crate::text::is_white_space(t.last())
            &&& forall|i: int|
                t.len() <= i < s.len() ==> crate::text::is_white_space(#[trigger] s[i])
        }),
    decreases s.len(),
{
    let t = crate::text::trimmed_end(s);
    if s.len() > 0 && crate::text::is_white_space(s.last()) {
        let u = s.drop_last();
        lemma_trimmed_end(u);
        assert(u.take(t.len() as int) =~= s.take(t.len() as int));
        assert forall|i: int| t.len() <= i < s.len() implies crate::text::is_white_space(
            #[trigger] s[i],
        ) by {
            if i < s.len() - 1 {
                assert(u[i] == s[i]);
            }
        }
    } else {
        assert(s.take(s.len() as int) =~= s);
    }
}

/// Trimming takes the white space from both ends and nothing else.
pub proof fn trimming_takes_white_space_from_the_ends(s: &str, r: String)
    requires
        call_ensures(trim, (s,), r),
    ensures
        r@.len() > 0 ==> !crate::text::is_white_space(r@[0]) && !crate::text::is_white_space(
            r@.last(),
        ),
        exists|from: int|
            0 <= from && from + r@.len() <= s@.len() && #[trigger] s@.subrange(
                from,
                from + r@.len(),
            ) == r@ && (forall|i: int|
                0 <= i < from || from + r@.len() <= i < s@.len() ==> crate::text::is_white_space(
                    #[trigger] s@[i],
                )),
{
    let mid = crate::text::trimmed_start(s@);
    lemma_trimmed_start(s@);
    lemma_trimmed_end(mid);
    let from = s@.len() - mid.len();
    assert(s@.subrange(from, from + r@.len()) =~= r@);
    if r@.len() > 0 {
        assert(r@[0] == mid[0]);
    }
    assert forall|i: int|
        0 <= i < from || from + r@.len() <= i < s@.len() implies crate::text::is_white_space(
        #[trigger] s@[i],
    ) by {
        if i >= from {
            assert(mid[i - from] == s@[i]);
        }
    }
}

// ---------------------------------------------------------------------------
// Sidecar files
// ---------------------------------------------------------------------------

/// The contraction policy is the one of the options file; contraction is allowed where there
/// is no such file, and a file that says nothing is an error.
pub proof fn options_files_decide_the_policy(
    artifact: &str,
    options: OptionsFile,
    r: Result<bool, LtoirError>,
)
    requires
        call_ensures(read_fma_contraction_option, (artifact, &options), r),
    ensures
        options matches OptionsFile::Policy(allow) ==> r == Ok::<bool, LtoirError>(allow),
        options is NotFound ==> r == Ok::<bool, LtoirError>(true),
        options is Malformed || options is Failed ==> r is Err,
{
}

/// An artifact was emitted for the target that it records, and for the one that is given
/// only where it records none.
pub proof fn recorded_targets_go_before_given_ones(
    recorded: Option<CudaArch>,
    given: Option<&str>,
    arch: CudaArch,
    r: Result<CudaArch, LtoirError>,
)
    requires
        call_ensures(resolve_source_target, (recorded, given), r),
    ensures
        recorded matches Some(own) ==> r == Ok::<CudaArch, LtoirError>(own),
        recorded is None && given is None ==> r == Err::<CudaArch, LtoirError>(
            LtoirError::TargetNotFound,
        ),
        recorded is None && (given matches Some(text) && text@ == spelling("sm_"@, arch)) ==> r
            == Ok::<CudaArch, LtoirError>(arch),
{
    assert(arch.sm_text() =~= spelling("sm_"@, arch));
    crate::cuda_arch::spellings_name_the_architecture(arch);
}

/// What is written to the target file for an architecture is read back as that architecture
/// while the options file stays as it is; the artifact is then accepted for that
/// architecture and refused for any other.
pub proof fn written_targets_are_read_back_and_checked(
    artifact: &str,
    before: Sidecars,
    after: Sidecars,
    marker: &str,
    target: CudaArch,
    other: CudaArch,
    text: String,
    read: Result<Option<CudaArch>, LtoirError>,
    same: Result<(), LtoirError>,
    different: Result<(), LtoirError>,
)
    requires
        is_line(marker@),
        target != other,
        call_ensures(
            write_artifact_target_sidecar,
            (artifact, &before, marker, &target),
            Ok::<String, LtoirError>(text),
        ),
        after.target == FileText::Contents(text),
        after.options_exist == before.options_exist,
        after.options == before.options,
        call_ensures(read_emitted_target, (artifact, &after, marker), read),
        call_ensures(validate_ir_target_sidecar, (artifact, &after, marker, &target), same),
        call_ensures(validate_ir_target_sidecar, (artifact, &after, marker, &other), different),
    ensures
        read == Ok::<Option<CudaArch>, LtoirError>(Some(target)),
        same is Ok,
        different matches Err(LtoirError::TargetMismatch { ir_path, emitted, requested })
            && ir_path@ == artifact@ && emitted@ == spelling("sm_"@, target) && requested@
            == spelling("sm_"@, other),
{
    crate::sidecar::written_target_is_read_back(artifact@, before, after, marker@, target, text);
    assert(target.sm_text() =~= spelling("sm_"@, target));
    assert(other.sm_text() =~= spelling("sm_"@, other));
    assert(crate::sidecar::viewed(different)->Err_0 == different->Err_0@);
}

/// An artifact without a target file records no target and is accepted for any.
pub proof fn unrecorded_artifacts_are_accepted(
    artifact: &str,
    sidecars: Sidecars,
    marker: &str,
    requested: CudaArch,
    read: Result<Option<CudaArch>, LtoirError>,
    r: Result<(), LtoirError>,
)
    requires
        sidecars.target is NotFound,
        call_ensures(read_emitted_target, (artifact, &sidecars, marker), read),
        call_ensures(validate_ir_target_sidecar, (artifact, &sidecars, marker, &requested), r),
    ensures
        read == Ok::<Option<CudaArch>, LtoirError>(None),
        r is Ok,
{
}

/// A target file that says that the options are complete is refused without them.
pub proof fn complete_targets_need_their_options(
    artifact: &str,
    sidecars: Sidecars,
    marker: &str,
    text: String,
    read: Result<Option<CudaArch>, LtoirError>,
)
    requires
        sidecars.target == FileText::Contents(text),
        crate::text::lines(text@).len() > 1,
        call_ensures(read_emitted_target, (artifact, &sidecars, marker), read),
        read is Ok,
    ensures
        sidecars.options_exist == Ok::<bool, String>(true),
        !(sidecars.options is Malformed) && !(sidecars.options is Failed),
{
}

}
