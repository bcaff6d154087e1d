//! CUDA architectures.
//!
//! An architecture is a compute capability with an optional suffix. It is spelled
//! `sm_XX` for real and `compute_XX` for virtual targets; both spellings name the
//! same architecture.

use crate::text::chars_of;
use crate::text::decimal;
use crate::text::has_prefix;
use crate::text::push_decimal;
use crate::text::strip_prefix;
use vstd::prelude::*;

verus! {

broadcast use vstd::string::group_string_axioms;

/// A CUDA architecture.
#[derive(Debug, Clone, Copy, PartialEq, Eq, Structural)]
pub struct CudaArch {
    /// The compute capability: ten times the major number plus the minor.
    pub capability: u32,
    /// The architecture suffix.
    pub suffix: Option<ArchSuffix>,
}

/// An architecture suffix.
#[derive(Debug, Clone, Copy, PartialEq, Eq, Structural)]
pub enum ArchSuffix {
    /// `a`: features of this architecture only.
    A,
    /// `f`: features of this family.
    F,
}

/// A text that names no concrete CUDA architecture.
#[derive(Debug)]
pub struct CudaArchParseError {
    /// The text.
    pub value: String,
}

/// The first capability whose NVVM IR uses opaque pointers.
pub const FIRST_MODERN_CAPABILITY: u32 = 100;

/// A decimal digit.
pub open spec fn is_digit(c: char) -> bool {
    '0' <= c <= '9'
}

/// How many decimal digits `s` begins with, counted from `i`.
pub open spec fn digits_end(s: Seq<char>, i: nat) -> nat
    decreases s.len() - i,
{
    if i < s.len() && is_digit(s[i as int]) {
        digits_end(s, i + 1)
    } else {
        i
    }
}

/// The number that the digits of `s` before `i` spell.
pub open spec fn number_before(s: Seq<char>, i: nat) -> nat
    decreases i,
{
    if i == 0 {
        0
    } else {
        number_before(s, (i - 1) as nat) * 10 + (s[i - 1] as nat - '0' as nat) as nat
    }
}

/// The suffix that `s` spells.
pub open spec fn parsed_suffix(s: Seq<char>) -> Option<Option<ArchSuffix>> {
    if s.len() == 0 {
        Some(None)
    } else if s == seq!['a'] {
        Some(Some(ArchSuffix::A))
    } else if s == seq!['f'] {
        Some(Some(ArchSuffix::F))
    } else {
        None
    }
}

/// The architecture that `s` spells after the prefix: a number and a suffix.
pub open spec fn parsed_version(s: Seq<char>) -> Option<CudaArch> {
    let end = digits_end(s, 0);
    match parsed_suffix(s.skip(end as int)) {
        Some(suffix) => if end > 0 && number_before(s, end) <= u32::MAX {
            Some(CudaArch { capability: number_before(s, end) as u32, suffix })
        } else {
            None
        },
        None => None,
    }
}

/// The architecture that `s` names.
pub open spec fn parsed_arch(s: Seq<char>) -> Option<CudaArch> {
    if has_prefix(s, "sm_"@) {
        parsed_version(s.skip("sm_"@.len() as int))
    } else if has_prefix(s, "compute_"@) {
        parsed_version(s.skip("compute_"@.len() as int))
    } else {
        None
    }
}

/// How a suffix is spelled.
pub open spec fn suffix_text(suffix: Option<ArchSuffix>) -> Seq<char> {
    match suffix {
        None => seq![],
        Some(ArchSuffix::A) => seq!['a'],
        Some(ArchSuffix::F) => seq!['f'],
    }
}

impl CudaArch {
    /// The capability and the suffix.
    pub open spec fn version_text(self) -> Seq<char> {
        decimal(self.capability as nat) + suffix_text(self.suffix)
    }

    /// The spelling as a real target.
    pub open spec fn sm_text(self) -> Seq<char> {
        "sm_"@ + self.version_text()
    }

    /// The spelling as a virtual target.
    pub open spec fn compute_text(self) -> Seq<char> {
        "compute_"@ + self.version_text()
    }

    /// NVVM IR for the architecture uses the LLVM 7 dialect.
    pub open spec fn legacy(self) -> bool {
        self.capability < FIRST_MODERN_CAPABILITY
    }

    /// The architecture that `value` names.
    pub fn parse(value: &str) -> (r: Result<CudaArch, CudaArchParseError>)
        ensures
            match r {
                Ok(arch) => parsed_arch(value@) == Some(arch),
                Err(error) => parsed_arch(value@) is None && error.value@ == value@,
            },
    {
        let parsed = match strip_prefix(value, "sm_") {
            Some(rest) => parse_version(rest.as_str()),
            None => match strip_prefix(value, "compute_") {
                Some(rest) => parse_version(rest.as_str()),
                None => None,
            },
        };
        match parsed {
            Some(arch) => Ok(arch),
            None => Err(CudaArchParseError { value: value.to_owned() }),
        }
    }

    fn push_version(&self, out: &mut String)
        ensures
            final(out)@ == old(out)@ + self.version_text(),
    {
        push_decimal(out, self.capability as u64);
        match self.suffix {
            None => {},
            Some(ArchSuffix::A) => out.push('a'),
            Some(ArchSuffix::F) => out.push('f'),
        }
        assert(out@ =~= old(out)@ + self.version_text());
    }

    /// The spelling as a real target.
    pub fn sm(&self) -> (r: String)
        ensures
            r@ == self.sm_text(),
    {
        let mut r = "sm_".to_owned();
        self.push_version(&mut r);
        r
    }

    /// The spelling as a virtual target.
    pub fn compute(&self) -> (r: String)
        ensures
            r@ == self.compute_text(),
    {
        let mut r = "compute_".to_owned();
        self.push_version(&mut r);
        r
    }

    /// Whether NVVM IR for the architecture uses the LLVM 7 dialect.
    pub fn uses_legacy_llvm(&self) -> (r: bool)
        ensures
            r == self.legacy(),
    {
        self.capability < FIRST_MODERN_CAPABILITY
    }
}

proof fn lemma_number_grows(s: Seq<char>, i: nat, j: nat)
    requires
        i <= j <= s.len(),
    ensures
        number_before(s, i) <= number_before(s, j),
    decreases j,
{
    if i < j {
        lemma_number_grows(s, i, (j - 1) as nat);
        assert(number_before(s, j) >= number_before(s, (j - 1) as nat) * 10);
    }
}

fn parse_version(s: &str) -> (r: Option<CudaArch>)
    ensures
        r == parsed_version(s@),
{
    let chars = chars_of(s);
    let mut number: u64 = 0;
    let mut end: usize = 0;
    while end < chars.len() && '0' <= chars[end] && chars[end] <= '9'
        invariant
            end <= chars.len(),
            chars@ == s@,
            digits_end(s@, 0) == digits_end(s@, end as nat),
            number == number_before(s@, end as nat),
            number <= u32::MAX,
        decreases chars.len() - end,
    {
        let digit: u64 = (chars[end] as u32 - 48) as u64;
        assert(number_before(s@, (end + 1) as nat) == number * 10 + digit);
        number = number * 10 + digit;
        end += 1;
        if number > u32::MAX as u64 {
            proof {
                let all = digits_end(s@, 0);
                lemma_digits_end(s@, end as nat);
                lemma_number_grows(s@, end as nat, all);
            }
            return None;
        }
    }
    let ghost rest = s@.skip(end as int);
    if end == 0 {
        return None;
    }
    if end == chars.len() {
        return Some(CudaArch { capability: number as u32, suffix: None });
    }
    if end + 1 == chars.len() {
        if chars[end] == 'a' {
            assert(rest =~= seq!['a']);
            return Some(CudaArch { capability: number as u32, suffix: Some(ArchSuffix::A) });
        }
        if chars[end] == 'f' {
            assert(rest =~= seq!['f']);
            assert(rest[0] == 'f');
            assert(seq!['a'][0] == 'a');
            return Some(CudaArch { capability: number as u32, suffix: Some(ArchSuffix::F) });
        }
    }
    proof {
        assert(rest.len() > 0);
        assert(rest[0] == chars@[end as int]);
        assert(seq!['a'].len() == 1 && seq!['a'][0] == 'a');
        assert(seq!['f'].len() == 1 && seq!['f'][0] == 'f');
    }
    None
}

proof fn lemma_digits_end(s: Seq<char>, i: nat)
    ensures
        digits_end(s, i) >= i,
        i <= s.len() ==> digits_end(s, i) <= s.len(),
        forall|k: int| i <= k < digits_end(s, i) && k < s.len() ==> is_digit(#[trigger] s[k]),
    decreases s.len() - i,
{
    if i < s.len() && is_digit(s[i as int]) {
        lemma_digits_end(s, i + 1);
    }
}

proof fn lemma_number_of_decimal(n: nat, tail: Seq<char>)
    ensures
        number_before(decimal(n) + tail, decimal(n).len()) == n,
    decreases n,
{
    let s = decimal(n) + tail;
    let len = decimal(n).len();
    crate::text::lemma_decimal_value(n);
    if n < 10 {
        assert(s[0] == decimal(n)[0]);
        assert(number_before(s, 0) == 0);
    } else {
        let head = decimal(n / 10);
        crate::text::lemma_decimal_value(n / 10);
        lemma_number_of_decimal(n / 10, decimal(n).skip(head.len() as int) + tail);
        assert(head + (decimal(n).skip(head.len() as int) + tail) =~= s);
        assert(s[len - 1] == decimal(n)[len - 1]);
    }
}

proof fn lemma_digits_of_decimal(n: nat, tail: Seq<char>, i: nat)
    requires
        i <= decimal(n).len(),
        tail.len() > 0 ==> !is_digit(tail[0]),
    ensures
        digits_end(decimal(n) + tail, i) == decimal(n).len(),
    decreases decimal(n).len() - i,
{
    let s = decimal(n) + tail;
    crate::text::lemma_decimal_digits(n);
    if i < decimal(n).len() {
        assert(s[i as int] == decimal(n)[i as int]);
        lemma_digits_of_decimal(n, tail, i + 1);
    } else if tail.len() > 0 {
        assert(s[i as int] == tail[0]);
    }
}

proof fn lemma_version_parses(arch: CudaArch)
    ensures
        parsed_version(arch.version_text()) == Some(arch),
{
    let n = arch.capability as nat;
    let tail = suffix_text(arch.suffix);
    let s = arch.version_text();
    crate::text::lemma_decimal_value(n);
    lemma_digits_of_decimal(n, tail, 0);
    lemma_number_of_decimal(n, tail);
    assert(s.skip(decimal(n).len() as int) =~= tail);
    assert(seq!['a'][0] == 'a');
    assert(seq!['f'][0] == 'f');
}

/// Both spellings of an architecture name it.
pub proof fn spellings_name_the_architecture(arch: CudaArch)
    ensures
        parsed_arch(arch.sm_text()) == Some(arch),
        parsed_arch(arch.compute_text()) == Some(arch),
{
    lemma_version_parses(arch);
    let sm = "sm_"@;
    let compute = "compute_"@;
    reveal_strlit("sm_");
    reveal_strlit("compute_");
    assert(arch.sm_text().take(sm.len() as int) =~= sm);
    assert(arch.sm_text().skip(sm.len() as int) =~= arch.version_text());
    assert(arch.compute_text().take(compute.len() as int) =~= compute);
    assert(arch.compute_text().skip(compute.len() as int) =~= arch.version_text());
    if has_prefix(arch.compute_text(), sm) {
        assert(arch.compute_text().take(sm.len() as int)[0] == 'c');
        assert(sm[0] == 's');
    }
}

/// Different architectures have different spellings.
pub proof fn spellings_are_distinct(a: CudaArch, b: CudaArch)
    ensures
        a.sm_text() == b.sm_text() ==> a == b,
        a.compute_text() == b.compute_text() ==> a == b,
{
    spellings_name_the_architecture(a);
    spellings_name_the_architecture(b);
}

/// The architecture of a device: `sm_`, its major and its minor number, read as an
/// architecture.
pub open spec fn device_arch(major: i32, minor: i32) -> Option<CudaArch> {
    parsed_arch(device_text(major, minor))
}

/// How the architecture of a device is spelled.
pub open spec fn device_text(major: i32, minor: i32) -> Seq<char> {
    "sm_"@ + crate::text::signed_decimal(major as int) + crate::text::signed_decimal(minor as int)
}

/// The architecture of a device of the given compute capability.
pub fn execution_arch(major: i32, minor: i32) -> (r: Result<CudaArch, CudaArchParseError>)
    ensures
        match r {
            Ok(arch) => device_arch(major, minor) == Some(arch),
            Err(error) => device_arch(major, minor) is None && error.value@ == device_text(
                major,
                minor,
            ),
        },
{
    let mut text = "sm_".to_owned();
    crate::text::push_signed_decimal(&mut text, major);
    crate::text::push_signed_decimal(&mut text, minor);
    CudaArch::parse(text.as_str())
}

}
