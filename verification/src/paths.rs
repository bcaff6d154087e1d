//! Slash-separated paths as text.
//!
//! The rules are those of `std::path` on systems whose separator is `/`: repeated
//! and trailing separators and `.` components do not count, and `..` is no file
//! name.

use crate::text::chars_of;
use crate::text::string_of;
use vstd::prelude::*;

verus! {

broadcast use vstd::string::group_string_axioms;

/// `name` inside `dir`. An absolute `name` stands for itself.
pub open spec fn joined_path(dir: Seq<char>, name: Seq<char>) -> Seq<char> {
    if name.len() > 0 && name[0] == '/' {
        name
    } else if dir.len() == 0 || dir.last() == '/' {
        dir + name
    } else {
        dir + "/"@ + name
    }
}

/// Where the component that ends at `end` begins.
pub open spec fn component_start(s: Seq<char>, end: int) -> int
    decreases end,
{
    if end <= 0 || s[end - 1] == '/' {
        end
    } else {
        component_start(s, end - 1)
    }
}

/// Where `s` ends without the separators and `.` components after its last
/// component.
pub open spec fn last_component_end(s: Seq<char>, end: int) -> int
    decreases end,
{
    if end > 0 && s[end - 1] == '/' {
        last_component_end(s, end - 1)
    } else if end > 1 && s[end - 1] == '.' && s[end - 2] == '/' {
        last_component_end(s, end - 1)
    } else {
        end
    }
}

/// Where the file name of a path begins and ends.
pub open spec fn file_name_bounds(s: Seq<char>) -> Option<(int, int)> {
    let end = last_component_end(s, s.len() as int);
    let start = component_start(s, end);
    let component = s.subrange(start, end);
    if component.len() == 0 || component == seq!['.'] || component == seq!['.', '.'] {
        None
    } else {
        Some((start, end))
    }
}

/// Where the last dot of `s` between `start` and `end` stands; `end` where there
/// is none after `start`.
pub open spec fn stem_end(s: Seq<char>, start: int, end: int, at: int) -> int
    decreases at - start,
{
    if at <= start + 1 {
        end
    } else if s[at - 1] == '.' {
        at - 1
    } else {
        stem_end(s, start, end, at - 1)
    }
}

/// The file name of a path.
pub open spec fn file_name_of(s: Seq<char>) -> Option<Seq<char>> {
    match file_name_bounds(s) {
        Some((start, end)) => Some(s.subrange(start, end)),
        None => None,
    }
}

/// The file name of a path without its extension.
pub open spec fn file_stem_of(s: Seq<char>) -> Option<Seq<char>> {
    match file_name_bounds(s) {
        Some((start, end)) => Some(s.subrange(start, stem_end(s, start, end, end))),
        None => None,
    }
}

/// `s` with the extension of its file name replaced by `extension`. A path without
/// a file name is unchanged.
pub open spec fn with_extension_of(s: Seq<char>, extension: Seq<char>) -> Seq<char> {
    match file_name_bounds(s) {
        Some((start, end)) => {
            let stem = s.take(stem_end(s, start, end, end));
            if extension.len() == 0 {
                stem
            } else {
                stem + "."@ + extension
            }
        },
        None => s,
    }
}

/// `s` without its last component. Neither a root nor an empty path has a parent.
pub open spec fn parent_of(s: Seq<char>) -> Option<Seq<char>> {
    let end = last_component_end(s, s.len() as int);
    let start = component_start(s, end);
    let cut = last_component_end(s, start);
    if end == 0 {
        None
    } else if cut == 0 && start > 0 {
        Some("/"@)
    } else {
        Some(s.take(cut))
    }
}

/// `name` inside `dir`.
pub fn join_path(dir: &str, name: &str) -> (r: String)
    ensures
        r@ == joined_path(dir@, name@),
{
    let head = chars_of(dir);
    let tail = chars_of(name);
    if tail.len() > 0 && tail[0] == '/' {
        return name.to_owned();
    }
    let mut r = dir.to_owned();
    if head.len() > 0 && head[head.len() - 1] != '/' {
        r.append("/");
    }
    r.append(name);
    r
}

fn end_of_last_component(s: &Vec<char>, from: usize) -> (end: usize)
    requires
        from <= s@.len(),
    ensures
        end <= from,
        end == last_component_end(s@, from as int),
{
    let mut end: usize = from;
    while (end > 0 && s[end - 1] == '/') || (end > 1 && s[end - 1] == '.' && s[end - 2] == '/')
        invariant
            end <= from <= s.len(),
            last_component_end(s@, from as int) == last_component_end(s@, end as int),
        decreases end,
    {
        end -= 1;
    }
    end
}

fn start_of_component(s: &Vec<char>, end: usize) -> (start: usize)
    requires
        end <= s@.len(),
    ensures
        start <= end,
        start == component_start(s@, end as int),
{
    let mut start: usize = end;
    while start > 0 && s[start - 1] != '/'
        invariant
            start <= end <= s.len(),
            component_start(s@, end as int) == component_start(s@, start as int),
        decreases start,
    {
        start -= 1;
    }
    start
}

/// `path` without its last component.
pub fn parent(path: &str) -> (r: Option<String>)
    ensures
        r is Some <==> parent_of(path@) is Some,
        r matches Some(dir) ==> dir@ == parent_of(path@)->0,
{
    let chars = chars_of(path);
    let end: usize = end_of_last_component(&chars, chars.len());
    if end == 0 {
        return None;
    }
    let start: usize = start_of_component(&chars, end);
    let cut: usize = end_of_last_component(&chars, start);
    if cut == 0 && start > 0 {
        return Some("/".to_owned());
    }
    let dir = string_of(&chars, 0, cut);
    assert(dir@ == path@.take(cut as int));
    Some(dir)
}

fn bounds_of_file_name(s: &Vec<char>) -> (r: Option<(usize, usize)>)
    ensures
        r is Some <==> file_name_bounds(s@) is Some,
        r matches Some((start, end)) ==> file_name_bounds(s@) == Some((start as int, end as int))
            && start < end <= s@.len(),
{
    let end: usize = end_of_last_component(s, s.len());
    let start: usize = start_of_component(s, end);
    let ghost component = s@.subrange(start as int, end as int);
    if start == end {
        return None;
    }
    if end - start == 1 && s[start] == '.' {
        assert(component =~= seq!['.']);
        return None;
    }
    if end - start == 2 && s[start] == '.' && s[start + 1] == '.' {
        assert(component =~= seq!['.', '.']);
        return None;
    }
    proof {
        if component == seq!['.'] {
            assert(component.len() == 1 && component[0] == '.');
            assert(s@[start as int] == '.');
        }
        if component == seq!['.', '.'] {
            assert(component.len() == 2 && component[0] == '.' && component[1] == '.');
            assert(s@[start as int] == '.' && s@[start + 1] == '.');
        }
    }
    Some((start, end))
}

fn end_of_stem(s: &Vec<char>, start: usize, end: usize) -> (r: usize)
    requires
        start < end <= s@.len(),
    ensures
        r == stem_end(s@, start as int, end as int, end as int),
        start < r <= end,
{
    let mut at: usize = end;
    while at > start + 1
        invariant
            start < at <= end <= s@.len(),
            stem_end(s@, start as int, end as int, end as int) == stem_end(
                s@,
                start as int,
                end as int,
                at as int,
            ),
        decreases at,
    {
        if s[at - 1] == '.' {
            return at - 1;
        }
        at -= 1;
    }
    end
}

/// The file name of a path.
pub fn file_name(path: &str) -> (r: Option<String>)
    ensures
        r is Some <==> file_name_of(path@) is Some,
        r matches Some(name) ==> name@ == file_name_of(path@)->0,
{
    let chars = chars_of(path);
    match bounds_of_file_name(&chars) {
        Some((start, end)) => Some(string_of(&chars, start, end)),
        None => None,
    }
}

/// The file name of a path without its extension.
pub fn file_stem(path: &str) -> (r: Option<String>)
    ensures
        r is Some <==> file_stem_of(path@) is Some,
        r matches Some(name) ==> name@ == file_stem_of(path@)->0,
{
    let chars = chars_of(path);
    match bounds_of_file_name(&chars) {
        Some((start, end)) => {
            let stem: usize = end_of_stem(&chars, start, end);
            Some(string_of(&chars, start, stem))
        },
        None => None,
    }
}

/// `path` with the extension of its file name replaced by `extension`.
pub fn with_extension(path: &str, extension: &str) -> (r: String)
    ensures
        r@ == with_extension_of(path@, extension@),
{
    let chars = chars_of(path);
    match bounds_of_file_name(&chars) {
        Some((start, end)) => {
            let stem: usize = end_of_stem(&chars, start, end);
            let mut r = string_of(&chars, 0, stem);
            assert(r@ == path@.take(stem as int));
            if extension.is_empty() {
                return r;
            }
            r.append(".");
            r.append(extension);
            r
        },
        None => path.to_owned(),
    }
}

}
