//! The traversal classifier: a pure linear scan that decides whether a
//! candidate relative-path string contains any traversal-capable component.
//!
//! A path string is read as a sequence of components separated by `/` or `\`
//! (both separators are recognized on every host, so that Windows-style
//! attacks are caught even when validation runs elsewhere).  A string is a
//! traversal attack when it carries a root marker (a leading separator, which
//! also covers UNC-style `\\server` openings), a drive-letter prefix such as
//! `C:`, or a `..` component anywhere.

use vstd::prelude::*;

verus! {

/// A path-component separator: forward or backward slash.
pub open spec fn is_separator(c: char) -> bool {
    c == '/' || c == '\\'
}

/// An ASCII letter, as used in a drive-letter prefix such as `C:`.
pub open spec fn is_drive_letter(c: char) -> bool {
    ||| c as u32 >= 65 && c as u32 <= 90  // 'A' ..= 'Z'
    ||| c as u32 >= 97 && c as u32 <= 122  // 'a' ..= 'z'
}

/// The string opens with a root marker: a leading separator.  This also
/// covers UNC-style prefixes (`\\server\share`), whose first character is a
/// separator.
pub open spec fn has_root(s: Seq<char>) -> bool {
    s.len() > 0 && is_separator(s[0])
}

/// The string opens with a drive-letter prefix, e.g. `C:`.
pub open spec fn has_drive_prefix(s: Seq<char>) -> bool {
    s.len() >= 2 && is_drive_letter(s[0]) && s[1] == ':'
}

/// `[i, j)` delimits one component of `s`: a maximal nonempty run of
/// non-separator characters.
pub open spec fn is_component_at(s: Seq<char>, i: int, j: int) -> bool {
    &&& 0 <= i < j <= s.len()
    &&& (i == 0 || is_separator(s[i - 1]))
    &&& (j == s.len() || is_separator(s[j]))
    &&& forall|k: int| i <= k < j ==> !is_separator(s[k])
}

/// A parent-directory component (`..`) starts at index `i`.
pub open spec fn parent_component_at(s: Seq<char>, i: int) -> bool {
    &&& is_component_at(s, i, i + 2)
    &&& s[i] == '.'
    &&& s[i + 1] == '.'
}

/// A current-directory component (`.`) occupies `[i, j)`.
pub open spec fn current_dir_component_at(s: Seq<char>, i: int, j: int) -> bool {
    &&& is_component_at(s, i, j)
    &&& j == i + 1
    &&& s[i] == '.'
}

/// A normal named segment occupies `[i, j)`: a component that is neither `.`
/// nor `..`.
pub open spec fn normal_component_at(s: Seq<char>, i: int, j: int) -> bool {
    &&& is_component_at(s, i, j)
    &&& !(j == i + 1 && s[i] == '.')
    &&& !(j == i + 2 && s[i] == '.' && s[i + 1] == '.')
}

/// Some component of `s` is `..`.
pub open spec fn has_parent_component(s: Seq<char>) -> bool {
    exists|i: int| parent_component_at(s, i)
}

/// Whether `s` must be refused: a root marker or a drive-letter prefix
/// opens it, or some component of it, at any position, is `..`.
pub open spec fn is_traversal(s: Seq<char>) -> bool {
    ||| has_root(s)
    ||| has_drive_prefix(s)
    ||| has_parent_component(s)
}

fn is_separator_char(c: char) -> (r: bool)
    ensures
        r == is_separator(c),
{
    c == '/' || c == '\\'
}

fn is_drive_letter_char(c: char) -> (r: bool)
    ensures
        r == is_drive_letter(c),
{
    let u = c as u32;
    (u >= 65 && u <= 90) || (u >= 97 && u <= 122)
}

/// The characters of `s`, one per element, gathered in a single pass.
fn chars_of(s: &str) -> (v: Vec<char>)
    ensures
        v@ == s@,
{
    let mut v: Vec<char> = Vec::new();
    for c in it: s.chars()
        invariant
            it.seq() == s@,
            v@ == it.seq().take(it.index() as int),
    {
        v.push(c);
        proof {
            assert(v@ =~= it.seq().take(it.index() + 1));
        }
    }
    proof {
        assert(v@ =~= s@);
    }
    v
}

/// Decides whether `path` contains a traversal-capable component: a `..`
/// component, a root marker, or a drive-letter prefix.  Scans the whole
/// string; a disallowed component at any position, including the last, is
/// found.
pub fn is_traversal_attack(path: &str) -> (r: bool)
    ensures
        r == is_traversal(path@),
{
    let chars = chars_of(path);
    let n = chars.len();
    if n > 0 && is_separator_char(chars[0]) {
        return true;
    }
    if n >= 2 && is_drive_letter_char(chars[0]) && chars[1] == ':' {
        return true;
    }
    let mut i: usize = 0;
    while i < n
        invariant
            i <= n,
            n == chars.len(),
            chars@ == path@,
            !has_root(path@),
            !has_drive_prefix(path@),
            forall|k: int| 0 <= k < i ==> !parent_component_at(path@, k),
        decreases n - i,
    {
        if n - i >= 2 && chars[i] == '.' && chars[i + 1] == '.' && (i == 0 || is_separator_char(
            chars[i - 1],
        )) && (i + 2 == n || is_separator_char(chars[i + 2])) {
            proof {
                assert forall|k: int| i <= k < i + 2 implies !is_separator(path@[k]) by {
                    assert(path@[k] == '.');
                }
                assert(parent_component_at(path@, i as int));
            }
            return true;
        }
        proof {
            assert(!parent_component_at(path@, i as int));
        }
        i += 1;
    }
    proof {
        assert forall|k: int| !parent_component_at(path@, k) by {
            if 0 <= k < n {
                assert(!parent_component_at(path@, k));
            }
        }
    }
    false
}

/// Law: a string whose every component is `.` or a normal named segment, and
/// which carries no root marker and no drive-letter prefix, is accepted.
pub proof fn lemma_innocent_components_accepted(s: Seq<char>)
    requires
        !has_root(s),
        !has_drive_prefix(s),
        forall|i: int, j: int|
            is_component_at(s, i, j) ==> current_dir_component_at(s, i, j)
                || normal_component_at(s, i, j),
    ensures
        !is_traversal(s),
{
    if has_parent_component(s) {
        let i = choose|i: int| parent_component_at(s, i);
        assert(is_component_at(s, i, i + 2));
        assert(current_dir_component_at(s, i, i + 2) || normal_component_at(s, i, i + 2));
        assert(false);
    }
}

/// Law: a string is accepted exactly when no root marker or drive-letter
/// prefix opens it and each of its components is `.` or a normal named
/// segment.
pub proof fn lemma_accept_iff_components_innocent(s: Seq<char>)
    ensures
        !is_traversal(s) <==> (!has_root(s) && !has_drive_prefix(s) && forall|i: int, j: int|
            is_component_at(s, i, j) ==> current_dir_component_at(s, i, j)
                || normal_component_at(s, i, j)),
{
    if !is_traversal(s) {
        assert forall|i: int, j: int| is_component_at(s, i, j) implies current_dir_component_at(
            s,
            i,
            j,
        ) || normal_component_at(s, i, j) by {
            if !current_dir_component_at(s, i, j) && !normal_component_at(s, i, j) {
                assert(j == i + 2 && s[i] == '.' && s[i + 1] == '.');
                assert(parent_component_at(s, i));
            }
        }
    }
    if !has_root(s) && !has_drive_prefix(s) && (forall|i: int, j: int|
        is_component_at(s, i, j) ==> current_dir_component_at(s, i, j) || normal_component_at(
            s,
            i,
            j,
        )) {
        lemma_innocent_components_accepted(s);
    }
}

/// Law: a `..` component at any position rejects the whole string.
pub proof fn lemma_parent_component_rejected(s: Seq<char>, i: int)
    requires
        parent_component_at(s, i),
    ensures
        is_traversal(s),
{
}

/// Law: a root marker rejects the whole string.
pub proof fn lemma_root_rejected(s: Seq<char>)
    requires
        has_root(s),
    ensures
        is_traversal(s),
{
}

/// Law: a drive-letter prefix rejects the whole string.
pub proof fn lemma_drive_prefix_rejected(s: Seq<char>)
    requires
        has_drive_prefix(s),
    ensures
        is_traversal(s),
{
}

} // verus!
