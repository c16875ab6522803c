//! Names of unit files.
//!
//! A unit is identified by the name of its file, which carries a directory
//! prefix and a type extension (`/etc/systemd/system/foo.service`). The
//! backend is given the file name without its directory (`foo.service`);
//! the user is shown the name without directory and extension (`foo`).
//!
//! Positions and lengths count characters, not bytes.

use vstd::prelude::*;
use vstd::utf8::encode_utf8;

verus! {

/// `i` is the position of the last `c` in `s`.
pub open spec fn is_last_occurrence(s: Seq<char>, c: char, i: int) -> bool {
    &&& 0 <= i < s.len()
    &&& s[i] == c
    &&& forall|j: int| i < j < s.len() ==> s[j] != c
}

/// Position of the last `c` in `s`, if `c` occurs at all.
pub open spec fn last_index_of(s: Seq<char>, c: char) -> Option<int>
    decreases s.len(),
{
    if s.len() == 0 {
        None
    } else if s.last() == c {
        Some(s.len() - 1)
    } else {
        last_index_of(s.drop_last(), c)
    }
}

/// `s` without its directory prefix: what follows the last `/`, or all of
/// `s` where it holds no `/`.
pub open spec fn file_name(s: Seq<char>) -> Seq<char> {
    match last_index_of(s, '/') {
        Some(i) => s.skip(i + 1),
        None => s,
    }
}

/// `s` without its extension: what precedes the last `.`. Where `s` holds
/// no `.`, nothing precedes one, and the stem is empty.
pub open spec fn stem(s: Seq<char>) -> Seq<char> {
    match last_index_of(s, '.') {
        Some(i) => s.take(i),
        None => Seq::empty(),
    }
}

/// The name under which the unit file `s` is shown.
pub open spec fn display_name(s: Seq<char>) -> Seq<char> {
    stem(file_name(s))
}

/// `last_index_of` gives the position of the last `c`, and no other; it
/// gives none exactly where `c` does not occur.
pub proof fn lemma_last_index_of(s: Seq<char>, c: char)
    ensures
        forall|i: int| #[trigger] is_last_occurrence(s, c, i) <==> last_index_of(s, c) == Some(i),
        !s.contains(c) <==> last_index_of(s, c) is None,
    decreases s.len(),
{
    if s.len() > 0 && s.last() != c {
        // The last position holds no `c`, and below it `s` is `front`.
        let front = s.drop_last();
        lemma_last_index_of(front, c);
        assert forall|i: int| #[trigger]
            is_last_occurrence(s, c, i) <==> last_index_of(s, c) == Some(i) by {
            assert(is_last_occurrence(s, c, i) <==> is_last_occurrence(front, c, i)) by {
                assert(forall|j: int| 0 <= j < front.len() ==> front[j] == s[j]);
            }
        }
        assert(s.contains(c) <==> front.contains(c)) by {
            if s.contains(c) {
                let k = choose|k: int| 0 <= k < s.len() && s[k] == c;
                assert(front[k] == c);
            }
            if front.contains(c) {
                let k = choose|k: int| 0 <= k < front.len() && front[k] == c;
                assert(s[k] == c);
            }
        }
    } else if s.len() > 0 {
        assert(is_last_occurrence(s, c, s.len() - 1));
        assert(s.contains(s.last()));
    }
}

/// What follows the last `/` holds no `/`.
pub proof fn lemma_file_name_has_no_slash(s: Seq<char>)
    ensures
        !file_name(s).contains('/'),
{
    lemma_last_index_of(s, '/');
    if let Some(i) = last_index_of(s, '/') {
        assert(is_last_occurrence(s, '/', i));
        let rest = s.skip(i + 1);
        assert(forall|k: int| 0 <= k < rest.len() ==> rest[k] == s[i + 1 + k]);
    }
}

/// A text has no more characters than its UTF-8 encoding has bytes.
proof fn lemma_chars_fit_in_bytes(chars: Seq<char>)
    ensures
        chars.len() <= encode_utf8(chars).len(),
    decreases chars.len(),
{
    if chars.len() > 0 {
        lemma_chars_fit_in_bytes(chars.drop_first());
    }
}

/// Scans `x` once, for the position of its last `c` and for its length.
fn find_last(x: &str, c: char) -> (scan: (Option<usize>, usize))
    ensures
        scan.0 is Some ==> last_index_of(x@, c) == Some(scan.0->0 as int),
        scan.0 is None ==> last_index_of(x@, c) is None,
        scan.1 == x@.len(),
{
    let bytes: usize = x.as_bytes().len();
    proof {
        lemma_chars_fit_in_bytes(x@);
    }
    let mut found: Option<usize> = None;
    let mut index: usize = 0;
    for ch in it: x.chars()
        invariant
            index == it.index(),
            it.seq() == x@,
            x@.len() <= bytes,
            found is Some ==> last_index_of(x@.take(index as int), c) == Some(found->0 as int),
            found is None ==> last_index_of(x@.take(index as int), c) is None,
    {
        assert(x@.take(index + 1).drop_last() == x@.take(index as int));
        if ch == c {
            found = Some(index);
        }
        index = index + 1;
    }
    assert(x@.take(index as int) == x@);
    (found, index)
}

/// Removes the directory prefix from the name of a unit file.
///
/// The result is what follows the last `/` of `input`, or the whole of
/// `input` where it holds none. It is the name by which the backend knows
/// the unit.
pub fn rm_directory_path(input: &str) -> (output: String)
    ensures
        output@ == file_name(input@),
        forall|i: int| #[trigger]
            is_last_occurrence(input@, '/', i) ==> output@ == input@.skip(i + 1),
        !input@.contains('/') ==> output@ == input@,
        !output@.contains('/'),
{
    proof {
        lemma_last_index_of(input@, '/');
        lemma_file_name_has_no_slash(input@);
    }
    let (found, length) = find_last(input, '/');
    match found {
        Some(slash) => {
            assert(is_last_occurrence(input@, '/', slash as int));
            input.substring_char(slash + 1, length).to_owned()
        },
        None => input.to_owned(),
    }
}

/// Removes the extension from a file name that has no directory prefix.
///
/// The result is what precedes the last `.` of `name`. A name without any
/// `.` gives the empty string.
pub fn rm_extension(name: &str) -> (output: String)
    ensures
        output@ == stem(name@),
        forall|i: int| #[trigger]
            is_last_occurrence(name@, '.', i) ==> output@ == name@.take(i),
        !name@.contains('.') ==> output@ == Seq::<char>::empty(),
{
    proof {
        lemma_last_index_of(name@, '.');
    }
    let (found, _) = find_last(name, '.');
    match found {
        Some(dot) => {
            assert(is_last_occurrence(name@, '.', dot as int));
            name.substring_char(0, dot).to_owned()
        },
        None => String::new(),
    }
}

/// The name under which a unit file is shown: its name without directory
/// prefix and without extension.
pub fn get_unit_name(x: &str) -> (output: String)
    ensures
        output@ == display_name(x@),
        output@ == stem(file_name(x@)),
{
    let stripped = rm_directory_path(x);
    rm_extension(stripped.as_str())
}

} // verus!
