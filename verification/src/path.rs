//! Paths as plain strings: the final component, its extension, and the
//! comparisons the browser filters files by.
//!
//! A path is split at `/` only.  Slashes at its end do not count, and a
//! final component `..` is no file name, as with `std::path`; components
//! `.` and doubled slashes inside a path are taken as they are written.

use vstd::prelude::*;

verus! {

/// The greatest index at which `c` occurs in `s`, or `-1`.
pub open spec fn last_index_of(s: Seq<char>, c: char) -> int
    decreases s.len(),
{
    if s.len() == 0 {
        -1
    } else if s.last() == c {
        s.len() - 1
    } else {
        last_index_of(s.drop_last(), c)
    }
}

/// `last_index_of` is an index of `c`, and no later one exists.
pub proof fn lemma_last_index_of(s: Seq<char>, c: char)
    ensures
        -1 <= last_index_of(s, c) < s.len(),
        last_index_of(s, c) >= 0 ==> s[last_index_of(s, c)] == c,
        forall|i: int| last_index_of(s, c) < i < s.len() ==> s[i] != c,
    decreases s.len(),
{
    if s.len() > 0 && s.last() != c {
        lemma_last_index_of(s.drop_last(), c);
        assert forall|i: int| last_index_of(s, c) < i < s.len() implies s[i] != c by {
            if i < s.len() - 1 {
                assert(s.drop_last()[i] == s[i]);
            }
        }
    }
}

/// Whether two strings hold the same text.
pub fn same_text(a: &str, b: &str) -> (r: bool)
    ensures
        r == (a@ == b@),
{
    let left = a.to_owned();
    let right = b.to_owned();
    left == right
}

/// The characters of `s`, one by one.
pub fn chars_of(s: &str) -> (v: Vec<char>)
    ensures
        v@ == s@,
{
    let n: usize = s.unicode_len();
    let mut v: Vec<char> = Vec::new();
    let mut i: usize = 0;
    while i < n
        invariant
            n == s@.len(),
            i <= n,
            v@ == s@.subrange(0, i as int),
        decreases n - i,
    {
        let c: char = s.get_char(i);
        v.push(c);
        proof {
            assert(v@ =~= s@.subrange(0, i + 1));
        }
        i += 1;
    }
    proof {
        assert(s@.subrange(0, n as int) =~= s@);
    }
    v
}

/// The greatest index at which `c` occurs in `s`, if any.
pub fn find_last(s: &Vec<char>, c: char) -> (r: Option<usize>)
    ensures
        match r {
            Some(i) => i == last_index_of(s@, c) && i < s@.len(),
            None => last_index_of(s@, c) == -1,
        },
{
    let mut i: usize = s.len();
    proof {
        lemma_last_index_of(s@, c);
        assert(s@.subrange(0, s@.len() as int) =~= s@);
    }
    while i > 0
        invariant
            i <= s@.len(),
            last_index_of(s@, c) == last_index_of(s@.subrange(0, i as int), c),
        decreases i,
    {
        proof {
            let head = s@.subrange(0, i as int);
            assert(head.last() == s@[i - 1]);
            assert(head.drop_last() =~= s@.subrange(0, i - 1));
        }
        if s[i - 1] == c {
            return Some(i - 1);
        }
        i -= 1;
    }
    None
}

/// A path without the slashes at its end.
pub open spec fn spec_trimmed(path: Seq<char>) -> Seq<char>
    decreases path.len(),
{
    if path.len() > 0 && path.last() == '/' {
        spec_trimmed(path.drop_last())
    } else {
        path
    }
}

/// The final component of a path: what follows the last `/` of the path
/// without the slashes at its end.  It is empty for the empty path and the
/// root, and for a path that ends in `..`.
pub open spec fn spec_file_name(path: Seq<char>) -> Seq<char> {
    let trimmed = spec_trimmed(path);
    let name = trimmed.subrange(last_index_of(trimmed, '/') + 1, trimmed.len() as int);
    if name == seq!['.', '.'] {
        Seq::empty()
    } else {
        name
    }
}

/// The extension of a path: what follows the last `.` of its final
/// component, unless that component has no `.` or only begins with one.
pub open spec fn spec_extension(path: Seq<char>) -> Option<Seq<char>> {
    let name = spec_file_name(path);
    let dot = last_index_of(name, '.');
    if dot <= 0 {
        None
    } else {
        Some(name.subrange(dot + 1, name.len() as int))
    }
}

/// The directory part of a path: the path without its final component and
/// the slashes before it.  It is the empty path for a single component, the
/// root for an entry of the root, and `None` for the empty path and the
/// root itself.
pub open spec fn spec_parent(path: Seq<char>) -> Option<Seq<char>> {
    let trimmed = spec_trimmed(path);
    let slash = last_index_of(trimmed, '/');
    if trimmed.len() == 0 {
        None
    } else if slash < 0 {
        Some(Seq::empty())
    } else {
        let directory = spec_trimmed(trimmed.subrange(0, slash));
        if directory.len() == 0 {
            Some(seq!['/'])
        } else {
            Some(directory)
        }
    }
}

/// `c` with an upper-case letter of ASCII turned into its lower-case
/// letter.
pub open spec fn ascii_lower(c: char) -> char {
    if 'A' <= c <= 'Z' {
        ((c as u8) + 32) as char
    } else {
        c
    }
}

/// `s` with its upper-case letters of ASCII turned into lower case.
pub open spec fn ascii_lowered(s: Seq<char>) -> Seq<char> {
    Seq::new(s.len(), |i: int| ascii_lower(s[i]))
}

/// `s` ends with `suffix`.
pub open spec fn spec_ends_with(s: Seq<char>, suffix: Seq<char>) -> bool {
    s.len() >= suffix.len() && s.subrange(s.len() - suffix.len(), s.len() as int) == suffix
}

/// The length of `s` without the slashes at the end of its first `end`
/// characters.
fn trimmed_len(s: &Vec<char>, end: usize) -> (n: usize)
    requires
        end <= s@.len(),
    ensures
        n <= end,
        spec_trimmed(s@.subrange(0, end as int)) == s@.subrange(0, n as int),
        forall|j: int| n <= j < end ==> s@[j] == '/',
{
    let mut n: usize = end;
    while n > 0 && s[n - 1] == '/'
        invariant
            n <= end <= s@.len(),
            spec_trimmed(s@.subrange(0, end as int)) == spec_trimmed(s@.subrange(0, n as int)),
            forall|j: int| n <= j < end ==> s@[j] == '/',
        decreases n,
    {
        proof {
            let head = s@.subrange(0, n as int);
            assert(head.last() == s@[n - 1]);
            assert(head.drop_last() =~= s@.subrange(0, n - 1));
        }
        n -= 1;
    }
    proof {
        let head = s@.subrange(0, n as int);
        if n > 0 {
            assert(head.last() == s@[n - 1]);
        }
    }
    n
}

/// The greatest index below `end` at which `c` occurs in `s`, if any.
fn find_last_before(s: &Vec<char>, c: char, end: usize) -> (r: Option<usize>)
    requires
        end <= s@.len(),
    ensures
        match r {
            Some(i) => i == last_index_of(s@.subrange(0, end as int), c) && i < end,
            None => last_index_of(s@.subrange(0, end as int), c) == -1,
        },
{
    let mut i: usize = end;
    while i > 0
        invariant
            i <= end <= s@.len(),
            last_index_of(s@.subrange(0, end as int), c) == last_index_of(
                s@.subrange(0, i as int),
                c,
            ),
        decreases i,
    {
        proof {
            let head = s@.subrange(0, i as int);
            assert(head.last() == s@[i - 1]);
            assert(head.drop_last() =~= s@.subrange(0, i - 1));
        }
        if s[i - 1] == c {
            return Some(i - 1);
        }
        i -= 1;
    }
    None
}

/// The final component of `path`; empty where it has none.
pub fn file_name(path: &str) -> (name: String)
    ensures
        name@ == spec_file_name(path@),
{
    let chars = chars_of(path);
    let total: usize = chars.len();
    proof {
        assert(chars@.subrange(0, total as int) =~= chars@);
    }
    let end: usize = trimmed_len(&chars, total);
    let from: usize = match find_last_before(&chars, '/', end) {
        Some(i) => i + 1,
        None => 0,
    };
    proof {
        let trimmed = chars@.subrange(0, end as int);
        assert(trimmed.subrange(from as int, end as int) =~= chars@.subrange(
            from as int,
            end as int,
        ));
    }
    if end - from == 2 && chars[from] == '.' && chars[from + 1] == '.' {
        proof {
            assert(chars@.subrange(from as int, end as int) =~= seq!['.', '.']);
        }
        String::new()
    } else {
        proof {
            let name = chars@.subrange(from as int, end as int);
            if name == seq!['.', '.'] {
                assert(name.len() == 2);
                assert(name[0] == '.' && name[1] == '.');
            }
        }
        path.substring_char(from, end).to_owned()
    }
}

/// The extension of `path`, if its final component has one.
pub fn extension(path: &str) -> (ext: Option<String>)
    ensures
        match ext {
            Some(e) => spec_extension(path@) == Some(e@),
            None => spec_extension(path@) is None,
        },
{
    let name = file_name(path);
    let chars = chars_of(name.as_str());
    let end: usize = chars.len();
    match find_last(&chars, '.') {
        Some(dot) => {
            if dot == 0 {
                None
            } else {
                Some(name.as_str().substring_char(dot + 1, end).to_owned())
            }
        },
        None => None,
    }
}

/// The directory part of `path`, if it has one.
pub fn parent(path: &str) -> (dir: Option<String>)
    ensures
        match dir {
            Some(d) => spec_parent(path@) == Some(d@),
            None => spec_parent(path@) is None,
        },
{
    let chars = chars_of(path);
    let total: usize = chars.len();
    proof {
        assert(chars@.subrange(0, total as int) =~= chars@);
    }
    let end: usize = trimmed_len(&chars, total);
    if end == 0 {
        return None;
    }
    match find_last_before(&chars, '/', end) {
        Some(slash) => {
            proof {
                let trimmed = chars@.subrange(0, end as int);
                assert(trimmed.subrange(0, slash as int) =~= chars@.subrange(0, slash as int));
                assert(trimmed[slash as int] == '/') by {
                    lemma_last_index_of(trimmed, '/');
                }
            }
            let stop: usize = trimmed_len(&chars, slash);
            if stop == 0 {
                proof {
                    assert(chars@[0] == '/');
                    assert(path@.subrange(0, 1) =~= seq!['/']);
                }
                Some(path.substring_char(0, 1).to_owned())
            } else {
                Some(path.substring_char(0, stop).to_owned())
            }
        },
        None => Some(String::new()),
    }
}

/// `c` in lower case, where it is an upper-case letter of ASCII.
pub fn lower(c: char) -> (l: char)
    ensures
        l == ascii_lower(c),
{
    if 'A' <= c && c <= 'Z' {
        ((c as u8) + 32) as char
    } else {
        c
    }
}

/// Whether `text` and `word` are the same but for the case of ASCII
/// letters.
pub fn eq_ignore_ascii_case(text: &Vec<char>, word: &Vec<char>) -> (b: bool)
    ensures
        b == (ascii_lowered(text@) == ascii_lowered(word@)),
{
    if text.len() != word.len() {
        proof {
            assert(ascii_lowered(text@).len() != ascii_lowered(word@).len());
        }
        return false;
    }
    let mut i: usize = 0;
    while i < text.len()
        invariant
            i <= text@.len(),
            text@.len() == word@.len(),
            forall|j: int| 0 <= j < i ==> ascii_lower(text@[j]) == ascii_lower(word@[j]),
        decreases text@.len() - i,
    {
        if lower(text[i]) != lower(word[i]) {
            proof {
                assert(ascii_lowered(text@)[i as int] != ascii_lowered(word@)[i as int]);
            }
            return false;
        }
        i += 1;
    }
    proof {
        assert(ascii_lowered(text@) =~= ascii_lowered(word@));
    }
    true
}

/// Whether `text` is `word` but for the case of its ASCII letters, for a
/// `word` in lower case.
pub(crate) fn is_word(text: &Vec<char>, word: &str) -> (b: bool)
    requires
        ascii_lowered(word@) == word@,
    ensures
        b == (ascii_lowered(text@) == word@),
{
    let letters = chars_of(word);
    eq_ignore_ascii_case(text, &letters)
}

/// Whether `text` ends with `suffix`, case and all.
pub fn ends_with(text: &Vec<char>, suffix: &Vec<char>) -> (b: bool)
    ensures
        b == spec_ends_with(text@, suffix@),
{
    if text.len() < suffix.len() {
        return false;
    }
    let total: usize = text.len();
    let from: usize = total - suffix.len();
    let mut i: usize = 0;
    while i < suffix.len()
        invariant
            i <= suffix@.len(),
            total == text@.len(),
            from + suffix@.len() == total,
            forall|j: int| 0 <= j < i ==> text@[from + j] == suffix@[j],
        decreases suffix@.len() - i,
    {
        if text[from + i] != suffix[i] {
            proof {
                let tail = text@.subrange(from as int, text@.len() as int);
                assert(tail[i as int] != suffix@[i as int]);
            }
            return false;
        }
        i += 1;
    }
    proof {
        assert(text@.subrange(from as int, text@.len() as int) =~= suffix@);
    }
    true
}

} // verus!
