//! Reading the owner and the name of a GitHub repository out of the address
//! of a git remote.
use vstd::prelude::*;
use vstd::string::*;
use crate::text::{chars_of, ends_with, slice_of, starts_with, string_of};

verus! {

/// Whether a character is white space, as Unicode defines it.
pub open spec fn is_space(c: char) -> bool {
    ||| '\u{9}' <= c <= '\u{d}'
    ||| c == ' '
    ||| c == '\u{85}'
    ||| c == '\u{a0}'
    ||| c == '\u{1680}'
    ||| '\u{2000}' <= c <= '\u{200a}'
    ||| c == '\u{2028}'
    ||| c == '\u{2029}'
    ||| c == '\u{202f}'
    ||| c == '\u{205f}'
    ||| c == '\u{3000}'
}

/// `s` without the white space it begins with.
pub open spec fn trim_start(s: Seq<char>) -> Seq<char>
    decreases s.len(),
{
    if s.len() > 0 && is_space(s.first()) {
        trim_start(s.drop_first())
    } else {
        s
    }
}

/// `s` without the white space it ends with.
pub open spec fn trim_end(s: Seq<char>) -> Seq<char>
    decreases s.len(),
{
    if s.len() > 0 && is_space(s.last()) {
        trim_end(s.drop_last())
    } else {
        s
    }
}

/// `s` without the white space at either end.
pub open spec fn trimmed(s: Seq<char>) -> Seq<char> {
    trim_end(trim_start(s))
}

/// What follows `prefix` in `s`, if `s` begins with it.
pub open spec fn after_prefix(s: Seq<char>, prefix: Seq<char>) -> Option<Seq<char>> {
    if prefix.is_prefix_of(s) {
        Some(s.skip(prefix.len() as int))
    } else {
        None
    }
}

/// `s` without `suffix` at its end, or `s` itself if it does not end so.
pub open spec fn without_suffix(s: Seq<char>, suffix: Seq<char>) -> Seq<char> {
    if suffix.is_suffix_of(s) {
        s.take(s.len() - suffix.len())
    } else {
        s
    }
}

/// Whether `i` is the position of the first `sep` in `s`.
pub open spec fn is_first(s: Seq<char>, sep: char, i: int) -> bool {
    &&& 0 <= i < s.len()
    &&& s[i] == sep
    &&& forall|j: int| 0 <= j < i ==> s[j] != sep
}

/// What stands before and after the first `sep` of `s`, if there is one.
pub open spec fn split_once(s: Seq<char>, sep: char) -> Option<(Seq<char>, Seq<char>)> {
    if exists|i: int| is_first(s, sep, i) {
        let i = choose|i: int| is_first(s, sep, i);
        Some((s.take(i), s.skip(i + 1)))
    } else {
        None
    }
}

/// The owner and the repository in the part of an address that follows the
/// host: a closing `.git` is dropped, and the first `/` parts the two.
pub open spec fn owner_and_repo(rest: Seq<char>) -> Option<(Seq<char>, Seq<char>)> {
    split_once(without_suffix(rest, ".git"@), '/')
}

/// The owner and the repository that a remote address names: the address is
/// trimmed, and is read in the SSH form `git@github.com:owner/repo.git` or in
/// the HTTPS or HTTP form `https://github.com/owner/repo.git`.
pub open spec fn parse_remote(url: Seq<char>) -> Option<(Seq<char>, Seq<char>)> {
    let address = trimmed(url);
    match after_prefix(address, "git@github.com:"@) {
        Some(rest) => owner_and_repo(rest),
        None => match after_prefix(address, "https://github.com/"@) {
            Some(rest) => owner_and_repo(rest),
            None => match after_prefix(address, "http://github.com/"@) {
                Some(rest) => owner_and_repo(rest),
                None => None,
            },
        },
    }
}

/// Whether a character is white space.
pub fn is_whitespace(c: char) -> (yes: bool)
    ensures
        yes == is_space(c),
{
    ('\u{9}' <= c && c <= '\u{d}') || c == ' ' || c == '\u{85}' || c == '\u{a0}' || c
        == '\u{1680}' || ('\u{2000}' <= c && c <= '\u{200a}') || c == '\u{2028}' || c
        == '\u{2029}' || c == '\u{202f}' || c == '\u{205f}' || c == '\u{3000}'
}

/// The characters of `s` without the white space at either end.
pub fn trim(s: &Vec<char>) -> (kept: Vec<char>)
    ensures
        kept@ == trimmed(s@),
{
    let mut from: usize = 0;
    assert(s@.skip(0) =~= s@);
    while from < s.len() && is_whitespace(s[from])
        invariant
            from <= s.len(),
            trim_start(s@) == trim_start(s@.skip(from as int)),
        decreases s.len() - from,
    {
        assert(s@.skip(from as int).drop_first() =~= s@.skip(from + 1));
        from = from + 1;
    }
    assert(trim_start(s@) == s@.skip(from as int));
    let mut to: usize = s.len();
    assert(s@.subrange(from as int, to as int) =~= s@.skip(from as int));
    while to > from && is_whitespace(s[to - 1])
        invariant
            from <= to <= s.len(),
            trimmed(s@) == trim_end(s@.subrange(from as int, to as int)),
        decreases to - from,
    {
        assert(s@.subrange(from as int, to as int).drop_last() =~= s@.subrange(
            from as int,
            to - 1,
        ));
        to = to - 1;
    }
    slice_of(s, from, to)
}

/// The view of two runs of characters.
pub open spec fn parts_view(parts: Option<(Vec<char>, Vec<char>)>) -> Option<(Seq<char>, Seq<char>)> {
    match parts {
        Some((head, tail)) => Some((head@, tail@)),
        None => None,
    }
}

/// What stands before and after the first `sep` of `s`, if there is one.
pub fn split_at_first(s: &Vec<char>, sep: char) -> (parts: Option<(Vec<char>, Vec<char>)>)
    ensures
        parts_view(parts) == split_once(s@, sep),
{
    let mut i: usize = 0;
    while i < s.len()
        invariant
            i <= s.len(),
            forall|j: int| 0 <= j < i ==> s@[j] != sep,
        decreases s.len() - i,
    {
        if s[i] == sep {
            proof {
                assert(is_first(s@, sep, i as int));
                let k = choose|k: int| is_first(s@, sep, k);
                assert(k == i) by {
                    if k < i {
                        assert(s@[k] != sep);
                    }
                    if i < k {
                        assert(s@[i as int] != sep);
                    }
                }
            }
            let head = slice_of(s, 0, i);
            let tail = slice_of(s, i + 1, s.len());
            return Some((head, tail));
        }
        i = i + 1;
    }
    assert forall|k: int| !is_first(s@, sep, k) by {
        if 0 <= k < s@.len() {
            assert(s@[k] != sep);
        }
    }
    None
}

/// The owner and the repository in what follows the host.
fn read_owner_and_repo(rest: &Vec<char>) -> (parts: Option<(Vec<char>, Vec<char>)>)
    ensures
        parts_view(parts) == owner_and_repo(rest@),
{
    let suffix = chars_of(".git");
    if ends_with(rest, &suffix) {
        let stem = slice_of(rest, 0, rest.len() - suffix.len());
        split_at_first(&stem, '/')
    } else {
        split_at_first(rest, '/')
    }
}

/// What follows `prefix` in `s`, if `s` begins with it.
fn strip_prefix(s: &Vec<char>, prefix: &str) -> (rest: Option<Vec<char>>)
    ensures
        match rest {
            Some(r) => after_prefix(s@, prefix@) == Some(r@),
            None => after_prefix(s@, prefix@) is None,
        },
{
    let p = chars_of(prefix);
    if starts_with(s, &p) {
        Some(slice_of(s, p.len(), s.len()))
    } else {
        None
    }
}

/// The view of an owner and a repository.
pub open spec fn pair_view(pair: Option<(String, String)>) -> Option<(Seq<char>, Seq<char>)> {
    match pair {
        Some((owner, repo)) => Some((owner@, repo@)),
        None => None,
    }
}

/// Reads the owner and the name of a GitHub repository out of the address of
/// a git remote. `None` means that the address is in none of the known forms.
pub fn parse_github_remote(url: &str) -> (found: Option<(String, String)>)
    ensures
        pair_view(found) == parse_remote(url@),
{
    let address = trim(&chars_of(url));
    let rest = match strip_prefix(&address, "git@github.com:") {
        Some(rest) => Some(rest),
        None => match strip_prefix(&address, "https://github.com/") {
            Some(rest) => Some(rest),
            None => strip_prefix(&address, "http://github.com/"),
        },
    };
    match rest {
        Some(rest) => {
            assert(parse_remote(url@) == owner_and_repo(rest@));
            match read_owner_and_repo(&rest) {
                Some((owner, repo)) => Some((string_of(&owner), string_of(&repo))),
                None => None,
            }
        },
        None => None,
    }
}

} // verus!
