//! Where the registry's index keeps a package: the sharded path of its name.
use vstd::prelude::*;
use vstd::string::*;
use crate::text::{chars_of, fold, lower, push_chars, slice_of, starts_with};

verus! {

/// The directory of the index that holds a folded name: `1` and `2` for the
/// names of one and two characters, `3/` and the first character for those
/// of three, and the first two characters, `/`, and the next two for all
/// longer ones.
pub open spec fn shard_dir(folded: Seq<char>) -> Seq<char> {
    if folded.len() == 1 {
        seq!['1']
    } else if folded.len() == 2 {
        seq!['2']
    } else if folded.len() == 3 {
        seq!['3', '/'] + folded.subrange(0, 1)
    } else {
        folded.subrange(0, 2) + seq!['/'] + folded.subrange(2, 4)
    }
}

/// The sharded path of a package name: the directory of its folded form,
/// `/`, and the folded form itself.
pub open spec fn shard_path(name: Seq<char>) -> Seq<char> {
    shard_dir(fold(name)) + seq!['/'] + fold(name)
}

/// The sharded path under which the index keeps the package `name`. Case
/// plays no part: the name is folded to lower case first.
pub fn sparse_index_path(name: &str) -> (path: String)
    requires
        name@.len() >= 1,
    ensures
        path@ == shard_path(name@),
{
    let folded = chars_of(lower(name).as_str());
    let mut path = String::new();
    proof {
        reveal_strlit("1");
        reveal_strlit("2");
        reveal_strlit("3/");
        reveal_strlit("/");
    }
    if folded.len() == 1 {
        path.append("1");
        assert(path@ =~= shard_dir(folded@));
    } else if folded.len() == 2 {
        path.append("2");
        assert(path@ =~= shard_dir(folded@));
    } else if folded.len() == 3 {
        path.append("3/");
        let first = slice_of(&folded, 0, 1);
        push_chars(&mut path, &first);
        assert(path@ =~= shard_dir(folded@));
    } else {
        let head = slice_of(&folded, 0, 2);
        let next = slice_of(&folded, 2, 4);
        push_chars(&mut path, &head);
        path.append("/");
        push_chars(&mut path, &next);
        assert(path@ =~= shard_dir(folded@));
    }
    path.append("/");
    push_chars(&mut path, &folded);
    assert(path@ =~= shard_path(name@));
    path
}

/// The address at which the registry's index answers for a package.
pub open spec fn probe_url_of(name: Seq<char>) -> Seq<char> {
    "https://index.crates.io/"@ + shard_path(name)
}

/// The address to probe for the existence of the package `name`.
pub fn index_probe_url(name: &str) -> (url: String)
    requires
        name@.len() >= 1,
    ensures
        url@ == probe_url_of(name@),
{
    let mut url = String::from_str("https://index.crates.io/");
    let path = sparse_index_path(name);
    url.append(path.as_str());
    url
}

/// Whether a directory of the local registry cache is a mirror of the
/// registry's index: its name begins with `index.crates.io-`.
pub open spec fn is_mirror_name(dir_name: Seq<char>) -> bool {
    "index.crates.io-"@.is_prefix_of(dir_name)
}

/// Whether a directory of the local registry cache is a mirror of the
/// registry's index.
pub fn is_index_mirror(dir_name: &str) -> (yes: bool)
    ensures
        yes == is_mirror_name(dir_name@),
{
    let name = chars_of(dir_name);
    let prefix = chars_of("index.crates.io-");
    starts_with(&name, &prefix)
}

/// Folding twice is folding once.
pub proof fn law_fold_is_idempotent(s: Seq<char>)
    ensures
        fold(fold(s)) == fold(s),
{
    assert(fold(fold(s)) =~= fold(s));
}

/// Case-insensitivity: two names that differ only in the case of their
/// ASCII letters have the same sharded path.
pub proof fn law_shard_ignores_case(a: Seq<char>, b: Seq<char>)
    requires
        fold(a) == fold(b),
    ensures
        shard_path(a) == shard_path(b),
{
}

/// The sharded path of a name is that of its lower-case form.
pub proof fn law_shard_of_folded(name: Seq<char>)
    ensures
        shard_path(fold(name)) == shard_path(name),
{
    law_fold_is_idempotent(name);
}

} // verus!
