//! The cache of bindings known to be configured.
//!
//! The cache is a set of tokens, one per binding. It only ever grows, and it
//! is advisory: nothing in this crate reads it to decide what to configure.
use vstd::prelude::*;
use vstd::string::*;
use crate::text::contains_string;

verus! {

/// The token under which a binding is remembered: owner, repository and
/// package, joined by `/`.
pub open spec fn key_of(owner: Seq<char>, repo: Seq<char>, package: Seq<char>) -> Seq<char> {
    owner + seq!['/'] + repo + seq!['/'] + package
}

/// Builds the cache token of a binding.
pub fn cache_key(owner: &str, repo: &str, crate_name: &str) -> (key: String)
    ensures
        key@ == key_of(owner@, repo@, crate_name@),
{
    proof {
        reveal_strlit("/");
    }
    let mut key = String::from_str(owner);
    key.append("/");
    key.append(repo);
    key.append("/");
    key.append(crate_name);
    assert("/"@ =~= seq!['/']);
    key
}

/// Two triples whose owners and repositories hold no `/` share a token only
/// if they are the same triple.
pub proof fn law_key_is_injective(
    owner_a: Seq<char>,
    repo_a: Seq<char>,
    package_a: Seq<char>,
    owner_b: Seq<char>,
    repo_b: Seq<char>,
    package_b: Seq<char>,
)
    requires
        !owner_a.contains('/'),
        !repo_a.contains('/'),
        !owner_b.contains('/'),
        !repo_b.contains('/'),
        key_of(owner_a, repo_a, package_a) == key_of(owner_b, repo_b, package_b),
    ensures
        owner_a == owner_b,
        repo_a == repo_b,
        package_a == package_b,
{
    let rest_a = repo_a + seq!['/'] + package_a;
    let rest_b = repo_b + seq!['/'] + package_b;
    assert(key_of(owner_a, repo_a, package_a) =~= owner_a + seq!['/'] + rest_a);
    assert(key_of(owner_b, repo_b, package_b) =~= owner_b + seq!['/'] + rest_b);
    lemma_split_at_first_slash(owner_a, rest_a, owner_b, rest_b);
    lemma_split_at_first_slash(repo_a, package_a, repo_b, package_b);
}

/// A sequence is cut at its first `/` in one way only.
proof fn lemma_split_at_first_slash(
    head_a: Seq<char>,
    tail_a: Seq<char>,
    head_b: Seq<char>,
    tail_b: Seq<char>,
)
    requires
        !head_a.contains('/'),
        !head_b.contains('/'),
        head_a + seq!['/'] + tail_a == head_b + seq!['/'] + tail_b,
    ensures
        head_a == head_b,
        tail_a == tail_b,
{
    let joined_a = head_a + seq!['/'] + tail_a;
    let joined_b = head_b + seq!['/'] + tail_b;
    assert(joined_a[head_a.len() as int] == '/');
    assert(joined_b[head_b.len() as int] == '/');
    if head_a.len() < head_b.len() {
        assert(head_b[head_a.len() as int] == joined_b[head_a.len() as int]);
        assert(head_b.contains('/'));
    }
    if head_b.len() < head_a.len() {
        assert(head_a[head_b.len() as int] == joined_a[head_b.len() as int]);
        assert(head_a.contains('/'));
    }
    assert(head_a =~= joined_a.take(head_a.len() as int));
    assert(head_b =~= joined_b.take(head_b.len() as int));
    assert(tail_a =~= joined_a.skip(head_a.len() as int + 1));
    assert(tail_b =~= joined_b.skip(head_b.len() as int + 1));
}

/// The tokens of the bindings that are known to be configured.
#[derive(Debug)]
pub struct TrustpubCache {
    configured: Vec<String>,
}

impl View for TrustpubCache {
    type V = Set<Seq<char>>;

    closed spec fn view(&self) -> Set<Seq<char>> {
        self.configured.deep_view().to_set()
    }
}

impl TrustpubCache {
    /// No token is stored twice.
    #[verifier::type_invariant]
    spec fn distinct(&self) -> bool {
        self.configured.deep_view().no_duplicates()
    }

    /// The empty cache, which is what an absent or unreadable file stands for.
    pub fn new() -> (cache: Self)
        ensures
            cache@ == Set::<Seq<char>>::empty(),
    {
        let cache = TrustpubCache { configured: Vec::new() };
        assert(cache.configured.deep_view() =~= Seq::<Seq<char>>::empty());
        assert(cache@ =~= Set::<Seq<char>>::empty());
        cache
    }

    /// The cache that holds exactly the given tokens.
    pub fn from_keys(keys: Vec<String>) -> (cache: Self)
        ensures
            cache@ == keys.deep_view().to_set(),
    {
        let mut cache = TrustpubCache::new();
        let ghost all = keys.deep_view();
        for key in it: keys
            invariant
                all.len() == it.seq().len(),
                forall|j: int| 0 <= j < all.len() ==> all[j] == it.seq()[j]@,
                cache@ == all.take(it.index() as int).to_set(),
        {
            let ghost i = it.index() as int;
            assert(all.take(i + 1) =~= all.take(i).push(key@));
            assert(all.take(i).push(key@).to_set() =~= all.take(i).to_set().insert(key@)) by {
                lemma_push_to_set(all.take(i), key@);
            }
            cache.insert(key);
        }
        assert(all.take(all.len() as int) =~= all);
        cache
    }

    /// Whether the token is in the cache.
    pub fn contains(&self, key: &String) -> (found: bool)
        ensures
            found == self@.contains(key@),
    {
        contains_string(&self.configured, key)
    }

    /// Adds a token, and says whether it was new. Nothing leaves the cache.
    pub fn insert(&mut self, key: String) -> (added: bool)
        ensures
            final(self)@ == old(self)@.insert(key@),
            added == !old(self)@.contains(key@),
    {
        proof {
            use_type_invariant(&*self);
        }
        if contains_string(&self.configured, &key) {
            assert(self@ =~= self@.insert(key@));
            false
        } else {
            let ghost before = self.configured.deep_view();
            let mut tokens: Vec<String> = Vec::new();
            assert(tokens.deep_view() =~= Seq::<Seq<char>>::empty());
            core::mem::swap(&mut self.configured, &mut tokens);
            tokens.push(key);
            proof {
                assert(tokens.deep_view() =~= before.push(key@));
                lemma_push_to_set(before, key@);
            }
            core::mem::swap(&mut self.configured, &mut tokens);
            true
        }
    }

    /// How many tokens the cache holds.
    pub fn len(&self) -> (n: usize)
        ensures
            n == self@.len(),
    {
        proof {
            use_type_invariant(self);
            self.configured.deep_view().unique_seq_to_set();
        }
        self.configured.len()
    }

    /// The tokens of the cache, each once.
    pub fn keys(&self) -> (keys: &Vec<String>)
        ensures
            keys.deep_view().to_set() == self@,
            keys.deep_view().no_duplicates(),
    {
        proof {
            use_type_invariant(self);
        }
        &self.configured
    }
}

impl Default for TrustpubCache {
    fn default() -> (cache: Self)
        ensures
            cache@ == Set::<Seq<char>>::empty(),
    {
        TrustpubCache::new()
    }
}

/// Pushing an item adds it to the set of a sequence's items.
pub proof fn lemma_push_to_set(s: Seq<Seq<char>>, x: Seq<char>)
    ensures
        s.push(x).to_set() == s.to_set().insert(x),
{
    assert forall|y: Seq<char>| s.push(x).to_set().contains(y) == s.to_set().insert(x).contains(
        y,
    ) by {
        if s.push(x).contains(y) {
            let i = choose|i: int| 0 <= i < s.push(x).len() && s.push(x)[i] == y;
            if i < s.len() {
                assert(s[i] == y);
            }
        }
        if s.contains(y) {
            let i = choose|i: int| 0 <= i < s.len() && s[i] == y;
            assert(s.push(x)[i] == y);
        }
        if y == x {
            assert(s.push(x)[s.len() as int] == y);
        }
    }
    assert(s.push(x).to_set() =~= s.to_set().insert(x));
}

} // verus!
