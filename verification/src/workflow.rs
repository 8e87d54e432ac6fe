//! Which workflow a binding names: the workflow files of a repository, and
//! the choice among them.
use vstd::prelude::*;
use vstd::string::*;
use crate::config::ConfigurationError;
use crate::text::{chars_of, ends_with};

verus! {

/// Whether a file name has the extension `ext`: it ends with a dot and
/// `ext`, and something stands before that dot.
pub open spec fn has_extension(name: Seq<char>, ext: Seq<char>) -> bool {
    (seq!['.'] + ext).is_suffix_of(name) && name.len() > ext.len() + 1
}

/// Whether a file name is that of a workflow: its extension is `yml` or
/// `yaml`.
pub open spec fn is_workflow_name(name: Seq<char>) -> bool {
    has_extension(name, "yml"@) || has_extension(name, "yaml"@)
}

/// Whether `a` comes before `b`, or is `b`, in the order of the dictionary:
/// the first character in which they differ decides, and a beginning comes
/// before what continues it.
pub open spec fn lex_le(a: Seq<char>, b: Seq<char>) -> bool
    decreases a.len(),
{
    if a.len() == 0 {
        true
    } else if b.len() == 0 {
        false
    } else if a.first() != b.first() {
        a.first() < b.first()
    } else {
        lex_le(a.drop_first(), b.drop_first())
    }
}

/// Whether the names stand in the order of the dictionary.
pub open spec fn sorted(names: Seq<Seq<char>>) -> bool {
    forall|i: int, j: int| 0 <= i < j < names.len() ==> lex_le(names[i], names[j])
}

/// Of two names, one comes before the other or is the other.
pub proof fn lemma_lex_total(a: Seq<char>, b: Seq<char>)
    ensures
        lex_le(a, b) || lex_le(b, a),
    decreases a.len(),
{
    if a.len() > 0 && b.len() > 0 && a.first() == b.first() {
        lemma_lex_total(a.drop_first(), b.drop_first());
    }
}

/// The order of the dictionary is transitive.
pub proof fn lemma_lex_transitive(a: Seq<char>, b: Seq<char>, c: Seq<char>)
    requires
        lex_le(a, b),
        lex_le(b, c),
    ensures
        lex_le(a, c),
    decreases a.len(),
{
    if a.len() > 0 && b.len() > 0 && c.len() > 0 && a.first() == b.first() && b.first()
        == c.first() {
        lemma_lex_transitive(a.drop_first(), b.drop_first(), c.drop_first());
    }
}

/// Two names of which each comes before the other are one name: a sorted
/// list is fixed by what it holds.
pub proof fn law_order_is_antisymmetric(a: Seq<char>, b: Seq<char>)
    requires
        lex_le(a, b),
        lex_le(b, a),
    ensures
        a == b,
    decreases a.len(),
{
    if a.len() > 0 && b.len() > 0 {
        law_order_is_antisymmetric(a.drop_first(), b.drop_first());
        assert(a =~= seq![a.first()] + a.drop_first());
        assert(b =~= seq![b.first()] + b.drop_first());
    } else {
        assert(a =~= b);
    }
}

/// Whether `a` comes before `b`, or is `b`, in the order of the dictionary.
pub fn comes_first(a: &Vec<char>, b: &Vec<char>) -> (yes: bool)
    ensures
        yes == lex_le(a@, b@),
{
    let mut i: usize = 0;
    assert(a@.skip(0) =~= a@ && b@.skip(0) =~= b@);
    while i < a.len() && i < b.len()
        invariant
            i <= a.len(),
            i <= b.len(),
            lex_le(a@, b@) == lex_le(a@.skip(i as int), b@.skip(i as int)),
        decreases a.len() - i,
    {
        if a[i] != b[i] {
            return a[i] < b[i];
        }
        assert(a@.skip(i as int).drop_first() =~= a@.skip(i + 1));
        assert(b@.skip(i as int).drop_first() =~= b@.skip(i + 1));
        i = i + 1;
    }
    i >= a.len()
}

/// Whether a file name is that of a workflow.
pub fn is_workflow_file(name: &str) -> (yes: bool)
    ensures
        yes == is_workflow_name(name@),
{
    let chars = chars_of(name);
    let yml = chars_of(".yml");
    let yaml = chars_of(".yaml");
    proof {
        reveal_strlit(".yml");
        reveal_strlit(".yaml");
        reveal_strlit("yml");
        reveal_strlit("yaml");
        assert(yml@ =~= seq!['.'] + "yml"@);
        assert(yaml@ =~= seq!['.'] + "yaml"@);
    }
    (ends_with(&chars, &yml) && chars.len() > 4) || (ends_with(&chars, &yaml) && chars.len() > 5)
}

/// The workflow files among the entries of a directory, in the order of the
/// dictionary.
pub fn workflow_files(entries: Vec<String>) -> (files: Vec<String>)
    ensures
        sorted(files.deep_view()),
        files.deep_view().to_multiset() == entries.deep_view().filter(
            |name: Seq<char>| is_workflow_name(name),
        ).to_multiset(),
{
    let ghost all = entries.deep_view();
    let ghost wanted = |name: Seq<char>| is_workflow_name(name);
    let mut files: Vec<String> = Vec::new();
    proof {
        reveal(Seq::filter);
        assert(files.deep_view() =~= all.take(0).filter(wanted));
    }
    for entry in it: entries
        invariant
            all.len() == it.seq().len(),
            forall|j: int| 0 <= j < all.len() ==> all[j] == it.seq()[j]@,
            wanted == |name: Seq<char>| is_workflow_name(name),
            sorted(files.deep_view()),
            files.deep_view().to_multiset() == all.take(it.index() as int).filter(wanted).to_multiset(),
    {
        let ghost i = it.index() as int;
        proof {
            assert(all.take(i + 1).drop_last() =~= all.take(i));
            assert(all.take(i + 1).last() == entry@);
            reveal(Seq::filter);
        }
        if is_workflow_file(entry.as_str()) {
            let ghost before = files.deep_view();
            let key = chars_of(entry.as_str());
            let mut at: usize = 0;
            while at < files.len() && comes_first(&chars_of(files[at].as_str()), &key)
                invariant
                    at <= files.len(),
                    key@ == entry@,
                    before == files.deep_view(),
                    forall|j: int| 0 <= j < at ==> lex_le(before[j], entry@),
                decreases files.len() - at,
            {
                at = at + 1;
            }
            files.insert(at, entry);
            proof {
                let after = files.deep_view();
                assert(after =~= before.insert(at as int, entry@));
                assert forall|a: int, b: int| 0 <= a < b < after.len() implies lex_le(
                    after[a],
                    after[b],
                ) by {
                    if a == at {
                        lemma_lex_total(before[at as int], entry@);
                        if b - 1 > at {
                            lemma_lex_transitive(entry@, before[at as int], before[b - 1]);
                        }
                    }
                }
                vstd::seq_lib::to_multiset_insert(before, at as int, entry@);
                vstd::seq_lib::to_multiset_build(all.take(i).filter(wanted), entry@);
            }
        }
    }
    assert(all.take(all.len() as int) =~= all);
    files
}

/// The workflow that is offered first when it is among the files.
pub open spec fn preferred() -> Seq<char> {
    "release-plz.yml"@
}

/// Whether `i` is the first position of `name` in `names`.
pub open spec fn is_first_at(names: Seq<Seq<char>>, name: Seq<char>, i: int) -> bool {
    &&& 0 <= i < names.len()
    &&& names[i] == name
    &&& forall|j: int| 0 <= j < i ==> names[j] != name
}

/// The files with the preferred workflow, where it first occurs, moved to
/// the front, and otherwise as they are.
pub open spec fn preferred_first(files: Seq<Seq<char>>) -> Seq<Seq<char>> {
    if exists|i: int| is_first_at(files, preferred(), i) {
        let i = choose|i: int| is_first_at(files, preferred(), i);
        files.remove(i).insert(0, files[i])
    } else {
        files
    }
}

/// How the workflow of a run is settled when none was named.
#[derive(Clone, Debug, PartialEq, Eq)]
pub enum WorkflowChoice {
    /// The repository has one workflow file, and that is it.
    Only { file: String },
    /// The user picks one of these, the first being the suggestion.
    Ask { choices: Vec<String> },
}

/// The mathematical content of a [`WorkflowChoice`].
pub enum WorkflowChoiceView {
    Only { file: Seq<char> },
    Ask { choices: Seq<Seq<char>> },
}

impl View for WorkflowChoice {
    type V = WorkflowChoiceView;

    open spec fn view(&self) -> WorkflowChoiceView {
        match self {
            WorkflowChoice::Only { file } => WorkflowChoiceView::Only { file: file@ },
            WorkflowChoice::Ask { choices } => WorkflowChoiceView::Ask {
                choices: choices.deep_view(),
            },
        }
    }
}

/// How the workflow is settled, given the workflow files of the repository:
/// the only file is taken, and of several the user is asked, with the
/// preferred one in front. Without a file there is nothing to settle on.
pub open spec fn choice_of(files: Seq<Seq<char>>) -> Option<WorkflowChoiceView> {
    if files.len() == 0 {
        None
    } else if files.len() == 1 {
        Some(WorkflowChoiceView::Only { file: files[0] })
    } else {
        Some(WorkflowChoiceView::Ask { choices: preferred_first(files) })
    }
}

/// Moves the preferred workflow, where it first occurs, to the front.
pub fn order_workflows(files: Vec<String>) -> (ordered: Vec<String>)
    ensures
        ordered.deep_view() == preferred_first(files.deep_view()),
{
    let ghost names = files.deep_view();
    let mut ordered = files;
    let wanted = String::from_str("release-plz.yml");
    let mut i: usize = 0;
    while i < ordered.len()
        invariant
            i <= ordered.len(),
            names == files.deep_view(),
            ordered.deep_view() == names,
            wanted@ == preferred(),
            forall|j: int| 0 <= j < i ==> names[j] != preferred(),
        decreases ordered.len() - i,
    {
        if ordered[i] == wanted {
            proof {
                assert(names[i as int] == ordered[i as int]@);
                assert(is_first_at(names, preferred(), i as int));
                let k = choose|k: int| is_first_at(names, preferred(), k);
                assert(k == i) by {
                    if k < i {
                        assert(names[k] != preferred());
                    }
                    if i < k {
                        assert(names[i as int] != preferred());
                    }
                }
            }
            let file = ordered.remove(i);
            assert(ordered.deep_view() =~= names.remove(i as int));
            ordered.insert(0, file);
            assert(ordered.deep_view() =~= names.remove(i as int).insert(0, names[i as int]));
            return ordered;
        }
        i = i + 1;
    }
    assert forall|k: int| !is_first_at(names, preferred(), k) by {
        if 0 <= k < names.len() {
            assert(names[k] != preferred());
        }
    }
    ordered
}

/// Settles the workflow from the workflow files of the repository. With no
/// file at all a workflow has to be named, and that is the error.
pub fn select_workflow(files: Vec<String>) -> (choice: Result<WorkflowChoice, ConfigurationError>)
    ensures
        match choice {
            Ok(c) => choice_of(files.deep_view()) == Some(c@),
            Err(e) => choice_of(files.deep_view()) is None && e == ConfigurationError::NoWorkflow,
        },
{
    let ghost names = files.deep_view();
    let mut files = files;
    if files.len() == 0 {
        Err(ConfigurationError::NoWorkflow)
    } else if files.len() == 1 {
        let file = files.remove(0);
        assert(file@ == names[0]);
        Ok(WorkflowChoice::Only { file })
    } else {
        Ok(WorkflowChoice::Ask { choices: order_workflows(files) })
    }
}

} // verus!
