//! The placeholder package that reserves a name in the registry.
use vstd::prelude::*;
use vstd::string::*;
use crate::package::{Package, PackageView};
use crate::text::{chars_of, push_char};

verus! {

/// The pause, in seconds, after each placeholder that was published.
pub const PUBLISH_COOLDOWN_SECS: u64 = 10;

/// The environment variable through which the publishing subprocess gets the
/// registry credential.
pub const TOKEN_VARIABLE: &'static str = "CARGO_REGISTRY_TOKEN";

/// The description of a placeholder whose package has none.
pub open spec fn default_description() -> Seq<char> {
    "Placeholder for trusted publishing setup"@
}

/// The license of a placeholder whose package names none.
pub open spec fn default_license() -> Seq<char> {
    "MIT OR Apache-2.0"@
}

/// `s` with a backslash put before each double quote.
pub open spec fn escaped(s: Seq<char>) -> Seq<char>
    decreases s.len(),
{
    if s.len() == 0 {
        Seq::empty()
    } else if s.last() == '"' {
        escaped(s.drop_last()) + seq!['\\', '"']
    } else {
        escaped(s.drop_last()).push(s.last())
    }
}

/// The manifest of the placeholder for a package: its name, the lowest
/// version there is, its description with the quotes escaped and its license,
/// each with a default, and its repository if it has one.
pub open spec fn manifest_of(p: PackageView) -> Seq<char> {
    "[package]\nname = \""@ + p.name + "\"\nversion = \"0.0.0\"\nedition = \"2024\"\ndescription = \""@
        + escaped(
        match p.description {
            Some(d) => d,
            None => default_description(),
        },
    ) + "\"\nlicense = \""@ + (match p.license {
        Some(l) => l,
        None => default_license(),
    }) + "\"\n"@ + (match p.repository {
        Some(r) => "repository = \""@ + r + "\"\n"@,
        None => Seq::empty(),
    })
}

/// The name of the scratch directory in which the placeholder is built.
pub open spec fn dir_name_of(name: Seq<char>) -> Seq<char> {
    "tp-skeleton-"@ + name
}

/// Appends `text` to `out`, with a backslash before each double quote.
pub fn push_escaped(out: &mut String, text: &str)
    ensures
        final(out)@ == old(out)@ + escaped(text@),
{
    let chars = chars_of(text);
    let mut i: usize = 0;
    assert(out@ =~= old(out)@ + escaped(chars@.take(0)));
    while i < chars.len()
        invariant
            i <= chars.len(),
            chars@ == text@,
            out@ == old(out)@ + escaped(chars@.take(i as int)),
        decreases chars.len() - i,
    {
        assert(chars@.take(i + 1).drop_last() =~= chars@.take(i as int));
        if chars[i] == '"' {
            push_char(out, '\\');
            push_char(out, '"');
        } else {
            push_char(out, chars[i]);
        }
        i = i + 1;
        assert(out@ =~= old(out)@ + escaped(chars@.take(i as int)));
    }
    assert(chars@.take(chars.len() as int) =~= chars@);
}

/// The text of the placeholder's manifest.
pub fn skeleton_manifest(pkg: &Package) -> (text: String)
    ensures
        text@ == manifest_of(pkg@),
{
    let mut text = String::from_str("[package]\nname = \"");
    text.append(pkg.name.as_str());
    text.append("\"\nversion = \"0.0.0\"\nedition = \"2024\"\ndescription = \"");
    match &pkg.description {
        Some(d) => push_escaped(&mut text, d.as_str()),
        None => push_escaped(&mut text, "Placeholder for trusted publishing setup"),
    }
    text.append("\"\nlicense = \"");
    match &pkg.license {
        Some(l) => text.append(l.as_str()),
        None => text.append("MIT OR Apache-2.0"),
    }
    text.append("\"\n");
    match &pkg.repository {
        Some(r) => {
            text.append("repository = \"");
            text.append(r.as_str());
            text.append("\"\n");
        },
        None => {},
    }
    assert(text@ =~= manifest_of(pkg@));
    text
}

/// The source of the placeholder's library.
pub fn skeleton_source() -> (text: String)
    ensures
        text@ == "//! Placeholder crate for trusted publishing setup.\n"@,
{
    String::from_str("//! Placeholder crate for trusted publishing setup.\n")
}

/// The name of the scratch directory for the placeholder of `name`.
pub fn skeleton_dir_name(name: &str) -> (dir: String)
    ensures
        dir@ == dir_name_of(name@),
{
    let mut dir = String::from_str("tp-skeleton-");
    dir.append(name);
    dir
}

/// Why a placeholder could not be published.
#[derive(Clone, Debug, PartialEq, Eq)]
pub enum PublishError {
    /// The publish command ran and reported failure.
    Refused { package: String },
    /// The placeholder could not be built or the command could not be run.
    Broken { package: String, reason: String },
}

/// The mathematical content of a [`PublishError`].
pub enum PublishErrorView {
    Refused { package: Seq<char> },
    Broken { package: Seq<char>, reason: Seq<char> },
}

impl View for PublishError {
    type V = PublishErrorView;

    open spec fn view(&self) -> PublishErrorView {
        match self {
            PublishError::Refused { package } => PublishErrorView::Refused { package: package@ },
            PublishError::Broken { package, reason } => PublishErrorView::Broken {
                package: package@,
                reason: reason@,
            },
        }
    }
}

impl DeepView for PublishError {
    type V = PublishErrorView;

    open spec fn deep_view(&self) -> PublishErrorView {
        self@
    }
}

/// The view of the result of publishing a placeholder.
pub open spec fn publish_result_view(r: Result<(), PublishError>) -> Result<(), PublishErrorView> {
    match r {
        Ok(_) => Ok(()),
        Err(e) => Err(e@),
    }
}

/// What the exit status of the publish command means for the placeholder of
/// `name`: success, or an error that names the package.
pub fn publish_result(name: &str, succeeded: bool) -> (r: Result<(), PublishError>)
    ensures
        publish_result_view(r) == if succeeded {
            Ok::<(), PublishErrorView>(())
        } else {
            Err::<(), PublishErrorView>(PublishErrorView::Refused { package: name@ })
        },
{
    if succeeded {
        Ok(())
    } else {
        Err(PublishError::Refused { package: String::from_str(name) })
    }
}

} // verus!
