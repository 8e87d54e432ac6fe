//! The registry's trusted-publishing endpoints: where they are, and what
//! their answers mean.
use vstd::prelude::*;
use vstd::string::*;
use crate::binding::{GithubConfig, GithubConfigView};

verus! {

/// The client identifier that every request to the registry carries.
pub const USER_AGENT: &'static str = "tp-trusted-publishing-setup (contact: amos@bearcove.eu)";

/// How many read-only requests may be in flight at once.
pub const MAX_IN_FLIGHT: usize = 20;

/// The pause, in milliseconds, after each request that creates a binding.
pub const CREATE_DELAY_MILLIS: u64 = 1100;

/// The address at which bindings are listed and created.
pub open spec fn configs_url() -> Seq<char> {
    "https://crates.io/api/v1/trusted_publishing/github_configs"@
}

/// The address that lists the bindings of one package.
pub open spec fn list_url_of(package: Seq<char>) -> Seq<char> {
    configs_url() + "?crate="@ + package
}

/// The address to which a new binding is posted.
pub fn create_config_url() -> (url: String)
    ensures
        url@ == configs_url(),
{
    String::from_str("https://crates.io/api/v1/trusted_publishing/github_configs")
}

/// The address that lists the bindings of `crate_name`. The name goes into
/// the query as it is.
pub fn list_configs_url(crate_name: &str) -> (url: String)
    ensures
        url@ == list_url_of(crate_name@),
{
    let mut url = create_config_url();
    url.append("?crate=");
    url.append(crate_name);
    url
}

/// Whether an HTTP status reports success: the codes from 200 to 299.
pub open spec fn is_success(status: u16) -> bool {
    200 <= status < 300
}

/// Whether an HTTP status reports success.
pub fn status_is_success(status: u16) -> (ok: bool)
    ensures
        ok == is_success(status),
{
    200 <= status && status < 300
}

/// How one request to the registry ended.
#[derive(Clone, Debug, PartialEq, Eq)]
pub enum Reply {
    /// The registry answered with a status and a body.
    Answer { status: u16, body: String },
    /// No answer arrived, or it could not be read.
    NoAnswer { reason: String },
}

/// The mathematical content of a [`Reply`].
pub enum ReplyView {
    Answer { status: u16, body: Seq<char> },
    NoAnswer { reason: Seq<char> },
}

impl View for Reply {
    type V = ReplyView;

    open spec fn view(&self) -> ReplyView {
        match self {
            Reply::Answer { status, body } => ReplyView::Answer { status: *status, body: body@ },
            Reply::NoAnswer { reason } => ReplyView::NoAnswer { reason: reason@ },
        }
    }
}

/// Why a binding could not be created.
#[derive(Clone, Debug, PartialEq, Eq)]
pub enum BindingCreateError {
    /// The registry answered with a status other than success.
    Rejected { status: u16, body: String },
    /// No answer arrived, or it could not be read.
    NoAnswer { reason: String },
}

/// The mathematical content of a [`BindingCreateError`].
pub enum BindingCreateErrorView {
    Rejected { status: u16, body: Seq<char> },
    NoAnswer { reason: Seq<char> },
}

impl View for BindingCreateError {
    type V = BindingCreateErrorView;

    open spec fn view(&self) -> BindingCreateErrorView {
        match self {
            BindingCreateError::Rejected { status, body } => BindingCreateErrorView::Rejected {
                status: *status,
                body: body@,
            },
            BindingCreateError::NoAnswer { reason } => BindingCreateErrorView::NoAnswer {
                reason: reason@,
            },
        }
    }
}

impl DeepView for BindingCreateError {
    type V = BindingCreateErrorView;

    open spec fn deep_view(&self) -> BindingCreateErrorView {
        self@
    }
}

/// Why the bindings of a package could not be listed.
#[derive(Clone, Debug, PartialEq, Eq)]
pub enum RegistryQueryError {
    /// The registry answered with a status other than success.
    Rejected { crate_name: String, status: u16, body: String },
    /// No answer arrived, or it could not be read.
    NoAnswer { crate_name: String, reason: String },
    /// The registry reported success, but its body is no list of bindings.
    Unreadable { crate_name: String, reason: String },
}

/// The mathematical content of a [`RegistryQueryError`].
pub enum RegistryQueryErrorView {
    Rejected { crate_name: Seq<char>, status: u16, body: Seq<char> },
    NoAnswer { crate_name: Seq<char>, reason: Seq<char> },
    Unreadable { crate_name: Seq<char>, reason: Seq<char> },
}

impl View for RegistryQueryError {
    type V = RegistryQueryErrorView;

    open spec fn view(&self) -> RegistryQueryErrorView {
        match self {
            RegistryQueryError::Rejected { crate_name, status, body } => {
                RegistryQueryErrorView::Rejected {
                    crate_name: crate_name@,
                    status: *status,
                    body: body@,
                }
            },
            RegistryQueryError::NoAnswer { crate_name, reason } => {
                RegistryQueryErrorView::NoAnswer { crate_name: crate_name@, reason: reason@ }
            },
            RegistryQueryError::Unreadable { crate_name, reason } => {
                RegistryQueryErrorView::Unreadable { crate_name: crate_name@, reason: reason@ }
            },
        }
    }
}

impl DeepView for RegistryQueryError {
    type V = RegistryQueryErrorView;

    open spec fn deep_view(&self) -> RegistryQueryErrorView {
        self@
    }
}

/// What an existence probe says: the package exists exactly when the
/// registry answered with success. Anything else counts as "not found".
pub open spec fn probe_found(reply: ReplyView) -> bool {
    reply matches ReplyView::Answer { status, .. } && is_success(status)
}

/// Whether an existence probe found the package.
pub fn probe_says_exists(reply: &Reply) -> (found: bool)
    ensures
        found == probe_found(reply@),
{
    match reply {
        Reply::Answer { status, .. } => status_is_success(*status),
        Reply::NoAnswer { .. } => false,
    }
}

/// What the answer to a binding-creation request means.
pub open spec fn create_outcome(reply: ReplyView) -> Result<(), BindingCreateErrorView> {
    match reply {
        ReplyView::Answer { status, body } => if is_success(status) {
            Ok(())
        } else {
            Err(BindingCreateErrorView::Rejected { status, body })
        },
        ReplyView::NoAnswer { reason } => Err(BindingCreateErrorView::NoAnswer { reason }),
    }
}

/// The view of the result of a binding-creation request.
pub open spec fn create_result_view(r: Result<(), BindingCreateError>) -> Result<
    (),
    BindingCreateErrorView,
> {
    match r {
        Ok(_) => Ok(()),
        Err(e) => Err(e@),
    }
}

/// Reads the answer to a binding-creation request: success is any status
/// from 200 to 299, and every other answer is kept with its status and body.
pub fn create_result(reply: Reply) -> (r: Result<(), BindingCreateError>)
    ensures
        create_result_view(r) == create_outcome(reply@),
{
    match reply {
        Reply::Answer { status, body } => {
            if status_is_success(status) {
                Ok(())
            } else {
                Err(BindingCreateError::Rejected { status, body })
            }
        },
        Reply::NoAnswer { reason } => Err(BindingCreateError::NoAnswer { reason }),
    }
}

/// What the answer to a listing request for `package` means: the body to
/// read the bindings from, or the failure.
pub open spec fn list_outcome(package: Seq<char>, reply: ReplyView) -> Result<
    Seq<char>,
    RegistryQueryErrorView,
> {
    match reply {
        ReplyView::Answer { status, body } => if is_success(status) {
            Ok(body)
        } else {
            Err(RegistryQueryErrorView::Rejected { crate_name: package, status, body })
        },
        ReplyView::NoAnswer { reason } => Err(
            RegistryQueryErrorView::NoAnswer { crate_name: package, reason },
        ),
    }
}

/// The view of the result of reading a listing answer.
pub open spec fn list_body_view(r: Result<String, RegistryQueryError>) -> Result<
    Seq<char>,
    RegistryQueryErrorView,
> {
    match r {
        Ok(body) => Ok(body@),
        Err(e) => Err(e@),
    }
}

/// Reads the answer to a listing request for `crate_name`: on success the
/// body, and otherwise an error that carries the package, the status and the
/// body.
pub fn list_result(crate_name: &str, reply: Reply) -> (r: Result<String, RegistryQueryError>)
    ensures
        list_body_view(r) == list_outcome(crate_name@, reply@),
{
    match reply {
        Reply::Answer { status, body } => {
            if status_is_success(status) {
                Ok(body)
            } else {
                Err(
                    RegistryQueryError::Rejected {
                        crate_name: String::from_str(crate_name),
                        status,
                        body,
                    },
                )
            }
        },
        Reply::NoAnswer { reason } => Err(
            RegistryQueryError::NoAnswer { crate_name: String::from_str(crate_name), reason },
        ),
    }
}

/// The bindings of one package, or why they could not be had.
pub type Listing = Result<Vec<GithubConfig>, RegistryQueryError>;

/// The mathematical content of a [`Listing`].
pub type ListingView = Result<Seq<GithubConfigView>, RegistryQueryErrorView>;

/// The view of one listing.
pub open spec fn listing_view(listing: Listing) -> ListingView {
    match listing {
        Ok(configs) => Ok(configs.deep_view()),
        Err(e) => Err(e@),
    }
}

/// The views of the listings of a batch, in order.
pub open spec fn listings_view(listings: Seq<Listing>) -> Seq<ListingView> {
    listings.map_values(|l: Listing| listing_view(l))
}

/// Whether `i` is the first listing of the batch that failed.
pub open spec fn is_first_failure(listings: Seq<ListingView>, i: int) -> bool {
    &&& 0 <= i < listings.len()
    &&& listings[i] is Err
    &&& forall|j: int| 0 <= j < i ==> (#[trigger] listings[j]) is Ok
}

/// The bindings of the batch's successful listings, one listing after the
/// other.
pub open spec fn joined(listings: Seq<ListingView>) -> Seq<GithubConfigView>
    decreases listings.len(),
{
    if listings.len() == 0 {
        Seq::empty()
    } else {
        joined(listings.drop_last()) + match listings.last() {
            Ok(configs) => configs,
            Err(_) => Seq::empty(),
        }
    }
}

/// Puts the listings of a batch together, all or nothing: the bindings of
/// every package in the order of the batch if every listing succeeded, and
/// otherwise the error of the first listing that failed.
pub fn collect_bindings(listings: Vec<Listing>) -> (all: Listing)
    ensures
        (forall|i: int| 0 <= i < listings.len() ==> (#[trigger] listings[i]) is Ok) ==> listing_view(
            all,
        ) == Ok::<Seq<GithubConfigView>, RegistryQueryErrorView>(
            joined(listings_view(listings@)),
        ),
        forall|i: int| #[trigger]
            is_first_failure(listings_view(listings@), i) ==> listing_view(all) == listings_view(
                listings@,
            )[i],
{
    let ghost batch = listings_view(listings@);
    let mut found: Vec<GithubConfig> = Vec::new();
    assert(found.deep_view() =~= joined(batch.take(0)));
    for listing in it: listings
        invariant
            batch.len() == it.seq().len(),
            batch == listings_view(listings@),
            forall|j: int| 0 <= j < batch.len() ==> batch[j] == listing_view(it.seq()[j]),
            forall|j: int| 0 <= j < it.index() ==> (#[trigger] batch[j]) is Ok,
            found.deep_view() == joined(batch.take(it.index() as int)),
    {
        let ghost i = it.index() as int;
        let ghost before = found.deep_view();
        assert(batch.take(i + 1).drop_last() =~= batch.take(i));
        assert(batch.take(i + 1).last() == batch[i]);
        match listing {
            Ok(mut configs) => {
                let ghost more = configs.deep_view();
                found.append(&mut configs);
                assert(found.deep_view() =~= before + more);
            },
            Err(e) => {
                assert(is_first_failure(batch, i));
                assert forall|k: int| #[trigger] is_first_failure(batch, k) implies k == i by {
                    if k < i {
                        assert(batch[k] is Ok);
                    }
                    if i < k {
                        assert(batch[i] is Ok);
                    }
                }
                return Err(e);
            },
        }
    }
    assert(batch.take(batch.len() as int) =~= batch);
    assert forall|k: int| !#[trigger] is_first_failure(batch, k) by {
        if 0 <= k < batch.len() {
            assert(batch[k] is Ok);
        }
    }
    Ok(found)
}

} // verus!
