//! The endpoint-binding framework: a resource type declares a path template
//! together with its arity (how many integer identifiers the template
//! expects), and gains uniformly shaped "get one" / "get all" operations.
//!
//! A declaration whose template does not contain exactly `arity`
//! placeholders is rejected at construction, an invocation whose argument
//! variant does not match the declared arity is rejected without building a
//! request, and an operation a type never declared answers with a fixed
//! "not implemented" error instead of being missing from the interface.

use vstd::prelude::*;
use crate::args::EndpointGetArgs;
use crate::client::NaClient;
use crate::client::url_of;
use crate::errors::NaApiError;
use crate::errors::not_implemented_text;
use crate::template::count_placeholders;
use crate::template::fill_digits;
use crate::template::fill_template;
use crate::template::placeholder_count;

verus! {

/// The mathematical content of an endpoint descriptor: the template's
/// characters and the declared arity.
pub ghost struct DescriptorModel {
    pub template: Seq<char>,
    pub arity: nat,
}

impl DescriptorModel {
    /// A descriptor is valid when its arity is an argument-variant shape
    /// (zero, one or two identifiers) and the template contains exactly
    /// that many placeholders.
    pub open spec fn valid(self) -> bool {
        self.arity <= 2 && placeholder_count(self.template) == self.arity
    }
}

/// An endpoint descriptor that passed validation: a path template holding
/// exactly `arity` placeholders, `arity` being 0, 1 or 2.  Immutable
/// metadata, attached to a resource type, never to an instance.
pub struct EndpointDescriptor {
    path_template: String,
    arity: u32,
}

impl View for EndpointDescriptor {
    type V = DescriptorModel;

    closed spec fn view(&self) -> DescriptorModel {
        DescriptorModel { template: self.path_template@, arity: self.arity as nat }
    }
}

/// The message of an argument-shape mismatch for a declared arity.
pub open spec fn arity_mismatch_text(arity: nat) -> Seq<char> {
    if arity == 0 {
        "No args Allowed"@
    } else if arity == 1 {
        "Only one arg Allowed"@
    } else {
        "Only two args Allowed"@
    }
}

/// What formatting a path for `(dm, args)` must return: the filled template
/// when the argument variant matches the declared arity, and the
/// argument-shape-mismatch error otherwise.
pub open spec fn format_path_outcome(
    dm: DescriptorModel,
    args: EndpointGetArgs,
    r: Result<String, NaApiError>,
) -> bool {
    if args.count() == dm.arity {
        r matches Ok(p) && p@ == fill_digits(dm.template, args.values())
    } else {
        r matches Err(e) && e matches NaApiError::UnknownError(t) && t@
            == arity_mismatch_text(dm.arity)
    }
}

impl EndpointDescriptor {
    /// Validates a declaration.  Returns the descriptor exactly when
    /// `arity` is at most two and `path_template` contains exactly `arity`
    /// placeholders; a mismatched declaration is rejected.
    pub fn new(path_template: String, arity: u32) -> (r: Option<EndpointDescriptor>)
        ensures
            r is Some <==> (arity <= 2 && placeholder_count(path_template@)
                == arity as nat),
            r matches Some(d) ==> d@ == (DescriptorModel {
                template: path_template@,
                arity: arity as nat,
            }),
            r matches Some(d) ==> d@.valid(),
    {
        let n = count_placeholders(path_template.as_str());
        if arity <= 2 && n == arity as usize {
            Some(EndpointDescriptor { path_template, arity })
        } else {
            None
        }
    }

    /// The declared arity.
    pub fn arity(&self) -> (r: u32)
        ensures
            r as nat == self@.arity,
    {
        self.arity
    }

    /// The declared path template.
    pub fn path_template(&self) -> (r: &str)
        ensures
            r@ == self@.template,
    {
        self.path_template.as_str()
    }

    /// The request path for a call with `args`: the template's placeholders
    /// filled, left to right, with the decimal text of the identifiers
    /// `args` carries — or the argument-shape-mismatch error when the
    /// variant's tag differs from the declared arity.
    pub fn format_path(&self, args: EndpointGetArgs) -> (r: Result<String, NaApiError>)
        requires
            self@.valid(),
        ensures
            format_path_outcome(self@, args, r),
    {
        let count = args.tag_count();
        if count == self.arity {
            let mut vals: Vec<u32> = Vec::new();
            match args {
                EndpointGetArgs::NoArgs => {},
                EndpointGetArgs::OneInt(a) => {
                    vals.push(a);
                },
                EndpointGetArgs::TwoInt(a, b) => {
                    vals.push(a);
                    vals.push(b);
                },
            }
            proof {
                assert(vals@ =~= args.values());
            }
            Ok(fill_template(self.path_template.as_str(), &vals))
        } else if self.arity == 0 {
            Err(NaApiError::UnknownError("No args Allowed".to_owned()))
        } else if self.arity == 1 {
            Err(NaApiError::UnknownError("Only one arg Allowed".to_owned()))
        } else {
            Err(NaApiError::UnknownError("Only two args Allowed".to_owned()))
        }
    }
}

/// The descriptor a type declares, with an invalid declaration filtered
/// out: such a declaration is rejected at construction and behaves like an
/// absent one.
pub open spec fn effective_descriptor(m: Option<DescriptorModel>) -> Option<DescriptorModel> {
    match m {
        Some(dm) => if dm.valid() {
            Some(dm)
        } else {
            None
        },
        None => None,
    }
}

/// Relates a runtime descriptor to a declared model: the runtime value is
/// present, and equal to the model, exactly when the declaration is present
/// and valid.
pub open spec fn descriptor_opt_matches(
    r: Option<EndpointDescriptor>,
    m: Option<DescriptorModel>,
) -> bool {
    match effective_descriptor(m) {
        Some(dm) => r matches Some(d) && d@ == dm,
        None => r is None,
    }
}

/// What an operation's path computation must return for a declaration `m`
/// and a call with `args`: the not-implemented error when the type never
/// declared the operation, and otherwise the outcome of formatting the
/// declared template.
pub open spec fn route_outcome(
    m: Option<DescriptorModel>,
    args: EndpointGetArgs,
    r: Result<String, NaApiError>,
) -> bool {
    match effective_descriptor(m) {
        Some(dm) => format_path_outcome(dm, args, r),
        None => r matches Err(e) && e matches NaApiError::UnknownError(t) && t@
            == not_implemented_text(),
    }
}

/// As `route_outcome`, with the successful path carried through to the full
/// request URL for a client with base address `base` and API key `key`.
pub open spec fn url_route_outcome(
    m: Option<DescriptorModel>,
    base: Seq<char>,
    key: Seq<char>,
    args: EndpointGetArgs,
    r: Result<String, NaApiError>,
) -> bool {
    match effective_descriptor(m) {
        Some(dm) => if args.count() == dm.arity {
            r matches Ok(u) && u@ == url_of(base, fill_digits(dm.template, args.values()), key)
        } else {
            r matches Err(e) && e matches NaApiError::UnknownError(t) && t@
                == arity_mismatch_text(dm.arity)
        },
        None => r matches Err(e) && e matches NaApiError::UnknownError(t) && t@
            == not_implemented_text(),
    }
}

/// Law: whatever the resource type and whichever operation, a call whose
/// argument variant differs from the declared arity is answered with the
/// argument-shape-mismatch error — it never produces a request path, so no
/// request is ever built for it.
pub proof fn lemma_mismatch_always_rejected(
    m: Option<DescriptorModel>,
    args: EndpointGetArgs,
    r: Result<String, NaApiError>,
)
    requires
        effective_descriptor(m) matches Some(dm) && args.count() != dm.arity,
        route_outcome(m, args, r),
    ensures
        r matches Err(e) && e matches NaApiError::UnknownError(t) && t@ == arity_mismatch_text(
            effective_descriptor(m)->0.arity,
        ),
{
}

/// Law: the same holds of the URL computation — a mismatched call yields
/// the argument-shape-mismatch error and no URL.
pub proof fn lemma_mismatch_yields_no_url(
    m: Option<DescriptorModel>,
    base: Seq<char>,
    key: Seq<char>,
    args: EndpointGetArgs,
    r: Result<String, NaApiError>,
)
    requires
        effective_descriptor(m) matches Some(dm) && args.count() != dm.arity,
        url_route_outcome(m, base, key, args, r),
    ensures
        r matches Err(e) && e matches NaApiError::UnknownError(t) && t@ == arity_mismatch_text(
            effective_descriptor(m)->0.arity,
        ),
{
}

/// Law: the path computation is a function of the declaration and the
/// arguments alone — two outcomes of the same call agree on success, on the
/// path text, and on the error.
pub proof fn lemma_route_deterministic(
    m: Option<DescriptorModel>,
    args: EndpointGetArgs,
    r1: Result<String, NaApiError>,
    r2: Result<String, NaApiError>,
)
    requires
        route_outcome(m, args, r1),
        route_outcome(m, args, r2),
    ensures
        r1 is Ok <==> r2 is Ok,
        r1 matches Ok(p1) ==> r2 matches Ok(p2) && p1@ == p2@,
        r1 matches Err(e1) ==> r2 matches Err(e2) && e1.spec_text() == e2.spec_text(),
{
}

/// The "get one" capability: fetching a single instance of the resource.
/// A type declares its descriptor through `one_descriptor` /
/// `get_one_descriptor`; the operations themselves are the uniform default
/// bodies below, the same for every resource type.
pub trait EndpointGetOne {
    /// The declared "get one" descriptor, or `None` when the type does not
    /// support the operation.
    spec fn one_descriptor() -> Option<DescriptorModel>;

    /// The validated runtime descriptor for "get one".
    fn get_one_descriptor() -> (r: Option<EndpointDescriptor>)
        ensures
            descriptor_opt_matches(r, Self::one_descriptor()),
    ;

    /// The request path for fetching one instance with `args`.
    fn get_one_path(args: EndpointGetArgs) -> (r: Result<String, NaApiError>)
        ensures
            route_outcome(Self::one_descriptor(), args, r),
    {
        match Self::get_one_descriptor() {
            Some(d) => d.format_path(args),
            None => Err(NaApiError::not_implemented()),
        }
    }

    /// The full request URL for fetching one instance with `args` through
    /// `na_client`.
    fn get_one_url(na_client: &NaClient, args: EndpointGetArgs) -> (r: Result<
        String,
        NaApiError,
    >)
        ensures
            url_route_outcome(
                Self::one_descriptor(),
                na_client.address@,
                na_client.api_key@,
                args,
                r,
            ),
    {
        match Self::get_one_path(args) {
            Ok(p) => Ok(na_client.request_url(p.as_str())),
            Err(e) => Err(e),
        }
    }
}

/// The "get all" capability: fetching the full list of a resource.  The
/// response's order is the server's; this layer passes it through.
pub trait EndpointGetAll {
    /// The declared "get all" descriptor, or `None` when the type does not
    /// support the operation.
    spec fn all_descriptor() -> Option<DescriptorModel>;

    /// The validated runtime descriptor for "get all".
    fn get_all_descriptor() -> (r: Option<EndpointDescriptor>)
        ensures
            descriptor_opt_matches(r, Self::all_descriptor()),
    ;

    /// The request path for fetching the list with `args`.
    fn get_all_path(args: EndpointGetArgs) -> (r: Result<String, NaApiError>)
        ensures
            route_outcome(Self::all_descriptor(), args, r),
    {
        match Self::get_all_descriptor() {
            Some(d) => d.format_path(args),
            None => Err(NaApiError::not_implemented()),
        }
    }

    /// The full request URL for fetching the list with `args` through
    /// `na_client`.
    fn get_all_url(na_client: &NaClient, args: EndpointGetArgs) -> (r: Result<
        String,
        NaApiError,
    >)
        ensures
            url_route_outcome(
                Self::all_descriptor(),
                na_client.address@,
                na_client.api_key@,
                args,
                r,
            ),
    {
        match Self::get_all_path(args) {
            Ok(p) => Ok(na_client.request_url(p.as_str())),
            Err(e) => Err(e),
        }
    }
}

} // verus!
