//! Redirect handling.
//!
//! After a response with a redirect status arrives, a [`Policy`] is applied to
//! an [`Attempt`] — a snapshot of the pending hop: the response status, the
//! next candidate method and URL, the previous method, and every URL already
//! requested in the chain — and yields an [`Action`]: follow the next URL,
//! stop and hand the redirect response back, or fail the chain.
//!
//! Before a followed hop is dispatched, [`Policy::remove_sensitive_headers`]
//! strips credential-bearing headers whenever the hop crosses an origin
//! boundary (host or effective port differs from the most recent previous
//! URL).

use std::sync::Arc;
use vstd::prelude::*;

use crate::headers::{header_entries, remove_header};
use crate::url::{same_origin, spec_same_origin, Url};

verus! {

/// `http::Method`: the request method of the `http` crate. Carried through an
/// [`Attempt`] untouched, for custom policies to inspect.
#[verifier::external_type_specification]
#[verifier::external_body]
pub struct ExMethod(http::Method);

/// `http::StatusCode`: the response status of the `http` crate. Carried
/// through an [`Attempt`] untouched, for custom policies to inspect.
#[verifier::external_type_specification]
#[verifier::external_body]
pub struct ExStatusCode(http::StatusCode);

/// The cause an [`Action`] of kind `Error` aborts a redirect chain with.
#[derive(Debug, PartialEq, Eq)]
pub enum RedirectError {
    /// A hop-limited policy saw more prior hops than it permits.
    TooManyRedirects,
    /// A custom policy aborted the chain with its own cause.
    Other(String),
}

impl RedirectError {
    /// A short description of the cause, as it would surface in an error
    /// report.
    pub fn message(&self) -> (r: String)
        ensures
            self matches RedirectError::TooManyRedirects ==> r@ == "too many redirects"@,
            self matches RedirectError::Other(m) ==> r@ == m@,
    {
        match self {
            RedirectError::TooManyRedirects => "too many redirects".to_owned(),
            RedirectError::Other(m) => m.clone(),
        }
    }
}

/// What to do with a redirect response: follow the next URL, stop and return
/// the redirect response as a normal result, or abort the chain with an error.
#[derive(Debug)]
pub enum ActionKind {
    Follow,
    Stop,
    Error(RedirectError),
}

/// An action to perform when a redirect status code is found.
#[derive(Debug)]
pub struct Action {
    pub inner: ActionKind,
}

/// A snapshot of a pending redirect hop: the response status, the next
/// candidate request's method and URL, the previous request's method, and
/// every URL already requested in this chain, oldest first (the next URL is
/// not among them).
#[derive(Debug)]
pub struct Attempt<'a> {
    pub status: http::StatusCode,
    pub next_method: &'a http::Method,
    pub next: &'a Url,
    pub previous_method: &'a http::Method,
    pub previous: &'a [Url],
}

/// A caller-supplied redirect decision, held behind dynamic dispatch for
/// shared, read-only use across concurrent chains. The verifier does not see
/// inside: the decision is arbitrary caller logic, invoked once per hop with
/// the pending [`Attempt`], and its verdict is taken verbatim.
#[verifier::external_body]
pub struct CustomPolicy {
    inner: Arc<dyn Fn(Attempt<'_>) -> Action + Send + Sync + 'static>,
}

impl CustomPolicy {
    /// Relies on `std::sync::Arc::new` only to place the caller's decision
    /// function behind shared dynamic dispatch, a coercion the verifier
    /// refuses; the function itself is stored unchanged.
    #[verifier::external_body]
    fn new<T>(policy: T) -> (r: CustomPolicy) where
        T: Fn(Attempt<'_>) -> Action + Send + Sync + 'static,
    {
        CustomPolicy { inner: Arc::new(policy) }
    }

    /// Invokes the caller's decision function on the pending hop. The verdict
    /// is whatever the caller's logic produces, so nothing is promised of it.
    #[verifier::external_body]
    fn call(&self, attempt: Attempt<'_>) -> Action {
        (self.inner)(attempt)
    }
}

/// The variants a [`Policy`] can take.
pub enum PolicyKind {
    /// Caller-supplied decision logic, invoked verbatim.
    Custom(CustomPolicy),
    /// Follow until more than this many requests were already issued.
    Limit(usize),
    /// Never follow: every redirect response is handed back as-is.
    NoFollow,
}

/// A policy on how to handle the following of redirects.
///
/// Built once at client-configuration time and shared read-only by every
/// request; the default follows at most 10 hops in a chain.
pub struct Policy {
    pub inner: PolicyKind,
}

/// The verdict of a hop-limited policy over the number of requests already
/// issued in the chain: an error once that count exceeds the limit, otherwise
/// follow. The count does not include the hop being decided, so a limit of 0
/// rejects every redirect after the very first request.
pub open spec fn spec_limit_decision(max: nat, prior_hops: nat) -> ActionKind {
    if prior_hops > max {
        ActionKind::Error(RedirectError::TooManyRedirects)
    } else {
        ActionKind::Follow
    }
}

impl Policy {
    /// Creates a policy with a maximum number of followed redirects; reaching
    /// the maximum aborts the chain with an error.
    pub fn limited(max: usize) -> (r: Policy)
        ensures
            r.inner matches PolicyKind::Limit(m) && m == max,
    {
        Policy { inner: PolicyKind::Limit(max) }
    }

    /// Creates a policy that does not follow any redirect.
    pub fn none() -> (r: Policy)
        ensures
            r.inner matches PolicyKind::NoFollow,
    {
        Policy { inner: PolicyKind::NoFollow }
    }

    /// Creates a custom policy from the passed decision capability.
    ///
    /// Unlike the built-in limited policy, a custom policy performs no loop
    /// detection of its own: the supplied logic sees the full URL history on
    /// the [`Attempt`] and must bound the chain itself.
    pub fn custom<T>(policy: T) -> (r: Policy) where
        T: Fn(Attempt<'_>) -> Action + Send + Sync + 'static,
        ensures
            r.inner matches PolicyKind::Custom(_),
    {
        Policy { inner: PolicyKind::Custom(CustomPolicy::new(policy)) }
    }

    /// Applies this policy to a pending hop.
    ///
    /// A limited policy decides by the number of URLs already requested; a
    /// no-follow policy always stops; a custom policy's verdict is returned
    /// verbatim.
    pub fn redirect(&self, attempt: Attempt<'_>) -> (r: Action)
        ensures
            self.inner matches PolicyKind::Limit(max) ==> r.inner == spec_limit_decision(
                max as nat,
                attempt.previous@.len(),
            ),
            self.inner matches PolicyKind::NoFollow ==> r.inner matches ActionKind::Stop,
    {
        match &self.inner {
            PolicyKind::Custom(custom) => custom.call(attempt),
            PolicyKind::Limit(max) => {
                if attempt.previous.len() > *max {
                    attempt.error(RedirectError::TooManyRedirects)
                } else {
                    attempt.follow()
                }
            },
            PolicyKind::NoFollow => attempt.stop(),
        }
    }

    /// Builds the [`Attempt`] for a pending hop and applies this policy to it.
    pub fn check(
        &self,
        status: http::StatusCode,
        next_method: &http::Method,
        next: &Url,
        previous_method: &http::Method,
        previous: &[Url],
    ) -> (r: ActionKind)
        ensures
            self.inner matches PolicyKind::Limit(max) ==> r == spec_limit_decision(
                max as nat,
                previous@.len(),
            ),
            self.inner matches PolicyKind::NoFollow ==> r matches ActionKind::Stop,
    {
        self.redirect(Attempt { status, next_method, next, previous_method, previous }).inner
    }

    /// Strips credential-bearing headers before a cross-origin hop.
    ///
    /// The next URL's host and effective port are compared against those of
    /// the most recent previous URL — the request that produced the redirect
    /// being followed, not the first request of the chain. If either differs,
    /// the authorization, cookie, legacy second cookie, proxy-authorization
    /// and www-authenticate headers are removed; every other header, and the
    /// whole map on a same-origin hop or an empty history, is left untouched.
    pub fn remove_sensitive_headers(headers: &mut http::HeaderMap, next: &Url, previous: &[Url])
        ensures
            previous@.len() == 0 ==> header_entries(*final(headers)) == header_entries(
                *old(headers),
            ),
            previous@.len() > 0 && spec_same_origin(*next, previous@.last()) ==> header_entries(
                *final(headers),
            ) == header_entries(*old(headers)),
            previous@.len() > 0 && !spec_same_origin(*next, previous@.last()) ==> header_entries(
                *final(headers),
            ) == without_sensitive(header_entries(*old(headers))),
    {
        if previous.len() > 0 {
            let prev = &previous[previous.len() - 1];
            if !same_origin(next, prev) {
                proof {
                    reveal_strlit("authorization");
                    reveal_strlit("cookie");
                    reveal_strlit("cookie2");
                    reveal_strlit("proxy-authorization");
                    reveal_strlit("www-authenticate");
                }
                remove_header(headers, "authorization");
                remove_header(headers, "cookie");
                remove_header(headers, "cookie2");
                remove_header(headers, "proxy-authorization");
                remove_header(headers, "www-authenticate");
            }
        }
    }
}

/// The contents of a header map after sensitive-header redaction: the
/// authorization, cookie, legacy second cookie, proxy-authorization and
/// www-authenticate entries removed, everything else kept.
pub open spec fn without_sensitive(m: Map<Seq<char>, Seq<Seq<u8>>>) -> Map<Seq<char>, Seq<Seq<u8>>> {
    m.remove("authorization"@).remove("cookie"@).remove("cookie2"@).remove(
        "proxy-authorization"@,
    ).remove("www-authenticate"@)
}

impl Default for Policy {
    /// The default policy: follow a chain of at most 10 redirects.
    fn default() -> (r: Policy)
        ensures
            r.inner matches PolicyKind::Limit(m) && m == 10,
    {
        Policy::limited(10)
    }
}

impl<'a> Attempt<'a> {
    /// The status of the redirect response being acted on.
    pub fn status(&self) -> (r: http::StatusCode)
        ensures
            r == self.status,
    {
        self.status
    }

    /// The method of the next request, after redirection logic was applied.
    pub fn next_method(&self) -> (r: &'a http::Method)
        ensures
            r == self.next_method,
    {
        self.next_method
    }

    /// The next URL to redirect to.
    pub fn url(&self) -> (r: &'a Url)
        ensures
            r == self.next,
    {
        self.next
    }

    /// The method of the previous request, before redirection.
    pub fn previous_method(&self) -> (r: &'a http::Method)
        ensures
            r == self.previous_method,
    {
        self.previous_method
    }

    /// Every URL already requested in this chain, oldest first.
    pub fn previous(&self) -> (r: &'a [Url])
        ensures
            r == self.previous,
    {
        self.previous
    }

    /// An action meaning the next URL should be followed.
    pub fn follow(self) -> (r: Action)
        ensures
            r.inner matches ActionKind::Follow,
    {
        Action { inner: ActionKind::Follow }
    }

    /// An action meaning the next URL should not be followed; the redirect
    /// response is returned to the caller as the successful result.
    pub fn stop(self) -> (r: Action)
        ensures
            r.inner matches ActionKind::Stop,
    {
        Action { inner: ActionKind::Stop }
    }

    /// An action aborting the chain; the cause becomes the error of the whole
    /// request.
    pub fn error(self, cause: RedirectError) -> (r: Action)
        ensures
            r.inner matches ActionKind::Error(c) && c == cause,
    {
        Action { inner: ActionKind::Error(cause) }
    }
}

/// A hop-limited policy follows a hop when exactly as many requests as its
/// limit were already issued, and aborts once one more was.
pub proof fn lemma_limit_at_bound(max: nat)
    ensures
        spec_limit_decision(max, max) == ActionKind::Follow,
        spec_limit_decision(max, max + 1) == ActionKind::Error(RedirectError::TooManyRedirects),
{
}

/// A zero-limit policy aborts on any non-empty hop history and follows on an
/// empty one.
pub proof fn lemma_limit_zero(prior_hops: nat)
    ensures
        prior_hops > 0 ==> spec_limit_decision(0, prior_hops) == ActionKind::Error(
            RedirectError::TooManyRedirects,
        ),
        prior_hops == 0 ==> spec_limit_decision(0, prior_hops) == ActionKind::Follow,
{
}

} // verus!
