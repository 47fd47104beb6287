//! Resolving endpoints against the appliance's base URL.
use vstd::prelude::*;

use crate::error::ErrorKind;
use crate::error::SyncError;
use crate::error::Target;
use crate::resource::Endpoint;
use crate::resource::QueryPair;
use crate::resource::ResourceId;

verus! {

#[verifier::external_type_specification]
#[verifier::external_body]
pub struct ExUrlParseError(url::ParseError);

/// The serialization of `url::Url::join(route)` on the URL parsed from
/// `base`; `None` where parsing or joining fails.
pub uninterp spec fn url_join(base: Seq<char>, route: Seq<char>) -> Option<Seq<char>>;

/// The serialization of the URL parsed from `url` after `append_pair(key,
/// value)` on its query; `None` where parsing fails.
pub uninterp spec fn with_pair(url: Seq<char>, key: Seq<char>, value: Seq<char>) -> Option<Seq<char>>;

/// Relies on `url::Url::parse` of `base` and `url::Url::join`: resolves
/// `route` as a reference relative to `base`.
#[verifier::external_body]
fn join_url(base: &str, route: &str) -> (r: Result<String, url::ParseError>)
    ensures
        r is Ok <==> url_join(base@, route@) is Some,
        r matches Ok(u) ==> url_join(base@, route@) == Some(u@),
{
    let b = url::Url::parse(base)?;
    Ok(String::from(b.join(route)?))
}

/// Relies on `url::Url::parse` of `url`, then `url::Url::query_pairs_mut` and
/// its `append_pair`: appends the pair, form-encoded, to the URL's query.
#[verifier::external_body]
fn append_query_pair(url: &str, key: &str, value: &str) -> (r: Result<String, url::ParseError>)
    ensures
        r is Ok <==> with_pair(url@, key@, value@) is Some,
        r matches Ok(u) ==> with_pair(url@, key@, value@) == Some(u@),
{
    let mut u = url::Url::parse(url)?;
    u.query_pairs_mut().append_pair(key, value);
    Ok(String::from(u))
}

/// `url` with the pairs of `query` appended in order.
pub open spec fn with_pairs(url: Option<Seq<char>>, query: Seq<(Seq<char>, Seq<char>)>) -> Option<
    Seq<char>,
>
    decreases query.len(),
{
    if query.len() == 0 {
        url
    } else {
        match with_pairs(url, query.drop_last()) {
            Some(u) => with_pair(u, query.last().0, query.last().1),
            None => None,
        }
    }
}

/// The text of the absolute URL of an endpoint on the appliance at `base`.
pub open spec fn resolved(base: Seq<char>, e: (Seq<char>, Seq<(Seq<char>, Seq<char>)>)) -> Option<
    Seq<char>,
> {
    with_pairs(url_join(base, e.0), e.1)
}

/// The URL text of a result, as a mathematical value.
pub open spec fn url_view<E>(r: Result<String, E>) -> Result<Seq<char>, E> {
    match r {
        Ok(u) => Ok(u@),
        Err(e) => Err(e),
    }
}

/// The result owed for an endpoint that resolves to `t`, or fails with `e`.
pub open spec fn resolved_or(t: Option<Seq<char>>, e: SyncError) -> Result<Seq<char>, SyncError> {
    match t {
        Some(u) => Ok(u),
        None => Err(e),
    }
}

/// The route of the appliance's status document.
pub open spec fn spec_status_endpoint() -> (Seq<char>, Seq<(Seq<char>, Seq<char>)>) {
    ("/status"@, Seq::empty())
}

/// The endpoint of the appliance's status document.
pub fn status_endpoint() -> (r: Endpoint)
    ensures
        r@ == spec_status_endpoint(),
{
    let r = Endpoint { route: String::from_str("/status"), query: Vec::new() };
    assert(r@.1 =~= Seq::<(Seq<char>, Seq<char>)>::empty());
    r
}

impl Endpoint {
    /// The text of the absolute URL of this endpoint on the appliance at
    /// `base`: the route joined to `base`, then each query pair appended in
    /// order. `None` when `base` cannot take a route.
    pub fn resolve(&self, base: &str) -> (r: Option<String>)
        ensures
            r is Some <==> resolved(base@, self@) is Some,
            r matches Some(u) ==> resolved(base@, self@) == Some(u@),
    {
        let mut url = match join_url(base, self.route.as_str()) {
            Ok(u) => u,
            Err(_) => {
                proof {
                    lemma_with_pairs_stays_none(None, self@.1, 0);
                }
                return None;
            },
        };
        let ghost q = self@.1;
        let mut i: usize = 0;
        while i < self.query.len()
            invariant
                i <= self.query.len(),
                q == self@.1,
                q.len() == self.query@.len(),
                with_pairs(url_join(base@, self@.0), q.take(i as int)) == Some(url@),
            decreases self.query.len() - i,
        {
            let pair: &QueryPair = &self.query[i];
            assert(q.take(i + 1).drop_last() =~= q.take(i as int));
            match append_query_pair(url.as_str(), pair.key.as_str(), pair.value.as_str()) {
                Ok(u) => url = u,
                Err(_) => {
                    proof {
                        lemma_with_pairs_stays_none(url_join(base@, self@.0), q, i as int + 1);
                    }
                    return None;
                },
            }
            i = i + 1;
        }
        assert(q.take(i as int) =~= q);
        Some(url)
    }
}

/// Once appending fails, appending more pairs does not recover.
proof fn lemma_with_pairs_stays_none(url: Option<Seq<char>>, q: Seq<(Seq<char>, Seq<char>)>, n: int)
    requires
        0 <= n <= q.len(),
        with_pairs(url, q.take(n)) is None,
    ensures
        with_pairs(url, q) is None,
    decreases q.len() - n,
{
    if n < q.len() {
        assert(q.take(n + 1).drop_last() =~= q.take(n));
        lemma_with_pairs_stays_none(url, q, n + 1);
    } else {
        assert(q.take(n) =~= q);
    }
}

impl ResourceId {
    /// The URL that receives an upload of this resource.
    pub fn upload_url(&self, base: &str) -> (r: Result<String, SyncError>)
        ensures
            url_view(r) == resolved_or(
                resolved(base@, self.spec_upload_endpoint()),
                SyncError::about(ErrorKind::BaseUrl, *self),
            ),
    {
        match self.upload_endpoint().resolve(base) {
            Some(u) => Ok(u),
            None => Err(SyncError::about(ErrorKind::BaseUrl, *self)),
        }
    }

    /// The URL that serves this resource. Only pipelines are served: for the
    /// other kinds the appliance has nothing to fetch.
    pub fn download_url(&self, base: &str) -> (r: Result<String, SyncError>)
        ensures
            url_view(r) == match self.spec_download_endpoint() {
                Some(e) => resolved_or(resolved(base@, e), SyncError::about(ErrorKind::BaseUrl, *self)),
                None => Err(SyncError::about(ErrorKind::NotFound, *self)),
            },
    {
        match self.download_endpoint() {
            Some(endpoint) => match endpoint.resolve(base) {
                Some(u) => Ok(u),
                None => Err(SyncError::about(ErrorKind::BaseUrl, *self)),
            },
            None => Err(SyncError::about(ErrorKind::NotFound, *self)),
        }
    }
}

/// The URL of the appliance's status document.
pub fn status_url(base: &str) -> (r: Result<String, SyncError>)
    ensures
        url_view(r) == resolved_or(
            resolved(base@, spec_status_endpoint()),
            SyncError { kind: ErrorKind::BaseUrl, target: Target::Status },
        ),
{
    match status_endpoint().resolve(base) {
        Some(u) => Ok(u),
        None => Err(SyncError { kind: ErrorKind::BaseUrl, target: Target::Status }),
    }
}

} // verus!
