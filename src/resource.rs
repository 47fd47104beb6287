//! Resource identities and their canonical local paths and remote endpoints.
use vstd::prelude::*;

use crate::decimal::decimal;
use crate::decimal::decimal_text;
use crate::decimal::lemma_decimal_digits;
use crate::decimal::lemma_decimal_injective;
use crate::decimal::lemma_digits_then_suffix;

verus! {

/// One resource slot on the appliance: a kind and the slot's index.
#[derive(Debug, Clone, Copy, PartialEq, Eq, Structural)]
pub enum ResourceId {
    Pipeline(usize),
    DetectorModel(usize),
    DetectorLabels(usize),
}

/// One `key=value` pair of a query string.
#[derive(Debug, Clone)]
pub struct QueryPair {
    pub key: String,
    pub value: String,
}

/// A route on the appliance and the query pairs appended to it, in order.
#[derive(Debug, Clone)]
pub struct Endpoint {
    pub route: String,
    pub query: Vec<QueryPair>,
}

impl View for Endpoint {
    type V = (Seq<char>, Seq<(Seq<char>, Seq<char>)>);

    open spec fn view(&self) -> Self::V {
        (self.route@, self.query@.map_values(|p: QueryPair| (p.key@, p.value@)))
    }
}

impl ResourceId {
    /// The slot index carried by any kind.
    pub open spec fn index(self) -> nat {
        match self {
            ResourceId::Pipeline(i) => i as nat,
            ResourceId::DetectorModel(i) => i as nat,
            ResourceId::DetectorLabels(i) => i as nat,
        }
    }

    /// The directory part of the local path, with its trailing separator.
    pub open spec fn spec_dir(self) -> Seq<char> {
        match self {
            ResourceId::Pipeline(_) => "pipelines/"@,
            _ => "detectors/"@,
        }
    }

    /// What follows the index in the local file name.
    pub open spec fn spec_suffix(self) -> Seq<char> {
        match self {
            ResourceId::Pipeline(_) => ".toml"@,
            ResourceId::DetectorModel(_) => ".model.tflite"@,
            ResourceId::DetectorLabels(_) => ".labels.txt"@,
        }
    }

    /// The path of the resource relative to the synchronised directory.
    pub open spec fn spec_relpath(self) -> Seq<char> {
        self.spec_dir() + decimal(self.index()) + self.spec_suffix()
    }

    /// The route that receives an upload of the resource.
    pub open spec fn spec_upload_route(self) -> Seq<char> {
        match self {
            ResourceId::Pipeline(_) => "/upload-pipeline"@,
            ResourceId::DetectorModel(_) => "/upload-nn"@,
            ResourceId::DetectorLabels(_) => "/upload-nnlabels"@,
        }
    }

    /// The query pairs of an upload: detectors name their type, every kind names its index.
    pub open spec fn spec_upload_query(self) -> Seq<(Seq<char>, Seq<char>)> {
        match self {
            ResourceId::Pipeline(i) => seq![("index"@, decimal(i as nat))],
            _ => seq![("type"@, "detector"@), ("index"@, decimal(self.index()))],
        }
    }

    /// The upload endpoint as route and query.
    pub open spec fn spec_upload_endpoint(self) -> (Seq<char>, Seq<(Seq<char>, Seq<char>)>) {
        (self.spec_upload_route(), self.spec_upload_query())
    }

    /// The endpoint that serves the resource, where the appliance serves one:
    /// only pipelines can be fetched.
    pub open spec fn spec_download_endpoint(self) -> Option<
        (Seq<char>, Seq<(Seq<char>, Seq<char>)>),
    > {
        match self {
            ResourceId::Pipeline(i) => Some(
                ("/pipeline-atindex"@, seq![("index"@, decimal(i as nat))]),
            ),
            _ => None,
        }
    }

    /// The slot index.
    pub fn slot(&self) -> (r: usize)
        ensures
            r as nat == self.index(),
    {
        match self {
            ResourceId::Pipeline(i) => *i,
            ResourceId::DetectorModel(i) => *i,
            ResourceId::DetectorLabels(i) => *i,
        }
    }

    /// The path of the resource relative to the synchronised directory,
    /// `<category>/<index><suffix>` with `/` as separator.
    pub fn disk_relpath(&self) -> (r: String)
        ensures
            r@ == self.spec_relpath(),
    {
        let (dir, suffix) = match self {
            ResourceId::Pipeline(_) => ("pipelines/", ".toml"),
            ResourceId::DetectorModel(_) => ("detectors/", ".model.tflite"),
            ResourceId::DetectorLabels(_) => ("detectors/", ".labels.txt"),
        };
        let mut path = String::from_str(dir);
        let digits = decimal_text(self.slot());
        path.append(digits.as_str());
        path.append(suffix);
        path
    }

    /// The directory that holds the resource's file, relative to the
    /// synchronised directory.
    pub fn disk_dir(&self) -> (r: String)
        ensures
            r@.push('/') == self.spec_dir(),
    {
        proof {
            reveal_strlit("pipelines/");
            reveal_strlit("detectors/");
            reveal_strlit("pipelines");
            reveal_strlit("detectors");
        }
        let r = match self {
            ResourceId::Pipeline(_) => String::from_str("pipelines"),
            _ => String::from_str("detectors"),
        };
        assert(r@.push('/') =~= self.spec_dir());
        r
    }

    /// The route and query that receive an upload of the resource.
    pub fn upload_endpoint(&self) -> (r: Endpoint)
        ensures
            r@ == self.spec_upload_endpoint(),
    {
        let index = QueryPair { key: String::from_str("index"), value: decimal_text(self.slot()) };
        let route = match self {
            ResourceId::Pipeline(_) => "/upload-pipeline",
            ResourceId::DetectorModel(_) => "/upload-nn",
            ResourceId::DetectorLabels(_) => "/upload-nnlabels",
        };
        let mut query: Vec<QueryPair> = Vec::new();
        match self {
            ResourceId::Pipeline(_) => {},
            _ => {
                query.push(
                    QueryPair { key: String::from_str("type"), value: String::from_str("detector") },
                );
            },
        }
        query.push(index);
        let r = Endpoint { route: String::from_str(route), query };
        assert(r@.1 =~= self.spec_upload_query());
        r
    }

    /// The route and query that serve the resource; `None` for the kinds that
    /// the appliance does not serve.
    pub fn download_endpoint(&self) -> (r: Option<Endpoint>)
        ensures
            r matches Some(e) ==> self.spec_download_endpoint() == Some(e@),
            r is None <==> self.spec_download_endpoint() is None,
    {
        match self {
            ResourceId::Pipeline(i) => {
                let mut query: Vec<QueryPair> = Vec::new();
                query.push(QueryPair { key: String::from_str("index"), value: decimal_text(*i) });
                let r = Endpoint { route: String::from_str("/pipeline-atindex"), query };
                assert(r@.1 =~= seq![("index"@, decimal(*i as nat))]);
                Some(r)
            },
            _ => None,
        }
    }
}

/// Distinct resources never share a local path: the path determines the kind
/// and the index. Each path is a function of the resource alone.
pub proof fn lemma_relpath_injective(a: ResourceId, b: ResourceId)
    ensures
        a.spec_relpath() == b.spec_relpath() ==> a == b,
{
    if a.spec_relpath() == b.spec_relpath() {
        reveal_strlit("pipelines/");
        reveal_strlit("detectors/");
        reveal_strlit(".toml");
        reveal_strlit(".model.tflite");
        reveal_strlit(".labels.txt");
        let (da, db) = (decimal(a.index()), decimal(b.index()));
        let (pa, pb) = (a.spec_relpath(), b.spec_relpath());
        assert(a.spec_dir() =~= pa.subrange(0, 10));
        assert(b.spec_dir() =~= pb.subrange(0, 10));
        assert(da + a.spec_suffix() =~= pa.subrange(10, pa.len() as int));
        assert(db + b.spec_suffix() =~= pb.subrange(10, pb.len() as int));
        lemma_decimal_digits(a.index());
        lemma_decimal_digits(b.index());
        lemma_digits_then_suffix(da, a.spec_suffix(), db, b.spec_suffix());
        lemma_decimal_injective(a.index(), b.index());
    }
}

/// Distinct resources never share an upload endpoint: route and query together
/// determine the kind and the index.
pub proof fn lemma_upload_endpoint_injective(a: ResourceId, b: ResourceId)
    ensures
        a.spec_upload_endpoint() == b.spec_upload_endpoint() ==> a == b,
{
    if a.spec_upload_endpoint() == b.spec_upload_endpoint() {
        reveal_strlit("/upload-pipeline");
        reveal_strlit("/upload-nn");
        reveal_strlit("/upload-nnlabels");
        assert("/upload-pipeline"@[8] != "/upload-nnlabels"@[8]);
        assert("/upload-pipeline"@.len() != "/upload-nn"@.len());
        assert("/upload-nnlabels"@.len() != "/upload-nn"@.len());
        let (qa, qb) = (a.spec_upload_query(), b.spec_upload_query());
        assert(qa[qa.len() - 1].1 == decimal(a.index()));
        assert(qb[qb.len() - 1].1 == decimal(b.index()));
        lemma_decimal_injective(a.index(), b.index());
    }
}

/// Distinct resources never share a download endpoint.
pub proof fn lemma_download_endpoint_injective(a: ResourceId, b: ResourceId)
    ensures
        a.spec_download_endpoint() is Some && a.spec_download_endpoint()
            == b.spec_download_endpoint() ==> a == b,
{
    if a.spec_download_endpoint() is Some && a.spec_download_endpoint()
        == b.spec_download_endpoint() {
        let qa = a.spec_download_endpoint()->Some_0.1;
        let qb = b.spec_download_endpoint()->Some_0.1;
        assert(qa[0].1 == decimal(a.index()));
        assert(qb[0].1 == decimal(b.index()));
        lemma_decimal_injective(a.index(), b.index());
    }
}

} // verus!
