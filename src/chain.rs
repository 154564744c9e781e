//! Extractor chains: built by appending one extractor at a time, then run in
//! construction order against one shared request view.
use vstd::prelude::*;

use crate::extractor::{
    conforms, extract_spec, lemma_extract_conforms, Extracted, ExtractedModel, Extractor,
    ExtractorModel, FailureKind,
};
use crate::request::{RequestModel, RequestView};

verus! {

/// Where and why a run of a chain stopped.
#[derive(Clone, Copy, Debug, PartialEq, Eq, Structural)]
pub struct Failure {
    /// Index of the failing extractor, counted from the first one appended.
    pub position: usize,
    pub kind: FailureKind,
}

pub struct FailureModel {
    pub position: nat,
    pub kind: FailureKind,
}

impl View for Failure {
    type V = FailureModel;

    open spec fn view(&self) -> FailureModel {
        FailureModel { position: self.position as nat, kind: self.kind }
    }
}

/// An ordered sequence of extractors. Position `i` of every aggregate that the
/// chain produces holds the output of the `i`-th extractor appended.
#[derive(Debug)]
pub struct Chain {
    extractors: Vec<Extractor>,
}

impl View for Chain {
    type V = Seq<ExtractorModel>;

    closed spec fn view(&self) -> Seq<ExtractorModel> {
        self.extractors@.map_values(|e: Extractor| e@)
    }
}

/// What running the chain `c` on the request `r` gives: the outputs of all its
/// extractors in order, or the first failure, counting from the front.
pub open spec fn run_spec(c: Seq<ExtractorModel>, r: RequestModel) -> Result<
    Seq<ExtractedModel>,
    FailureModel,
>
    decreases c.len(),
{
    if c.len() == 0 {
        Ok(Seq::empty())
    } else {
        match run_spec(c.drop_last(), r) {
            Err(f) => Err(f),
            Ok(v) => match extract_spec(c.last(), r) {
                Ok(x) => Ok(v.push(x)),
                Err(kind) => Err(FailureModel { position: (c.len() - 1) as nat, kind }),
            },
        }
    }
}

/// The model of a run's outcome.
pub open spec fn aggregate_view(r: Result<Vec<Extracted>, Failure>) -> Result<
    Seq<ExtractedModel>,
    FailureModel,
> {
    match r {
        Ok(v) => Ok(v@.map_values(|x: Extracted| x@)),
        Err(f) => Err(f@),
    }
}

/// The empty chain gives the empty aggregate on every request.
pub proof fn lemma_empty_chain(r: RequestModel)
    ensures
        run_spec(Seq::empty(), r) == Ok::<Seq<ExtractedModel>, FailureModel>(Seq::empty()),
{
}

/// Running a chain with `e` appended runs the chain, then `e`, on the same
/// request: its output goes last, and its failure is reported at the position
/// just past the chain.
pub proof fn lemma_append(c: Seq<ExtractorModel>, e: ExtractorModel, r: RequestModel)
    ensures
        run_spec(c.push(e), r) == match run_spec(c, r) {
            Err(f) => Err(f),
            Ok(v) => match extract_spec(e, r) {
                Ok(x) => Ok(v.push(x)),
                Err(kind) => Err(FailureModel { position: c.len(), kind }),
            },
        },
{
    assert(c.push(e).drop_last() =~= c);
}

/// Two runs of one chain on equal requests give equal outcomes.
pub proof fn lemma_run_deterministic(c: Seq<ExtractorModel>, r1: RequestModel, r2: RequestModel)
    requires
        r1 == r2,
    ensures
        run_spec(c, r1) == run_spec(c, r2),
{
}

/// A successful run has one value per extractor, each the extractor's own
/// output and of the output type it declares.
pub proof fn lemma_aggregate_shape(c: Seq<ExtractorModel>, r: RequestModel)
    ensures
        run_spec(c, r) matches Ok(v) ==> {
            &&& v.len() == c.len()
            &&& forall|i: int|
                0 <= i < c.len() ==> extract_spec(c[i], r) == Ok::<ExtractedModel, FailureKind>(
                    #[trigger] v[i],
                )
            &&& forall|i: int| 0 <= i < c.len() ==> conforms(#[trigger] v[i], c[i])
        },
    decreases c.len(),
{
    if c.len() > 0 {
        lemma_aggregate_shape(c.drop_last(), r);
        if let Ok(v) = run_spec(c, r) {
            assert forall|i: int| 0 <= i < c.len() implies conforms(#[trigger] v[i], c[i]) by {
                lemma_extract_conforms(c[i], r);
                if i < c.len() - 1 {
                    assert(c.drop_last()[i] == c[i]);
                }
            }
            assert forall|i: int| 0 <= i < c.len() implies extract_spec(c[i], r) == Ok::<
                ExtractedModel,
                FailureKind,
            >(#[trigger] v[i]) by {
                if i < c.len() - 1 {
                    assert(c.drop_last()[i] == c[i]);
                }
            }
        }
    }
}

/// A failed run names the first failing extractor: every extractor before
/// `position` succeeded, and the one at `position` failed with `kind`.
pub proof fn lemma_failure_identifies(c: Seq<ExtractorModel>, r: RequestModel)
    ensures
        run_spec(c, r) matches Err(f) ==> {
            &&& f.position < c.len()
            &&& forall|i: int| 0 <= i < f.position ==> (#[trigger] extract_spec(c[i], r)) is Ok
            &&& extract_spec(c[f.position as int], r) == Err::<ExtractedModel, FailureKind>(f.kind)
        },
    decreases c.len(),
{
    if c.len() > 0 {
        lemma_failure_identifies(c.drop_last(), r);
        lemma_aggregate_shape(c.drop_last(), r);
        if let Err(f) = run_spec(c, r) {
            assert forall|i: int| 0 <= i < f.position implies (#[trigger] extract_spec(c[i], r)) is Ok by {
                assert(c.drop_last()[i] == c[i]);
                if let Ok(v) = run_spec(c.drop_last(), r) {
                    assert(extract_spec(c.drop_last()[i], r) == Ok::<ExtractedModel, FailureKind>(v[i]));
                }
            }
            if run_spec(c.drop_last(), r) is Err {
                assert(c.drop_last()[f.position as int] == c[f.position as int]);
            }
        }
    }
}

/// Once a prefix of a chain fails, the whole chain fails the same way.
proof fn lemma_failed_prefix(c: Seq<ExtractorModel>, r: RequestModel, j: int)
    requires
        0 <= j <= c.len(),
        run_spec(c.take(j), r) is Err,
    ensures
        run_spec(c, r) == run_spec(c.take(j), r),
    decreases c.len(),
{
    if j == c.len() {
        assert(c.take(j) =~= c);
    } else {
        assert(c.drop_last().take(j) =~= c.take(j));
        lemma_failed_prefix(c.drop_last(), r, j);
    }
}

/// When the extractor at `k` is the first to fail, the run reports `k` and its
/// kind, and what follows `k` in the chain has no bearing on the outcome.
pub proof fn lemma_failure_short_circuits(c: Seq<ExtractorModel>, r: RequestModel, k: int)
    requires
        0 <= k < c.len(),
        forall|i: int| 0 <= i < k ==> (#[trigger] extract_spec(c[i], r)) is Ok,
        extract_spec(c[k], r) is Err,
    ensures
        run_spec(c, r) == Err::<Seq<ExtractedModel>, FailureModel>(
            FailureModel { position: k as nat, kind: extract_spec(c[k], r)->Err_0 },
        ),
        run_spec(c, r) == run_spec(c.take(k + 1), r),
{
    let p = c.take(k);
    lemma_aggregate_shape(p, r);
    lemma_failure_identifies(p, r);
    if let Err(f) = run_spec(p, r) {
        assert(p[f.position as int] == c[f.position as int]);
    }
    assert(c.take(k + 1).drop_last() =~= p);
    lemma_failed_prefix(c, r, k + 1);
}

/// The empty chain.
pub fn empty_endpoint() -> (r: Chain)
    ensures
        r@ == Seq::<ExtractorModel>::empty(),
{
    Chain::empty()
}

impl Chain {
    /// The chain of no extractors.
    pub fn empty() -> (r: Chain)
        ensures
            r@ == Seq::<ExtractorModel>::empty(),
    {
        let extractors: Vec<Extractor> = Vec::new();
        let r = Chain { extractors };
        assert(r@ =~= Seq::<ExtractorModel>::empty());
        r
    }

    /// This chain with `e` appended: one longer, all earlier positions kept.
    pub fn append(self, e: Extractor) -> (r: Chain)
        ensures
            r@ == self@.push(e@),
    {
        let mut extractors = self.extractors;
        extractors.push(e);
        let r = Chain { extractors };
        assert(r@ =~= self@.push(e@));
        r
    }

    /// The same as `append`.
    pub fn with_extractor(self, e: Extractor) -> (r: Chain)
        ensures
            r@ == self@.push(e@),
    {
        self.append(e)
    }

    /// The number of extractors in the chain.
    pub fn len(&self) -> (r: usize)
        ensures
            r == self@.len(),
    {
        self.extractors.len()
    }

    /// Runs every extractor in the order of appending against `req`; stops at
    /// the first failure, which it reports with its position and kind.
    pub fn run_all(&self, req: &RequestView) -> (r: Result<Vec<Extracted>, Failure>)
        ensures
            aggregate_view(r) == run_spec(self@, req@),
    {
        let ghost c = self@;
        let n = self.extractors.len();
        let mut out: Vec<Extracted> = Vec::new();
        let mut i: usize = 0;
        assert(c.take(0) =~= Seq::<ExtractorModel>::empty());
        assert(out@.map_values(|x: Extracted| x@) =~= Seq::<ExtractedModel>::empty());
        while i < n
            invariant
                n == self.extractors@.len(),
                c == self@,
                c == self.extractors@.map_values(|e: Extractor| e@),
                i <= n,
                run_spec(c.take(i as int), req@) == Ok::<Seq<ExtractedModel>, FailureModel>(
                    out@.map_values(|x: Extracted| x@),
                ),
            decreases n - i,
        {
            let res = self.extractors[i].extract(req);
            assert(c.take(i + 1).drop_last() =~= c.take(i as int));
            assert(c.take(i + 1).last() == c[i as int]);
            match res {
                Ok(v) => {
                    let ghost prev = out@;
                    let ghost x = v@;
                    out.push(v);
                    assert(out@.map_values(|x: Extracted| x@) =~= prev.map_values(|x: Extracted| x@).push(x));
                },
                Err(kind) => {
                    proof {
                        lemma_failed_prefix(c, req@, i + 1);
                    }
                    return Err(Failure { position: i, kind });
                },
            }
            i = i + 1;
        }
        assert(c.take(n as int) =~= c);
        Ok(out)
    }
}

} // verus!
