//! Joining the outcomes of several concurrent outbound requests.
//!
//! A handler that needs several independent responses issues the requests
//! concurrently and joins them: the join succeeds only if every required
//! request succeeded, and otherwise fails with the first failure, in request
//! order. An optional, best-effort request is joined separately: its failure
//! never aborts the call, it only leaves its section out of the rendering.

use vstd::prelude::*;

use crate::dispatch::ToolError;
use crate::dispatch::ToolErrorV;
use crate::http::HttpResponse;
use crate::http::HttpResponseV;

verus! {

/// The models of a sequence of request outcomes.
pub open spec fn outcomes_view(rs: Seq<Result<HttpResponse, ToolError>>) -> Seq<
    Result<HttpResponseV, ToolErrorV>,
> {
    Seq::new(
        rs.len(),
        |i: int|
            match rs[i] {
                Result::Ok(v) => Result::Ok(v@),
                Result::Err(e) => Result::Err(e@),
            },
    )
}

/// The models of a sequence of responses.
pub open spec fn responses_view(rs: Seq<HttpResponse>) -> Seq<HttpResponseV> {
    Seq::new(rs.len(), |i: int| rs[i]@)
}

/// The earliest failure among the first `n` outcomes.
pub open spec fn first_failure(rs: Seq<Result<HttpResponseV, ToolErrorV>>, n: int) -> Option<
    ToolErrorV,
>
    decreases n,
{
    if n <= 0 {
        Option::None
    } else {
        match first_failure(rs, n - 1) {
            Option::Some(e) => Option::Some(e),
            Option::None => match rs[n - 1] {
                Result::Err(e) => Option::Some(e),
                Result::Ok(_) => Option::None,
            },
        }
    }
}

/// Once found, the earliest failure does not change as the scan goes on.
pub proof fn lemma_first_failure_stable(
    rs: Seq<Result<HttpResponseV, ToolErrorV>>,
    i: int,
    n: int,
)
    requires
        0 <= i <= n <= rs.len(),
        first_failure(rs, i) is Some,
    ensures
        first_failure(rs, n) == first_failure(rs, i),
    decreases n,
{
    if n > i {
        lemma_first_failure_stable(rs, i, n - 1);
    }
}

/// If some outcome among the first `n` is a failure, the scan finds one.
pub proof fn lemma_first_failure_exists(
    rs: Seq<Result<HttpResponseV, ToolErrorV>>,
    i: int,
    n: int,
)
    requires
        0 <= i < n <= rs.len(),
        rs[i] is Err,
    ensures
        first_failure(rs, n) is Some,
    decreases n,
{
    if n - 1 > i {
        lemma_first_failure_exists(rs, i, n - 1);
    }
}

/// Join the outcomes of required requests: all responses in order if every
/// request succeeded, otherwise the first failure. Partial results are not a
/// success mode.
#[verifier::loop_isolation(false)]
pub fn join_required(results: Vec<Result<HttpResponse, ToolError>>) -> (r: Result<
    Vec<HttpResponse>,
    ToolError,
>)
    ensures
        match r {
            Ok(vs) => first_failure(outcomes_view(results@), results@.len() as int) is None
                && responses_view(vs@) == Seq::new(
                results@.len(),
                |i: int| outcomes_view(results@)[i]->Ok_0,
            ),
            Err(e) => first_failure(outcomes_view(results@), results@.len() as int) == Option::Some(
                e@,
            ),
        },
{
    let ghost orig = outcomes_view(results@);
    let mut rest = results;
    let mut out: Vec<HttpResponse> = Vec::new();
    while rest.len() > 0
        invariant
            out@.len() + rest@.len() == orig.len(),
            forall|j: int|
                0 <= j < rest@.len() ==> orig[out@.len() + j] == (match #[trigger] rest@[j] {
                    Result::Ok(v) => Result::<HttpResponseV, ToolErrorV>::Ok(v@),
                    Result::Err(e) => Result::<HttpResponseV, ToolErrorV>::Err(e@),
                }),
            first_failure(orig, out@.len() as int) is None,
            forall|j: int| 0 <= j < out@.len() ==> (#[trigger] out@[j])@ == orig[j]->Ok_0,
        decreases rest@.len(),
    {
        let ghost prev = rest@;
        let ghost i = out@.len() as int;
        let x = rest.remove(0);
        proof {
            assert(rest@ =~= prev.drop_first());
            assert(orig[i] == match x {
                Result::Ok(v) => Result::<HttpResponseV, ToolErrorV>::Ok(v@),
                Result::Err(e) => Result::<HttpResponseV, ToolErrorV>::Err(e@),
            });
            assert forall|j: int|
                0 <= j < rest@.len() implies orig[i + 1 + j] == (match #[trigger] rest@[j] {
                Result::Ok(v) => Result::<HttpResponseV, ToolErrorV>::Ok(v@),
                Result::Err(e) => Result::<HttpResponseV, ToolErrorV>::Err(e@),
            }) by {
                assert(rest@[j] == prev[j + 1]);
            }
        }
        match x {
            Ok(v) => {
                out.push(v);
            },
            Err(e) => {
                proof {
                    assert(first_failure(orig, i + 1) == Option::Some(e@));
                    lemma_first_failure_stable(orig, i + 1, orig.len() as int);
                }
                return Err(e);
            },
        }
    }
    proof {
        assert(responses_view(out@) =~= Seq::new(orig.len(), |j: int| orig[j]->Ok_0));
    }
    Ok(out)
}

/// The usable part of an optional, best-effort outcome: the response if the
/// request was issued and succeeded, nothing otherwise. A failure here never
/// fails the call.
pub fn optional_part(result: Option<Result<HttpResponse, ToolError>>) -> (r: Option<HttpResponse>)
    ensures
        match r {
            Some(v) => result matches Some(inner) && inner matches Ok(got) && v == got,
            None => match result {
                Option::None => true,
                Option::Some(inner) => inner is Err,
            },
        },
{
    match result {
        Some(Ok(v)) => Some(v),
        _ => None,
    }
}

} // verus!
