//! The dispatcher and the try-all driver.
//!
//! The library performs no I/O of its own: the caller supplies an executor,
//! a function from a [`Request`] to the text of its response body (`None`
//! standing for any transport failure).  [`generate_with`] builds the
//! request of one provider, runs the executor once, and decodes the answer;
//! [`try_generate_with`] walks a provider sequence in order and returns the
//! first success.

use vstd::prelude::*;

use crate::providers::{
    default_providers, parse, request, res_models, spec_default_providers, spec_parse,
    spec_request, Provider, ProviderError,
};
use crate::request::Request;

verus! {

/// What the dispatcher answers once the executor came back: a transport
/// failure is `Connection`, and a body is handed to the provider's decoder.
pub open spec fn spec_dispatch(outcome: Option<String>, p: Provider) -> Result<
    Seq<char>,
    ProviderError,
> {
    match outcome {
        None => Err(ProviderError::Connection),
        Some(body) => spec_parse(body@, p),
    }
}

/// Decodes what one run of the executor produced for `provider`.
pub fn dispatch_outcome(outcome: Option<String>, provider: &Provider) -> (r: Result<
    String,
    ProviderError,
>)
    ensures
        res_models(r, spec_dispatch(outcome, *provider)),
{
    match outcome {
        None => Err(ProviderError::Connection),
        Some(body) => parse(body.as_str(), provider),
    }
}

/// The executor, run on the request of provider `p` for `url`, may answer
/// with an outcome the provider decodes to exactly `s`.
pub open spec fn attempt_succeeds_with<F: Fn(Request) -> Option<String>>(
    executor: F,
    url: Seq<char>,
    p: Provider,
    s: Seq<char>,
) -> bool {
    exists|req: Request, o: Option<String>|
        {
            &&& req@ == spec_request(url, p)
            &&& #[trigger] call_ensures(executor, (req,), o)
            &&& spec_dispatch(o, p) == Ok::<Seq<char>, ProviderError>(s)
        }
}

/// The executor, run on the request of provider `p` for `url`, may answer
/// with an outcome the provider fails to decode.
pub open spec fn attempt_fails<F: Fn(Request) -> Option<String>>(
    executor: F,
    url: Seq<char>,
    p: Provider,
) -> bool {
    exists|req: Request, o: Option<String>|
        {
            &&& req@ == spec_request(url, p)
            &&& #[trigger] call_ensures(executor, (req,), o)
            &&& spec_dispatch(o, p) is Err
        }
}

/// Some provider of `ps` may have answered `s`: there is a position whose
/// attempt can succeed with `s` while every attempt before it fails.
pub open spec fn first_success_at<F: Fn(Request) -> Option<String>>(
    executor: F,
    url: Seq<char>,
    ps: Seq<Provider>,
    s: Seq<char>,
) -> bool {
    exists|i: int|
        {
            &&& 0 <= i < ps.len()
            &&& #[trigger] attempt_succeeds_with(executor, url, ps[i], s)
            &&& forall|j: int| 0 <= j < i ==> attempt_fails(executor, url, ps[j])
        }
}

/// Every provider of `ps` has an attempt that fails.
pub open spec fn all_attempts_fail<F: Fn(Request) -> Option<String>>(
    executor: F,
    url: Seq<char>,
    ps: Seq<Provider>,
) -> bool {
    forall|i: int| 0 <= i < ps.len() ==> attempt_fails(executor, url, ps[i])
}

/// Attempts to get a short URL for `url` from one `provider`, through the
/// caller's `executor`.
///
/// The request handed to the executor is exactly the provider's request
/// for `url`, and the result is exactly the dispatch of what the executor
/// answered: `Connection` for a transport failure, the decoded short URL
/// or `Deserialize` otherwise.
pub fn generate_with<F: Fn(Request) -> Option<String>>(
    url: &str,
    provider: &Provider,
    executor: F,
) -> (r: Result<String, ProviderError>)
    requires
        forall|req: Request| #[trigger] call_requires(executor, (req,)),
    ensures
        exists|req: Request, o: Option<String>|
            {
                &&& req@ == spec_request(url@, *provider)
                &&& #[trigger] call_ensures(executor, (req,), o)
                &&& res_models(r, spec_dispatch(o, *provider))
            },
{
    let req = request(url, provider);
    let ghost greq = req;
    let outcome = executor(req);
    let ghost go = outcome;
    let r = dispatch_outcome(outcome, provider);
    proof {
        assert(call_ensures(executor, (greq,), go));
    }
    r
}

/// Walks `providers` in order, attempting each through the executor, and
/// returns the first success.
fn try_slice<F: Fn(Request) -> Option<String>>(
    url: &str,
    providers: &[Provider],
    executor: F,
) -> (r: Result<String, ProviderError>)
    requires
        forall|req: Request| #[trigger] call_requires(executor, (req,)),
    ensures
        match r {
            Ok(s) => first_success_at(executor, url@, providers@, s@),
            Err(e) => e == ProviderError::Connection && all_attempts_fail(
                executor,
                url@,
                providers@,
            ),
        },
{
    let n = providers.len();
    let mut k: usize = 0;
    while k < n
        invariant
            n == providers@.len(),
            0 <= k <= n,
            forall|req: Request| #[trigger] call_requires(executor, (req,)),
            forall|j: int| 0 <= j < k ==> attempt_fails(executor, url@, providers@[j]),
        decreases n - k,
    {
        let p = vstd::slice::slice_index_get(providers, k);
        let req = request(url, p);
        let ghost greq = req;
        let outcome = executor(req);
        let ghost go = outcome;
        let res = dispatch_outcome(outcome, p);
        proof {
            assert(call_ensures(executor, (greq,), go));
        }
        match res {
            Ok(s) => {
                proof {
                    assert(attempt_succeeds_with(executor, url@, providers@[k as int], s@));
                    assert(first_success_at(executor, url@, providers@, s@));
                }
                return Ok(s);
            },
            Err(_) => {
                proof {
                    assert(attempt_fails(executor, url@, providers@[k as int]));
                }
            },
        }
        k += 1;
    }
    Err(ProviderError::Connection)
}

/// Try to generate a short URL from each provider, iterating over each
/// provider until a short URL is successfully generated.
///
/// With `None` as the second argument the default priority list is
/// walked; an explicit slice overrides the list and its order.  Both
/// failure kinds of an attempt mean "try the next provider"; when the
/// whole sequence is exhausted without a success the answer is
/// `Connection`, whatever each single attempt reported.  An empty
/// explicit list is answered with `Connection` at once.
pub fn try_generate_with<F: Fn(Request) -> Option<String>>(
    url: &str,
    use_providers: Option<&[Provider]>,
    executor: F,
) -> (r: Result<String, ProviderError>)
    requires
        forall|req: Request| #[trigger] call_requires(executor, (req,)),
    ensures
        ({
            let ps = match use_providers {
                Some(l) => l@,
                None => spec_default_providers(),
            };
            match r {
                Ok(s) => first_success_at(executor, url@, ps, s@),
                Err(e) => e == ProviderError::Connection && all_attempts_fail(executor, url@, ps),
            }
        }),
        (match use_providers {
            Some(l) => l@.len() == 0,
            None => false,
        }) ==> r == Err::<String, ProviderError>(ProviderError::Connection),
{
    match use_providers {
        Some(list) => try_slice(url, list, executor),
        None => {
            let d = default_providers();
            try_slice(url, d.as_slice(), executor)
        },
    }
}

} // verus!
