//! What three endpoints of the API compute once their inputs have been
//! read: the list of a project's reports, whether a permission is granted,
//! and where the API is served.

use vstd::prelude::*;

use crate::json::{JsonAllowed, JsonEndpoint};

verus! {

/// The path parameters of the report list of a project.
#[derive(Debug)]
pub struct GetLsParams {
    /// The project's slug or UUID.
    pub project: String,
}

/// The path parameters of the permission check of an organization.
#[derive(Debug)]
pub struct OrgAllowedParams {
    /// The organization's slug or UUID.
    pub organization: String,
    /// The name of the permission asked about.
    pub permission: String,
}

/// The values of `results` that are `Ok`, in order.
pub open spec fn ok_values<R, E>(results: Seq<Result<R, E>>) -> Seq<R>
    decreases results.len(),
{
    if results.len() == 0 {
        Seq::empty()
    } else {
        let rest = ok_values(results.drop_last());
        match results.last() {
            Ok(r) => rest.push(r),
            Err(_) => rest,
        }
    }
}

/// The values kept from two runs of rows one after the other are those kept
/// from the first run followed by those kept from the second: rows are
/// neither reordered nor mixed.
pub proof fn lemma_ok_values_concat<R, E>(a: Seq<Result<R, E>>, b: Seq<Result<R, E>>)
    ensures
        ok_values(a + b) == ok_values(a) + ok_values(b),
    decreases b.len(),
{
    if b.len() == 0 {
        assert(a + b =~= a);
        assert(ok_values(a) + ok_values(b) =~= ok_values(a));
    } else {
        lemma_ok_values_concat(a, b.drop_last());
        assert((a + b).drop_last() =~= a + b.drop_last());
        assert((a + b).last() == b.last());
        match b.last() {
            Ok(r) => {
                assert(ok_values(a) + ok_values(b) =~= (ok_values(a) + ok_values(b.drop_last())).push(r));
            },
            Err(_) => {},
        }
    }
}

/// A row that converts is kept as it is; a row that does not is left out;
/// no rows give no reports.
pub proof fn lemma_ok_values_single<R, E>(r: R, e: E)
    ensures
        ok_values(Seq::<Result<R, E>>::empty()) == Seq::<R>::empty(),
        ok_values(seq![Ok::<R, E>(r)]) == seq![r],
        ok_values(seq![Err::<R, E>(e)]) == Seq::<R>::empty(),
{
    assert(seq![Ok::<R, E>(r)].drop_last() =~= Seq::<Result<R, E>>::empty());
    assert(seq![Err::<R, E>(e)].drop_last() =~= Seq::<Result<R, E>>::empty());
    assert(Seq::<R>::empty().push(r) =~= seq![r]);
}

/// The reports listed for a project: of the rows read, those that could be
/// turned into a report, in the order read; the others are left out.
pub fn get_ls_json<R, E>(converted: Vec<Result<R, E>>) -> (json: Vec<R>)
    ensures
        json@ == ok_values(converted@),
{
    let ghost all = converted@;
    let mut json: Vec<R> = Vec::new();
    for item in it: converted.into_iter()
        invariant
            it.seq() == all,
            json@ == ok_values(all.take(it.index() as int)),
    {
        assert(all.take(it.index() + 1).drop_last() =~= all.take(it.index() as int));
        match item {
            Ok(r) => json.push(r),
            Err(_) => {},
        }
    }
    assert(all.take(all.len() as int) =~= all);
    json
}

/// Whether the permission is granted: the permission check went through.
pub fn allowed_json<T, E>(check: &Result<T, E>) -> (json: JsonAllowed)
    ensures
        json.allowed == (check is Ok),
{
    JsonAllowed { allowed: check.is_ok() }
}

/// Whether a response may be cached by anyone or only by the user who
/// asked.
#[derive(Debug, Clone, Copy, PartialEq, Eq, Structural)]
pub enum ResponseAccess {
    Public,
    Authenticated,
}

/// The access of the answer of the endpoint that tells where the API is
/// served: authenticated where the caller is signed in, public otherwise.
pub fn server_endpoint_access(signed_in: bool) -> (access: ResponseAccess)
    ensures
        access == (if signed_in {
            ResponseAccess::Authenticated
        } else {
            ResponseAccess::Public
        }),
{
    if signed_in {
        ResponseAccess::Authenticated
    } else {
        ResponseAccess::Public
    }
}

/// The body that tells where the API is served: its endpoint URL.
pub fn get_one_inner(endpoint: &str) -> (json: JsonEndpoint)
    ensures
        json.endpoint@ == endpoint@,
{
    JsonEndpoint { endpoint: endpoint.to_owned() }
}

} // verus!
