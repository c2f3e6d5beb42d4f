//! The front page: the list of subspaces.

use vstd::prelude::*;
use crate::compose::{Composed, Criticality, FetchSpecModel, Method, specs_wf};
use crate::identity::Identity;
use crate::page::{Reply, ReplyModel, Step, StepModel, fetch_spec, render};

verus! {

/// All subspaces; none where the content API fails.
pub open spec fn view_index_plan() -> Seq<FetchSpecModel> {
    seq![
        FetchSpecModel {
            slot: "subspaces"@,
            method: Method::Get,
            path: "/v1/subspace/list"@,
            params: Seq::empty(),
            criticality: Criticality::Optional,
            default_value: Seq::empty(),
            bindings: Seq::empty(),
        },
    ]
}

/// The fetches of the front page.
pub fn view_index() -> (r: Step)
    ensures
        r.deep_view() == StepModel::Fetch(view_index_plan()),
        r matches Step::Fetch(specs) && specs_wf(specs@),
{
    let list = fetch_spec("subspaces", Method::Get, "/v1/subspace/list", Vec::new(), Criticality::Optional, Vec::new(), Vec::new());
    assert(list.deep_view().params =~= Seq::empty());
    assert(list.deep_view().default_value =~= Seq::empty());
    assert(list.deep_view().bindings =~= Seq::empty());
    let specs = vec![list];
    assert(specs.deep_view() =~= view_index_plan());
    Step::Fetch(specs)
}

/// The front page, from the composed subspaces.
pub fn view_index_reply(identity: &Identity, composed: Composed) -> (r: Reply)
    ensures
        r.deep_view() == ReplyModel::Render(
            "index"@,
            composed.deep_view().values,
            identity@,
        ),
{
    render("index", composed, identity.user_id())
}

} // verus!
