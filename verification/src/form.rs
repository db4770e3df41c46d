use vstd::prelude::*;

use crate::params::{group_pairs, model_group, pair_views, ParamMap};

verus! {

/// The key/value pairs an `application/x-www-form-urlencoded` body
/// denotes: split on `&` and `=`, percent-decoded, in body order. A pure
/// function of the body text.
pub uninterp spec fn form_pairs_of(body: Seq<char>) -> Seq<(Seq<char>, Seq<char>)>;

/// Relies on url::form_urlencoded::parse: it decodes a form-encoded body
/// into its key/value pairs, in order, as a function of the input alone.
#[verifier::external_body]
fn parse_form_urlencoded(body: &str) -> (pairs: Vec<(String, String)>)
    ensures
        pair_views(pairs@) == form_pairs_of(body@),
{
    url::form_urlencoded::parse(body.as_bytes()).into_owned().collect()
}

/// Read a form-encoded body into the parameter multimap the request
/// builders consume.
pub fn params_from_body(body: &str) -> (m: ParamMap)
    ensures
        m.wf(),
        m@ == model_group(form_pairs_of(body@)),
{
    let pairs = parse_form_urlencoded(body);
    group_pairs(&pairs)
}

} // verus!
