//! Absolute URLs with query parameters, built by `Url::parse_with_params`.

use vstd::prelude::*;

use crate::json_text::pairs_view;

verus! {

/// The serialization of `Url::parse_with_params(base, params)` when the base parses as an
/// absolute URL, `None` when it does not.
pub uninterp spec fn url_with_params(base: Seq<char>, params: Seq<(Seq<char>, Seq<char>)>) -> Option<Seq<char>>;

/// `reqwest::Url::parse_with_params(base, params)`, serialized with `String::from`; the
/// parse error is dropped. The result is named by `url_with_params` of the arguments.
#[verifier::external_body]
pub(crate) fn parse_url_with_params(base: &str, params: &Vec<(String, String)>) -> (r: Option<String>)
    ensures
        match r {
            Some(s) => url_with_params(base@, pairs_view(params@)) == Some(s@),
            None => url_with_params(base@, pairs_view(params@)) is None,
        },
{
    reqwest::Url::parse_with_params(base, params.iter().map(|(k, v)| (k.as_str(), v.as_str()))).ok().map(String::from)
}

} // verus!
