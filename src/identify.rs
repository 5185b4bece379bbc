//! The identification pipeline: JSON first, tokenizing as the fallback.
use vstd::prelude::*;

use crate::feature::{views, Feature};
use crate::json::{
    json_features_are_tagged,
    json_features_spec,
    json_members,
    opens_object,
    Json,
};
use crate::metadata::Source;
use crate::tokenize::{tokenized, Tokenize};

verus! {

/// The features of `input`.
///
/// Where the JSON identifier applies (input that starts with `{` past
/// leading whitespace and parses as a JSON object) its features are returned,
/// even none; tokenizing is then not attempted. Otherwise each
/// whitespace-separated token becomes a keyless feature.
pub fn identify(input: &str) -> (r: Vec<Feature>)
    ensures
        opens_object(input@) && json_members(input@) is Some ==> {
            &&& views(r@) == json_features_spec(json_members(input@)->0)
            &&& r@.len() <= json_members(input@)->0.len()
            &&& forall|i: int|
                0 <= i < r@.len() ==> (#[trigger] r@[i])@.source == Some(Source::Json)
                    && r@[i]@.typed_value is Some
        },
        !(opens_object(input@) && json_members(input@) is Some) ==> views(r@) == tokenized(
            input@,
        ),
{
    if let Some(features) = Json::new().identify(input) {
        proof {
            let ms = json_members(input@)->0;
            json_features_are_tagged(ms);
            assert forall|i: int| 0 <= i < features@.len() implies (
            #[trigger] features@[i])@.source == Some(Source::Json) && features@[i]@.typed_value is Some by {
                assert(views(features@)[i] == features@[i]@);
            }
        }
        features
    } else if let Some(features) = Tokenize::new().identify(input) {
        features
    } else {
        Vec::new()
    }
}

} // verus!
