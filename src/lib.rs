//! Extraction of typed key/value features from loosely structured text
//! records (JSON objects or whitespace-separated lines), and a tiered
//! similarity score between such features.
pub mod feature;
pub mod identify;
pub mod json;
pub mod matching;
pub mod metadata;
pub mod tokenize;
pub mod value;

pub use feature::{Feature, Similarity};
pub use identify::identify;
pub use matching::similarity_match;
pub use json::{Json, JsonMember, JsonScalar};
pub use metadata::{Metadata, Source};
pub use tokenize::{FeatureTransform, IdentityTransform, Tokenize};
pub use value::{infer, Type, TypedValue};
