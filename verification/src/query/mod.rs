//! Query construction: a backend-agnostic tree and the builders that compose
//! search and reverse-geocoding queries from validated request values.

pub mod bbox;
pub mod fields;
pub mod layer;
pub mod location_bias;
pub mod name_ngram;
pub mod osm_tag;
pub mod reverse;
pub mod search;
pub mod tree;

pub use bbox::Envelope;
pub use location_bias::LocationBias;
pub use location_bias::Point;
pub use reverse::build_reverse_query;
pub use search::build_search_query;
