//! Full-text search for PostgreSQL: the SQL types `tsvector`, `tsquery` and
//! `regconfig`, the operators and functions over them as typed expressions
//! that render to SQL text, and a decoder for the binary form in which the
//! server sends a `tsvector`.

pub mod configuration;
pub mod dsl;
pub mod encoding;
pub mod functions;
pub mod registry;
pub mod types;
pub mod wire;

pub use crate::configuration::{TsConfiguration, TsConfigurationByName};
pub use crate::dsl::{
    to_sql_text, And, Concat, ContainedBy, Contains, Expression, Grouped, Matches, Or, SqlLiteral,
    TsQueryExtensions, TsVectorExtensions,
};
pub use crate::functions::{
    length, numnode, phraseto_tsquery, plainto_tsquery, plainto_tsquery_with_search_config,
    querytree, setweight, strip, to_tsquery, to_tsquery_with_search_config, to_tsvector,
    to_tsvector_with_search_config, ts_headline, ts_headline_with_search_config, ts_rank,
    ts_rank_cd, ts_rank_cd_normalized, ts_rank_cd_weighted, ts_rank_cd_weighted_normalized,
    websearch_to_tsquery, websearch_to_tsquery_with_search_config, Call1, Call2, Call3, Call4,
};
pub use crate::registry::{ScalarTypeDescriptor, TypeRegistry};
pub use crate::types::{
    Array, Bool, CChar, DecodeError, Float, Integer, Nullable, PgTsVector, PgTsVectorEntry,
    RegConfig, Text, TextOrNullableText, TsQuery, TsVector, Tsvector,
};
