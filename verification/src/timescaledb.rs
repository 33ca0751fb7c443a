//! Settings for recording published values into the time-series
//! database.
use vstd::prelude::*;

verus! {

/// How to reach the database: either a connection URL, or the single
/// settings, each optional with the library's defaults behind it.
#[derive(Clone, Debug, Default)]
pub struct PostgresqlConfig {
    pub url: Option<String>,
    pub host: Option<String>,
    pub port: Option<u16>,
    pub user: Option<String>,
    pub password: Option<String>,
    pub dbname: Option<String>,
}

/// One recorded series: the topic whose values feed it, and which
/// aggregates are maintained over it.
#[derive(Clone, Debug)]
pub struct Series {
    pub topic: String,
    pub aggregate: Aggregate,
}

/// Which continuous aggregates a series keeps.
#[derive(Clone, Debug, Default)]
pub struct Aggregate {
    pub day: bool,
    pub hour: bool,
}

} // verus!
