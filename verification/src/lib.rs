//! Verified core of the craft path calculator: the domain model of items,
//! affixes and currencies, static currency data, the craft-spec mini
//! language, item inspection (legal actions and one-step outcome
//! distributions), pool-weight helpers, the Vaal Orb propagation rules, the
//! wire conversions and the job bookkeeping rules of the backend.

pub mod types;
pub mod currency;
pub mod errors;
pub mod table;
pub mod item;
pub mod provider;
pub mod pool_filter;
pub mod sorting;
pub mod inspect;
pub mod text;
pub mod craftspec;
pub mod builder;
pub mod progress;
pub mod session;
pub mod vaal;
pub mod convert;
pub mod lookup;
pub mod jobs;
pub mod config;
pub mod worker;
pub mod meta;
pub mod pob;
pub mod search;
pub mod replies;
pub mod negotiate;
pub mod tools;
pub mod watch;
pub mod records;
pub mod rest;
pub mod matrix;
