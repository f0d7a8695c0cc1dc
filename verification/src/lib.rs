//! Verified core of a PostgreSQL statistics-injection extension: the rules
//! for editing `pg_statistic` rows, the catalog name encoding, the relation
//! size overrides seen by the planner hook, and the text that the HTTP
//! front end sends to and reads from the database.

pub mod catalog;
pub mod name_data;
pub mod server;
pub mod statistic;
pub mod stavalues;
pub mod text;
