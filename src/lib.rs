//! The persistence layer of a personal media catalog: movies, shows, seasons,
//! episodes, people, collections and the video files that show them, stored
//! in SQLite. Filtered, ordered and paged queries are built from ordered
//! filter lists; writes that span tables run in one transaction; removing a
//! video removes whatever it leaves without a reason to exist.

/// Removal of the media records and people that a deletion leaves orphaned.
pub mod cascade;
/// User-made collections of movies and shows.
pub mod collection;
/// Credits, trailers, keywords and genres as read back.
pub mod credits;
/// The library's error type.
pub mod error;
/// Storing fetched metadata and listing what remains to fetch.
pub mod ingest;
/// The catalog's entry point.
pub mod library;
/// Behaviour of the records: watch marks, assignment, deletion, file names.
pub mod media;
/// Metadata records as the provider hands them over.
pub mod metadata;
/// Movies: storage plans, reads and deletion.
pub mod movie;
/// People: storage, reads and deletion.
pub mod person;
/// Building a video record from the tracks a prober reports.
pub mod probe;
/// Statement text and parameters for filtered, ordered, paged queries.
pub mod query;
/// Reading typed columns out of result rows.
pub mod row;
/// Tables and views of the database.
pub mod schema;
/// Search builders over each kind of record.
pub mod search;
/// The database handle and the calls into the engine.
pub mod store;
/// Decimal text, splitting and digit parsing.
pub mod text;
/// Shows, seasons and episodes: storage plans, reads and deletion.
pub mod tv;
/// Statements that insert or replace rows, shared by movies and shows.
pub mod upsert;
/// Video files: registration, reads, edits and deletion.
pub mod video;
/// Watch marks: counters, thresholds and aggregation.
pub mod watch;
