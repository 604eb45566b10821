//! An in-memory byte buffer presented as a readable, seekable stream, and the
//! checks on the parameters of a region query.

mod file_string;
mod query;

pub use file_string::{
    lemma_reads_after_end, lemma_seek_start_then_read, read_count, seek_target, FileString,
    SeekFrom, StreamError,
};
pub use query::{
    bound_of, capped, chrom_matches, concat_lines, field_of, join_lines, lines_view,
    parse_query, preview_text, query_from_fields, query_outcome, read_field, Field, QueryError,
    RegionQuery, MAX_QUERY_SIZE,
};
