use vstd::prelude::*;
use vstd::string::StringExecFns;

verus! {

/// The most lines a preview shows, and the most items a query may ask for.
pub const MAX_QUERY_SIZE: usize = 1000;

/// What `str::parse::<u32>` makes of a text: the number it spells, if any.
pub uninterp spec fn parsed_u32(s: Seq<char>) -> Option<u32>;

/// Relies on `str::parse::<u32>` (`u32::from_str`): the result depends on the
/// characters of `s` alone, and the empty text is no number.
#[verifier::external_body]
fn parse_u32(s: &str) -> (r: Option<u32>)
    ensures
        r == parsed_u32(s@),
        s@.len() == 0 ==> r is None,
{
    s.parse::<u32>().ok()
}

/// One numeric field of a query form, as entered.
#[derive(Clone, Copy, Debug, PartialEq, Eq, Structural)]
pub enum Field {
    /// Left empty: no bound.
    Blank,
    /// A number.
    Number(u32),
    /// Text that is no `u32`.
    Invalid,
}

/// The field that the text `s` makes.
pub open spec fn field_of(s: Seq<char>) -> Field {
    if s.len() == 0 {
        Field::Blank
    } else {
        match parsed_u32(s) {
            Some(n) => Field::Number(n),
            None => Field::Invalid,
        }
    }
}

/// The bound a valid field gives.
pub open spec fn bound_of(f: Field) -> Option<u32> {
    match f {
        Field::Number(n) => Some(n),
        _ => None,
    }
}

/// The item count actually asked for: at most `MAX_QUERY_SIZE`.
pub open spec fn capped(n: u32) -> u32 {
    if n > MAX_QUERY_SIZE {
        MAX_QUERY_SIZE as u32
    } else {
        n
    }
}

/// Which field of a query form was not a number.
#[derive(Clone, Copy, Debug, PartialEq, Eq, Structural)]
pub enum QueryError {
    BadStart,
    BadEnd,
    BadCount,
}

/// A region query: an optional chromosome name, optional start and end, and
/// an optional cap on the number of items.
pub struct RegionQuery {
    pub chrom: Option<String>,
    pub start: Option<u32>,
    pub end: Option<u32>,
    pub count: Option<u32>,
}

/// Whether `chrom` holds the chromosome name entered as `text`: none when the
/// text is empty.
pub open spec fn chrom_matches(chrom: Option<String>, text: Seq<char>) -> bool {
    match chrom {
        None => text.len() == 0,
        Some(c) => text.len() > 0 && c@ == text,
    }
}

/// The outcome owed for a form whose fields are `start`, `end` and `count`.
pub open spec fn query_outcome(
    chrom: Seq<char>,
    start: Field,
    end: Field,
    count: Field,
    r: Result<RegionQuery, QueryError>,
) -> bool {
    if start is Invalid {
        r == Err::<RegionQuery, QueryError>(QueryError::BadStart)
    } else if end is Invalid {
        r == Err::<RegionQuery, QueryError>(QueryError::BadEnd)
    } else if count is Invalid {
        r == Err::<RegionQuery, QueryError>(QueryError::BadCount)
    } else {
        &&& r is Ok
        &&& chrom_matches(r->Ok_0.chrom, chrom)
        &&& r->Ok_0.start == bound_of(start)
        &&& r->Ok_0.end == bound_of(end)
        &&& r->Ok_0.count == match bound_of(count) {
            Some(n) => Some(capped(n)),
            None => None::<u32>,
        }
    }
}

/// Reads one numeric field of the form.
pub fn read_field(s: &str) -> (r: Field)
    ensures
        r == field_of(s@),
{
    if s.is_empty() {
        Field::Blank
    } else {
        match parse_u32(s) {
            Some(n) => Field::Number(n),
            None => Field::Invalid,
        }
    }
}

/// Builds the query from a chromosome name and the three numeric fields,
/// checked in the order start, end, count. An empty name asks for every
/// chromosome; a count above `MAX_QUERY_SIZE` is lowered to it.
pub fn query_from_fields(chrom: &str, start: Field, end: Field, count: Field) -> (r: Result<
    RegionQuery,
    QueryError,
>)
    ensures
        query_outcome(chrom@, start, end, count, r),
{
    let start = match start {
        Field::Invalid => return Err(QueryError::BadStart),
        Field::Blank => None,
        Field::Number(n) => Some(n),
    };
    let end = match end {
        Field::Invalid => return Err(QueryError::BadEnd),
        Field::Blank => None,
        Field::Number(n) => Some(n),
    };
    let count = match count {
        Field::Invalid => return Err(QueryError::BadCount),
        Field::Blank => None,
        Field::Number(n) => {
            let max: u32 = MAX_QUERY_SIZE as u32;
            if max < n {
                Some(max)
            } else {
                Some(n)
            }
        },
    };
    let chrom = if chrom.is_empty() {
        None
    } else {
        Some(chrom.to_owned())
    };
    Ok(RegionQuery { chrom, start, end, count })
}

/// Reads a query form: the chromosome name and the start, end and count as
/// texts, each of which may be left empty.
pub fn parse_query(chrom: &str, inp_start: &str, inp_end: &str, inp_count: &str) -> (r: Result<
    RegionQuery,
    QueryError,
>)
    ensures
        query_outcome(chrom@, field_of(inp_start@), field_of(inp_end@), field_of(inp_count@), r),
{
    let start = read_field(inp_start);
    let end = read_field(inp_end);
    let count = read_field(inp_count);
    query_from_fields(chrom, start, end, count)
}

/// The texts of `lines`, one after another.
pub open spec fn concat_lines(lines: Seq<Seq<char>>) -> Seq<char>
    decreases lines.len(),
{
    if lines.len() == 0 {
        Seq::empty()
    } else {
        concat_lines(lines.drop_last()) + lines.last()
    }
}

/// The characters of each of `lines`.
pub open spec fn lines_view(lines: Seq<String>) -> Seq<Seq<char>> {
    lines.map_values(|l: String| l@)
}

/// The first `limit` of `lines` (all of them, where there are fewer), joined
/// with nothing between them.
pub fn join_lines(lines: &Vec<String>, limit: usize) -> (r: String)
    ensures
        r@ == concat_lines(
            lines_view(lines@).take(if limit < lines@.len() { limit as int } else { lines@.len() as int }),
        ),
{
    let n: usize = if limit < lines.len() {
        limit
    } else {
        lines.len()
    };
    let mut r = String::new();
    let mut i: usize = 0;
    while i < n
        invariant
            n <= lines@.len(),
            i <= n,
            r@ == concat_lines(lines_view(lines@).take(i as int)),
        decreases n - i,
    {
        assert(lines_view(lines@).take(i + 1).drop_last() =~= lines_view(lines@).take(i as int));
        r.append(lines[i].as_str());
        i = i + 1;
    }
    r
}

/// The text of a preview: the first `MAX_QUERY_SIZE` lines of a query's output.
pub fn preview_text(lines: &Vec<String>) -> (r: String)
    ensures
        r@ == concat_lines(
            lines_view(lines@).take(if lines@.len() > MAX_QUERY_SIZE { MAX_QUERY_SIZE as int } else { lines@.len() as int }),
        ),
{
    join_lines(lines, MAX_QUERY_SIZE)
}

} // verus!
