//! Batch lookups: reading course identifiers from the lines of a
//! comma-separated listing, and pacing the requests made for them.
use vstd::prelude::*;

verus! {

/// How many fields a listing line must have at least.
pub const ESSENTIAL_CSV_COLS: usize = 5;

/// How many requests go out between two pauses.
pub const BATCH_REQUEST_SIZE: usize = 50;

/// How long a pause between two batches lasts, in seconds.
pub const BATCH_PAUSE_SECS: u64 = 10;

/// The identifiers of one course, as a listing line gives them.
#[derive(Debug, Clone, PartialEq, Eq)]
pub struct CourseIdentifier {
    pub term_code: String,
    pub subject_code: String,
    pub course_id: String,
}

/// Why a listing line was not read.
#[derive(Debug, Clone, Copy, PartialEq, Eq, Structural)]
pub enum BatchError {
    /// The line has fewer fields than a listing line must have.
    MalformedBatchLine,
}

/// The fields of `s` between commas, in order; a text without a comma is one
/// field, and an empty text is one empty field.
pub open spec fn split_fields(s: Seq<char>) -> Seq<Seq<char>>
    decreases s.len(),
{
    if s.len() == 0 {
        seq![Seq::empty()]
    } else {
        let p = split_fields(s.drop_last());
        if s.last() == ',' {
            p.push(Seq::empty())
        } else {
            p.update(p.len() - 1, p.last().push(s.last()))
        }
    }
}

proof fn lemma_split_fields_nonempty(s: Seq<char>)
    ensures
        split_fields(s).len() >= 1,
    decreases s.len(),
{
    if s.len() > 0 {
        lemma_split_fields_nonempty(s.drop_last());
    }
}

/// The fields of `line` between commas, in order.
pub fn split_line(line: &str) -> (r: Vec<String>)
    ensures
        r@.len() == split_fields(line@).len(),
        forall|j: int| 0 <= j < r@.len() ==> #[trigger] r@[j]@ == split_fields(line@)[j],
{
    let n = line.unicode_len();
    let mut fields: Vec<String> = Vec::new();
    let mut start: usize = 0;
    let mut i: usize = 0;
    while i < n
        invariant
            n == line@.len(),
            start <= i <= n,
            fields@.len() + 1 == split_fields(line@.take(i as int)).len(),
            forall|j: int|
                0 <= j < fields@.len() ==> #[trigger] fields@[j]@ == split_fields(
                    line@.take(i as int),
                )[j],
            split_fields(line@.take(i as int)).last() == line@.subrange(start as int, i as int),
        decreases n - i,
    {
        let c = line.get_char(i);
        let ghost before = split_fields(line@.take(i as int));
        let ghost after = split_fields(line@.take(i + 1));
        proof {
            lemma_split_fields_nonempty(line@.take(i as int));
            assert(line@.take(i + 1).drop_last() =~= line@.take(i as int));
            assert(line@.take(i + 1).last() == c);
        }
        if c == ',' {
            fields.push(String::from_str(line.substring_char(start, i)));
            start = i + 1;
            assert(after.last() =~= line@.subrange(start as int, i + 1));
        } else {
            assert(after.last() =~= line@.subrange(start as int, i + 1));
        }
        i = i + 1;
    }
    fields.push(String::from_str(line.substring_char(start, n)));
    assert(line@.take(n as int) =~= line@);
    fields
}

/// Reads the course identifiers from a listing line: its first three
/// fields, provided that it has at least `ESSENTIAL_CSV_COLS` fields.
pub fn parse_batch_line(line: &str) -> (r: Result<CourseIdentifier, BatchError>)
    ensures
        r is Err <==> split_fields(line@).len() < ESSENTIAL_CSV_COLS,
        r matches Ok(id) ==> {
            &&& id.term_code@ == split_fields(line@)[0]
            &&& id.subject_code@ == split_fields(line@)[1]
            &&& id.course_id@ == split_fields(line@)[2]
        },
{
    let fields = split_line(line);
    if fields.len() < ESSENTIAL_CSV_COLS {
        return Err(BatchError::MalformedBatchLine);
    }
    Ok(
        CourseIdentifier {
            term_code: fields[0].clone(),
            subject_code: fields[1].clone(),
            course_id: fields[2].clone(),
        },
    )
}

/// Whether to pause before the request for the line at `index` (counted
/// from zero): after every `batch_size` requests, never before the first.
pub fn should_pause(index: usize, batch_size: usize) -> (r: bool)
    requires
        batch_size > 0,
    ensures
        r == (index != 0 && index % batch_size == 0),
{
    index != 0 && index % batch_size == 0
}

} // verus!
