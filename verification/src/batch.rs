//! Per-file outcomes of a batch run and their tally.

use vstd::prelude::*;
use crate::number_parser::{default_config, parse_number, parsed_number, NumberError, ParseOutcome, error_text};
use crate::processor::ProcessingStats;
use crate::text::{concat, contains, copy_str, str_contains};

verus! {

/// The outcome of processing one file.
#[derive(Debug, Clone)]
pub struct ProcessingResult {
    /// The file.
    pub file_path: String,
    /// Whether processing succeeded.
    pub success: bool,
    /// The movie number, once it was read.
    pub number: Option<String>,
    /// What went wrong.
    pub error: Option<String>,
}

/// A movie number in both forms the sources expect.
#[derive(Debug, Clone)]
pub struct DualId {
    /// Display form (`SSIS-123`).
    pub display: String,
    /// Content form (`ssis00123`).
    pub content: String,
}

/// The two forms of the number parsed from a path with the default settings.
pub fn dual_id_of(file_path: &str) -> (r: Result<DualId, NumberError>)
    ensures
        match r {
            Ok(d) => parsed_number(file_path@, default_config()) matches ParseOutcome::Parsed(p)
                && d.display@ == p.id && d.content@ == p.content_id,
            Err(e) => parsed_number(file_path@, default_config()) == crate::number_parser::error_outcome(e),
        },
{
    match parse_number(file_path, None) {
        Ok(p) => Ok(DualId { display: p.id, content: p.content_id }),
        Err(e) => Err(e),
    }
}

/// The outcome of a file whose number could not be parsed.
pub fn parse_failure(file_path: String, e: &NumberError) -> (r: ProcessingResult)
    ensures
        r.file_path == file_path,
        !r.success,
        r.number is None,
        r.error matches Some(m) && m@ == "Number parsing error: "@ + error_text(*e),
{
    let m = e.message();
    ProcessingResult {
        file_path,
        success: false,
        number: None,
        error: Some(concat("Number parsing error: ", m.as_str())),
    }
}

/// The outcome of a file after its metadata was fetched (`Ok`) or not, and
/// after the workflow ran: `fetch` and `workflow` carry the error messages.
pub fn file_outcome(
    file_path: String,
    number: String,
    fetch: Result<(), String>,
    workflow: Result<(), String>,
) -> (r: ProcessingResult)
    ensures
        r.file_path == file_path,
        r.number == Some(number),
        r.success == (fetch is Ok && workflow is Ok),
        fetch matches Err(m) ==> r.error matches Some(t) && t@ == "Metadata fetch error: "@ + m@,
        fetch is Ok ==> match workflow {
            Ok(_) => r.error is None,
            Err(m) => r.error matches Some(t) && t@ == "Processing error: "@ + m@,
        },
{
    match fetch {
        Err(m) => ProcessingResult {
            file_path,
            success: false,
            number: Some(number),
            error: Some(concat("Metadata fetch error: ", m.as_str())),
        },
        Ok(_) => match workflow {
            Ok(_) => ProcessingResult { file_path, success: true, number: Some(number), error: None },
            Err(m) => ProcessingResult {
                file_path,
                success: false,
                number: Some(number),
                error: Some(concat("Processing error: ", m.as_str())),
            },
        },
    }
}

/// A file that failed because no number could be read from its name.
pub open spec fn invalid_code(r: ProcessingResult) -> bool {
    !r.success && match r.error {
        Some(e) => contains(e@, "Number parsing error"@),
        None => false,
    }
}

/// The outcomes of files whose number could not be parsed, in order.
pub fn filter_invalid_code_files(results: &Vec<ProcessingResult>) -> (r: Vec<&ProcessingResult>)
    ensures
        r@.map_values(|x: &ProcessingResult| *x) == results@.filter(|x: ProcessingResult| invalid_code(x)),
{
    let mut out: Vec<&ProcessingResult> = Vec::new();
    let mut i: usize = 0;
    while i < results.len()
        invariant
            i <= results.len(),
            out@.map_values(|x: &ProcessingResult| *x) == results@.take(i as int).filter(
                |x: ProcessingResult| invalid_code(x),
            ),
        decreases results.len() - i,
    {
        proof {
            assert(results@.take(i + 1) =~= results@.take(i as int).push(results@[i as int]));
            results@.take(i as int).lemma_filter_push(results@[i as int], |x: ProcessingResult| invalid_code(x));
        }
        let r = &results[i];
        let bad = !r.success && match &r.error {
            Some(e) => str_contains(e.as_str(), "Number parsing error"),
            None => false,
        };
        let ghost before = out@;
        if bad {
            out.push(r);
            proof {
                assert(out@.map_values(|x: &ProcessingResult| *x) =~= before.map_values(
                    |x: &ProcessingResult| *x,
                ).push(results@[i as int]));
            }
        }
        i = i + 1;
    }
    assert(results@.take(results.len() as int) =~= results@);
    out
}

/// How many outcomes succeeded.
pub open spec fn successes(v: Seq<ProcessingResult>) -> nat
    decreases v.len(),
{
    if v.len() == 0 {
        0
    } else {
        successes(v.drop_last()) + if v.last().success {
            1nat
        } else {
            0nat
        }
    }
}

/// The tally of a batch: every outcome counted once, as a success or a failure.
pub fn batch_stats(results: &Vec<ProcessingResult>) -> (r: ProcessingStats)
    ensures
        r.total_processed == results@.len(),
        r.succeeded == successes(results@),
        r.failed == results@.len() - successes(results@),
        r.skipped == 0,
{
    let mut ok: usize = 0;
    let mut i: usize = 0;
    while i < results.len()
        invariant
            i <= results.len(),
            ok == successes(results@.take(i as int)),
            ok <= i,
        decreases results.len() - i,
    {
        proof {
            assert(results@.take(i + 1).drop_last() =~= results@.take(i as int));
        }
        if results[i].success {
            ok = ok + 1;
        }
        i = i + 1;
    }
    assert(results@.take(results.len() as int) =~= results@);
    ProcessingStats { total_processed: results.len(), succeeded: ok, failed: results.len() - ok, skipped: 0 }
}

/// Every outcome of a batch is counted once: successes and failures add up
/// to the number processed.
pub proof fn lemma_tally_partitions(results: Seq<ProcessingResult>)
    ensures
        successes(results) <= results.len(),
    decreases results.len(),
{
    if results.len() > 0 {
        lemma_tally_partitions(results.drop_last());
    }
}

} // verus!
