//! Bookkeeping shared by the laser solvers: grid sizes and pump scans.

use vstd::prelude::*;

use crate::error::SolverError;
use crate::maths::rootfind::RootFindError;

verus! {

/// The number of steps a fibre is divided into.
#[derive(Copy, Clone, Debug)]
pub struct GridPoints(pub usize);

/// The outputs of a pump scan, one per pump value: `None` where the laser is below threshold.
pub type PumpScan<O> = Vec<Option<O>>;

/// What `classify_output` makes of one solve: a solve whose root was not bracketed means the
/// laser is below threshold, which is no error; any other error stays an error.
pub open spec fn classified<O>(result: Result<O, SolverError>) -> Result<Option<O>, SolverError> {
    match result {
        Ok(output) => Ok(Some(output)),
        Err(SolverError::RootFind(RootFindError::RootNotBracketed)) => Ok(None),
        Err(error) => Err(error),
    }
}

/// Sorts one lasing solve into an output, a below-threshold point, or an error.
pub fn classify_output<O>(result: Result<O, SolverError>) -> (classified_result: Result<Option<O>, SolverError>)
    ensures
        classified_result == classified(result),
{
    match result {
        Ok(output) => Ok(Some(output)),
        Err(SolverError::RootFind(RootFindError::RootNotBracketed)) => Ok(None),
        Err(error) => Err(error),
    }
}

/// The scan that the solves `results` (made in order, one per pump value) give: the first
/// solve that classifies as an error ends the scan with that error; otherwise every solve
/// contributes its classified output.
pub open spec fn scan_of<O>(results: Seq<Result<O, SolverError>>) -> Result<Seq<Option<O>>, SolverError>
    decreases results.len(),
{
    if results.len() == 0 {
        Ok(Seq::empty())
    } else {
        match scan_of(results.drop_last()) {
            Err(error) => Err(error),
            Ok(outputs) => match classified(results.last()) {
                Ok(output) => Ok(outputs.push(output)),
                Err(error) => Err(error),
            },
        }
    }
}

/// A scan that succeeds has one output per solve.
pub proof fn lemma_scan_len<O>(results: Seq<Result<O, SolverError>>)
    ensures
        scan_of(results) is Ok ==> scan_of(results)->Ok_0.len() == results.len(),
    decreases results.len(),
{
    if results.len() > 0 {
        lemma_scan_len(results.drop_last());
    }
}

/// In a scan that succeeds, an entry is `None` exactly where the solve failed because its root
/// was not bracketed, and `Some(output)` exactly where the solve gave `output`: no other error
/// is ever read as a below-threshold point.
pub proof fn lemma_scan_entries<O>(results: Seq<Result<O, SolverError>>, i: int)
    requires
        scan_of(results) is Ok,
        0 <= i < results.len(),
    ensures
        scan_of(results)->Ok_0.len() == results.len(),
        scan_of(results)->Ok_0[i] is None <==> results[i] == Err::<O, SolverError>(
            SolverError::RootFind(RootFindError::RootNotBracketed),
        ),
        forall|output: O| scan_of(results)->Ok_0[i] == Some(output) <==> results[i] == Ok::<O, SolverError>(output),
    decreases results.len(),
{
    lemma_scan_len(results);
    let prefix = results.drop_last();
    if i < results.len() - 1 {
        lemma_scan_entries(prefix, i);
    }
}

/// Solves for the output at each pump value in turn and classifies each solve; stops at the
/// first real error.  The solves the result rests on are those of the first pumps, in order:
/// all of them when the scan succeeds, and up to and including the first one that classifies
/// as an error when it fails, so that no solve after that error counts.
#[verifier::loop_isolation(false)]
pub fn pump_scan<P: Copy, O, F>(pumps: &[P], mut output_power: F) -> (scan: Result<PumpScan<O>, SolverError>)
    where F: FnMut(P) -> Result<O, SolverError>,
    requires
        forall|p: P| call_requires(output_power, (p,)),
    ensures
        scan is Ok ==> scan->Ok_0@.len() == pumps@.len(),
        exists|results: Seq<Result<O, SolverError>>| {
            &&& results.len() <= pumps@.len()
            &&& forall|i: int| 0 <= i < results.len() ==> call_ensures(output_power, (pumps@[i],), #[trigger] results[i])
            &&& (results.len() < pumps@.len() ==> scan_of(results) is Err)
            &&& (scan is Err ==> results.len() > 0 && scan_of(results.drop_last()) is Ok)
            &&& match scan {
                Ok(outputs) => scan_of(results) == Ok::<Seq<Option<O>>, SolverError>(outputs@),
                Err(error) => scan_of(results) == Err::<Seq<Option<O>>, SolverError>(error),
            }
        },
{
    let ghost f0 = output_power;
    let ghost mut results: Seq<Result<O, SolverError>> = Seq::empty();
    let mut outputs: Vec<Option<O>> = Vec::new();
    let n = pumps.len();
    let mut i: usize = 0;
    while i < n
        invariant
            output_power == f0,
            forall|p: P| call_requires(f0, (p,)),
            n == pumps@.len(),
            0 <= i <= n,
            results.len() == i,
            forall|j: int| 0 <= j < results.len() ==> call_ensures(f0, (pumps@[j],), #[trigger] results[j]),
            scan_of(results) == Ok::<Seq<Option<O>>, SolverError>(outputs@),
            outputs@.len() == i,
        decreases n - i,
    {
        let result = output_power(pumps[i]);
        let ghost prev = results;
        proof {
            results = results.push(result);
            assert(results.drop_last() == prev);
        }
        match classify_output(result) {
            Ok(output) => {
                proof { lemma_scan_len(results); }
                outputs.push(output);
            },
            Err(error) => {
                assert(scan_of(results) == Err::<Seq<Option<O>>, SolverError>(error));
                assert(scan_of(results.drop_last()) is Ok);
                return Err(error);
            },
        }
        i += 1;
    }
    Ok(outputs)
}

} // verus!
