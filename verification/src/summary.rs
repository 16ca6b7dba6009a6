//! What the harness reports of the combinations of backend and profile that
//! it has run.

use vstd::prelude::*;
use vstd::string::*;
use crate::bench::LatencyReport;
use crate::error::HarnessError;
use crate::postprocess::MatteImage;
use crate::runner::RunOutcome;

verus! {

/// How one combination ended.
#[derive(Clone, Copy, Debug, PartialEq, Eq, Structural)]
pub enum CombinationStatus {
    /// The run finished and its image, if it made one, was saved.
    Completed(LatencyReport),
    /// The run, or the saving of its image, failed.
    Failed(HarnessError),
}

/// One line of the summary: a combination and how it ended.
pub struct CombinationReport {
    pub backend_name: String,
    pub profile_name: String,
    pub status: CombinationStatus,
}

/// The status of a combination whose run ended with `ran` and whose image,
/// where the run made one, was saved (`saved`) or could not be written. A
/// failed run keeps its failure; a run whose image could not be written
/// counts as an input/output failure.
pub open spec fn settled(ran: Result<LatencyReport, HarnessError>, saved: bool) -> CombinationStatus {
    match ran {
        Ok(report) => if saved {
            CombinationStatus::Completed(report)
        } else {
            CombinationStatus::Failed(HarnessError::Io)
        },
        Err(failure) => CombinationStatus::Failed(failure),
    }
}

/// The status of a combination, from the end of its run and of the saving
/// of its image.
pub fn settle(ran: Result<LatencyReport, HarnessError>, saved: bool) -> (status: CombinationStatus)
    ensures
        status == settled(ran, saved),
{
    match ran {
        Ok(report) => if saved {
            CombinationStatus::Completed(report)
        } else {
            CombinationStatus::Failed(HarnessError::Io)
        },
        Err(failure) => CombinationStatus::Failed(failure),
    }
}

/// The path of the image of a combination.
pub open spec fn output_path_of(backend_name: Seq<char>, profile_name: Seq<char>) -> Seq<char> {
    "output_"@ + backend_name + "_"@ + profile_name + ".png"@
}

/// The path under which the image of a combination is saved.
pub fn output_path(backend_name: &str, profile_name: &str) -> (path: String)
    ensures
        path@ == output_path_of(backend_name@, profile_name@),
{
    let mut path = String::from_str("output_");
    path.append(backend_name);
    path.append("_");
    path.append(profile_name);
    path.append(".png");
    path
}

/// What is left to do for a combination once its run has ended: the result
/// to report, and the image to save with the path to save it under.
pub struct Conclusion {
    pub result: Result<LatencyReport, HarnessError>,
    pub output: Option<(String, MatteImage)>,
}

/// Concludes the run of a combination. A failed run leaves its failure and
/// no image; a finished run leaves its report and, where it measured
/// anything, the image of its last matte under the combination's path.
pub fn conclude<T>(
    backend_name: &str,
    profile_name: &str,
    ran: Result<RunOutcome<T>, HarnessError>,
) -> (conclusion: Conclusion)
    ensures
        ran is Err ==> conclusion.result == Err::<LatencyReport, HarnessError>(ran->Err_0)
            && conclusion.output.is_none(),
        ran is Ok ==> conclusion.result == Ok::<LatencyReport, HarnessError>(ran->Ok_0.report)
            && conclusion.output.is_some() == ran->Ok_0.matte.is_some(),
        conclusion.output.is_some() ==> conclusion.output.unwrap().0@ == output_path_of(
            backend_name@,
            profile_name@,
        ) && conclusion.output.unwrap().1 == ran->Ok_0.matte.unwrap(),
{
    match ran {
        Ok(outcome) => {
            let RunOutcome { report, matte, state: _ } = outcome;
            let output = match matte {
                Some(image) => Some((output_path(backend_name, profile_name), image)),
                None => None,
            };
            Conclusion { result: Ok(report), output }
        },
        Err(failure) => Conclusion { result: Err(failure), output: None },
    }
}

/// The character of a decimal digit.
pub open spec fn digit_char(digit: nat) -> char {
    if digit == 0 {
        '0'
    } else if digit == 1 {
        '1'
    } else if digit == 2 {
        '2'
    } else if digit == 3 {
        '3'
    } else if digit == 4 {
        '4'
    } else if digit == 5 {
        '5'
    } else if digit == 6 {
        '6'
    } else if digit == 7 {
        '7'
    } else if digit == 8 {
        '8'
    } else {
        '9'
    }
}

/// A number in decimal notation, without leading zeros.
pub open spec fn decimal(number: nat) -> Seq<char>
    decreases number,
{
    if number < 10 {
        seq![digit_char(number)]
    } else {
        decimal(number / 10).push(digit_char(number % 10))
    }
}

/// The line that reports a combination: its names in brackets, then the mean
/// latency in milliseconds where the run completed, or the kind of failure
/// where it did not.
pub open spec fn line_of(
    backend_name: Seq<char>,
    profile_name: Seq<char>,
    status: CombinationStatus,
) -> Seq<char> {
    let head = "["@ + backend_name + "/"@ + profile_name + "] "@;
    match status {
        CombinationStatus::Completed(report) => match report.mean_ms {
            Some(mean) => head + "Average: "@ + decimal(mean as nat) + "ms"@,
            None => head + "Average: no samples"@,
        },
        CombinationStatus::Failed(failure) => head + "Failed: "@ + failure.spec_kind_name(),
    }
}

/// A decimal digit as text.
fn digit_text(digit: u8) -> (text: &'static str)
    requires
        digit < 10,
    ensures
        text@ == seq![digit_char(digit as nat)],
{
    proof {
        reveal_strlit("0");
        reveal_strlit("1");
        reveal_strlit("2");
        reveal_strlit("3");
        reveal_strlit("4");
        reveal_strlit("5");
        reveal_strlit("6");
        reveal_strlit("7");
        reveal_strlit("8");
        reveal_strlit("9");
    }
    let text = if digit == 0 {
        "0"
    } else if digit == 1 {
        "1"
    } else if digit == 2 {
        "2"
    } else if digit == 3 {
        "3"
    } else if digit == 4 {
        "4"
    } else if digit == 5 {
        "5"
    } else if digit == 6 {
        "6"
    } else if digit == 7 {
        "7"
    } else if digit == 8 {
        "8"
    } else {
        "9"
    };
    assert(text@ =~= seq![digit_char(digit as nat)]);
    text
}

/// A number in decimal notation.
pub fn decimal_text(number: u128) -> (text: String)
    ensures
        text@ == decimal(number as nat),
    decreases number,
{
    if number < 10 {
        String::from_str(digit_text(number as u8))
    } else {
        let mut text = decimal_text(number / 10);
        text.append(digit_text((number % 10) as u8));
        assert(text@ =~= decimal(number as nat));
        text
    }
}

/// The line that reports a combination.
pub fn summary_line(backend_name: &str, profile_name: &str, status: CombinationStatus) -> (line:
    String)
    ensures
        line@ == line_of(backend_name@, profile_name@, status),
{
    let mut line = String::from_str("[");
    line.append(backend_name);
    line.append("/");
    line.append(profile_name);
    line.append("] ");
    match status {
        CombinationStatus::Completed(report) => match report.mean_ms {
            Some(mean) => {
                line.append("Average: ");
                let number = decimal_text(mean);
                line.append(number.as_str());
                line.append("ms");
            },
            None => {
                line.append("Average: no samples");
            },
        },
        CombinationStatus::Failed(failure) => {
            line.append("Failed: ");
            line.append(failure.kind_name());
        },
    }
    assert(line@ =~= line_of(backend_name@, profile_name@, status));
    line
}

/// The number of failed combinations among some statuses.
pub open spec fn failure_count(statuses: Seq<CombinationStatus>) -> nat
    decreases statuses.len(),
{
    if statuses.len() == 0 {
        0
    } else {
        failure_count(statuses.drop_last()) + if statuses.last() is Failed {
            1nat
        } else {
            0nat
        }
    }
}

/// The number of completed combinations among some statuses.
pub open spec fn success_count(statuses: Seq<CombinationStatus>) -> nat
    decreases statuses.len(),
{
    if statuses.len() == 0 {
        0
    } else {
        success_count(statuses.drop_last()) + if statuses.last() is Completed {
            1nat
        } else {
            0nat
        }
    }
}

/// Every combination has either completed or failed.
pub proof fn lemma_counts_add_up(statuses: Seq<CombinationStatus>)
    ensures
        success_count(statuses) + failure_count(statuses) == statuses.len(),
    decreases statuses.len(),
{
    if statuses.len() > 0 {
        lemma_counts_add_up(statuses.drop_last());
    }
}

/// The combinations that the harness has run, in the order of their runs.
/// One combination's failure does not keep the others from being run and
/// reported.
pub struct RunSummary {
    entries: Vec<CombinationReport>,
}

impl RunSummary {
    /// The statuses of the combinations, in the order of their runs.
    pub closed spec fn statuses(&self) -> Seq<CombinationStatus> {
        Seq::new(self.entries@.len(), |i: int| self.entries@[i].status)
    }

    /// The names of the combinations, backend first, in the order of their
    /// runs.
    pub closed spec fn names(&self) -> Seq<(Seq<char>, Seq<char>)> {
        Seq::new(
            self.entries@.len(),
            |i: int| (self.entries@[i].backend_name@, self.entries@[i].profile_name@),
        )
    }

    /// A summary of no combinations.
    pub fn new() -> (fresh: RunSummary)
        ensures
            fresh.statuses() == Seq::<CombinationStatus>::empty(),
            fresh.names() == Seq::<(Seq<char>, Seq<char>)>::empty(),
    {
        let fresh = RunSummary { entries: Vec::new() };
        assert(fresh.statuses() =~= Seq::<CombinationStatus>::empty());
        assert(fresh.names() =~= Seq::<(Seq<char>, Seq<char>)>::empty());
        fresh
    }

    /// Adds a combination and how it ended.
    pub fn record(&mut self, backend_name: &str, profile_name: &str, status: CombinationStatus)
        ensures
            final(self).statuses() == old(self).statuses().push(status),
            final(self).names() == old(self).names().push((backend_name@, profile_name@)),
    {
        self.entries.push(
            CombinationReport {
                backend_name: String::from_str(backend_name),
                profile_name: String::from_str(profile_name),
                status,
            },
        );
        assert(self.statuses() =~= old(self).statuses().push(status));
        assert(self.names() =~= old(self).names().push((backend_name@, profile_name@)));
    }

    /// The number of combinations in the summary.
    pub fn len(&self) -> (count: usize)
        ensures
            count == self.statuses().len(),
    {
        self.entries.len()
    }

    /// The status of the combination at `index`.
    pub fn status(&self, index: usize) -> (status: CombinationStatus)
        requires
            index < self.statuses().len(),
        ensures
            status == self.statuses()[index as int],
    {
        self.entries[index].status
    }

    /// The backend's name of the combination at `index`.
    pub fn backend_name(&self, index: usize) -> (name: &str)
        requires
            index < self.names().len(),
        ensures
            name@ == self.names()[index as int].0,
    {
        self.entries[index].backend_name.as_str()
    }

    /// The profile's name of the combination at `index`.
    pub fn profile_name(&self, index: usize) -> (name: &str)
        requires
            index < self.names().len(),
        ensures
            name@ == self.names()[index as int].1,
    {
        self.entries[index].profile_name.as_str()
    }

    /// The line that reports the combination at `index`.
    pub fn line(&self, index: usize) -> (line: String)
        requires
            index < self.statuses().len(),
        ensures
            line@ == line_of(
                self.names()[index as int].0,
                self.names()[index as int].1,
                self.statuses()[index as int],
            ),
    {
        summary_line(
            self.entries[index].backend_name.as_str(),
            self.entries[index].profile_name.as_str(),
            self.entries[index].status,
        )
    }

    /// The number of combinations that failed.
    pub fn failures(&self) -> (count: usize)
        ensures
            count == failure_count(self.statuses()),
    {
        let mut count: usize = 0;
        let mut i: usize = 0;
        while i < self.entries.len()
            invariant
                i <= self.entries@.len(),
                count <= i,
                count == failure_count(self.statuses().take(i as int)),
            decreases self.entries@.len() - i,
        {
            proof {
                let upto = self.statuses().take(i + 1);
                assert(upto.drop_last() =~= self.statuses().take(i as int));
                assert(upto.last() == self.entries@[i as int].status);
            }
            match self.entries[i].status {
                CombinationStatus::Failed(_) => {
                    count = count + 1;
                },
                CombinationStatus::Completed(_) => {},
            }
            i = i + 1;
        }
        assert(self.statuses().take(i as int) =~= self.statuses());
        count
    }

    /// The number of combinations that completed.
    pub fn successes(&self) -> (count: usize)
        ensures
            count == success_count(self.statuses()),
            count + failure_count(self.statuses()) == self.statuses().len(),
    {
        proof {
            lemma_counts_add_up(self.statuses());
        }
        self.entries.len() - self.failures()
    }
}

} // verus!
