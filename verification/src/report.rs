//! What a run leaves behind: one outcome for each unit that returned, and the
//! report that sums them up.

use vstd::prelude::*;

verus! {

/// How one unit's execution ended.
#[derive(Debug, PartialEq, Eq)]
pub struct Outcome {
    /// The unit's number in the registry.
    pub unit: usize,
    /// The unit's name.
    pub name: String,
    /// `Ok`, or the cause of the failure.
    pub result: Result<(), String>,
}

/// An outcome as a plain value.
pub struct OutcomeModel {
    pub unit: int,
    pub name: Seq<char>,
    pub failure: Option<Seq<char>>,
}

impl View for Outcome {
    type V = OutcomeModel;

    open spec fn view(&self) -> OutcomeModel {
        OutcomeModel {
            unit: self.unit as int,
            name: self.name@,
            failure: match self.result {
                Ok(_) => None,
                Err(cause) => Some(cause@),
            },
        }
    }
}

/// The outcomes of a sequence, each as a plain value.
pub open spec fn outcome_views(outcomes: Seq<Outcome>) -> Seq<OutcomeModel> {
    outcomes.map_values(|o: Outcome| o@)
}

/// The names of the units that succeeded, in the order in which they returned.
pub open spec fn succeeded_of(outcomes: Seq<OutcomeModel>) -> Seq<Seq<char>>
    decreases outcomes.len(),
{
    if outcomes.len() == 0 {
        Seq::empty()
    } else if outcomes.last().failure is None {
        succeeded_of(outcomes.drop_last()).push(outcomes.last().name)
    } else {
        succeeded_of(outcomes.drop_last())
    }
}

/// The units that failed, each with its cause, in the order in which they
/// returned.
pub open spec fn failed_of(outcomes: Seq<OutcomeModel>) -> Seq<(Seq<char>, Seq<char>)>
    decreases outcomes.len(),
{
    if outcomes.len() == 0 {
        Seq::empty()
    } else {
        match outcomes.last().failure {
            Some(cause) => failed_of(outcomes.drop_last()).push((outcomes.last().name, cause)),
            None => failed_of(outcomes.drop_last()),
        }
    }
}

/// A report as a plain value.
pub struct ReportModel {
    pub total: nat,
    pub succeeded: Seq<Seq<char>>,
    pub failed: Seq<(Seq<char>, Seq<char>)>,
}

/// The report on a sequence of outcomes.
pub open spec fn report_of(outcomes: Seq<OutcomeModel>) -> ReportModel {
    ReportModel {
        total: outcomes.len(),
        succeeded: succeeded_of(outcomes),
        failed: failed_of(outcomes),
    }
}

/// Every outcome is counted once: as a success or as a failure.
pub proof fn lemma_report_partitions(outcomes: Seq<OutcomeModel>)
    ensures
        succeeded_of(outcomes).len() + failed_of(outcomes).len() == outcomes.len(),
    decreases outcomes.len(),
{
    if outcomes.len() > 0 {
        lemma_report_partitions(outcomes.drop_last());
    }
}

/// The aggregate result of a run.
#[derive(Clone, Debug, PartialEq, Eq)]
pub struct RunReport {
    /// The number of units that ran.
    pub total: usize,
    /// The names of the units that returned without an error.
    pub succeeded: Vec<String>,
    /// The units that failed, each with the cause.
    pub failed: Vec<(String, String)>,
}

impl View for RunReport {
    type V = ReportModel;

    open spec fn view(&self) -> ReportModel {
        ReportModel {
            total: self.total as nat,
            succeeded: self.succeeded@.map_values(|name: String| name@),
            failed: self.failed@.map_values(|entry: (String, String)| (entry.0@, entry.1@)),
        }
    }
}

impl RunReport {
    /// The report on these outcomes.
    pub fn collect(outcomes: &Vec<Outcome>) -> (report: RunReport)
        ensures
            report@ == report_of(outcome_views(outcomes@)),
    {
        let mut succeeded: Vec<String> = Vec::new();
        let mut failed: Vec<(String, String)> = Vec::new();
        let ghost all = outcome_views(outcomes@);
        let mut k: usize = 0;
        while k < outcomes.len()
            invariant
                k <= outcomes.len(),
                all == outcome_views(outcomes@),
                succeeded@.map_values(|name: String| name@) == succeeded_of(all.take(k as int)),
                failed@.map_values(|entry: (String, String)| (entry.0@, entry.1@)) == failed_of(
                    all.take(k as int),
                ),
            decreases outcomes.len() - k,
        {
            let outcome = &outcomes[k];
            proof {
                assert(all.take(k + 1).drop_last() =~= all.take(k as int));
                assert(all.take(k + 1).last() == outcome@);
            }
            let ghost before_ok = succeeded@;
            let ghost before_err = failed@;
            match &outcome.result {
                Ok(_) => {
                    let name = outcome.name.clone();
                    succeeded.push(name);
                    assert(succeeded@.map_values(|name: String| name@) =~= before_ok.map_values(
                        |name: String| name@,
                    ).push(outcome.name@));
                },
                Err(cause) => {
                    let entry = (outcome.name.clone(), cause.clone());
                    failed.push(entry);
                    assert(failed@.map_values(|entry: (String, String)| (entry.0@, entry.1@))
                        =~= before_err.map_values(|entry: (String, String)| (entry.0@, entry.1@)).push(
                        (outcome.name@, cause@),
                    ));
                },
            }
            k = k + 1;
        }
        proof {
            assert(all.take(k as int) =~= all);
        }
        RunReport { total: outcomes.len(), succeeded, failed }
    }

    /// Whether no unit failed.
    pub fn is_success(&self) -> (clean: bool)
        ensures
            clean == (self@.failed.len() == 0),
    {
        self.failed.len() == 0
    }
}

} // verus!
