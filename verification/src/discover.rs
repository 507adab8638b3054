//! The discovery orchestrator.
//!
//! Given the probe outcome of each candidate executable, in input order, it
//! assembles the list of successfully resolved interpreter records. An
//! absent candidate is silently skipped; any other failure aborts the whole
//! operation, and records already resolved for earlier candidates are
//! discarded.

use vstd::prelude::*;
use crate::abi::abi_failure;
use crate::abi::abi_ok;
use crate::abi::abi_resolved;
use crate::abi::resolve_abiflags;
use crate::error::DiscoveryError;
use crate::error::DiscoveryErrorModel;
use crate::error::ErrorKind;
use crate::error::ErrorKindModel;
use crate::interpreter::InterpreterModel;
use crate::interpreter::PythonInterpreter;
use crate::metadata::HostFacts;
use crate::metadata::HostFactsModel;
use crate::metadata::InterpreterMetadata;
use crate::metadata::MetadataModel;
use crate::platform::check_platform_sanity;
use crate::platform::platform_ok;

verus! {

/// How the probe of one candidate executable ended.
#[derive(Clone, Debug, PartialEq, Eq)]
pub enum ProbeOutcome {
    /// The executable could not be located at all; the candidate is
    /// skipped, not reported as an error.
    Absent,
    /// The process exited with a non-zero status, or spawning it failed
    /// for a reason other than "no such program".
    ProcessFailure,
    /// The captured output was not one well-formed JSON object matching
    /// the raw metadata schema.
    ParseFailure,
    /// The process succeeded and its output parsed into raw metadata.
    Metadata(InterpreterMetadata),
}

/// Mathematical model of [`ProbeOutcome`].
pub enum ProbeOutcomeModel {
    Absent,
    ProcessFailure,
    ParseFailure,
    Metadata(MetadataModel),
}

impl View for ProbeOutcome {
    type V = ProbeOutcomeModel;

    open spec fn view(&self) -> ProbeOutcomeModel {
        match self {
            ProbeOutcome::Absent => ProbeOutcomeModel::Absent,
            ProbeOutcome::ProcessFailure => ProbeOutcomeModel::ProcessFailure,
            ProbeOutcome::ParseFailure => ProbeOutcomeModel::ParseFailure,
            ProbeOutcome::Metadata(m) => ProbeOutcomeModel::Metadata(m@),
        }
    }
}

/// The probe outcome of one candidate, together with the identifier the
/// candidate was invoked by.
#[derive(Clone, Debug, PartialEq, Eq)]
pub struct ProbeReport {
    /// The candidate executable identifier.
    pub executable: String,
    /// How probing that candidate ended.
    pub outcome: ProbeOutcome,
}

/// Mathematical model of [`ProbeReport`].
pub struct ProbeReportModel {
    pub executable: Seq<char>,
    pub outcome: ProbeOutcomeModel,
}

impl View for ProbeReport {
    type V = ProbeReportModel;

    open spec fn view(&self) -> ProbeReportModel {
        ProbeReportModel { executable: self.executable@, outcome: self.outcome@ }
    }
}

/// Why validated metadata still fails to resolve: the platform sanity
/// check is applied first, then the ABI rule table.
pub open spec fn metadata_failure(meta: MetadataModel, host: HostFactsModel) -> ErrorKindModel {
    if !platform_ok(meta.platform, host.os) {
        ErrorKindModel::PlatformMismatch { platform: meta.platform, host: host.os }
    } else {
        abi_failure(meta, host.os)
    }
}

/// The record resolved from validated metadata: the reported version, the
/// resolved ABI-flags string, and the compiled-in host identifier.
pub open spec fn resolved_record(
    meta: MetadataModel,
    executable: Seq<char>,
    host: HostFactsModel,
) -> InterpreterModel {
    InterpreterModel {
        major: meta.major,
        minor: meta.minor,
        abiflags: abi_resolved(meta, host.os),
        target: host.os,
        executable,
    }
}

/// What the orchestrator does with one probe report.
pub enum StepModel {
    /// The candidate was absent: skip it.
    Skip,
    /// The candidate resolved to a record: append it.
    Resolved(InterpreterModel),
    /// A hard failure: abort the whole discovery.
    Failed(DiscoveryErrorModel),
}

/// The orchestrator's decision for one probe report.
pub open spec fn step_spec(report: ProbeReportModel, host: HostFactsModel) -> StepModel {
    match report.outcome {
        ProbeOutcomeModel::Absent => StepModel::Skip,
        ProbeOutcomeModel::ProcessFailure => StepModel::Failed(
            DiscoveryErrorModel {
                executable: report.executable,
                kind: ErrorKindModel::ProcessFailure,
            },
        ),
        ProbeOutcomeModel::ParseFailure => StepModel::Failed(
            DiscoveryErrorModel {
                executable: report.executable,
                kind: ErrorKindModel::ParseFailure,
            },
        ),
        ProbeOutcomeModel::Metadata(meta) => {
            if platform_ok(meta.platform, host.os) && abi_ok(meta, host.os) {
                StepModel::Resolved(resolved_record(meta, report.executable, host))
            } else {
                StepModel::Failed(
                    DiscoveryErrorModel {
                        executable: report.executable,
                        kind: metadata_failure(meta, host),
                    },
                )
            }
        },
    }
}

/// Folds the orchestrator's decisions over the remaining probe reports,
/// extending the records already accumulated for earlier candidates.
pub open spec fn discover_from(
    reports: Seq<ProbeReportModel>,
    host: HostFactsModel,
    acc: Seq<InterpreterModel>,
) -> Result<Seq<InterpreterModel>, DiscoveryErrorModel>
    decreases reports.len(),
{
    if reports.len() == 0 {
        Result::Ok(acc)
    } else {
        match step_spec(reports[0], host) {
            StepModel::Skip => discover_from(reports.drop_first(), host, acc),
            StepModel::Resolved(rec) => discover_from(reports.drop_first(), host, acc.push(rec)),
            StepModel::Failed(e) => Result::Err(e),
        }
    }
}

/// The outcome of one whole discovery run over a list of probe reports, in
/// input order: the resolved records of all non-absent candidates, or the
/// failure of the first candidate that exhibits one.
pub open spec fn discover_spec(reports: Seq<ProbeReportModel>, host: HostFactsModel) -> Result<
    Seq<InterpreterModel>,
    DiscoveryErrorModel,
> {
    discover_from(reports, host, Seq::<InterpreterModel>::empty())
}

/// The records of the candidates that resolve successfully, in input
/// order, passing over every other candidate.
pub open spec fn resolved_records(
    reports: Seq<ProbeReportModel>,
    host: HostFactsModel,
) -> Seq<InterpreterModel>
    decreases reports.len(),
{
    if reports.len() == 0 {
        Seq::<InterpreterModel>::empty()
    } else {
        match step_spec(reports[0], host) {
            StepModel::Resolved(rec) => seq![rec] + resolved_records(reports.drop_first(), host),
            _ => resolved_records(reports.drop_first(), host),
        }
    }
}

proof fn lemma_discover_from_success(
    reports: Seq<ProbeReportModel>,
    host: HostFactsModel,
    acc: Seq<InterpreterModel>,
)
    requires
        forall|i: int| 0 <= i < reports.len() ==> !(step_spec(reports[i], host) is Failed),
    ensures
        discover_from(reports, host, acc) == Result::<
            Seq<InterpreterModel>,
            DiscoveryErrorModel,
        >::Ok(acc + resolved_records(reports, host)),
    decreases reports.len(),
{
    if reports.len() == 0 {
        assert(acc + resolved_records(reports, host) =~= acc);
    } else {
        let rest = reports.drop_first();
        assert forall|i: int| 0 <= i < rest.len() implies !(step_spec(rest[i], host) is Failed) by {
            assert(rest[i] == reports[i + 1]);
        }
        assert(!(step_spec(reports[0], host) is Failed));
        match step_spec(reports[0], host) {
            StepModel::Skip => {
                lemma_discover_from_success(rest, host, acc);
            },
            StepModel::Resolved(rec) => {
                lemma_discover_from_success(rest, host, acc.push(rec));
                assert(acc.push(rec) + resolved_records(rest, host) =~= acc + (seq![rec]
                    + resolved_records(rest, host)));
            },
            StepModel::Failed(_) => {
                assert(false);
            },
        }
    }
}

/// When no candidate exhibits a hard failure, discovery succeeds and
/// returns exactly the records of the successfully resolving candidates,
/// in candidate input order.
pub proof fn lemma_discovery_success_order(reports: Seq<ProbeReportModel>, host: HostFactsModel)
    requires
        forall|i: int| 0 <= i < reports.len() ==> !(step_spec(reports[i], host) is Failed),
    ensures
        discover_spec(reports, host) == Result::<Seq<InterpreterModel>, DiscoveryErrorModel>::Ok(
            resolved_records(reports, host),
        ),
{
    lemma_discover_from_success(reports, host, Seq::<InterpreterModel>::empty());
    assert(Seq::<InterpreterModel>::empty() + resolved_records(reports, host) =~= resolved_records(
        reports,
        host,
    ));
}

proof fn lemma_discover_from_failure(
    reports: Seq<ProbeReportModel>,
    host: HostFactsModel,
    acc: Seq<InterpreterModel>,
    j: int,
)
    requires
        0 <= j < reports.len(),
        step_spec(reports[j], host) is Failed,
        forall|i: int| 0 <= i < j ==> !(step_spec(reports[i], host) is Failed),
    ensures
        discover_from(reports, host, acc) matches Err(e) && step_spec(reports[j], host)
            == StepModel::Failed(e),
    decreases j,
{
    if j == 0 {
    } else {
        let rest = reports.drop_first();
        assert(!(step_spec(reports[0], host) is Failed));
        assert forall|i: int| 0 <= i < j - 1 implies !(step_spec(rest[i], host) is Failed) by {
            assert(rest[i] == reports[i + 1]);
        }
        assert(rest[j - 1] == reports[j]);
        match step_spec(reports[0], host) {
            StepModel::Skip => {
                lemma_discover_from_failure(rest, host, acc, j - 1);
            },
            StepModel::Resolved(rec) => {
                lemma_discover_from_failure(rest, host, acc.push(rec), j - 1);
            },
            StepModel::Failed(_) => {
                assert(false);
            },
        }
    }
}

/// The failure a discovery run reports is always the one of the first
/// candidate, in input order, that exhibits a hard failure; records
/// resolved for earlier candidates are discarded with it.
pub proof fn lemma_discovery_first_failure(
    reports: Seq<ProbeReportModel>,
    host: HostFactsModel,
    j: int,
)
    requires
        0 <= j < reports.len(),
        step_spec(reports[j], host) is Failed,
        forall|i: int| 0 <= i < j ==> !(step_spec(reports[i], host) is Failed),
    ensures
        discover_spec(reports, host) matches Err(e) && step_spec(reports[j], host)
            == StepModel::Failed(e),
{
    lemma_discover_from_failure(reports, host, Seq::<InterpreterModel>::empty(), j);
}

/// The models of a sequence of probe reports.
pub open spec fn reports_model(reports: Seq<ProbeReport>) -> Seq<ProbeReportModel> {
    reports.map_values(|r: ProbeReport| r@)
}

/// The models of a sequence of resolved records.
pub open spec fn records_model(records: Seq<PythonInterpreter>) -> Seq<InterpreterModel> {
    records.map_values(|p: PythonInterpreter| p@)
}

/// Runs the sanity check and the ABI rule table on the metadata one
/// candidate reported, and builds its resolved record.
///
/// The record embeds the compiled-in host identifier, never anything
/// parsed from the interpreter, and its ABI-flags string is the one the
/// rule table resolved.
pub fn resolve_probe(
    metadata: &InterpreterMetadata,
    executable: &String,
    host: &HostFacts,
) -> (r: Result<PythonInterpreter, DiscoveryError>)
    ensures
        r is Ok <==> (platform_ok(metadata.platform@, host.os@) && abi_ok(metadata@, host.os@)),
        r matches Ok(rec) ==> rec@ == resolved_record(metadata@, executable@, host@),
        r matches Err(e) ==> e@ == (DiscoveryErrorModel {
            executable: executable@,
            kind: metadata_failure(metadata@, host@),
        }),
{
    match check_platform_sanity(metadata, &host.os) {
        Ok(_) => {},
        Err(kind) => {
            return Err(DiscoveryError { executable: executable.clone(), kind });
        },
    }
    match resolve_abiflags(metadata, &host.os) {
        Ok(abiflags) => Ok(
            PythonInterpreter {
                major: metadata.major,
                minor: metadata.minor,
                abiflags,
                target: host.os.clone(),
                executable: executable.clone(),
            },
        ),
        Err(kind) => Err(DiscoveryError { executable: executable.clone(), kind }),
    }
}

impl PythonInterpreter {
    /// Determines which of the probed candidates are usable interpreters.
    ///
    /// Candidates are processed strictly in input order. An absent
    /// candidate is skipped; every other failure aborts the whole call and
    /// discards the records already resolved, so the reported failure is
    /// always the first one in input order.
    pub fn find_all(reports: &Vec<ProbeReport>, host: &HostFacts) -> (r: Result<
        Vec<PythonInterpreter>,
        DiscoveryError,
    >)
        ensures
            r matches Ok(records) ==> discover_spec(reports_model(reports@), host@)
                == Result::<Seq<InterpreterModel>, DiscoveryErrorModel>::Ok(
                records_model(records@),
            ),
            r matches Err(e) ==> discover_spec(reports_model(reports@), host@) == Result::<
                Seq<InterpreterModel>,
                DiscoveryErrorModel,
            >::Err(e@),
    {
        let ghost all = reports_model(reports@);
        let mut records: Vec<PythonInterpreter> = Vec::new();
        let mut i: usize = 0;
        proof {
            assert(all.skip(0) =~= all);
            assert(records_model(records@) =~= Seq::<InterpreterModel>::empty());
        }
        while i < reports.len()
            invariant
                i <= reports.len(),
                all == reports_model(reports@),
                discover_spec(all, host@) == discover_from(
                    all.skip(i as int),
                    host@,
                    records_model(records@),
                ),
            decreases reports.len() - i,
        {
            let report = &reports[i];
            proof {
                assert(all.skip(i as int)[0] == reports@[i as int]@);
                assert(all.skip(i as int).drop_first() =~= all.skip(i as int + 1));
            }
            match &report.outcome {
                ProbeOutcome::Absent => {},
                ProbeOutcome::ProcessFailure => {
                    return Err(
                        DiscoveryError {
                            executable: report.executable.clone(),
                            kind: ErrorKind::ProcessFailure,
                        },
                    );
                },
                ProbeOutcome::ParseFailure => {
                    return Err(
                        DiscoveryError {
                            executable: report.executable.clone(),
                            kind: ErrorKind::ParseFailure,
                        },
                    );
                },
                ProbeOutcome::Metadata(meta) => {
                    match resolve_probe(meta, &report.executable, host) {
                        Ok(rec) => {
                            let ghost before = records_model(records@);
                            records.push(rec);
                            proof {
                                assert(records_model(records@) =~= before.push(rec@));
                            }
                        },
                        Err(e) => {
                            return Err(e);
                        },
                    }
                },
            }
            i = i + 1;
        }
        proof {
            assert(all.skip(reports@.len() as int) =~= Seq::<ProbeReportModel>::empty());
        }
        Ok(records)
    }
}

} // verus!
