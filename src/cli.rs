use vstd::prelude::*;

use crate::config::{consistent, references_declared, FileConfig};
use crate::notifiers::strings_view;
use crate::reactor::{initial_table, Reactor};
use crate::validator::{is_consistent, runs_missing, validate_config, validation_error, warnings, ConfigValidationError};
use crate::watcher::{basic_header, build_probe, Probe};

verus! {

/// Options of the `watch` command: the configuration file to watch by.
#[derive(Clone, Debug)]
pub struct WatchOpts {
    pub file: String,
}

/// Options of the `test` command: the configuration file to test.
#[derive(Clone, Debug)]
pub struct TestOpts {
    pub file: String,
}

/// The commands of the program.
#[derive(Clone, Debug)]
pub enum Command {
    /// Start watching.
    Watch(WatchOpts),
    /// Test checkers and notifiers.
    Test(TestOpts),
}

/// A watch ready to start: the reactor, one probe loop per checker in configuration order,
/// and the warnings to show before starting.
pub struct Watch {
    pub reactor: Reactor,
    pub probes: Vec<Probe>,
    pub warnings: Vec<String>,
}

/// The probe loops of `config`, one per checker, in order.
fn build_probes(config: &FileConfig) -> (r: Vec<Probe>)
    ensures
        r@.len() == config.checkers@.len(),
        forall|i: int| 0 <= i < r@.len() ==> probe_of(#[trigger] r@[i], config.checkers@[i]),
{
    let mut probes: Vec<Probe> = Vec::new();
    let mut i: usize = 0;
    while i < config.checkers.len()
        invariant
            0 <= i <= config.checkers@.len(),
            probes@.len() == i,
            forall|j: int| 0 <= j < i ==> probe_of(#[trigger] probes@[j], config.checkers@[j]),
        decreases config.checkers@.len() - i,
    {
        probes.push(build_probe(&config.checkers[i]));
        i = i + 1;
    }
    probes
}

/// `p` is the probe loop of `checker`: its identifier, its URL, its credentials and its interval.
pub open spec fn probe_of(p: Probe, checker: crate::config::CheckerConfig) -> bool {
    &&& p.checker_id@ == checker.id@
    &&& p.request.url@ == checker.url@
    &&& (p.request.authorization is Some <==> checker.basic_auth is Some)
    &&& (checker.basic_auth matches Some(auth) ==> p.request.authorization->Some_0@ == basic_header(
        auth.username@,
        auth.password@,
    ))
    &&& p.interval == checker.interval
}

/// Sets up a watch of `config`, where `missing` lists the commands not found on this system.
/// A configuration that fails validation is refused with the validation error; one whose
/// identifiers repeat is refused as well.
pub fn run(config: FileConfig, missing: &Vec<String>) -> (r: Result<Watch, ConfigValidationError>)
    ensures
        r is Ok <==> consistent(config) && forall|j: int| !#[trigger] runs_missing(config, strings_view(missing@), j),
        r matches Err(e) ==> if references_declared(config) && forall|j: int| !#[trigger] runs_missing(config, strings_view(missing@), j) {
            e is DuplicateIdentifier
        } else {
            validation_error(config, strings_view(missing@), e)
        },
        r matches Ok(w) ==> {
            &&& w.reactor.wf()
            &&& w.reactor.config() == config
            &&& w.reactor.table() == initial_table(config)
            &&& strings_view(w.warnings@) == warnings(config)
            &&& w.probes@.len() == config.checkers@.len()
            &&& forall|i: int| 0 <= i < w.probes@.len() ==> probe_of(#[trigger] w.probes@[i], config.checkers@[i])
        },
{
    let warnings = match validate_config(&config, missing) {
        Ok(w) => w,
        Err(e) => return Err(e),
    };
    if !is_consistent(&config) {
        return Err(ConfigValidationError::DuplicateIdentifier);
    }
    let probes = build_probes(&config);
    let reactor = Reactor::new(config);
    Ok(Watch { reactor, probes, warnings })
}

} // verus!
