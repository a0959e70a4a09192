//! The registry of helper processes: language servers, test runners and
//! graders. It knows how each is started and which of them are running; the
//! processes themselves are started and killed by whoever owns them.

use vstd::prelude::*;
use crate::clock::{utc_now, Timestamp};
use crate::error::ShellError;
use crate::text::{same_text, text_pairs, texts};

verus! {

/// What a service is for.
#[derive(Debug, Clone)]
pub enum ServiceType {
    /// The language server of a language.
    Lsp(String),
    TestRunner,
    Grader,
    Custom(String),
}

pub enum ServiceTypeView {
    Lsp(Seq<char>),
    TestRunner,
    Grader,
    Custom(Seq<char>),
}

impl View for ServiceType {
    type V = ServiceTypeView;

    open spec fn view(&self) -> ServiceTypeView {
        match self {
            ServiceType::Lsp(language) => ServiceTypeView::Lsp(language@),
            ServiceType::TestRunner => ServiceTypeView::TestRunner,
            ServiceType::Grader => ServiceTypeView::Grader,
            ServiceType::Custom(name) => ServiceTypeView::Custom(name@),
        }
    }
}

impl ServiceType {
    /// A copy of the service type.
    pub fn copy(&self) -> (copy: Self)
        ensures
            copy@ == self@,
    {
        match self {
            ServiceType::Lsp(language) => ServiceType::Lsp(language.clone()),
            ServiceType::TestRunner => ServiceType::TestRunner,
            ServiceType::Grader => ServiceType::Grader,
            ServiceType::Custom(name) => ServiceType::Custom(name.clone()),
        }
    }
}

/// How a service is started.
#[derive(Debug, Clone)]
pub struct ServiceConfig {
    pub id: String,
    pub service_type: ServiceType,
    pub command: String,
    pub args: Vec<String>,
    pub working_dir: Option<String>,
    pub env: Vec<(String, String)>,
}

pub struct ServiceConfigView {
    pub id: Seq<char>,
    pub service_type: ServiceTypeView,
    pub command: Seq<char>,
    pub args: Seq<Seq<char>>,
    pub working_dir: Option<Seq<char>>,
    pub env: Seq<(Seq<char>, Seq<char>)>,
}

impl View for ServiceConfig {
    type V = ServiceConfigView;

    open spec fn view(&self) -> ServiceConfigView {
        ServiceConfigView {
            id: self.id@,
            service_type: self.service_type@,
            command: self.command@,
            args: texts(self.args@),
            working_dir: match self.working_dir {
                Some(dir) => Some(dir@),
                None => None,
            },
            env: text_pairs(self.env@),
        }
    }
}

impl ServiceConfig {
    /// A copy of the configuration.
    pub fn copy(&self) -> (copy: Self)
        ensures
            copy@ == self@,
    {
        let mut args: Vec<String> = Vec::new();
        let mut i: usize = 0;
        while i < self.args.len()
            invariant
                i <= self.args.len(),
                args.len() == i,
                forall|k: int| 0 <= k < i ==> args[k]@ == self.args[k]@,
            decreases self.args.len() - i,
        {
            args.push(self.args[i].clone());
            i += 1;
        }
        let mut env: Vec<(String, String)> = Vec::new();
        let mut j: usize = 0;
        while j < self.env.len()
            invariant
                j <= self.env.len(),
                env.len() == j,
                forall|k: int|
                    0 <= k < j ==> env[k].0@ == self.env[k].0@ && env[k].1@ == self.env[k].1@,
            decreases self.env.len() - j,
        {
            env.push((self.env[j].0.clone(), self.env[j].1.clone()));
            j += 1;
        }
        let working_dir = match &self.working_dir {
            Some(dir) => Some(dir.clone()),
            None => None,
        };
        let copy = ServiceConfig {
            id: self.id.clone(),
            service_type: self.service_type.copy(),
            command: self.command.clone(),
            args,
            working_dir,
            env,
        };
        assert(copy@.args =~= self@.args);
        assert(copy@.env =~= self@.env);
        copy
    }
}

/// A service that is running.
#[derive(Debug, Clone)]
pub struct ServiceProcess {
    pub id: String,
    pub service_type: ServiceType,
    pub started_at: Timestamp,
}

/// Whether a service runs, and since when.
#[derive(Debug, Clone)]
pub struct ServiceStatus {
    pub id: String,
    pub service_type: ServiceType,
    pub running: bool,
    /// The start of the service as an RFC 3339 time, where it runs.
    pub started_at: Option<String>,
}

/// The RFC 3339 text of an instant, where the instant can be written so.
pub uninterp spec fn rfc3339_of(secs: i64, nanos: u32) -> Option<Seq<char>>;

/// `chrono::DateTime::from_timestamp` and `to_rfc3339`: the instant written
/// as RFC 3339 prescribes, or nothing where the instant is outside the years
/// chrono can hold. The answer depends on the instant alone.
#[verifier::external_body]
pub(crate) fn to_rfc3339(at: Timestamp) -> (text: Option<String>)
    ensures
        match text {
            Some(t) => rfc3339_of(at.secs, at.nanos) == Some(t@),
            None => rfc3339_of(at.secs, at.nanos) is None,
        },
{
    match chrono::DateTime::from_timestamp(at.secs, at.nanos) {
        Some(t) => Some(t.to_rfc3339()),
        None => None,
    }
}

/// An instant written as RFC 3339 prescribes, where it can be written so.
pub fn rfc3339(at: Timestamp) -> (text: Option<String>)
    ensures
        match text {
            Some(t) => rfc3339_of(at.secs, at.nanos) == Some(t@),
            None => rfc3339_of(at.secs, at.nanos) is None,
        },
{
    to_rfc3339(at)
}

/// Whether a configuration of the list has this identifier.
pub open spec fn configured(configs: Seq<ServiceConfig>, id: Seq<char>) -> bool {
    exists|i: int| 0 <= i < configs.len() && #[trigger] configs[i].id@ == id
}

/// Whether a process of the list has this identifier.
pub open spec fn running(processes: Seq<ServiceProcess>, id: Seq<char>) -> bool {
    exists|i: int| 0 <= i < processes.len() && #[trigger] processes[i].id@ == id
}

/// The text of the error for a service that is not configured.
pub open spec fn not_found(id: Seq<char>) -> Seq<char> {
    "Service not found: "@ + id
}

/// The configurations of the services and the list of those that run.
pub struct ServiceManager {
    configs: Vec<ServiceConfig>,
    processes: Vec<ServiceProcess>,
}

impl ServiceManager {
    /// The configurations, oldest first.
    pub closed spec fn configs(&self) -> Seq<ServiceConfig> {
        self.configs@
    }

    /// The running services, oldest first.
    pub closed spec fn processes(&self) -> Seq<ServiceProcess> {
        self.processes@
    }

    /// What every manager satisfies: no two configurations and no two
    /// running services share an identifier.
    pub closed spec fn well_formed(&self) -> bool {
        &&& forall|i: int, j: int|
            0 <= i < j < self.configs@.len() ==> #[trigger] self.configs@[i].id@
                != #[trigger] self.configs@[j].id@
        &&& forall|i: int, j: int|
            0 <= i < j < self.processes@.len() ==> #[trigger] self.processes@[i].id@
                != #[trigger] self.processes@[j].id@
    }

    /// A manager that knows no service.
    pub fn new() -> (manager: Self)
        ensures
            manager.well_formed(),
            manager.configs().len() == 0,
            manager.processes().len() == 0,
    {
        ServiceManager { configs: Vec::new(), processes: Vec::new() }
    }

    /// The place of a service's configuration, if it has one.
    fn find_config(&self, id: &str) -> (found: Option<usize>)
        ensures
            match found {
                Some(i) => i < self.configs@.len() && self.configs@[i as int].id@ == id@,
                None => !configured(self.configs@, id@),
            },
    {
        let mut i: usize = 0;
        while i < self.configs.len()
            invariant
                i <= self.configs@.len(),
                forall|k: int| 0 <= k < i ==> self.configs@[k].id@ != id@,
            decreases self.configs@.len() - i,
        {
            if same_text(self.configs[i].id.as_str(), id) {
                return Some(i);
            }
            i += 1;
        }
        None
    }

    /// The place of a running service, if it runs.
    fn find_process(&self, id: &str) -> (found: Option<usize>)
        ensures
            match found {
                Some(i) => i < self.processes@.len() && self.processes@[i as int].id@ == id@,
                None => !running(self.processes@, id@),
            },
    {
        let mut i: usize = 0;
        while i < self.processes.len()
            invariant
                i <= self.processes@.len(),
                forall|k: int| 0 <= k < i ==> self.processes@[k].id@ != id@,
            decreases self.processes@.len() - i,
        {
            if same_text(self.processes[i].id.as_str(), id) {
                return Some(i);
            }
            i += 1;
        }
        None
    }

    /// Takes in the configuration of a service. It takes the place of an
    /// earlier one with the same identifier, or is added where there is none.
    pub fn register(&mut self, config: ServiceConfig)
        requires
            old(self).well_formed(),
        ensures
            final(self).well_formed(),
            final(self).processes() == old(self).processes(),
            configured(final(self).configs(), config.id@),
            if configured(old(self).configs(), config.id@) {
                exists|i: int|
                    0 <= i < old(self).configs().len() && old(self).configs()[i].id@ == config.id@
                        && final(self).configs() == old(self).configs().update(i, config)
            } else {
                final(self).configs() == old(self).configs().push(config)
            },
    {
        match self.find_config(config.id.as_str()) {
            Some(i) => {
                let ghost before = self.configs@;
                self.configs.set(i, config);
                assert(self.configs@[i as int].id@ == config.id@);
                assert forall|a: int, b: int| 0 <= a < b < self.configs@.len() implies self.configs@[a].id@
                    != self.configs@[b].id@ by {
                    assert(before[a].id@ != before[b].id@);
                }
            },
            None => {
                let ghost before = self.configs@;
                self.configs.push(config);
                assert(self.configs@[before.len() as int].id@ == config.id@);
            },
        }
    }

    /// What to do to start a service: nothing where it already runs, run its
    /// configured command where it does not. A service that was never
    /// configured cannot be started.
    pub fn start(&self, id: &str) -> (plan: Result<Option<ServiceConfig>, ShellError>)
        requires
            self.well_formed(),
        ensures
            if !configured(self.configs(), id@) {
                plan matches Err(ShellError::Service(text)) && text@ == not_found(id@)
            } else if running(self.processes(), id@) {
                plan matches Ok(None)
            } else {
                (plan matches Ok(Some(config)) && config.id@ == id@ && exists|i: int|
                    0 <= i < self.configs().len() && self.configs()[i]@ == config@)
            },
    {
        let i = match self.find_config(id) {
            Some(i) => i,
            None => {
                let mut text = "Service not found: ".to_owned();
                text.append(id);
                return Err(ShellError::Service(text));
            },
        };
        if self.find_process(id).is_some() {
            return Ok(None);
        }
        Ok(Some(self.configs[i].copy()))
    }

    /// Takes in how the start of a service's process ended. Where it was
    /// started, the service is listed as running from the time given, unless
    /// it is listed already; where it was not, the error says why.
    pub fn started_at(
        &mut self,
        config: &ServiceConfig,
        failure: Option<String>,
        now: Timestamp,
    ) -> (result: Result<(), ShellError>)
        requires
            old(self).well_formed(),
        ensures
            final(self).well_formed(),
            final(self).configs() == old(self).configs(),
            match failure {
                Some(m) => final(self).processes() == old(self).processes() && (
                result matches Err(ShellError::Service(text)) && text@
                    == "Failed to start service: "@ + m@),
                None => result is Ok && running(final(self).processes(), config.id@) && (if running(
                    old(self).processes(),
                    config.id@,
                ) {
                    final(self).processes() == old(self).processes()
                } else {
                    final(self).processes().len() == old(self).processes().len() + 1
                        && final(self).processes().drop_last() == old(self).processes()
                        && final(self).processes().last().id@ == config.id@
                        && final(self).processes().last().service_type@ == config.service_type@
                        && final(self).processes().last().started_at == now
                }),
            },
    {
        match failure {
            Some(m) => {
                let mut text = "Failed to start service: ".to_owned();
                text.append(m.as_str());
                Err(ShellError::Service(text))
            },
            None => {
                if self.find_process(config.id.as_str()).is_none() {
                    let ghost before = self.processes@;
                    self.processes.push(
                        ServiceProcess {
                            id: config.id.clone(),
                            service_type: config.service_type.copy(),
                            started_at: now,
                        },
                    );
                    assert(self.processes@[before.len() as int].id@ == config.id@);
                    assert(self.processes@.drop_last() =~= before);
                }
                Ok(())
            },
        }
    }

    /// Takes in how the start of a service's process ended, as `started_at`
    /// does, at the time the wall clock shows.
    pub fn started(&mut self, config: &ServiceConfig, failure: Option<String>) -> (result: Result<
        (),
        ShellError,
    >)
        requires
            old(self).well_formed(),
        ensures
            final(self).well_formed(),
            final(self).configs() == old(self).configs(),
            match failure {
                Some(m) => final(self).processes() == old(self).processes() && (
                result matches Err(ShellError::Service(text)) && text@
                    == "Failed to start service: "@ + m@),
                None => result is Ok && running(final(self).processes(), config.id@) && (if running(
                    old(self).processes(),
                    config.id@,
                ) {
                    final(self).processes() == old(self).processes()
                } else {
                    final(self).processes().len() == old(self).processes().len() + 1
                        && final(self).processes().drop_last() == old(self).processes()
                        && final(self).processes().last().id@ == config.id@
                        && final(self).processes().last().service_type@ == config.service_type@
                }),
            },
    {
        let now = utc_now();
        self.started_at(config, failure, now)
    }

    /// Takes a service off the list of those that run. Says whether it was
    /// on it: where it was, its process is to be killed.
    pub fn stop(&mut self, id: &str) -> (was_running: bool)
        requires
            old(self).well_formed(),
        ensures
            final(self).well_formed(),
            final(self).configs() == old(self).configs(),
            was_running == running(old(self).processes(), id@),
            !running(final(self).processes(), id@),
            if was_running {
                exists|i: int|
                    0 <= i < old(self).processes().len() && old(self).processes()[i].id@ == id@
                        && final(self).processes() == old(self).processes().remove(i)
            } else {
                final(self).processes() == old(self).processes()
            },
    {
        match self.find_process(id) {
            Some(i) => {
                let ghost before = self.processes@;
                self.processes.remove(i);
                proof {
                    let after = self.processes@;
                    assert(after =~= before.remove(i as int));
                    assert(old(self).processes()[i as int].id@ == id@);
                    assert(self.processes() == old(self).processes().remove(i as int));
                    assert forall|a: int| 0 <= a < after.len() implies (#[trigger] after[a]).id@
                        != id@ by {
                        if a < i {
                            assert(before[a].id@ != before[i as int].id@);
                        } else {
                            assert(before[i as int].id@ != before[a + 1].id@);
                        }
                    }
                    assert forall|a: int, b: int| 0 <= a < b < after.len() implies after[a].id@
                        != after[b].id@ by {
                        let a0 = if a < i { a } else { a + 1 };
                        let b0 = if b < i { b } else { b + 1 };
                        assert(before[a0].id@ != before[b0].id@);
                    }
                }
                true
            },
            None => false,
        }
    }

    /// How a stop ended, given what the system said of the kill.
    pub fn stopped(kill_failure: Option<String>) -> (result: Result<(), ShellError>)
        ensures
            match kill_failure {
                None => result is Ok,
                Some(m) => result matches Err(ShellError::Service(text)) && text@
                    == "Failed to stop service: "@ + m@,
            },
    {
        match kill_failure {
            None => Ok(()),
            Some(m) => {
                let mut text = "Failed to stop service: ".to_owned();
                text.append(m.as_str());
                Err(ShellError::Service(text))
            },
        }
    }

    /// Whether a service runs.
    pub fn is_running(&self, id: &str) -> (runs: bool)
        ensures
            runs == running(self.processes(), id@),
    {
        self.find_process(id).is_some()
    }

    /// Whether a status is the one of a configured service: it bears the
    /// service's identifier and type, says whether the service runs, and
    /// gives the start of the one that does as an RFC 3339 time.
    pub open spec fn is_status_of(
        &self,
        status: ServiceStatus,
        config: ServiceConfig,
    ) -> bool {
        &&& status.id@ == config.id@
        &&& status.service_type@ == config.service_type@
        &&& status.running == running(self.processes(), config.id@)
        &&& if status.running {
            exists|i: int|
                0 <= i < self.processes().len() && #[trigger] self.processes()[i].id@ == config.id@
                    && (match status.started_at {
                    Some(t) => rfc3339_of(
                        self.processes()[i].started_at.secs,
                        self.processes()[i].started_at.nanos,
                    ) == Some(t@),
                    None => rfc3339_of(
                        self.processes()[i].started_at.secs,
                        self.processes()[i].started_at.nanos,
                    ) is None,
                })
        } else {
            status.started_at is None
        }
    }

    /// The status of every configured service, in the order in which the
    /// services were configured.
    pub fn status(&self) -> (list: Vec<ServiceStatus>)
        requires
            self.well_formed(),
        ensures
            list@.len() == self.configs().len(),
            forall|k: int|
                0 <= k < list@.len() ==> self.is_status_of(#[trigger] list@[k], self.configs()[k]),
    {
        let mut list: Vec<ServiceStatus> = Vec::new();
        let mut k: usize = 0;
        while k < self.configs.len()
            invariant
                k <= self.configs@.len(),
                list@.len() == k,
                forall|a: int|
                    0 <= a < k ==> self.is_status_of(#[trigger] list@[a], self.configs@[a]),
            decreases self.configs@.len() - k,
        {
            let config = &self.configs[k];
            let status = match self.find_process(config.id.as_str()) {
                Some(i) => ServiceStatus {
                    id: config.id.clone(),
                    service_type: config.service_type.copy(),
                    running: true,
                    started_at: to_rfc3339(self.processes[i].started_at),
                },
                None => ServiceStatus {
                    id: config.id.clone(),
                    service_type: config.service_type.copy(),
                    running: false,
                    started_at: None,
                },
            };
            assert(self.is_status_of(status, self.configs@[k as int]));
            list.push(status);
            k += 1;
        }
        list
    }

    /// Takes every service off the list of those that run and names them:
    /// their processes are to be killed.
    pub fn stop_all(&mut self) -> (stopped: Vec<String>)
        requires
            old(self).well_formed(),
        ensures
            final(self).well_formed(),
            final(self).configs() == old(self).configs(),
            final(self).processes().len() == 0,
            texts(stopped@) == Seq::new(
                old(self).processes().len(),
                |i: int| old(self).processes()[i].id@,
            ),
    {
        let mut stopped: Vec<String> = Vec::new();
        let mut i: usize = 0;
        while i < self.processes.len()
            invariant
                i <= self.processes@.len(),
                stopped@.len() == i,
                self.processes@ == old(self).processes@,
                self.configs@ == old(self).configs@,
                forall|k: int| 0 <= k < i ==> stopped@[k]@ == self.processes@[k].id@,
            decreases self.processes@.len() - i,
        {
            stopped.push(self.processes[i].id.clone());
            i += 1;
        }
        self.processes = Vec::new();
        assert(texts(stopped@) =~= Seq::new(
            old(self).processes().len(),
            |i: int| old(self).processes()[i].id@,
        ));
        stopped
    }
}

impl Default for ServiceManager {
    /// A manager that knows no service.
    fn default() -> (manager: Self)
        ensures
            manager.well_formed(),
            manager.configs().len() == 0,
            manager.processes().len() == 0,
    {
        ServiceManager::new()
    }
}

} // verus!
