//! The deployment run as a state machine over a `DeploymentPlan`.
//!
//! Stages only move forward: directories, the advisory scan for an older
//! runtime, the runtime module, the descriptor, the dependencies, then the
//! artifact. Each remediation is preceded by a fresh probe; the first fatal
//! failure aborts the run.
use vstd::prelude::*;
use crate::error::{Error, FtpError};
use crate::install::{DependencyInstall, DeploymentPlan};
use crate::remote::{has_old_subsdk, occurrences, SUBSDK_MARKER};

verus! {

/// The task last handed out.
#[derive(Debug, Clone, Copy, PartialEq, Eq, Structural)]
pub enum DeployStage {
    /// Creating `directories[i]`.
    Dirs(usize),
    /// Listing the exefs directory.
    Legacy,
    /// Warning of an older runtime.
    Warned,
    RuntimeProbe,
    RuntimeInstall,
    NpdmProbe,
    NpdmInstall,
    /// Probing for `dependencies[i]`.
    DepProbe(usize),
    /// Installing `dependencies[i]`.
    DepInstall(usize),
    Upload,
    Completed,
    Aborted,
}

/// What the caller is asked to do.
#[derive(Debug, Clone, PartialEq, Eq)]
pub enum Task {
    /// Create a directory; a failure is of no consequence.
    Mkdir(String),
    /// List a directory (answer: `Listing`); a failure is of no consequence.
    List(String),
    /// Warn that an older runtime install may cause problems (answer: `Done`).
    WarnOldRuntime,
    /// Probe whether a file exists (answer: `Present`; a failed probe counts
    /// as absent).
    Probe(String),
    /// Fetch the runtime distribution and store its module at the path.
    InstallRuntime(String),
    /// Store a descriptor at the path: the given local file, or one generated
    /// for the title.
    InstallNpdm(String, Option<String>),
    /// Fetch a dependency from the URL and store it at the path.
    InstallDependency(String, String),
    /// Store the artifact at the path.
    Upload(String),
    Completed,
    Aborted(Error),
}

/// The outcome of a task.
#[derive(Debug, Clone, PartialEq, Eq)]
pub enum Report {
    Done,
    Failed(Error),
    Present(bool),
    Listing(String),
}

/// One deployment run.
#[derive(Debug)]
pub struct Deployment {
    pub plan: DeploymentPlan,
    pub stage: DeployStage,
}

/// The probe found the file. A failed probe means absent.
pub open spec fn found(rep: Report) -> bool {
    rep == Report::Present(true)
}

pub open spec fn aborted_by(t: Task, rep: Report) -> bool {
    match rep {
        Report::Failed(e) => t == Task::Aborted(e),
        _ => t == Task::Aborted(Error::FtpError(FtpError::OutOfSequence)),
    }
}

/// The task that starts dependency `i`, or the upload once they are done.
pub open spec fn dependency_task(plan: DeploymentPlan, i: int) -> Task {
    if i < plan.dependencies@.len() {
        Task::Probe(plan.dependencies@[i].path)
    } else {
        Task::Upload(plan.install_path)
    }
}

pub open spec fn dependency_stage(plan: DeploymentPlan, i: int) -> DeployStage {
    if i < plan.dependencies@.len() {
        DeployStage::DepProbe(i as usize)
    } else {
        DeployStage::Upload
    }
}

/// What follows the directories.
pub open spec fn after_dirs(plan: DeploymentPlan, i: int) -> Task {
    if i < plan.directories@.len() {
        Task::Mkdir(plan.directories@[i])
    } else {
        Task::List(plan.exefs_dir)
    }
}

impl Deployment {
    /// A run over `plan`, and its first task.
    pub fn new(plan: DeploymentPlan) -> (r: (Deployment, Task))
        ensures
            r.0.plan == plan,
            r.1 == after_dirs(plan, 0),
            r.0.stage == if plan.directories@.len() > 0 {
                DeployStage::Dirs(0)
            } else {
                DeployStage::Legacy
            },
    {
        if plan.directories.len() > 0 {
            let t = Task::Mkdir(plan.directories[0].clone());
            (Deployment { plan, stage: DeployStage::Dirs(0) }, t)
        } else {
            let t = Task::List(plan.exefs_dir.clone());
            (Deployment { plan, stage: DeployStage::Legacy }, t)
        }
    }

    fn abort(&mut self, e: Error) -> (t: Task)
        ensures
            final(self).plan == old(self).plan,
            final(self).stage == DeployStage::Aborted,
            t == Task::Aborted(e),
    {
        self.stage = DeployStage::Aborted;
        Task::Aborted(e)
    }

    fn abort_on(&mut self, rep: Report) -> (t: Task)
        ensures
            final(self).plan == old(self).plan,
            final(self).stage == DeployStage::Aborted,
            aborted_by(t, rep),
    {
        match rep {
            Report::Failed(e) => self.abort(e),
            _ => self.abort(Error::FtpError(FtpError::OutOfSequence)),
        }
    }

    fn start_dependency(&mut self, i: usize) -> (t: Task)
        ensures
            final(self).plan == old(self).plan,
            final(self).stage == dependency_stage(old(self).plan, i as int),
            t == dependency_task(old(self).plan, i as int),
    {
        if i < self.plan.dependencies.len() {
            self.stage = DeployStage::DepProbe(i);
            Task::Probe(self.plan.dependencies[i].path.clone())
        } else {
            self.stage = DeployStage::Upload;
            Task::Upload(self.plan.install_path.clone())
        }
    }

    fn probe_runtime(&mut self) -> (t: Task)
        ensures
            final(self).plan == old(self).plan,
            final(self).stage == DeployStage::RuntimeProbe,
            t == Task::Probe(old(self).plan.runtime_path),
    {
        self.stage = DeployStage::RuntimeProbe;
        Task::Probe(self.plan.runtime_path.clone())
    }

    fn probe_npdm(&mut self) -> (t: Task)
        ensures
            final(self).plan == old(self).plan,
            final(self).stage == DeployStage::NpdmProbe,
            t == Task::Probe(old(self).plan.npdm_path),
    {
        self.stage = DeployStage::NpdmProbe;
        Task::Probe(self.plan.npdm_path.clone())
    }

    /// Takes the outcome of the last task and hands out the next one.
    pub fn step(&mut self, rep: Report) -> (t: Task)
        ensures
            final(self).plan == old(self).plan,
            // the run ends exactly when a terminal task is handed out, and stays ended
            (t is Completed) <==> final(self).stage == DeployStage::Completed,
            (t is Aborted) <==> final(self).stage == DeployStage::Aborted,
            old(self).stage == DeployStage::Completed ==> t == Task::Completed,
            old(self).stage is Aborted ==> final(self).stage == DeployStage::Aborted,
            // directories are created in order, whatever each attempt gives
            old(self).stage matches DeployStage::Dirs(i) ==> {
                let i = old(self).stage->Dirs_0;
                &&& i < old(self).plan.directories@.len() ==> t == after_dirs(old(self).plan, i + 1)
            },
            // the scan for an older runtime is advisory
            old(self).stage == DeployStage::Legacy ==> match rep {
                Report::Listing(l) => if occurrences(l@, SUBSDK_MARKER@) > 1 {
                    t == Task::WarnOldRuntime
                } else {
                    t == Task::Probe(old(self).plan.runtime_path)
                },
                Report::Failed(_) => t == Task::Probe(old(self).plan.runtime_path),
                _ => aborted_by(t, rep),
            },
            old(self).stage == DeployStage::Warned ==> t == Task::Probe(old(self).plan.runtime_path),
            // probe, then remediate what is missing
            old(self).stage == DeployStage::RuntimeProbe ==> match rep {
                Report::Present(_) | Report::Failed(_) => if found(rep) {
                    t == Task::Probe(old(self).plan.npdm_path)
                } else {
                    t == Task::InstallRuntime(old(self).plan.runtime_path)
                },
                _ => aborted_by(t, rep),
            },
            old(self).stage == DeployStage::RuntimeInstall ==> match rep {
                Report::Done => t == Task::Probe(old(self).plan.npdm_path),
                _ => aborted_by(t, rep),
            },
            old(self).stage == DeployStage::NpdmProbe ==> match rep {
                Report::Present(_) | Report::Failed(_) => if found(rep) {
                    t == dependency_task(old(self).plan, 0)
                } else {
                    t == Task::InstallNpdm(old(self).plan.npdm_path, old(self).plan.custom_npdm)
                },
                _ => aborted_by(t, rep),
            },
            old(self).stage == DeployStage::NpdmInstall ==> match rep {
                Report::Done => t == dependency_task(old(self).plan, 0),
                _ => aborted_by(t, rep),
            },
            old(self).stage matches DeployStage::DepProbe(i) ==> {
                let i = old(self).stage->DepProbe_0;
                i < old(self).plan.dependencies@.len() ==> match rep {
                    Report::Present(_) | Report::Failed(_) => if found(rep) {
                        t == dependency_task(old(self).plan, i + 1)
                    } else {
                        t == Task::InstallDependency(
                            old(self).plan.dependencies@[i as int].url,
                            old(self).plan.dependencies@[i as int].path,
                        )
                    },
                    _ => aborted_by(t, rep),
                }
            },
            old(self).stage matches DeployStage::DepInstall(i) ==> {
                let i = old(self).stage->DepInstall_0;
                i < old(self).plan.dependencies@.len() ==> match rep {
                    Report::Done => t == dependency_task(old(self).plan, i + 1),
                    _ => aborted_by(t, rep),
                }
            },
            old(self).stage == DeployStage::Upload ==> match rep {
                Report::Done => t == Task::Completed,
                _ => aborted_by(t, rep),
            },
            // where each handed-out task leaves the run
            t is Mkdir ==> final(self).stage matches DeployStage::Dirs(_),
            old(self).stage matches DeployStage::Dirs(i) && t is Mkdir ==> final(self).stage
                == DeployStage::Dirs((old(self).stage->Dirs_0 + 1) as usize),
            t is List ==> final(self).stage == DeployStage::Legacy,
            t is WarnOldRuntime ==> final(self).stage == DeployStage::Warned,
            t is InstallRuntime ==> final(self).stage == DeployStage::RuntimeInstall,
            t is InstallNpdm ==> final(self).stage == DeployStage::NpdmInstall,
            t is Upload ==> final(self).stage == DeployStage::Upload,
            t == Task::Probe(old(self).plan.runtime_path) && (old(self).stage is Legacy
                || old(self).stage is Warned) ==> final(self).stage == DeployStage::RuntimeProbe,
            t == Task::Probe(old(self).plan.npdm_path) && (old(self).stage is RuntimeProbe
                || old(self).stage is RuntimeInstall) ==> final(self).stage == DeployStage::NpdmProbe,
            t is Probe && (old(self).stage is NpdmProbe || old(self).stage is NpdmInstall
                || old(self).stage is DepProbe || old(self).stage is DepInstall) ==> final(self).stage
                matches DeployStage::DepProbe(_),
            (old(self).stage is NpdmProbe || old(self).stage is NpdmInstall) && (t is Probe
                || t is Upload) ==> final(self).stage == dependency_stage(old(self).plan, 0),
            old(self).stage matches DeployStage::DepProbe(i) && (t is Probe || t is Upload)
                ==> final(self).stage == dependency_stage(old(self).plan, old(self).stage->DepProbe_0 + 1),
            old(self).stage matches DeployStage::DepInstall(i) && (t is Probe || t is Upload)
                ==> final(self).stage == dependency_stage(old(self).plan, old(self).stage->DepInstall_0 + 1),
            t is InstallDependency ==> final(self).stage == DeployStage::DepInstall(
                old(self).stage->DepProbe_0,
            ),
    {
        match self.stage {
            DeployStage::Dirs(i) => {
                if i < self.plan.directories.len() {
                    if i + 1 < self.plan.directories.len() {
                        self.stage = DeployStage::Dirs(i + 1);
                        Task::Mkdir(self.plan.directories[i + 1].clone())
                    } else {
                        self.stage = DeployStage::Legacy;
                        Task::List(self.plan.exefs_dir.clone())
                    }
                } else {
                    self.abort(Error::FtpError(FtpError::OutOfSequence))
                }
            },
            DeployStage::Legacy => match rep {
                Report::Listing(l) => if has_old_subsdk(l.as_str()) {
                    self.stage = DeployStage::Warned;
                    Task::WarnOldRuntime
                } else {
                    self.probe_runtime()
                },
                Report::Failed(_) => self.probe_runtime(),
                _ => self.abort_on(rep),
            },
            DeployStage::Warned => self.probe_runtime(),
            DeployStage::RuntimeProbe => match rep {
                Report::Present(true) => self.probe_npdm(),
                Report::Present(false) | Report::Failed(_) => {
                    self.stage = DeployStage::RuntimeInstall;
                    Task::InstallRuntime(self.plan.runtime_path.clone())
                },
                _ => self.abort_on(rep),
            },
            DeployStage::RuntimeInstall => match rep {
                Report::Done => self.probe_npdm(),
                _ => self.abort_on(rep),
            },
            DeployStage::NpdmProbe => match rep {
                Report::Present(true) => self.start_dependency(0),
                Report::Present(false) | Report::Failed(_) => {
                    self.stage = DeployStage::NpdmInstall;
                    let custom = match &self.plan.custom_npdm {
                        Some(p) => Some(p.clone()),
                        None => None,
                    };
                    Task::InstallNpdm(self.plan.npdm_path.clone(), custom)
                },
                _ => self.abort_on(rep),
            },
            DeployStage::NpdmInstall => match rep {
                Report::Done => self.start_dependency(0),
                _ => self.abort_on(rep),
            },
            DeployStage::DepProbe(i) => {
                if i < self.plan.dependencies.len() {
                    match rep {
                        Report::Present(true) => self.start_dependency(i + 1),
                        Report::Present(false) | Report::Failed(_) => {
                            self.stage = DeployStage::DepInstall(i);
                            let dep: &DependencyInstall = &self.plan.dependencies[i];
                            Task::InstallDependency(dep.url.clone(), dep.path.clone())
                        },
                        _ => self.abort_on(rep),
                    }
                } else {
                    self.abort(Error::FtpError(FtpError::OutOfSequence))
                }
            },
            DeployStage::DepInstall(i) => {
                if i < self.plan.dependencies.len() {
                    match rep {
                        Report::Done => self.start_dependency(i + 1),
                        _ => self.abort_on(rep),
                    }
                } else {
                    self.abort(Error::FtpError(FtpError::OutOfSequence))
                }
            },
            DeployStage::Upload => match rep {
                Report::Done => {
                    self.stage = DeployStage::Completed;
                    Task::Completed
                },
                _ => self.abort_on(rep),
            },
            DeployStage::Completed => Task::Completed,
            DeployStage::Aborted => Task::Aborted(Error::FtpError(FtpError::OutOfSequence)),
        }
    }
}

} // verus!
