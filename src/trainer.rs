//! The decisions of the background trainer. A worker owns a network and a
//! `TrainerState`; on each turn of its loop it hands `step` the signal it
//! received (or `None` when none was pending) and carries out the returned
//! `Action`: evaluating, reporting, running one full-batch epoch, or idling
//! until the next signal. The state is generic over the data set type `D`.
use vstd::prelude::*;

verus! {

/// A command sent from the caller to the trainer.
pub enum NetworkSignal<D> {
    /// Flip the running flag.
    Toggle,
    /// Stop the worker for good.
    Kill,
    /// Add this many epochs to the budget.
    SetEpochs(usize),
    /// Replace the training set.
    SetData(D),
    /// Replace the report interval; zero turns periodic evaluation off.
    SetReportInterval(usize),
    /// Replace the evaluation set; `None` turns evaluation off.
    EvalData(Option<D>),
}

/// A status message from the trainer to its caller; `R` is the type of an
/// evaluation result.
pub enum NetworkResponse<R> {
    /// Epochs done and epochs budgeted.
    Epochs(usize, usize),
    /// The most recent evaluation.
    EvalResult(R),
}

/// What the trainer tells its caller about its progress.
#[derive(Clone, Copy, Debug, PartialEq, Eq, Structural)]
pub struct StatusSnapshot {
    pub epochs: usize,
    pub epochs_to_run: usize,
    pub running: bool,
}

/// The work of one turn of the loop in which no signal was pending.
#[derive(Clone, Copy, Debug, PartialEq, Eq, Structural)]
pub struct Plan {
    /// Evaluate the network on the evaluation set before reporting.
    pub evaluate: bool,
    /// Publish this snapshot (after the evaluation, if any).
    pub report: Option<StatusSnapshot>,
    /// Run one gradient-descent epoch over the whole training set.
    pub train: bool,
    /// Publish this snapshot, then block until the next signal arrives.
    pub idle: Option<StatusSnapshot>,
}

/// What the worker does after one call of `step`.
#[derive(Clone, Copy, Debug, PartialEq, Eq, Structural)]
pub enum Action {
    /// Leave the loop: the worker ends.
    Exit,
    /// A signal was applied; nothing else happens on this turn.
    Applied,
    /// No signal was pending: carry out the plan.
    Work(Plan),
}

/// The worker's own state, never shared with the caller.
pub struct TrainerState<D> {
    pub running: bool,
    pub epoch_count: usize,
    pub epochs_to_run: usize,
    pub training_data: D,
    pub eval_data: Option<D>,
    pub report_interval: usize,
}

/// `a + b`, held at `usize::MAX` where it would pass it.
pub open spec fn saturating_sum(a: usize, b: usize) -> usize {
    if a + b > usize::MAX {
        usize::MAX
    } else {
        (a + b) as usize
    }
}

impl<D> TrainerState<D> {
    /// A trainer that holds `training_data` and no evaluation set, stopped,
    /// with no epochs done or budgeted and periodic reports off.
    pub fn new(training_data: D) -> (r: Self)
        ensures
            !r.running,
            r.epoch_count == 0,
            r.epochs_to_run == 0,
            r.training_data == training_data,
            r.eval_data is None,
            r.report_interval == 0,
            r.wf(),
    {
        TrainerState {
            running: false,
            epoch_count: 0,
            epochs_to_run: 0,
            training_data,
            eval_data: None,
            report_interval: 0,
        }
    }

    /// The epochs done never exceed the epochs budgeted.
    pub open spec fn wf(self) -> bool {
        self.epoch_count <= self.epochs_to_run
    }

    /// A periodic report is due on this turn.
    pub open spec fn report_due(self) -> bool {
        self.report_interval != 0 && self.epoch_count % self.report_interval == 0
    }

    /// An epoch is to be run on this turn.
    pub open spec fn train_due(self) -> bool {
        self.running && self.epoch_count < self.epochs_to_run
    }

    pub open spec fn snapshot_spec(self) -> StatusSnapshot {
        StatusSnapshot {
            epochs: self.epoch_count,
            epochs_to_run: self.epochs_to_run,
            running: self.running,
        }
    }

    /// The state after a signal other than `Kill` has been applied.
    pub open spec fn applied(self, signal: NetworkSignal<D>) -> Self {
        match signal {
            NetworkSignal::Toggle => TrainerState { running: !self.running, ..self },
            NetworkSignal::Kill => self,
            NetworkSignal::SetEpochs(n) => TrainerState {
                epochs_to_run: saturating_sum(self.epochs_to_run, n),
                ..self
            },
            NetworkSignal::SetData(d) => TrainerState { training_data: d, ..self },
            NetworkSignal::SetReportInterval(n) => TrainerState { report_interval: n, ..self },
            NetworkSignal::EvalData(d) => TrainerState { eval_data: d, ..self },
        }
    }

    /// The plan of a turn on which no signal was pending.
    pub open spec fn plan(self) -> Plan {
        Plan {
            evaluate: self.report_due() && self.eval_data is Some,
            report: if self.report_due() {
                Some(self.snapshot_spec())
            } else {
                None
            },
            train: self.train_due(),
            idle: if self.train_due() {
                None
            } else {
                Some(StatusSnapshot { running: false, ..self.snapshot_spec() })
            },
        }
    }

    /// The state after a turn on which no signal was pending.
    pub open spec fn ticked(self) -> Self {
        if self.train_due() {
            TrainerState { epoch_count: (self.epoch_count + 1) as usize, ..self }
        } else {
            self
        }
    }

    /// The state after one turn of the loop.
    pub open spec fn next(self, signal: Option<NetworkSignal<D>>) -> Self {
        match signal {
            Some(s) => self.applied(s),
            None => self.ticked(),
        }
    }

    /// What the worker does on one turn of the loop.
    pub open spec fn action(self, signal: Option<NetworkSignal<D>>) -> Action {
        match signal {
            Some(NetworkSignal::Kill) => Action::Exit,
            Some(_) => Action::Applied,
            None => Action::Work(self.plan()),
        }
    }

    /// The state after `n` turns on which no signal was pending.
    pub open spec fn run(self, n: nat) -> Self
        decreases n,
    {
        if n == 0 {
            self
        } else {
            self.ticked().run((n - 1) as nat)
        }
    }

    /// The progress that the trainer would publish now.
    pub fn snapshot(&self) -> (r: StatusSnapshot)
        ensures
            r == self.snapshot_spec(),
    {
        StatusSnapshot {
            epochs: self.epoch_count,
            epochs_to_run: self.epochs_to_run,
            running: self.running,
        }
    }

    /// Applies one signal: `Toggle` flips the running flag, `SetEpochs`
    /// adds to the budget (held at `usize::MAX`), the others replace their
    /// field. `Kill` changes nothing.
    pub fn apply_signal(&mut self, signal: NetworkSignal<D>)
        ensures
            *final(self) == old(self).applied(signal),
            old(self).wf() ==> final(self).wf(),
    {
        match signal {
            NetworkSignal::Toggle => {
                self.running = !self.running;
            },
            NetworkSignal::Kill => {},
            NetworkSignal::SetEpochs(n) => {
                self.epochs_to_run = self.epochs_to_run.saturating_add(n);
            },
            NetworkSignal::SetData(d) => {
                self.training_data = d;
            },
            NetworkSignal::SetReportInterval(n) => {
                self.report_interval = n;
            },
            NetworkSignal::EvalData(d) => {
                self.eval_data = d;
            },
        }
    }

    /// Decides one turn of the worker's loop. With a signal, `Kill` ends the
    /// loop and any other signal is applied, with no training on that turn.
    /// Without one, a report is due when the interval is non-zero and divides
    /// the epoch count; an epoch runs (and is counted here) while running and
    /// under budget; otherwise the worker publishes a stopped snapshot and
    /// waits for the next signal.
    pub fn step(&mut self, signal: Option<NetworkSignal<D>>) -> (r: Action)
        ensures
            *final(self) == old(self).next(signal),
            r == old(self).action(signal),
            old(self).wf() ==> final(self).wf(),
    {
        match signal {
            Some(NetworkSignal::Kill) => Action::Exit,
            Some(s) => {
                self.apply_signal(s);
                Action::Applied
            },
            None => {
                let report_due = self.report_interval != 0 && self.epoch_count % self.report_interval
                    == 0;
                let train = self.running && self.epoch_count < self.epochs_to_run;
                let now = self.snapshot();
                let plan = Plan {
                    evaluate: report_due && self.eval_data.is_some(),
                    report: if report_due {
                        Some(now)
                    } else {
                        None
                    },
                    train,
                    idle: if train {
                        None
                    } else {
                        Some(StatusSnapshot { running: false, ..now })
                    },
                };
                if train {
                    self.epoch_count = self.epoch_count + 1;
                }
                Action::Work(plan)
            },
        }
    }
}

/// Turns without a signal change nothing but the epoch count.
pub proof fn lemma_run_keeps_settings<D>(s: TrainerState<D>, n: nat)
    ensures
        s.run(n) == (TrainerState { epoch_count: s.run(n).epoch_count, ..s }),
    decreases n,
{
    if n > 0 {
        lemma_run_keeps_settings(s.ticked(), (n - 1) as nat);
    }
}

/// How far turns without a signal move the epoch count: a stopped trainer
/// never moves it; a running one counts one epoch per turn until the budget
/// is reached, and never beyond.
pub proof fn lemma_run_epoch_count<D>(s: TrainerState<D>, n: nat)
    ensures
        !s.running ==> s.run(n).epoch_count == s.epoch_count,
        s.running && s.epoch_count >= s.epochs_to_run ==> s.run(n).epoch_count == s.epoch_count,
        s.running && s.epoch_count < s.epochs_to_run ==> s.run(n).epoch_count == if s.epoch_count
            + n <= s.epochs_to_run {
            s.epoch_count + n
        } else {
            s.epochs_to_run as int
        },
    decreases n,
{
    if n > 0 {
        lemma_run_epoch_count(s.ticked(), (n - 1) as nat);
    }
}

/// Epoch budgets add up: after `SetEpochs(a)`, `SetEpochs(b)` and `Toggle`
/// the budget has grown by `a + b` and the running flag is flipped, and every
/// snapshot published on any later turn without a signal carries that budget.
pub proof fn lemma_budget_accumulates<D>(s: TrainerState<D>, a: usize, b: usize, n: nat)
    requires
        s.epochs_to_run + a + b <= usize::MAX,
    ensures
        ({
            let t = s.applied(NetworkSignal::SetEpochs(a)).applied(
                NetworkSignal::SetEpochs(b),
            ).applied(NetworkSignal::Toggle);
            &&& t.epochs_to_run == s.epochs_to_run + a + b
            &&& t.running == !s.running
            &&& t.epoch_count == s.epoch_count
            &&& t.run(n).epochs_to_run == s.epochs_to_run + a + b
            &&& t.run(n).plan().report matches Some(r) ==> r.epochs_to_run == s.epochs_to_run + a + b
            &&& t.run(n).plan().idle matches Some(r) ==> r.epochs_to_run == s.epochs_to_run + a + b
        }),
{
    let t = s.applied(NetworkSignal::SetEpochs(a)).applied(NetworkSignal::SetEpochs(b)).applied(
        NetworkSignal::Toggle,
    );
    lemma_run_keeps_settings(t, n);
}

/// A stopped trainer, on turns without a signal, never trains and never
/// moves its epoch count; it publishes a stopped snapshot and waits.
pub proof fn lemma_stopped_stays_idle<D>(s: TrainerState<D>, n: nat)
    requires
        !s.running,
    ensures
        s.run(n).epoch_count == s.epoch_count,
        !s.run(n).plan().train,
        s.run(n).plan().idle == Some(
            StatusSnapshot { epochs: s.epoch_count, epochs_to_run: s.epochs_to_run, running: false },
        ),
{
    lemma_run_keeps_settings(s, n);
    lemma_run_epoch_count(s, n);
}

/// Waking an idle trainer whose budget is spent with `SetEpochs(1)` and
/// `Toggle` runs exactly one epoch: the first turn without a signal trains
/// and counts it, and every later such turn idles with the count one higher.
pub proof fn lemma_wake_runs_one_epoch<D>(s: TrainerState<D>, n: nat)
    requires
        !s.running,
        s.epoch_count == s.epochs_to_run,
        s.epochs_to_run < usize::MAX,
    ensures
        ({
            let t = s.applied(NetworkSignal::SetEpochs(1)).applied(NetworkSignal::Toggle);
            &&& t.plan().train
            &&& t.ticked().epoch_count == s.epoch_count + 1
            &&& n >= 1 ==> t.run(n).epoch_count == s.epoch_count + 1
            &&& n >= 1 ==> !t.run(n).plan().train
        }),
{
    let t = s.applied(NetworkSignal::SetEpochs(1)).applied(NetworkSignal::Toggle);
    lemma_run_keeps_settings(t, n);
    lemma_run_epoch_count(t, n);
}

/// On a turn without a signal, a report is published exactly when the
/// report interval is non-zero and divides the epoch count, and an
/// evaluation happens only together with a report.
pub proof fn lemma_report_cadence<D>(s: TrainerState<D>)
    ensures
        s.action(None) matches Action::Work(p) && (p.report is Some <==> (s.report_interval != 0
            && s.epoch_count % s.report_interval == 0)),
        s.action(None) matches Action::Work(p) && (p.evaluate ==> p.report is Some),
        s.action(None) matches Action::Work(p) && (p.report matches Some(r) ==> r.epochs
            == s.epoch_count),
{
}

/// `Kill` ends the loop, whatever the state, and changes nothing.
pub proof fn lemma_kill_exits<D>(s: TrainerState<D>)
    ensures
        s.action(Some(NetworkSignal::Kill)) == Action::Exit,
        s.next(Some(NetworkSignal::Kill)) == s,
{
}

} // verus!
