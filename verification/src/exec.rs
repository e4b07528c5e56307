//! The executor: walks a plan step by step and keeps the outputs of named
//! steps for the steps that follow.
//!
//! Running a step is the driver's work. The executor says which step is
//! next, takes its output back, and answers look-ups by name.

use crate::output::{
    HttpOutput, HttpPlanOutput, RawTcpOutput, RawTcpPlanOutput, TcpOutput, TcpPlanOutput,
    TlsPlanOutput,
};
use crate::tls::TlsOutput;
use vstd::prelude::*;

verus! {

/// What a step does, by protocol.
#[derive(Clone, Debug)]
pub enum StepBody {
    HTTP(HttpPlanOutput),
    TCP(TcpPlanOutput),
    TLS(TlsPlanOutput),
    RawTcp(RawTcpPlanOutput),
}

/// One step of a plan. A step without a name runs, but later steps cannot
/// refer to it.
#[derive(Clone, Debug)]
pub struct Step {
    pub name: Option<String>,
    pub body: StepBody,
}

/// An ordered list of steps.
#[derive(Clone, Debug)]
pub struct Plan {
    pub steps: Vec<Step>,
}

/// Whether no two steps of the first `n` bear the same name.
pub open spec fn names_distinct(steps: Seq<Step>, n: int) -> bool {
    forall|i: int, j: int|
        0 <= i < j < n && j < steps.len() && (#[trigger] steps[i]).name is Some && (
        #[trigger] steps[j]).name is Some ==> steps[i].name->0@ != steps[j].name->0@
}

impl Plan {
    /// Whether the plan can be run: no name is given to two steps, so that
    /// a name refers to one output at most.
    pub fn validate(&self) -> (r: bool)
        ensures
            r == names_distinct(self.steps@, self.steps@.len() as int),
    {
        let mut j: usize = 0;
        while j < self.steps.len()
            invariant
                j <= self.steps@.len(),
                names_distinct(self.steps@, j as int),
            decreases self.steps@.len() - j,
        {
            let mut i: usize = 0;
            while i < j
                invariant
                    i <= j < self.steps@.len(),
                    names_distinct(self.steps@, j as int),
                    forall|k: int|
                        0 <= k < i && (#[trigger] self.steps@[k]).name is Some && self.steps@[j as int].name
                            is Some ==> self.steps@[k].name->0@ != self.steps@[j as int].name->0@,
                decreases j - i,
            {
                let same: bool = match (&self.steps[i].name, &self.steps[j].name) {
                    (Some(a), Some(b)) => a.eq(b),
                    _ => false,
                };
                if same {
                    assert(!names_distinct(self.steps@, self.steps@.len() as int));
                    return false;
                }
                i += 1;
            }
            j += 1;
        }
        true
    }
}

/// The trace of one step, by protocol.
#[derive(Clone, Debug)]
pub enum StepOutput {
    HTTP(HttpOutput),
    TCP(TcpOutput),
    TLS(TlsOutput),
    RawTcp(RawTcpOutput),
}

/// Why the executor gave no step.
#[derive(Clone, Copy, Debug, PartialEq, Eq, Structural)]
pub enum Error {
    /// Every step has run.
    Done,
}

impl Error {
    /// The error in words.
    pub fn message(&self) -> (s: String)
        ensures
            s@ == "execution done"@,
    {
        "execution done".to_owned()
    }
}

/// The state of a run through a plan.
#[derive(Debug)]
pub struct Executor<'a> {
    pub plan: &'a Plan,
    /// The step that runs next, if any is left.
    pub current: Option<usize>,
    /// The outputs of the named steps that ran, each with the index of its
    /// step, in the order they were stored.
    pub outputs: Vec<(usize, StepOutput)>,
}

/// The position after step `i` of `n`.
pub open spec fn after(i: usize, n: nat) -> Option<usize> {
    if i + 1 < n {
        Some((i + 1) as usize)
    } else {
        None
    }
}

/// Whether the step at index `i` is named `name`.
pub open spec fn named(steps: Seq<Step>, i: int, name: Seq<char>) -> bool {
    0 <= i < steps.len() && steps[i].name is Some && steps[i].name->0@ == name
}

/// Where among the first `n` stored outputs the latest one under `name`
/// stands.
pub open spec fn latest(
    steps: Seq<Step>,
    outputs: Seq<(usize, StepOutput)>,
    name: Seq<char>,
    n: int,
) -> Option<int>
    decreases n,
{
    if n <= 0 {
        None
    } else if named(steps, outputs[n - 1].0 as int, name) {
        Some(n - 1)
    } else {
        latest(steps, outputs, name, n - 1)
    }
}

impl<'a> Executor<'a> {
    /// The stored outputs belong to named steps that ran, in the order of
    /// the plan, each step at most once.
    pub open spec fn wf(&self) -> bool {
        &&& self.current is Some ==> self.current->0 < self.plan.steps@.len()
        &&& forall|k: int|
            0 <= k < self.outputs@.len() ==> {
                &&& (#[trigger] self.outputs@[k]).0 < self.plan.steps@.len()
                &&& self.plan.steps@[self.outputs@[k].0 as int].name is Some
                &&& self.current is Some ==> self.outputs@[k].0 < self.current->0
            }
        &&& forall|j: int, k: int|
            0 <= j < k < self.outputs@.len() ==> (#[trigger] self.outputs@[j]).0 < (
            #[trigger] self.outputs@[k]).0
    }

    /// An executor at the first step of `plan`, with nothing stored.
    pub fn new(plan: &'a Plan) -> (e: Executor<'a>)
        ensures
            e.plan == plan,
            e.current == (if plan.steps@.len() > 0 {
                Some(0usize)
            } else {
                None
            }),
            e.outputs@.len() == 0,
            e.wf(),
    {
        let current: Option<usize> = if plan.steps.len() > 0 {
            Some(0)
        } else {
            None
        };
        Executor { plan, current, outputs: Vec::new() }
    }

    /// The index of the step to run now, or `Done` when none is left.
    pub fn next(&self) -> (r: Result<usize, Error>)
        ensures
            r == match self.current {
                Some(i) => Ok::<usize, Error>(i),
                None => Err::<usize, Error>(Error::Done),
            },
    {
        match self.current {
            Some(i) => Ok(i),
            None => Err(Error::Done),
        }
    }

    /// Takes the output of the step that just ran, whether it succeeded or
    /// carries errors: stores it if the step has a name, and moves on to
    /// the next step.
    pub fn record(&mut self, out: StepOutput)
        requires
            old(self).wf(),
            old(self).current is Some,
        ensures
            final(self).wf(),
            final(self).plan == old(self).plan,
            final(self).current == after(old(self).current->0, old(self).plan.steps@.len()),
            final(self).outputs@ == (if old(self).plan.steps@[old(self).current->0 as int].name
                is Some {
                old(self).outputs@.push((old(self).current->0, out))
            } else {
                old(self).outputs@
            }),
    {
        let i: usize = match self.current {
            Some(i) => i,
            None => 0,
        };
        let total: usize = self.plan.steps.len();
        if self.plan.steps[i].name.is_some() {
            self.outputs.push((i, out));
        }
        self.current = if i + 1 < total {
            Some(i + 1)
        } else {
            None
        };
    }

    /// The output stored under `name`: that of the latest step so named
    /// that ran. Looking up changes nothing.
    pub fn get(&self, name: &String) -> (r: Option<&StepOutput>)
        requires
            self.wf(),
        ensures
            r == match latest(self.plan.steps@, self.outputs@, name@, self.outputs@.len() as int) {
                Some(k) => Some(&self.outputs@[k].1),
                None => None,
            },
    {
        let mut n: usize = self.outputs.len();
        while n > 0
            invariant
                n <= self.outputs@.len(),
                self.wf(),
                latest(self.plan.steps@, self.outputs@, name@, self.outputs@.len() as int)
                    == latest(self.plan.steps@, self.outputs@, name@, n as int),
            decreases n,
        {
            let at: usize = self.outputs[n - 1].0;
            let hit: bool = match &self.plan.steps[at].name {
                Some(s) => s.eq(name),
                None => false,
            };
            assert(hit == named(self.plan.steps@, at as int, name@));
            if hit {
                return Some(&self.outputs[n - 1].1);
            }
            n -= 1;
        }
        None
    }

    /// The names under which outputs are stored, in the order they were
    /// stored.
    pub fn names(&self) -> (r: Vec<&'a String>)
        requires
            self.wf(),
        ensures
            r@.len() == self.outputs@.len(),
            forall|k: int|
                0 <= k < r@.len() ==> *(#[trigger] r@[k]) == self.plan.steps@[self.outputs@[k].0 as int].name->0,
    {
        let mut r: Vec<&'a String> = Vec::new();
        let mut k: usize = 0;
        while k < self.outputs.len()
            invariant
                k <= self.outputs@.len(),
                self.wf(),
                r@.len() == k,
                forall|j: int|
                    0 <= j < k ==> *(#[trigger] r@[j]) == self.plan.steps@[self.outputs@[j].0 as int].name->0,
            decreases self.outputs@.len() - k,
        {
            let at: usize = self.outputs[k].0;
            match &self.plan.steps[at].name {
                Some(s) => r.push(s),
                None => {},
            }
            k += 1;
        }
        r
    }
}

} // verus!
