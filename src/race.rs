use vstd::prelude::*;

verus! {

/// What a unit reports when it stops: it completed, or it failed with a
/// human-readable cause.
#[derive(Clone, Debug, PartialEq, Eq)]
pub enum UnitOutcome {
    Completed,
    Failed(String),
}

/// The overall result that an outcome becomes.
pub open spec fn outcome_result(o: UnitOutcome) -> Result<(), String> {
    match o {
        UnitOutcome::Completed => Ok(()),
        UnitOutcome::Failed(cause) => Err(cause),
    }
}

impl UnitOutcome {
    /// Turns the outcome into the result a launch returns.
    pub fn into_result(self) -> (r: Result<(), String>)
        ensures
            r == outcome_result(self),
    {
        match self {
            UnitOutcome::Completed => Ok(()),
            UnitOutcome::Failed(cause) => Err(cause),
        }
    }
}

/// What the supervisor does next.
#[derive(Debug, PartialEq, Eq)]
pub enum RaceStep {
    /// Keep waiting for the first unit to stop.
    Wait,
    /// The race is decided: force-abort the units listed in `abort` and return
    /// `outcome`, which came from `winner` (none when there was no unit at all).
    Finish { winner: Option<usize>, abort: Vec<usize>, outcome: UnitOutcome },
    /// The race was already decided: this outcome is dropped.
    Discard,
}

/// A `RaceStep` with its abort list as a sequence.
pub enum StepModel {
    Wait,
    Finish { winner: Option<usize>, abort: Seq<usize>, outcome: UnitOutcome },
    Discard,
}

impl View for RaceStep {
    type V = StepModel;

    open spec fn view(&self) -> StepModel {
        match self {
            RaceStep::Wait => StepModel::Wait,
            RaceStep::Finish { winner, abort, outcome } => StepModel::Finish {
                winner: *winner,
                abort: abort@,
                outcome: *outcome,
            },
            RaceStep::Discard => StepModel::Discard,
        }
    }
}

/// The units `0 .. n` but `skip`, in increasing order.
pub open spec fn indices_except(n: nat, skip: int) -> Seq<usize>
    decreases n,
{
    if n == 0 {
        seq![]
    } else {
        let rest = indices_except((n - 1) as nat, skip);
        if n - 1 == skip {
            rest
        } else {
            rest.push((n - 1) as usize)
        }
    }
}

/// The state of a race: how many units run in it, and whether its result is
/// already known.
pub struct RaceModel {
    pub units: nat,
    pub settled: bool,
}

/// The step with which a race of `units` units begins: a race without units is
/// decided at once, as a success that aborts nothing.
pub open spec fn start_step(units: nat) -> StepModel {
    if units == 0 {
        StepModel::Finish { winner: None, abort: seq![], outcome: UnitOutcome::Completed }
    } else {
        StepModel::Wait
    }
}

/// The step taken when unit `unit` stops with `outcome`: the first to stop
/// decides the race and every other unit is aborted; later ones are dropped.
pub open spec fn finish_step(m: RaceModel, unit: int, outcome: UnitOutcome) -> StepModel {
    if m.settled {
        StepModel::Discard
    } else {
        StepModel::Finish {
            winner: Some(unit as usize),
            abort: indices_except(m.units, unit),
            outcome,
        }
    }
}

/// The race once any unit has stopped.
pub open spec fn after_finish(m: RaceModel) -> RaceModel {
    RaceModel { units: m.units, settled: true }
}

/// Races a fixed set of units, numbered from zero: the first to stop decides
/// the overall outcome and the others are aborted.
#[derive(Debug)]
pub struct Race {
    units: usize,
    settled: bool,
}

impl View for Race {
    type V = RaceModel;

    closed spec fn view(&self) -> RaceModel {
        RaceModel { units: self.units as nat, settled: self.settled }
    }
}

impl Race {
    /// Starts a race of `units` units, with the first step to take.
    pub fn new(units: usize) -> (r: (Race, RaceStep))
        ensures
            r.0@ == (RaceModel { units: units as nat, settled: units == 0 }),
            r.1@ == start_step(units as nat),
    {
        if units == 0 {
            let step = RaceStep::Finish {
                winner: None,
                abort: Vec::new(),
                outcome: UnitOutcome::Completed,
            };
            (Race { units, settled: true }, step)
        } else {
            (Race { units, settled: false }, RaceStep::Wait)
        }
    }

    pub fn unit_count(&self) -> (r: usize)
        ensures
            r as nat == self@.units,
    {
        self.units
    }

    pub fn is_settled(&self) -> (r: bool)
        ensures
            r == self@.settled,
    {
        self.settled
    }

    /// Records that unit `unit` stopped with `outcome`, and says what to do.
    pub fn unit_finished(&mut self, unit: usize, outcome: UnitOutcome) -> (step: RaceStep)
        requires
            unit < old(self)@.units,
        ensures
            final(self)@ == after_finish(old(self)@),
            step@ == finish_step(old(self)@, unit as int, outcome),
    {
        if self.settled {
            return RaceStep::Discard;
        }
        self.settled = true;
        let mut abort: Vec<usize> = Vec::new();
        let mut i: usize = 0;
        while i < self.units
            invariant
                i <= self.units,
                abort@ == indices_except(i as nat, unit as int),
            decreases self.units - i,
        {
            if i != unit {
                abort.push(i);
            }
            i = i + 1;
        }
        RaceStep::Finish { winner: Some(unit), abort, outcome }
    }
}

} // verus!
