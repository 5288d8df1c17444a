//! The decisions of the control loop.
//!
//! Every round starts with a reading and ends with one action: a batch of
//! workers that is run to its end, or a sleep. No round depends on the one
//! before it.

use crate::config::Configuration;
use crate::sensor::{read_outcome, read_temperature, SensorError, SensorReport, TemperatureSample};
use vstd::prelude::*;

verus! {

/// How long each worker of a batch does busy work, in seconds.
pub const WORK_SECONDS: u64 = 10;

/// How long the loop sleeps when it is warm enough, in seconds.
pub const SLEEP_SECONDS: u64 = 10;

/// The two states of the control loop.
#[derive(Clone, Copy, Debug, PartialEq, Eq, Structural)]
pub enum State {
    /// The sample is below the minimum: busy work is due.
    Heating,
    /// The sample is at or above the minimum.
    Idle,
}

/// What the loop does before it polls again.
#[derive(Clone, Copy, Debug, PartialEq, Eq, Structural)]
pub enum Action {
    /// Start `workers` workers at once, each doing busy work for `seconds`
    /// seconds from its own start, and wait for all of them.
    Heat { workers: usize, seconds: u64 },
    /// Sleep for `seconds` seconds.
    Sleep { seconds: u64 },
}

/// The state that a sample calls for: heating strictly below the minimum,
/// idle at the minimum and above it.
pub open spec fn state_for(sample: TemperatureSample, min_temp: usize) -> State {
    if sample.below(min_temp) {
        State::Heating
    } else {
        State::Idle
    }
}

/// The action that belongs to a state: a full batch of workers, each for the
/// fixed work time, or a sleep of the fixed length.
pub open spec fn action_for(config: Configuration, state: State) -> Action {
    match state {
        State::Heating => Action::Heat { workers: config.num_threads, seconds: WORK_SECONDS },
        State::Idle => Action::Sleep { seconds: SLEEP_SECONDS },
    }
}

/// Decides between heating and idling for one sample.
pub fn decide(sample: &TemperatureSample, min_temp: usize) -> (state: State)
    ensures
        state == state_for(*sample, min_temp),
{
    if sample.is_below(min_temp) {
        State::Heating
    } else {
        State::Idle
    }
}

/// The action that the loop takes in `state`.
pub fn action_in(config: &Configuration, state: State) -> (action: Action)
    ensures
        action == action_for(*config, state),
{
    match state {
        State::Heating => Action::Heat { workers: config.num_threads, seconds: WORK_SECONDS },
        State::Idle => Action::Sleep { seconds: SLEEP_SECONDS },
    }
}

/// What one round of the loop found and decided.
#[derive(Clone, Copy, Debug)]
pub struct Round {
    /// The temperature that was measured.
    pub sample: TemperatureSample,
    /// The state that it calls for.
    pub state: State,
    /// What to do before the next poll.
    pub action: Action,
}

/// One round of the control loop: from what the sensor query returned to the
/// action to take, or to the error that ends the loop.
pub fn control_step(config: &Configuration, report: &SensorReport) -> (outcome: Result<
    Round,
    SensorError,
>)
    ensures
        match outcome {
            Ok(round) => {
                &&& read_outcome(*report, Ok(round.sample))
                &&& round.state == state_for(round.sample, config.min_temp)
                &&& round.action == action_for(*config, round.state)
            },
            Err(error) => read_outcome(*report, Err(error)),
        },
{
    match read_temperature(report) {
        Ok(sample) => {
            let state = decide(&sample, config.min_temp);
            Ok(Round { sample, state, action: action_in(config, state) })
        },
        Err(error) => Err(error),
    }
}

/// A sample strictly below the minimum is heated, any other is not: a mean
/// that equals the minimum counts as warm enough.
pub proof fn lemma_minimum_is_warm_enough(sample: TemperatureSample, min_temp: usize)
    ensures
        sample.total() < min_temp * 10 * sample.count() ==> state_for(sample, min_temp)
            == State::Heating,
        sample.total() >= min_temp * 10 * sample.count() ==> state_for(sample, min_temp)
            == State::Idle,
        sample.total() == min_temp * 10 * sample.count() ==> state_for(sample, min_temp)
            == State::Idle,
{
}

/// A heating round starts as many workers as are configured, none more and
/// none fewer, each for the fixed work time, however cold it is.
pub proof fn lemma_heating_runs_every_worker(
    config: Configuration,
    sample: TemperatureSample,
)
    requires
        sample.below(config.min_temp),
    ensures
        action_for(config, state_for(sample, config.min_temp)) == (Action::Heat {
            workers: config.num_threads,
            seconds: 10,
        }),
{
}

/// An idle round sleeps for the fixed time, whatever the temperature is and
/// whatever the settings are.
pub proof fn lemma_idle_sleep_is_fixed(config: Configuration, sample: TemperatureSample)
    requires
        !sample.below(config.min_temp),
    ensures
        action_for(config, state_for(sample, config.min_temp)) == (Action::Sleep { seconds: 10 }),
{
}

} // verus!
