//! The settings of the control loop, fixed for the life of the process.

use vstd::prelude::*;

verus! {

/// The minimum temperature, in degrees Celsius, where none is given.
pub const DEFAULT_MIN_TEMP: usize = 35;

/// What the control loop is run with.
#[derive(Clone, Copy, Debug, PartialEq, Eq, Structural)]
pub struct Configuration {
    /// The temperature, in degrees Celsius, below which the computer is heated.
    pub min_temp: usize,
    /// The number of workers that do busy work at a time.
    pub num_threads: usize,
}

/// The number of logical cores of this machine.
///
/// Trusted: calls `num_cpus::get`. The count depends on the machine, on the
/// affinity of the calling thread and on the limits of its container, so
/// nothing is claimed of it.
#[verifier::external_body]
fn logical_cores() -> (cores: usize) {
    num_cpus::get()
}

/// The number of workers for a machine with `cores` logical cores: half of
/// them, rounded down.
pub fn threads_for_cores(cores: usize) -> (threads: usize)
    ensures
        threads == cores / 2,
{
    cores / 2
}

/// The number of workers where none is given: half of the logical cores of
/// this machine, rounded down.
pub fn default_num_threads() -> (threads: usize)
    ensures
        threads <= usize::MAX / 2,
{
    threads_for_cores(logical_cores())
}

impl Configuration {
    /// The configuration that the given settings amount to on a machine with
    /// `cores` logical cores.
    pub open spec fn resolved(
        min_temp: Option<usize>,
        num_threads: Option<usize>,
        cores: usize,
    ) -> Configuration {
        Configuration {
            min_temp: match min_temp {
                Some(degrees) => degrees,
                None => DEFAULT_MIN_TEMP,
            },
            num_threads: match num_threads {
                Some(threads) => threads,
                None => cores / 2,
            },
        }
    }

    /// Fills in the defaults for a machine with `cores` logical cores: 35
    /// degrees, and half of the cores as workers. A setting that is given
    /// stands as it is, zero workers too.
    pub fn with_cores(min_temp: Option<usize>, num_threads: Option<usize>, cores: usize) -> (config:
        Configuration)
        ensures
            config == Self::resolved(min_temp, num_threads, cores),
    {
        Configuration {
            min_temp: match min_temp {
                Some(degrees) => degrees,
                None => DEFAULT_MIN_TEMP,
            },
            num_threads: match num_threads {
                Some(threads) => threads,
                None => threads_for_cores(cores),
            },
        }
    }

    /// Fills in the defaults for this machine.
    pub fn new(min_temp: Option<usize>, num_threads: Option<usize>) -> (config: Configuration)
        ensures
            exists|cores: usize| config == Self::resolved(min_temp, num_threads, cores),
    {
        let cores = logical_cores();
        Self::with_cores(min_temp, num_threads, cores)
    }
}

} // verus!
