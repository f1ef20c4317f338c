//! Configuration of the pool that runs CPU-heavy computations off the async runtime.

use std::sync::Arc;
use vstd::prelude::*;

verus! {

/// Fewest worker threads the pool is configured with.
pub const MIN_POOL_THREADS: usize = 2;

/// Most worker threads the pool is configured with.
pub const MAX_POOL_THREADS: usize = 8;

/// Stack size of each worker thread: 2 MiB.
pub const POOL_STACK_SIZE: usize = 2097152;

/// The number of worker threads for a machine with `cores` logical CPUs:
/// at least two, at most eight.
pub open spec fn clamped_thread_count(cores: int) -> int {
    if cores < MIN_POOL_THREADS {
        MIN_POOL_THREADS as int
    } else if cores > MAX_POOL_THREADS {
        MAX_POOL_THREADS as int
    } else {
        cores
    }
}

/// The thread count keeps a CPU count between two and eight, clamps
/// smaller counts up to two and larger ones down to eight, and never
/// decreases as the CPU count grows.
pub proof fn lemma_thread_count_clamps(cores: int, more: int)
    ensures
        2 <= cores <= 8 ==> clamped_thread_count(cores) == cores,
        cores < 2 ==> clamped_thread_count(cores) == 2,
        cores > 8 ==> clamped_thread_count(cores) == 8,
        cores <= more ==> clamped_thread_count(cores) <= clamped_thread_count(more),
{
}

/// `num_cpus::get`: the number of logical CPUs available to this process.
/// Its documentation promises at least one; the exact count depends on the
/// machine, its scheduler affinity and cgroup limits, and is left unsaid.
#[verifier::external_body]
fn available_cpus() -> (n: usize)
    ensures
        n >= 1,
{
    num_cpus::get()
}

/// Settings of the compute pool.
#[derive(Debug, Clone)]
pub struct ComputePoolConfig {
    pub max_threads: usize,
    pub thread_name: String,
    pub stack_size: Option<usize>,
}

impl ComputePoolConfig {
    /// Clamps a CPU count into the pool's thread range.
    pub fn thread_count_for(cores: usize) -> (n: usize)
        ensures
            n == clamped_thread_count(cores as int),
            MIN_POOL_THREADS <= n <= MAX_POOL_THREADS,
    {
        if cores < MIN_POOL_THREADS {
            MIN_POOL_THREADS
        } else if cores > MAX_POOL_THREADS {
            MAX_POOL_THREADS
        } else {
            cores
        }
    }

    /// The default settings for a machine with `cores` logical CPUs.
    pub fn for_cores(cores: usize) -> (config: Self)
        ensures
            config.max_threads == clamped_thread_count(cores as int),
            config.thread_name@ == "compute-pool"@,
            config.stack_size == Some(POOL_STACK_SIZE),
    {
        ComputePoolConfig {
            max_threads: Self::thread_count_for(cores),
            thread_name: "compute-pool".to_string(),
            stack_size: Some(POOL_STACK_SIZE),
        }
    }
}

impl Default for ComputePoolConfig {
    /// The default settings on this machine: one thread per logical CPU,
    /// kept between two and eight.
    fn default() -> (config: Self)
        ensures
            MIN_POOL_THREADS <= config.max_threads <= MAX_POOL_THREADS,
            config.thread_name@ == "compute-pool"@,
            config.stack_size == Some(POOL_STACK_SIZE),
    {
        let cores = available_cpus();
        Self::for_cores(cores)
    }
}

/// `Arc::clone`: another pointer to the same shared value.
#[verifier::external_body]
fn share<T>(shared: &Arc<T>) -> (copy: Arc<T>)
    ensures
        *copy == **shared,
{
    Arc::clone(shared)
}

/// Handle of the compute pool; clones share one configuration.
pub struct ComputePool {
    config: Arc<ComputePoolConfig>,
}

impl ComputePool {
    /// The configuration this pool was built with.
    pub closed spec fn spec_config(&self) -> ComputePoolConfig {
        *self.config
    }

    /// A pool with the default configuration of this machine.
    pub fn new() -> (pool: Self)
        ensures
            MIN_POOL_THREADS <= pool.spec_config().max_threads <= MAX_POOL_THREADS,
            pool.spec_config().thread_name@ == "compute-pool"@,
            pool.spec_config().stack_size == Some(POOL_STACK_SIZE),
    {
        Self::with_config(ComputePoolConfig::default())
    }

    /// A pool with the given configuration.
    pub fn with_config(config: ComputePoolConfig) -> (pool: Self)
        ensures
            pool.spec_config() == config,
    {
        ComputePool { config: Arc::new(config) }
    }

    /// The pool's configuration.
    pub fn config(&self) -> (config: &ComputePoolConfig)
        ensures
            *config == self.spec_config(),
    {
        &self.config
    }
}

impl Clone for ComputePool {
    /// Another handle on the same pool, sharing its configuration.
    fn clone(&self) -> (pool: Self)
        ensures
            pool.spec_config() == self.spec_config(),
    {
        ComputePool { config: share(&self.config) }
    }
}

impl Default for ComputePool {
    fn default() -> (pool: Self)
        ensures
            MIN_POOL_THREADS <= pool.spec_config().max_threads <= MAX_POOL_THREADS,
            pool.spec_config().thread_name@ == "compute-pool"@,
            pool.spec_config().stack_size == Some(POOL_STACK_SIZE),
    {
        Self::new()
    }
}

} // verus!
