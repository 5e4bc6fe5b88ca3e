//! Berserker workload generator.
//!
//! The crate covers two parts:
//! * workload independent logic
//! * workload specific details
//!
//! Those are isolated as much as possible, and work together via
//! configuration data structures and the worker interface.
//!
//! An execution has the following shape:
//! * consume the provided configuration
//! * for each target CPU core spawn the configured number of worker processes
//! * each worker drives a workload-specific payload via `run_payload`
//! * wait for all the workers to finish
//!
//! Everything that talks to the operating system (forking, sockets, the
//! userspace TCP stack, raw syscalls) lives outside this crate; the types and
//! functions here carry the decisions those loops make, with contracts.

use vstd::prelude::*;

pub mod address;
pub mod machine;
pub mod ports;
pub mod script;
pub mod supervisor;
pub mod worker;

verus! {

/// A non-negative fixed-point number stored in thousandths, used for
/// stochastic rates (events per second) and distribution exponents, which
/// the configuration format writes as decimal fractions.
#[derive(Debug, Clone, Copy, PartialEq, Eq, Structural)]
pub struct Milli {
    /// The value multiplied by 1000: `Milli { thousandths: 1400 }` is 1.4.
    pub thousandths: u64,
}

impl Milli {
    /// Build a rate from a whole number of events per second.
    pub fn from_units(units: u64) -> (m: Milli)
        requires
            units * 1000 <= u64::MAX,
        ensures
            m.thousandths == units * 1000,
    {
        Milli { thousandths: units * 1000 }
    }

    /// True for the zero value: a zero rate never fires.
    pub fn is_zero(&self) -> (z: bool)
        ensures
            z == (self.thousandths == 0),
    {
        self.thousandths == 0
    }
}

/// An IPv4 address as four octets, most significant first. The network
/// workload computes synthetic source addresses by carry-propagated octet
/// arithmetic on this form.
#[derive(Debug, Clone, Copy, PartialEq, Eq, Structural)]
pub struct Ipv4Octets {
    pub o0: u8,
    pub o1: u8,
    pub o2: u8,
    pub o3: u8,
}

impl Ipv4Octets {
    pub fn new(o0: u8, o1: u8, o2: u8, o3: u8) -> (r: Ipv4Octets)
        ensures
            r == (Ipv4Octets { o0, o1, o2, o3 }),
    {
        Ipv4Octets { o0, o1, o2, o3 }
    }
}

/// Main workload configuration, contains general bits for all types of
/// workloads plus workload specific data.
#[derive(Debug, Clone, Copy, PartialEq, Eq, Structural)]
pub struct WorkloadConfig {
    /// An amount of time for a workload payload to run before restarting.
    pub restart_interval: u64,

    /// Controls per-core mode to handle number of workers. If per-core mode
    /// is enabled, `workers` will be treated as a number of workers per CPU
    /// core. Otherwise it will be treated as a total number of workers.
    pub per_core: bool,

    /// How many workers to spin, depending on `per_core` in either per-core
    /// or total mode.
    pub workers: usize,

    /// Custom workload configuration.
    pub workload: Workload,

    /// For how long to run the workers. Zero means no limit.
    pub duration: u64,
}

/// Workload specific configuration, one variant for each workload type.
#[derive(Debug, Clone, Copy, PartialEq, Eq, Structural)]
pub enum Workload {
    /// How to listen on ports.
    Endpoints {
        /// Governs the number of ports each worker opens.
        distribution: Distribution,
    },

    /// How to spawn processes.
    Processes {
        /// How often a new process will be spawned.
        arrival_rate: Milli,

        /// How long the spawned processes are going to live.
        departure_rate: Milli,

        /// Spawn a new process with a random argument.
        random_process: bool,
    },

    /// How to invoke syscalls.
    Syscalls {
        /// How often to invoke a syscall.
        arrival_rate: Milli,

        /// Run in a tight loop without pacing.
        tight_loop: bool,

        /// Which syscall to trigger.
        syscall_nr: u32,
    },

    /// How to open network connections.
    Network {
        /// Whether the instance functions as a server or a client.
        server: bool,

        /// Which address the server listens on, or the client connects to.
        address: Ipv4Octets,

        /// Port for the server to listen on, or for the client to connect to.
        target_port: u16,

        /// Rate of opening new connections.
        arrival_rate: Milli,

        /// Rate of closing connections.
        departure_rate: Milli,

        /// Number of connections held open for the whole run.
        nconnections: u32,

        /// Cap on the number of live dynamic connections.
        connections_dyn_max: u32,

        /// Whether a random dynamic connection is evicted to make room
        /// for an arrival when the cap is reached.
        preempt: bool,

        /// How often to send data via the open connections, in milliseconds.
        /// The interval applies across all connections: an interval of 100 ms
        /// for 100 connections means that every 100 ms one out of 100
        /// connections is allowed to send some data, keeping the data rate
        /// from disturbing connection monitoring.
        send_interval: u128,

        /// How many connections share one synthetic source address before
        /// the next address is taken.
        conns_per_addr: u16,
    },

    /// How to load BPF programs.
    Bpf {
        /// Which tracepoint the BPF programs will be attached to; the id is
        /// the one tracefs exposes for the chosen event.
        tracepoint: u64,

        /// Number of BPF programs to load and attach.
        nprogs: u64,
    },
}

/// Distribution for the number of ports to listen on.
#[derive(Debug, Clone, Copy, PartialEq, Eq, Structural)]
pub enum Distribution {
    /// Few workers open a large number of ports, the rest only few.
    Zipfian { n_ports: u64, exponent: Milli },

    /// Every worker opens more or less the same number of ports.
    Uniform { lower: u64, upper: u64 },
}

pub fn default_workers() -> (n: usize)
    ensures
        n == 1,
{
    1
}

pub fn default_per_core() -> (b: bool)
    ensures
        b,
{
    true
}

pub fn default_duration() -> (d: u64)
    ensures
        d == 0,
{
    0
}

pub fn default_syscalls_arrival_rate() -> (r: Milli)
    ensures
        r.thousandths == 0,
{
    Milli { thousandths: 0 }
}

pub fn default_syscalls_tight_loop() -> (b: bool)
    ensures
        !b,
{
    false
}

/// The default syscall to issue is `getpid`, number 39 on x86-64.
pub fn default_syscalls_syscall_nr() -> (nr: u32)
    ensures
        nr == 39,
{
    39
}

pub fn default_bpf_tracepoint() -> (t: u64)
    ensures
        t == 306,
{
    306
}

pub fn default_bpf_nprogs() -> (n: u64)
    ensures
        n == 100,
{
    100
}

pub fn default_network_send_interval() -> (i: u128)
    ensures
        i == 100,
{
    100
}

/// Worker failures that abort one payload run; the loop around
/// `run_payload` restarts the payload from scratch.
#[derive(Debug, Clone, Copy, PartialEq, Eq, Structural)]
pub enum WorkerError {
    Internal,
}

/// Generic interface for workers of any type. The payload implementations
/// live with the process and socket plumbing, outside this crate.
pub trait Worker {
    fn run_payload(&self) -> Result<(), WorkerError>;
}

/// General information for each worker: on which CPU it is running and
/// which of the core's processes it is.
#[derive(Debug, Clone, Copy, PartialEq, Eq, Structural)]
pub struct BaseConfig {
    pub cpu_id: u32,
    pub process_index: usize,
}

} // verus!
