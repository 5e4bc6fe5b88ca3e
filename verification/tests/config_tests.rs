//! Configuration tests: TOML documents are parsed with the `config`
//! crate at the binary boundary and land in the library's typed
//! configuration record; rates written as decimal fractions are held in
//! thousandths.

use berserker::{Distribution, Milli, Workload, WorkloadConfig};
use config::{Config, File, FileFormat};

fn rate(value: f64) -> Milli {
    Milli {
        thousandths: (value * 1000.0).round() as u64,
    }
}

fn parse_config(input: &str) -> WorkloadConfig {
    let cfg = Config::builder()
        .add_source(File::from_str(input, FileFormat::Toml))
        .build()
        .expect("failed to parse configuration");

    let restart_interval = cfg.get_int("restart_interval").unwrap() as u64;
    let per_core = cfg
        .get_bool("per_core")
        .unwrap_or_else(|_| berserker::default_per_core());
    let workers = cfg
        .get_int("workers")
        .map(|w| w as usize)
        .unwrap_or_else(|_| berserker::default_workers());
    let duration = cfg
        .get_int("duration")
        .map(|d| d as u64)
        .unwrap_or_else(|_| berserker::default_duration());

    let workload = match cfg.get_string("workload.type").unwrap().as_str() {
        "processes" => Workload::Processes {
            arrival_rate: rate(cfg.get_float("workload.arrival_rate").unwrap()),
            departure_rate: rate(cfg.get_float("workload.departure_rate").unwrap()),
            random_process: cfg.get_bool("workload.random_process").unwrap(),
        },
        "endpoints" => {
            let distribution = match cfg.get_string("workload.distribution").unwrap().as_str() {
                "zipf" => Distribution::Zipfian {
                    n_ports: cfg.get_int("workload.n_ports").unwrap() as u64,
                    exponent: rate(cfg.get_float("workload.exponent").unwrap()),
                },
                "uniform" => Distribution::Uniform {
                    lower: cfg.get_int("workload.lower").unwrap() as u64,
                    upper: cfg.get_int("workload.upper").unwrap() as u64,
                },
                other => panic!("wrong distribution type found: {other}"),
            };
            Workload::Endpoints { distribution }
        }
        "syscalls" => Workload::Syscalls {
            arrival_rate: cfg
                .get_float("workload.arrival_rate")
                .map(rate)
                .unwrap_or_else(|_| berserker::default_syscalls_arrival_rate()),
            tight_loop: cfg
                .get_bool("workload.tight_loop")
                .unwrap_or_else(|_| berserker::default_syscalls_tight_loop()),
            syscall_nr: cfg
                .get_int("workload.syscall_nr")
                .map(|n| n as u32)
                .unwrap_or_else(|_| berserker::default_syscalls_syscall_nr()),
        },
        other => panic!("wrong workload type found: {other}"),
    };

    WorkloadConfig {
        restart_interval,
        per_core,
        workers,
        workload,
        duration,
    }
}

#[test]
fn test_processes() {
    let input = r#"
        restart_interval = 10

        [workload]
        type = "processes"
        arrival_rate = 10.0
        departure_rate = 200.0
        random_process = true
    "#;

    let config = parse_config(input);

    assert_eq!(config.restart_interval, 10);
    if let Workload::Processes {
        arrival_rate,
        departure_rate,
        random_process,
    } = config.workload
    {
        assert_eq!(arrival_rate, Milli { thousandths: 10_000 });
        assert_eq!(
            departure_rate,
            Milli {
                thousandths: 200_000
            }
        );
        assert!(random_process);
    } else {
        panic!("wrong workload type found");
    }
}

#[test]
fn test_endpoints_zipf() {
    let input = r#"
        restart_interval = 10

        [workload]
        type = "endpoints"
        distribution = "zipf"
        n_ports = 200
        exponent = 1.4
    "#;

    let config = parse_config(input);

    assert_eq!(config.restart_interval, 10);
    if let Workload::Endpoints { distribution } = config.workload {
        if let Distribution::Zipfian { n_ports, exponent } = distribution {
            assert_eq!(n_ports, 200);
            assert_eq!(exponent, Milli { thousandths: 1400 });
        } else {
            panic!("wrong distribution type found");
        }
    } else {
        panic!("wrong workload type found");
    }
}

#[test]
fn test_endpoints_uniform() {
    let input = r#"
        restart_interval = 10

        [workload]
        type = "endpoints"
        distribution = "uniform"
        upper = 100
        lower = 1
    "#;

    let config = parse_config(input);

    assert_eq!(config.restart_interval, 10);
    if let Workload::Endpoints { distribution } = config.workload {
        if let Distribution::Uniform { lower, upper } = distribution {
            assert_eq!(lower, 1);
            assert_eq!(upper, 100);
        } else {
            panic!("wrong distribution type found");
        }
    } else {
        panic!("wrong workload type found");
    }
}

#[test]
fn test_syscalls() {
    let input = r#"
        restart_interval = 10

        [workload]
        type = "syscalls"
        arrival_rate = 10.0
    "#;

    let config = parse_config(input);

    assert_eq!(config.restart_interval, 10);
    if let Workload::Syscalls { arrival_rate, .. } = config.workload {
        assert_eq!(arrival_rate, Milli { thousandths: 10_000 });
    } else {
        panic!("wrong workload type found");
    }
}

#[test]
fn test_syscalls_defaults() {
    let input = r#"
        restart_interval = 10

        [workload]
        type = "syscalls"
        arrival_rate = 0.0
    "#;

    let config = parse_config(input);

    if let Workload::Syscalls {
        arrival_rate,
        tight_loop,
        syscall_nr,
    } = config.workload
    {
        assert_eq!(arrival_rate, Milli { thousandths: 0 });
        assert!(!tight_loop);
        assert_eq!(syscall_nr, 39);
    } else {
        panic!("wrong workload type found");
    }
    assert!(config.per_core);
    assert_eq!(config.workers, 1);
    assert_eq!(config.duration, 0);
}

/// Parsing a TOML document and re-serializing the typed record yields a
/// semantically equal configuration for all recognized fields.
#[test]
fn test_config_round_trip() {
    let input = r#"
        restart_interval = 7
        per_core = false
        workers = 3
        duration = 60

        [workload]
        type = "processes"
        arrival_rate = 2.5
        departure_rate = 40.0
        random_process = false
    "#;

    let first = parse_config(input);

    let (arrival, departure, random_process) = match first.workload {
        Workload::Processes {
            arrival_rate,
            departure_rate,
            random_process,
        } => (arrival_rate, departure_rate, random_process),
        _ => panic!("wrong workload type found"),
    };

    let reserialized = format!(
        "restart_interval = {}\nper_core = {}\nworkers = {}\nduration = {}\n\n\
         [workload]\ntype = \"processes\"\narrival_rate = {:.3}\n\
         departure_rate = {:.3}\nrandom_process = {}\n",
        first.restart_interval,
        first.per_core,
        first.workers,
        first.duration,
        arrival.thousandths as f64 / 1000.0,
        departure.thousandths as f64 / 1000.0,
        random_process,
    );

    let second = parse_config(&reserialized);
    assert_eq!(first, second);
}
