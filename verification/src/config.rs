//! The run configuration of a coordinator and the configuration record that
//! the coordinator is started with.

use crate::decimal::{decimal_text, push_decimal};
use crate::identity::AleoPublicKey;
use crate::text::{join, joined};
use vstd::prelude::*;
use vstd::string::StringExecFns;

verus! {

/// The setup to run.
#[derive(Clone, Copy, Debug, PartialEq, Eq, Structural)]
pub enum Environment {
    Development,
    Production,
}

/// The name of the directory of a round under the transcript directory.
pub open spec fn round_directory(round: u64) -> Seq<char> {
    "round_"@ + decimal_text(round as nat)
}

/// What it takes to run a coordinator.
#[derive(Debug)]
pub struct CoordinatorConfig {
    /// Where the coordinator's sources are.
    pub crate_dir: String,
    /// Where the coordinator's binary is, its file name included.
    pub setup_coordinator_bin: String,
    /// The setup to run.
    pub environment: Environment,
    /// Where everything that the run produces is stored; the working
    /// directory of the coordinator process.
    pub out_dir: String,
    /// The contributors that stand in for those dropped during a round.
    pub replacement_contributors: Vec<AleoPublicKey>,
}

impl CoordinatorConfig {
    /// Where the ceremony transcript is.
    pub open spec fn transcript_path(&self) -> Seq<char> {
        match self.environment {
            Environment::Development => joined(self.out_dir@, "transcript/development"@),
            Environment::Production => joined(self.out_dir@, "transcript"@),
        }
    }

    /// Where the state of a round is kept.
    pub open spec fn round_state_path(&self, round: u64) -> Seq<char> {
        joined(joined(self.transcript_path(), round_directory(round)), "state.json"@)
    }

    /// Where the directory that holds the ceremony transcript is.
    pub fn transcript_dir(&self) -> (path: String)
        ensures
            path@ == self.transcript_path(),
    {
        match self.environment {
            Environment::Development => join(self.out_dir.as_str(), "transcript/development"),
            Environment::Production => join(self.out_dir.as_str(), "transcript"),
        }
    }

    /// Where the coordinator keeps the state of a round: the file that
    /// holds the round's membership snapshot.
    pub fn round_state_file(&self, round: u64) -> (path: String)
        ensures
            path@ == self.round_state_path(round),
    {
        let mut directory = String::from_str("round_");
        push_decimal(&mut directory, round);
        let transcript = self.transcript_dir();
        let round_dir = join(transcript.as_str(), directory.as_str());
        join(round_dir.as_str(), "state.json")
    }

    /// Where the configuration document of the coordinator is written.
    pub fn config_file(&self) -> (path: String)
        ensures
            path@ == joined(self.out_dir@, "config.toml"@),
    {
        join(self.out_dir.as_str(), "config.toml")
    }

    /// Where the archive log of the coordinator's output is written.
    pub fn log_file(&self) -> (path: String)
        ensures
            path@ == joined(self.out_dir@, "coordinator.log"@),
    {
        join(self.out_dir.as_str(), "coordinator.log")
    }
}

/// How a coordinator process is started.
#[derive(Clone, Debug, PartialEq, Eq)]
pub struct LaunchPlan {
    /// The binary to run.
    pub program: String,
    /// The arguments to run it with, in order.
    pub arguments: Vec<String>,
    /// The working directory of the process.
    pub working_directory: String,
    /// The variables to set in the environment of the process, each with
    /// its value.
    pub environment: Vec<(String, String)>,
}

/// The model of a launch plan, over which contracts are stated.
pub struct LaunchPlanView {
    pub program: Seq<char>,
    pub arguments: Seq<Seq<char>>,
    pub working_directory: Seq<char>,
    pub environment: Seq<(Seq<char>, Seq<char>)>,
}

impl View for LaunchPlan {
    type V = LaunchPlanView;

    open spec fn view(&self) -> LaunchPlanView {
        LaunchPlanView {
            program: self.program@,
            arguments: self.arguments.deep_view(),
            working_directory: self.working_directory@,
            environment: self.environment.deep_view(),
        }
    }
}

impl CoordinatorConfig {
    /// The launch plan of the run: the binary at `program`, with the one
    /// argument `--config` and its value `config_file`, in the output
    /// directory, with backtraces and debug logging switched on.
    pub open spec fn launch_plan_for(
        &self,
        program: Seq<char>,
        config_file: Seq<char>,
    ) -> LaunchPlanView {
        LaunchPlanView {
            program,
            arguments: seq!["--config"@, config_file],
            working_directory: self.out_dir@,
            environment: seq![("RUST_BACKTRACE"@, "1"@), ("RUST_LOG"@, "debug"@)],
        }
    }

    /// Plans the start of the coordinator. `program` and `config_file` are
    /// the canonical paths of the binary and of the configuration document.
    pub fn launch_plan(&self, program: &str, config_file: &str) -> (plan: LaunchPlan)
        ensures
            plan@ == self.launch_plan_for(program@, config_file@),
    {
        let mut arguments: Vec<String> = Vec::new();
        arguments.push(String::from_str("--config"));
        arguments.push(config_file.to_owned());
        let mut environment: Vec<(String, String)> = Vec::new();
        environment.push((String::from_str("RUST_BACKTRACE"), String::from_str("1")));
        environment.push((String::from_str("RUST_LOG"), String::from_str("debug")));
        let plan = LaunchPlan {
            program: program.to_owned(),
            arguments,
            working_directory: self.out_dir.clone(),
            environment,
        };
        assert(plan@.arguments =~= seq!["--config"@, config_file@]);
        assert(plan@.environment =~= seq![("RUST_BACKTRACE"@, "1"@), ("RUST_LOG"@, "debug"@)]);
        plan
    }
}

/// The address on which the coordinator listens.
#[derive(Clone, Copy, Debug, PartialEq, Eq, Structural)]
pub struct ListenAddress {
    /// The IPv4 address as one number, its first part in the highest
    /// eight bits.
    pub ip: u32,
    pub port: u16,
}

/// The parameters of the coordinator's runtime.
#[derive(Clone, Copy, Debug, PartialEq, Eq, Structural)]
pub struct RuntimeParameters {
    /// The delay between two updates of the operator, in milliseconds.
    /// Not zero.
    pub operator_update_loop_delay: u64,
    /// How many threads aggregation and the like may use. Not zero.
    pub rayon_global_pool_threads: u16,
}

impl RuntimeParameters {
    /// Whether the numbers that must not be zero are not.
    pub open spec fn is_valid(&self) -> bool {
        self.operator_update_loop_delay != 0 && self.rayon_global_pool_threads != 0
    }
}

/// The thresholds of the environment.
#[derive(Clone, Copy, Debug, PartialEq, Eq, Structural)]
pub struct EnvironmentParameters {
    /// Not zero.
    pub minimum_contributors_per_round: usize,
    /// Not zero.
    pub maximum_contributors_per_round: usize,
    /// In seconds.
    pub contributor_seen_timeout: i64,
    /// In seconds.
    pub participant_lock_timeout: i64,
    /// In seconds.
    pub queue_seen_timeout: i64,
}

impl EnvironmentParameters {
    /// Whether the numbers that must not be zero are not.
    pub open spec fn is_valid(&self) -> bool {
        self.minimum_contributors_per_round != 0 && self.maximum_contributors_per_round != 0
    }
}

/// The settings of the verifiers' task cache.
#[derive(Clone, Copy, Debug, PartialEq, Eq, Structural)]
pub struct VerifierSettings {
    /// How long a verifier has for a task before the cache drops it, in
    /// seconds. Not zero.
    pub assigned_tasks_cache_ttl: u64,
    /// How many records the cache holds at most. Not zero.
    pub assigned_tasks_cache_records_cap: usize,
}

impl VerifierSettings {
    /// Whether the numbers that must not be zero are not.
    pub open spec fn is_valid(&self) -> bool {
        self.assigned_tasks_cache_ttl != 0 && self.assigned_tasks_cache_records_cap != 0
    }
}

/// The settings of the reliability check of contributors.
#[derive(Clone, Copy, Debug, PartialEq, Eq, Structural)]
pub struct ReliabilityCheckSettings {
    /// Whether the reliability of contributors is checked at all.
    pub is_enabled: bool,
    /// The score from which a contributor may join the queue. Not zero.
    pub accept_threshold: u8,
    pub maximum_score: u8,
    pub estimation_interval: u8,
    pub number_of_challenges: u8,
    pub challenge_size: u64,
    pub total_size: u8,
    pub batch_size: u8,
}

impl ReliabilityCheckSettings {
    /// Whether the number that must not be zero is not.
    pub open spec fn is_valid(&self) -> bool {
        self.accept_threshold != 0
    }
}

/// The credentials for the Twitter API.
#[derive(Clone, Debug, PartialEq, Eq)]
pub struct TwitterSettings {
    pub consumer_token: String,
    pub consumer_secret: String,
}

/// The configuration document that the coordinator is started with.
#[derive(Debug, PartialEq, Eq)]
pub struct CoordinatorTomlConfiguration {
    pub listen_address: ListenAddress,
    /// The path of the SQLite database.
    pub sqlite_file: String,
    /// The setup to run.
    pub setup: Environment,
    /// The addresses of the contributors that stand in for those dropped
    /// during a round.
    pub replacement_contributors: Vec<AleoPublicKey>,
    pub runtime_parameters: RuntimeParameters,
    pub environment_parameters: EnvironmentParameters,
    pub verifier_settings: VerifierSettings,
    pub reliability_check: ReliabilityCheckSettings,
    pub twitter_settings: TwitterSettings,
}

impl CoordinatorTomlConfiguration {
    /// Whether every number of the record that must not be zero is not.
    pub open spec fn is_valid(&self) -> bool {
        &&& self.runtime_parameters.is_valid()
        &&& self.environment_parameters.is_valid()
        &&& self.verifier_settings.is_valid()
        &&& self.reliability_check.is_valid()
    }

    /// Whether this is the record for `config`: the environment and the
    /// replacement contributors are those of `config`, in order, and every
    /// other field has its fixed value.
    pub open spec fn is_for(&self, config: &CoordinatorConfig) -> bool {
        &&& self.listen_address == ListenAddress { ip: 0, port: 9000 }
        &&& self.sqlite_file@ == "setup.db3"@
        &&& self.setup == config.environment
        &&& self.replacement_contributors@ == config.replacement_contributors@
        &&& self.runtime_parameters == RuntimeParameters {
            operator_update_loop_delay: 10_000,
            rayon_global_pool_threads: 30,
        }
        &&& self.environment_parameters == EnvironmentParameters {
            minimum_contributors_per_round: 1,
            maximum_contributors_per_round: 5,
            contributor_seen_timeout: 3600,
            participant_lock_timeout: 900,
            queue_seen_timeout: 3600,
        }
        &&& self.verifier_settings == VerifierSettings {
            assigned_tasks_cache_ttl: 60,
            assigned_tasks_cache_records_cap: 1000,
        }
        &&& self.reliability_check == ReliabilityCheckSettings {
            is_enabled: false,
            accept_threshold: 8,
            maximum_score: 100,
            estimation_interval: 60,
            number_of_challenges: 10,
            challenge_size: 6291456,
            total_size: 11,
            batch_size: 2,
        }
        &&& self.twitter_settings.consumer_token@ == "some_token"@
        &&& self.twitter_settings.consumer_secret@ == "some_secret"@
    }

    /// Builds the configuration record for a run: the environment and the
    /// replacement contributors come from `config`, everything else is
    /// fixed.
    pub fn from(config: &CoordinatorConfig) -> (record: CoordinatorTomlConfiguration)
        ensures
            record.is_for(config),
            record.is_valid(),
    {
        let mut replacement_contributors: Vec<AleoPublicKey> = Vec::new();
        let mut i: usize = 0;
        while i < config.replacement_contributors.len()
            invariant
                i <= config.replacement_contributors@.len(),
                replacement_contributors@ == config.replacement_contributors@.take(i as int),
            decreases config.replacement_contributors@.len() - i,
        {
            replacement_contributors.push(config.replacement_contributors[i].clone());
            i = i + 1;
        }
        assert(config.replacement_contributors@.take(i as int)
            =~= config.replacement_contributors@);
        CoordinatorTomlConfiguration {
            listen_address: ListenAddress { ip: 0, port: 9000 },
            sqlite_file: String::from_str("setup.db3"),
            setup: config.environment,
            replacement_contributors,
            runtime_parameters: RuntimeParameters {
                operator_update_loop_delay: 10_000,
                rayon_global_pool_threads: 30,
            },
            environment_parameters: EnvironmentParameters {
                minimum_contributors_per_round: 1,
                maximum_contributors_per_round: 5,
                contributor_seen_timeout: 3600,
                participant_lock_timeout: 900,
                queue_seen_timeout: 3600,
            },
            verifier_settings: VerifierSettings {
                assigned_tasks_cache_ttl: 60,
                assigned_tasks_cache_records_cap: 1000,
            },
            reliability_check: ReliabilityCheckSettings {
                is_enabled: false,
                accept_threshold: 8,
                maximum_score: 100,
                estimation_interval: 60,
                number_of_challenges: 10,
                challenge_size: 6291456,
                total_size: 11,
                batch_size: 2,
            },
            twitter_settings: TwitterSettings {
                consumer_token: String::from_str("some_token"),
                consumer_secret: String::from_str("some_secret"),
            },
        }
    }
}

} // verus!
