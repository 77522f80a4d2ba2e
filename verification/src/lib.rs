//! Verified core of a DNS propagation checker: given a fully-qualified
//! domain name and an expected IPv4 address, decide — from the answers of
//! one or more DNS resolvers queried directly — whether the record has
//! propagated, under a bounded time budget with periodic retries.
//!
//! The library holds the decision logic only: address and name syntax,
//! per-resolver outcome interpretation, multi-resolver agreement, and the
//! polling state machine with an injectable clock. The network itself
//! (resolver queries, provider API calls) lives outside, in unverified
//! code that feeds plain values in and out.

mod checker;
mod dns;
mod domain;
mod godaddy;
mod input;
mod ip;
mod models;
mod request;
mod text;

pub use ip::Ipv4;
pub use ip::parse_ipv4;
pub use ip::spec_parse_ipv4;
pub use ip::valid_octet_text;

pub use text::DOT;
pub use text::all_digits;
pub use text::digits_value;
pub use text::first_dot;
pub use text::is_ascii_digit;

pub use domain::HYPHEN;
pub use domain::is_ascii_letter;
pub use domain::is_label_byte;
pub use domain::is_valid_domain;
pub use domain::join_domain;
pub use domain::valid_domain;
pub use domain::valid_label;
pub use domain::valid_labels;

pub use dns::DNS_PORT;
pub use dns::LookupError;
pub use dns::LookupOutcome;
pub use dns::ResolverEndpoint;
pub use dns::Transport;
pub use dns::all_agree;
pub use dns::check_dns_propagation;
pub use dns::contains_addr;
pub use dns::default_resolvers;
pub use dns::lemma_disagreement_is_not_propagated;
pub use dns::lemma_failure_like_empty;
pub use dns::lemma_one_disagreement_fails_attempt;
pub use dns::outcome_matches;
pub use dns::outcome_matches_spec;

pub use checker::AttemptReport;
pub use checker::CheckerState;
pub use checker::DEFAULT_BACKOFF_MS;
pub use checker::DEFAULT_TIMEOUT_MS;
pub use checker::MAX_MS;
pub use checker::PropagationChecker;
pub use checker::RunModel;
pub use checker::RunOutcome;
pub use checker::attempt_agreed_at;
pub use checker::attempt_duration_at;
pub use checker::lemma_all_agree_succeeds_first_attempt;
pub use checker::lemma_persistent_disagreement_times_out;
pub use checker::lemma_run_deterministic;
pub use checker::lemma_short_budget_single_attempt;
pub use checker::lemma_success_on_first_attempt;
pub use checker::lemma_timeout_never_early;
pub use checker::run_measure;

pub use request::CheckRequest;
pub use request::ConfigError;
pub use request::prepare_check;

pub use models::DEFAULT_TTL;
pub use models::DnsRecord;
pub use models::Domain;
pub use models::Record;

pub use godaddy::Godaddy;

pub use input::is_ascii_space;
pub use input::leading_spaces;
pub use input::select_domain_index;
pub use input::spec_trim;
pub use input::trailing_spaces;
pub use input::trim_ascii_spaces;
