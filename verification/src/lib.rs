//! Local-network discovery for zero-configuration cluster bootstrap: local
//! address detection, /24 subnet candidate enumeration, probe-outcome
//! collection with first-responder selection, and bounded or unbounded
//! health-poll retry.

mod addr;
mod health;
mod interfaces;
mod probe;
mod subnet;

pub use addr::CandidateAddress;
pub use addr::LocalAddress;
pub use addr::addr_seq;
pub use addr::dec_seq;
pub use addr::digit_char;
pub use health::HealthCheckPolicy;
pub use health::HealthPoller;
pub use health::PollState;
pub use health::lemma_bounded_poll_exhausts;
pub use health::lemma_unbounded_poll_succeeds;
pub use health::run_outcomes;
pub use health::spec_probe;
pub use health::spec_sleep_done;
pub use health::spec_start;
pub use interfaces::InterfaceIp;
pub use interfaces::first_qualifying;
pub use interfaces::get_lan_addr;
pub use interfaces::lemma_first_qualifying_qualifies;
pub use interfaces::lemma_no_qualifying_no_address;
pub use interfaces::qualifies;
pub use interfaces::select_local_address;
pub use probe::ProbeOutcome;
pub use probe::ScanSession;
pub use probe::classify_probe;
pub use probe::first_responder;
pub use probe::lemma_responders_subset;
pub use probe::responders_of;
pub use subnet::candidate_at;
pub use subnet::candidate_strings;
pub use subnet::candidates_for_interfaces;
pub use subnet::enumerate_candidates;
pub use subnet::lemma_candidates_no_duplicates;
pub use subnet::local_scan_candidates;
