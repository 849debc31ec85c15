//! Verified core of the bpfagent eBPF program manager: drop-reason tables,
//! latency bookkeeping, hop discovery parsing and configuration decisions.

pub mod cli;
pub mod config;
pub mod daemon;
pub mod irss_common;
pub mod kfree_skb_common;
pub mod metrics;
pub mod probes;
pub mod sca_common;
pub mod seqs;
pub mod programs;
pub mod text;
