//! Userspace logic of the eBPF programs managed by the agent.

pub mod irss;
pub mod kfree_skb;
pub mod sca;
