//! Decision logic of the kernel-side eBPF programs: map keys, the values
//! they store and update, and which messages they act on. The programs read
//! user and kernel memory and BPF maps; what they compute from those reads
//! is here.

pub mod irss;
pub mod kfree_skb;
pub mod sca;
