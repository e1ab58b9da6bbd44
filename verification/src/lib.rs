//! The decisions behind BPFContain's BPF loader and its publish/subscribe API.

pub mod bpf_program;
pub mod failure;
pub mod globals;
pub mod policies;
pub mod pubsub;
pub mod startup;
pub mod symbols;
pub mod text;
pub mod uprobes;
