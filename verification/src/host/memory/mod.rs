//! Host physical memory: frame allocation, byte allocation inside frames,
//! and the EPT pointer.

pub mod ept;
