//! Tasks of the security kernel and their idle freezing.

pub mod task;
