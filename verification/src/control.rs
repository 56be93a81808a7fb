//! Sources of motor commands.

pub mod manual;
