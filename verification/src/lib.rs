//! Process-startup configuration: a typed schema of environment variables,
//! loaded from a snapshot of the environment into an immutable `Conf`, with
//! defaults for unset variables and a descriptive error when parsing fails.

pub mod conf;
pub mod level;
