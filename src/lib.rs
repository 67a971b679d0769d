//! Random values of constrained shapes for template rendering, and a
//! scheduler that decides how many records to render per batch and how long
//! to pause between batches.
//!
//! Every generator takes typed optional bounds. Sampled values are drawn from
//! `rand`; the contracts state what holds of every possible draw.

mod rng;

pub mod error;
pub mod file;
pub mod net;
pub mod primitives;
pub mod range;
pub mod scheduler;
pub mod string;
pub mod uuid_v4;

pub use error::TeraRandError;
pub use net::{random_ipv4, random_ipv4_cidr, random_ipv6, random_ipv6_cidr, Cidr};
pub use primitives::{
    random_bool, random_char, random_int32, random_int64, random_uint32, random_uint64,
};
pub use string::{random_string, CharacterSpace};
pub use uuid_v4::random_uuid;
pub use file::{line_from_file, random_from_file, FileCache};
pub use scheduler::{Pacing, ScheduleError, ScheduleLimits, Scheduler, Step, StopReason};
