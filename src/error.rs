use vstd::prelude::*;

verus! {

/// Every way a generator can refuse its arguments or fail.
#[derive(Debug, Clone, PartialEq, Eq)]
pub enum TeraRandError {
    /// A supplied argument could not be converted to the type its parameter expects.
    UnableToParseArgument { parameter: &'static str, message: String },
    /// An argument is not one of the values its parameter accepts.
    UnsupportedArgument { parameter: &'static str, argument: String },
    /// A parameter that has no default was not given.
    RequiredArgumentMissing(&'static str),
    /// A file to sample from could not be opened or read.
    UnableToReadFile { path: String, message: String },
    /// A file to sample from holds no lines.
    EmptyFile(String),
    /// A CIDR prefix length bound lies outside `[valid_bound_start, valid_bound_end]`.
    CidrPrefixLengthOutOfBounds { provided_bound: i64, valid_bound_start: u32, valid_bound_end: u32 },
    /// The lower bound of a range is greater than its upper bound.
    InvalidRange,
    /// The line cache has no entry for a path that should have been loaded.
    MissingCacheEntry(String),
    /// A line number lies past the end of a cached file.
    LineNumberOutOfRange { path: String, line_num: usize },
}

} // verus!
