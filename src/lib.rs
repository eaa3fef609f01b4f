//! Recursive file inventory: per-file records built from a path and its raw
//! metadata, the decisions of the owner lookup protocol, and the checks that
//! precede a walk.

pub mod clock;
pub mod units;
pub mod paths;
pub mod wide;
pub mod owner;
pub mod record;
pub mod pipeline;
