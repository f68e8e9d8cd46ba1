//! Prepares the command line of an rsync run that is started from a Windows
//! host: which transport the two endpoints call for, which switches the
//! request turns into, and where the bundled executables live.

pub mod decimal;
pub mod error;
pub mod laws;
pub mod normalize;
pub mod options;
pub mod paths;
pub mod text;
pub mod transport;
