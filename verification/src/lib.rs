//! Shares an object between processes through ZooKeeper.
//!
//! Every process has an instance of the object, a [`ZkState`]: a local copy that is read
//! without asking ZooKeeper, and that is pulled again when the remote object changes. The
//! changes are reported on a stream. An update edits the local object while it holds a
//! lock in ZooKeeper, and is written only over the version that was edited.
//!
//! The library decides; talking to ZooKeeper, sleeping, locking and starting threads is
//! left to its caller. What it decides is stated in the contracts of its functions and
//! proved. What holds of several of them together is stated in the proof functions whose
//! names start with `law_`.
//!
//! - [`state`]: an instance: reading, pulling and editing the object.
//! - [`update`]: an update, step by step; [`guarantees`]: what that guarantees.
//! - [`startup`]: how an instance starts, step by step; [`sharing`]: what the instances of
//!   one object see of each other.
//! - [`refresh`]: when to pull the object again.
//! - [`change`] and [`stream`]: what changed, and how it is reported.
//! - [`payload`], [`paths`], [`clock`], [`instance`], [`error`]: the object as bytes,
//!   where it stands, points in time, ids, and errors.

pub mod change;
pub mod clock;
pub mod error;
pub mod guarantees;
pub mod instance;
pub mod paths;
pub mod payload;
pub mod refresh;
pub mod sharing;
pub mod startup;
pub mod state;
pub mod stream;
pub mod update;

pub use change::Change;
pub use error::{ZkError, ZkStructError};
pub use state::ZkState;
pub use treediff::tools::ChangeType;
pub use treediff::value::Key;
pub use treediff::diff;
