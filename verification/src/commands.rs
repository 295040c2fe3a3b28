//! What each command of the tool decides, apart from how it is called.
//!
//! A command takes plain values and the record of the store, and hands back
//! a message and the steps for the caller to take.

pub mod aliases;
pub mod config;
pub mod current;
pub mod default;
pub mod env;
pub mod flush;
pub mod help;
pub mod home;
pub mod install;
pub mod list;
pub mod offline;
pub mod outcome;
pub mod switch;
pub mod uninstall;
pub mod update;
pub mod upgrade;
pub mod version;

pub use aliases::{Ls, Rm, Ug, C, D, H, I, U, V};
pub use config::Config;
pub use current::Current;
pub use env::Env;
pub use flush::Flush;
pub use help::Sdk;
pub use home::Home;
pub use install::Install;
pub use list::List;
pub use offline::Offline;
pub use switch::Use;
pub use uninstall::Uninstall;
pub use update::Update;
pub use upgrade::Upgrade;
pub use version::Version;
