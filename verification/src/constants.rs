//! The names that make up the layout of a store.

use vstd::prelude::*;

verus! {

/// The directory of the store, in the home directory and in a project.
pub const SDKMAN_DIR_NAME: &'static str = ".sdkman";

/// The file that holds a project's descriptor.
pub const SDKMAN_RC_FILE: &'static str = ".sdkmanrc";

/// The directory that holds the candidates.
pub const CANDIDATES_DIR: &'static str = "candidates";

/// The name of the marker of a candidate's current version.
pub const CURRENT_LINK: &'static str = "current";

/// The directory of scratch files.
pub const TMP_DIR: &'static str = "tmp";

/// The directory of variable data.
pub const VAR_DIR: &'static str = "var";

/// The directory of the configuration.
pub const ETC_DIR: &'static str = "etc";

/// The directory of catalog data, inside the directory of variable data.
pub const METADATA_DIR: &'static str = "metadata";

/// The environment variable that names the directory of the store.
pub const ENV_SDKMAN_DIR: &'static str = "SDKMAN_DIR";

/// The environment variable that names the working directory.
pub const ENV_PWD: &'static str = "PWD";

/// The file inside a marker directory that holds the version's name.
pub const VERSION_MARKER: &'static str = ".version";

/// The activation script of an overlay.
pub const ENV_SCRIPT_NU: &'static str = "env.nu";

/// The configuration file, inside the directory of the configuration.
pub const CONFIG_FILE: &'static str = "config";

/// The file that holds the version of the tool.
pub const VERSION_FILE: &'static str = "version";

} // verus!
