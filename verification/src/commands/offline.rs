//! The command that switches the offline mode.

use crate::commands::outcome::{Param, param_views, ParamKind, ParamView};
use crate::error::SdkError;
use crate::utils::text::same_text;
use vstd::prelude::*;
use vstd::string::StringExecFns;

verus! {

/// The command that switches the offline mode.
#[derive(Clone, Copy, Debug)]
pub struct Offline;

impl Offline {
    /// The name under which the command is called.
    pub fn name(&self) -> (r: &'static str)
        ensures
            r@ == "sdk offline"@,
    {
        "sdk offline"
    }

    /// One line on what the command does.
    pub fn description(&self) -> (r: &'static str)
        ensures
            r@ == "Enable or disable offline mode"@,
    {
        "Enable or disable offline mode"
    }

    /// The parameters of the command, in the order in which they are given.
    pub fn signature(&self) -> (r: Vec<Param>)
        ensures
            param_views(r@) == seq![
                ParamView {
                    kind: ParamKind::Optional,
                    name: "mode"@,
                    description: "enable or disable"@,
                    short: None,
                },
            ],
    {
        let mut r: Vec<Param> = Vec::new();
        r.push(
            Param {
                kind: ParamKind::Optional,
                name: "mode",
                description: "enable or disable",
                short: None,
            },
        );
        assert(param_views(r@) =~= seq![
            ParamView {
                kind: ParamKind::Optional,
                name: "mode"@,
                description: "enable or disable"@,
                short: None,
            },
        ]);
        r
    }

    /// What the word given to the command means. No word means `enable`.
    pub open spec fn answer(mode: Option<Seq<char>>) -> Option<Seq<char>> {
        match mode {
            None => Some("Offline mode enabled (note: plugin doesn't persist this setting)"@),
            Some(m) => if m == "enable"@ {
                Some("Offline mode enabled (note: plugin doesn't persist this setting)"@)
            } else if m == "disable"@ {
                Some("Online mode re-enabled"@)
            } else {
                None
            },
        }
    }

    /// The message for the mode asked for; any word but `enable` and
    /// `disable` is refused with `UnknownArgument`.
    pub fn run(&self, mode: Option<&str>) -> (r: Result<String, SdkError>)
        ensures
            match r {
                Ok(message) => Self::answer(
                    match mode {
                        Some(m) => Some(m@),
                        None => None,
                    },
                ) == Some(message@),
                Err(e) => mode is Some && Self::answer(Some(mode->0@)) is None && e
                    == SdkError::UnknownArgument,
            },
    {
        match mode {
            None => Ok(
                String::from_str("Offline mode enabled (note: plugin doesn't persist this setting)"),
            ),
            Some(m) => {
                if same_text(m, "enable") {
                    Ok(
                        String::from_str(
                            "Offline mode enabled (note: plugin doesn't persist this setting)",
                        ),
                    )
                } else if same_text(m, "disable") {
                    Ok(String::from_str("Online mode re-enabled"))
                } else {
                    Err(SdkError::UnknownArgument)
                }
            },
        }
    }
}

} // verus!
