//! The short names of the commands.

use crate::commands::outcome::{Param, param_views, ParamKind, ParamView};
use vstd::prelude::*;

verus! {

/// The short name of `sdk install`.
#[derive(Clone, Copy, Debug)]
pub struct I;

impl I {
    /// The name under which the command is called.
    pub fn name(&self) -> (r: &'static str)
        ensures
            r@ == "sdk i"@,
    {
        "sdk i"
    }

    /// One line on what the command does.
    pub fn description(&self) -> (r: &'static str)
        ensures
            r@ == "Alias for 'sdk install'"@,
    {
        "Alias for 'sdk install'"
    }

    /// The parameters of the command, in the order in which they are given.
    pub fn signature(&self) -> (r: Vec<Param>)
        ensures
            param_views(r@) == seq![
                ParamView {
                    kind: ParamKind::Required,
                    name: "candidate"@,
                    description: "Candidate to install"@,
                    short: None,
                },
                ParamView {
                    kind: ParamKind::Optional,
                    name: "version"@,
                    description: "Version to install"@,
                    short: None,
                },
            ],
    {
        let mut r: Vec<Param> = Vec::new();
        r.push(
            Param {
                kind: ParamKind::Required,
                name: "candidate",
                description: "Candidate to install",
                short: None,
            },
        );
        r.push(
            Param {
                kind: ParamKind::Optional,
                name: "version",
                description: "Version to install",
                short: None,
            },
        );
        assert(param_views(r@) =~= seq![
            ParamView {
                kind: ParamKind::Required,
                name: "candidate"@,
                description: "Candidate to install"@,
                short: None,
            },
            ParamView {
                kind: ParamKind::Optional,
                name: "version"@,
                description: "Version to install"@,
                short: None,
            },
        ]);
        r
    }

    /// The command that this name stands for.
    pub fn command(&self) -> crate::commands::install::Install {
        crate::commands::install::Install
    }
}

/// The short name of `sdk uninstall`.
#[derive(Clone, Copy, Debug)]
pub struct Rm;

impl Rm {
    /// The name under which the command is called.
    pub fn name(&self) -> (r: &'static str)
        ensures
            r@ == "sdk rm"@,
    {
        "sdk rm"
    }

    /// One line on what the command does.
    pub fn description(&self) -> (r: &'static str)
        ensures
            r@ == "Alias for 'sdk uninstall'"@,
    {
        "Alias for 'sdk uninstall'"
    }

    /// The parameters of the command, in the order in which they are given.
    pub fn signature(&self) -> (r: Vec<Param>)
        ensures
            param_views(r@) == seq![
                ParamView {
                    kind: ParamKind::Required,
                    name: "candidate"@,
                    description: "Candidate to uninstall"@,
                    short: None,
                },
                ParamView {
                    kind: ParamKind::Required,
                    name: "version"@,
                    description: "Version to uninstall"@,
                    short: None,
                },
            ],
    {
        let mut r: Vec<Param> = Vec::new();
        r.push(
            Param {
                kind: ParamKind::Required,
                name: "candidate",
                description: "Candidate to uninstall",
                short: None,
            },
        );
        r.push(
            Param {
                kind: ParamKind::Required,
                name: "version",
                description: "Version to uninstall",
                short: None,
            },
        );
        assert(param_views(r@) =~= seq![
            ParamView {
                kind: ParamKind::Required,
                name: "candidate"@,
                description: "Candidate to uninstall"@,
                short: None,
            },
            ParamView {
                kind: ParamKind::Required,
                name: "version"@,
                description: "Version to uninstall"@,
                short: None,
            },
        ]);
        r
    }

    /// The command that this name stands for.
    pub fn command(&self) -> crate::commands::uninstall::Uninstall {
        crate::commands::uninstall::Uninstall
    }
}

/// The short name of `sdk list`.
#[derive(Clone, Copy, Debug)]
pub struct Ls;

impl Ls {
    /// The name under which the command is called.
    pub fn name(&self) -> (r: &'static str)
        ensures
            r@ == "sdk ls"@,
    {
        "sdk ls"
    }

    /// One line on what the command does.
    pub fn description(&self) -> (r: &'static str)
        ensures
            r@ == "Alias for 'sdk list'"@,
    {
        "Alias for 'sdk list'"
    }

    /// The parameters of the command, in the order in which they are given.
    pub fn signature(&self) -> (r: Vec<Param>)
        ensures
            param_views(r@) == seq![
                ParamView {
                    kind: ParamKind::Optional,
                    name: "candidate"@,
                    description: "Candidate to list versions for"@,
                    short: None,
                },
            ],
    {
        let mut r: Vec<Param> = Vec::new();
        r.push(
            Param {
                kind: ParamKind::Optional,
                name: "candidate",
                description: "Candidate to list versions for",
                short: None,
            },
        );
        assert(param_views(r@) =~= seq![
            ParamView {
                kind: ParamKind::Optional,
                name: "candidate"@,
                description: "Candidate to list versions for"@,
                short: None,
            },
        ]);
        r
    }

    /// The command that this name stands for.
    pub fn command(&self) -> crate::commands::list::List {
        crate::commands::list::List
    }
}

/// The short name of `sdk use`.
#[derive(Clone, Copy, Debug)]
pub struct U;

impl U {
    /// The name under which the command is called.
    pub fn name(&self) -> (r: &'static str)
        ensures
            r@ == "sdk u"@,
    {
        "sdk u"
    }

    /// One line on what the command does.
    pub fn description(&self) -> (r: &'static str)
        ensures
            r@ == "Alias for 'sdk use'"@,
    {
        "Alias for 'sdk use'"
    }

    /// The parameters of the command, in the order in which they are given.
    pub fn signature(&self) -> (r: Vec<Param>)
        ensures
            param_views(r@) == seq![
                ParamView {
                    kind: ParamKind::Required,
                    name: "candidate"@,
                    description: "Candidate to use"@,
                    short: None,
                },
                ParamView {
                    kind: ParamKind::Required,
                    name: "version"@,
                    description: "Version to use"@,
                    short: None,
                },
            ],
    {
        let mut r: Vec<Param> = Vec::new();
        r.push(
            Param {
                kind: ParamKind::Required,
                name: "candidate",
                description: "Candidate to use",
                short: None,
            },
        );
        r.push(
            Param {
                kind: ParamKind::Required,
                name: "version",
                description: "Version to use",
                short: None,
            },
        );
        assert(param_views(r@) =~= seq![
            ParamView {
                kind: ParamKind::Required,
                name: "candidate"@,
                description: "Candidate to use"@,
                short: None,
            },
            ParamView {
                kind: ParamKind::Required,
                name: "version"@,
                description: "Version to use"@,
                short: None,
            },
        ]);
        r
    }

    /// The command that this name stands for.
    pub fn command(&self) -> crate::commands::switch::Use {
        crate::commands::switch::Use
    }
}

/// The short name of `sdk current`.
#[derive(Clone, Copy, Debug)]
pub struct C;

impl C {
    /// The name under which the command is called.
    pub fn name(&self) -> (r: &'static str)
        ensures
            r@ == "sdk c"@,
    {
        "sdk c"
    }

    /// One line on what the command does.
    pub fn description(&self) -> (r: &'static str)
        ensures
            r@ == "Alias for 'sdk current'"@,
    {
        "Alias for 'sdk current'"
    }

    /// The parameters of the command, in the order in which they are given.
    pub fn signature(&self) -> (r: Vec<Param>)
        ensures
            param_views(r@) == seq![
                ParamView {
                    kind: ParamKind::Optional,
                    name: "candidate"@,
                    description: "Candidate to show current version for"@,
                    short: None,
                },
            ],
    {
        let mut r: Vec<Param> = Vec::new();
        r.push(
            Param {
                kind: ParamKind::Optional,
                name: "candidate",
                description: "Candidate to show current version for",
                short: None,
            },
        );
        assert(param_views(r@) =~= seq![
            ParamView {
                kind: ParamKind::Optional,
                name: "candidate"@,
                description: "Candidate to show current version for"@,
                short: None,
            },
        ]);
        r
    }

    /// The command that this name stands for.
    pub fn command(&self) -> crate::commands::current::Current {
        crate::commands::current::Current
    }
}

/// The short name of `sdk upgrade`.
#[derive(Clone, Copy, Debug)]
pub struct Ug;

impl Ug {
    /// The name under which the command is called.
    pub fn name(&self) -> (r: &'static str)
        ensures
            r@ == "sdk ug"@,
    {
        "sdk ug"
    }

    /// One line on what the command does.
    pub fn description(&self) -> (r: &'static str)
        ensures
            r@ == "Alias for 'sdk upgrade'"@,
    {
        "Alias for 'sdk upgrade'"
    }

    /// The parameters of the command, in the order in which they are given.
    pub fn signature(&self) -> (r: Vec<Param>)
        ensures
            param_views(r@) == seq![
                ParamView {
                    kind: ParamKind::Optional,
                    name: "candidate"@,
                    description: "Candidate to upgrade"@,
                    short: None,
                },
            ],
    {
        let mut r: Vec<Param> = Vec::new();
        r.push(
            Param {
                kind: ParamKind::Optional,
                name: "candidate",
                description: "Candidate to upgrade",
                short: None,
            },
        );
        assert(param_views(r@) =~= seq![
            ParamView {
                kind: ParamKind::Optional,
                name: "candidate"@,
                description: "Candidate to upgrade"@,
                short: None,
            },
        ]);
        r
    }

    /// The command that this name stands for.
    pub fn command(&self) -> crate::commands::upgrade::Upgrade {
        crate::commands::upgrade::Upgrade
    }
}

/// The short name of `sdk default`.
#[derive(Clone, Copy, Debug)]
pub struct D;

impl D {
    /// The name under which the command is called.
    pub fn name(&self) -> (r: &'static str)
        ensures
            r@ == "sdk d"@,
    {
        "sdk d"
    }

    /// One line on what the command does.
    pub fn description(&self) -> (r: &'static str)
        ensures
            r@ == "Alias for 'sdk default'"@,
    {
        "Alias for 'sdk default'"
    }

    /// The parameters of the command, in the order in which they are given.
    pub fn signature(&self) -> (r: Vec<Param>)
        ensures
            param_views(r@) == seq![
                ParamView {
                    kind: ParamKind::Required,
                    name: "candidate"@,
                    description: "Candidate to set default for"@,
                    short: None,
                },
                ParamView {
                    kind: ParamKind::Optional,
                    name: "version"@,
                    description: "Version to set as default"@,
                    short: None,
                },
            ],
    {
        let mut r: Vec<Param> = Vec::new();
        r.push(
            Param {
                kind: ParamKind::Required,
                name: "candidate",
                description: "Candidate to set default for",
                short: None,
            },
        );
        r.push(
            Param {
                kind: ParamKind::Optional,
                name: "version",
                description: "Version to set as default",
                short: None,
            },
        );
        assert(param_views(r@) =~= seq![
            ParamView {
                kind: ParamKind::Required,
                name: "candidate"@,
                description: "Candidate to set default for"@,
                short: None,
            },
            ParamView {
                kind: ParamKind::Optional,
                name: "version"@,
                description: "Version to set as default"@,
                short: None,
            },
        ]);
        r
    }

    /// The command that this name stands for.
    pub fn command(&self) -> crate::commands::default::Default {
        crate::commands::default::Default
    }
}

/// The short name of `sdk home`.
#[derive(Clone, Copy, Debug)]
pub struct H;

impl H {
    /// The name under which the command is called.
    pub fn name(&self) -> (r: &'static str)
        ensures
            r@ == "sdk h"@,
    {
        "sdk h"
    }

    /// One line on what the command does.
    pub fn description(&self) -> (r: &'static str)
        ensures
            r@ == "Alias for 'sdk home'"@,
    {
        "Alias for 'sdk home'"
    }

    /// The parameters of the command, in the order in which they are given.
    pub fn signature(&self) -> (r: Vec<Param>)
        ensures
            param_views(r@) == seq![
                ParamView {
                    kind: ParamKind::Required,
                    name: "candidate"@,
                    description: "Candidate name"@,
                    short: None,
                },
                ParamView {
                    kind: ParamKind::Required,
                    name: "version"@,
                    description: "Version"@,
                    short: None,
                },
            ],
    {
        let mut r: Vec<Param> = Vec::new();
        r.push(
            Param {
                kind: ParamKind::Required,
                name: "candidate",
                description: "Candidate name",
                short: None,
            },
        );
        r.push(
            Param {
                kind: ParamKind::Required,
                name: "version",
                description: "Version",
                short: None,
            },
        );
        assert(param_views(r@) =~= seq![
            ParamView {
                kind: ParamKind::Required,
                name: "candidate"@,
                description: "Candidate name"@,
                short: None,
            },
            ParamView {
                kind: ParamKind::Required,
                name: "version"@,
                description: "Version"@,
                short: None,
            },
        ]);
        r
    }

    /// The command that this name stands for.
    pub fn command(&self) -> crate::commands::home::Home {
        crate::commands::home::Home
    }
}

/// The short name of `sdk version`.
#[derive(Clone, Copy, Debug)]
pub struct V;

impl V {
    /// The name under which the command is called.
    pub fn name(&self) -> (r: &'static str)
        ensures
            r@ == "sdk v"@,
    {
        "sdk v"
    }

    /// One line on what the command does.
    pub fn description(&self) -> (r: &'static str)
        ensures
            r@ == "Alias for 'sdk version'"@,
    {
        "Alias for 'sdk version'"
    }

    /// The parameters of the command: it takes none.
    pub fn signature(&self) -> (r: Vec<Param>)
        ensures
            r@.len() == 0,
    {
        Vec::new()
    }

    /// The command that this name stands for.
    pub fn command(&self) -> crate::commands::version::Version {
        crate::commands::version::Version
    }
}

} // verus!
