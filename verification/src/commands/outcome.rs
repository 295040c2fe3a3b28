//! What a command hands back.

use crate::engine::steps::FsStep;
use vstd::prelude::*;
use vstd::string::StringExecFns;

verus! {

/// The result of a command that changes the store: what to tell the user,
/// and the steps that make the disk agree with the record.
#[derive(Debug, Clone)]
pub struct Outcome {
    pub message: String,
    pub steps: Vec<FsStep>,
}

/// How a parameter of a command is given.
#[derive(Clone, Copy, Debug, PartialEq, Eq, Structural)]
pub enum ParamKind {
    /// By position, and always.
    Required,
    /// By position, or not at all.
    Optional,
    /// By its name, as a flag with a value.
    Named,
}

/// One parameter of a command. Every parameter is a text.
#[derive(Clone, Copy, Debug)]
pub struct Param {
    pub kind: ParamKind,
    pub name: &'static str,
    pub description: &'static str,
    /// The one-letter form of a named parameter.
    pub short: Option<char>,
}

/// What a parameter says, with its texts as sequences of characters.
pub struct ParamView {
    pub kind: ParamKind,
    pub name: Seq<char>,
    pub description: Seq<char>,
    pub short: Option<char>,
}

impl View for Param {
    type V = ParamView;

    open spec fn view(&self) -> ParamView {
        ParamView {
            kind: self.kind,
            name: self.name@,
            description: self.description@,
            short: self.short,
        }
    }
}

/// What a list of parameters says.
pub open spec fn param_views(ps: Seq<Param>) -> Seq<ParamView> {
    Seq::new(ps.len(), |i: int| ps[i]@)
}

/// What a list of texts says.
pub open spec fn texts(v: Seq<String>) -> Seq<Seq<char>> {
    Seq::new(v.len(), |i: int| v[i]@)
}

/// Two texts with a blank between.
pub open spec fn pair_text(candidate: Seq<char>, version: Seq<char>) -> Seq<char> {
    candidate.push(' ') + version
}

/// Builds `head`, the candidate, a blank, the version, and `tail`.
pub fn phrase(head: &str, candidate: &str, version: &str, tail: &str) -> (r: String)
    ensures
        r@ == head@ + pair_text(candidate@, version@) + tail@,
{
    let mut r = String::from_str(head);
    r.append(candidate);
    r.push(' ');
    r.append(version);
    r.append(tail);
    assert(r@ =~= head@ + pair_text(candidate@, version@) + tail@);
    r
}

} // verus!
