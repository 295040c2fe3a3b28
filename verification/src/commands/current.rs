//! The command that shows which versions are current.

use crate::commands::outcome::{Param, param_views, ParamKind, ParamView};
use crate::engine::env::{get_current_version, Scope, Store, StoreView};
use crate::error::SdkError;
use crate::utils::pair_set::Pair;
use vstd::prelude::*;

verus! {

/// Of the first `n` candidates, those that have a current version in the
/// store, each with that version.
pub open spec fn with_current(s: StoreView, candidates: Seq<String>, n: int) -> Seq<
    (Seq<char>, Seq<char>),
>
    decreases n,
{
    if n <= 0 {
        Seq::<(Seq<char>, Seq<char>)>::empty()
    } else {
        let before = with_current(s, candidates, n - 1);
        match s.current(candidates[n - 1]@, Scope::Global) {
            Some(v) => before.push((candidates[n - 1]@, v)),
            None => before,
        }
    }
}

/// The command that shows which versions are current.
#[derive(Clone, Copy, Debug)]
pub struct Current;

impl Current {
    /// The name under which the command is called.
    pub fn name(&self) -> (r: &'static str)
        ensures
            r@ == "sdk current"@,
    {
        "sdk current"
    }

    /// One line on what the command does.
    pub fn description(&self) -> (r: &'static str)
        ensures
            r@ == "Show current version in use"@,
    {
        "Show current version in use"
    }

    /// The parameters of the command, in the order in which they are given.
    pub fn signature(&self) -> (r: Vec<Param>)
        ensures
            param_views(r@) == seq![
                ParamView {
                    kind: ParamKind::Optional,
                    name: "candidate"@,
                    description: "Candidate to show current version for"@,
                    short: None,
                },
            ],
    {
        let mut r: Vec<Param> = Vec::new();
        r.push(
            Param {
                kind: ParamKind::Optional,
                name: "candidate",
                description: "Candidate to show current version for",
                short: None,
            },
        );
        assert(param_views(r@) =~= seq![
            ParamView {
                kind: ParamKind::Optional,
                name: "candidate"@,
                description: "Candidate to show current version for"@,
                short: None,
            },
        ]);
        r
    }

    /// The current version of one candidate in the store; `NoCurrentVersion`
    /// where it has none.
    pub fn show_current(&self, store: &Store, candidate: &str) -> (r: Result<String, SdkError>)
        requires
            store.wf(),
        ensures
            match r {
                Ok(v) => store@.current(candidate@, Scope::Global) == Some(v@),
                Err(e) => store@.current(candidate@, Scope::Global) is None && e
                    == SdkError::NoCurrentVersion,
            },
    {
        match get_current_version(store, candidate, Scope::Global) {
            Some(v) => Ok(v),
            None => Err(SdkError::NoCurrentVersion),
        }
    }

    /// Of the given candidates, those that have a current version in the
    /// store, each with that version, in the order given.
    pub fn show_all_current(&self, store: &Store, candidates: &Vec<String>) -> (r: Vec<Pair>)
        requires
            store.wf(),
        ensures
            r@.map_values(|p: Pair| p@) == with_current(store@, candidates@, candidates@.len() as int),
    {
        let mut r: Vec<Pair> = Vec::new();
        let mut i: usize = 0;
        assert(r@.map_values(|p: Pair| p@) =~= with_current(store@, candidates@, 0));
        while i < candidates.len()
            invariant
                store.wf(),
                i <= candidates@.len(),
                r@.map_values(|p: Pair| p@) == with_current(store@, candidates@, i as int),
            decreases candidates@.len() - i,
        {
            let ghost before = r@.map_values(|p: Pair| p@);
            match get_current_version(store, candidates[i].as_str(), Scope::Global) {
                Some(v) => {
                    let p = Pair { first: candidates[i].clone(), second: v };
                    r.push(p);
                    assert(r@.map_values(|p: Pair| p@) =~= before.push(
                        (candidates@[i as int]@, v@),
                    ));
                },
                None => {},
            }
            i = i + 1;
        }
        r
    }
}

} // verus!
