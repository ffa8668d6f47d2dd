//! The satellites whose observations are collected.

use crate::text::{lowercase, to_lowercase};
use vstd::prelude::*;
use vstd::string::StringExecFns;

verus! {

/// A satellite to collect observations of.
#[derive(Debug, Clone, Copy, PartialEq, Eq)]
pub struct Satellite {
    /// The satellite's name, as shown to the user.
    pub name: &'static str,
    /// The satellite's NORAD catalog number, in decimal.
    pub id: &'static str,
}

/// The mathematical value of a [`Satellite`].
pub struct Target {
    pub name: Seq<char>,
    pub id: Seq<char>,
}

/// The folder of the satellite with this tag: below `download`, a folder
/// named by the tag.
pub open spec fn folder_under(tag: Seq<char>) -> Seq<char> {
    "download/"@ + tag
}

/// Names the folder of the satellite with this tag.
pub fn folder_of(tag: &str) -> (r: String)
    ensures
        r@ == folder_under(tag@),
{
    String::from_str("download/").concat(tag)
}

impl Target {
    /// The tag that marks a satellite's folder and files: its name in lower
    /// case.
    pub open spec fn tag(self) -> Seq<char> {
        lowercase(self.name)
    }

    /// The folder that holds what was collected of a satellite.
    pub open spec fn folder(self) -> Seq<char> {
        folder_under(self.tag())
    }
}

impl View for Satellite {
    type V = Target;

    open spec fn view(&self) -> Target {
        Target { name: self.name@, id: self.id@ }
    }
}

impl Satellite {
    /// The tag that marks the satellite's folder and files.
    pub fn tag(&self) -> (r: String)
        ensures
            r@ == self@.tag(),
    {
        to_lowercase(self.name)
    }

    /// The folder that holds what was collected of the satellite.
    pub fn folder(&self) -> (r: String)
        ensures
            r@ == self@.folder(),
    {
        folder_of(self.tag().as_str())
    }

    /// A second handle on the same satellite.
    pub fn duplicate(&self) -> (r: Satellite)
        ensures
            r@ == self@,
    {
        Satellite { name: self.name, id: self.id }
    }
}

/// The satellites that a run collects, in the order in which it visits them.
pub open spec fn fleet() -> Seq<Target> {
    seq![
        Target { name: "CUAVA-2"@, id: "60527"@ },
        Target { name: "WS-1"@, id: "60469"@ },
    ]
}

/// The satellites that a run collects, in the order in which it visits them.
pub fn satellites() -> (r: Vec<Satellite>)
    ensures
        r@.len() == fleet().len(),
        forall|i: int| 0 <= i < r@.len() ==> (#[trigger] r@[i])@ == fleet()[i],
{
    let mut r: Vec<Satellite> = Vec::new();
    r.push(Satellite { name: "CUAVA-2", id: "60527" });
    r.push(Satellite { name: "WS-1", id: "60469" });
    r
}

} // verus!
