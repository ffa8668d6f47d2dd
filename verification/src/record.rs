//! Observation records as the catalog lists them.

use crate::text::{decimal, decimal_string};
use vstd::prelude::*;

verus! {

/// A reference to one demodulated payload of an observation.
#[derive(Debug, PartialEq, Eq)]
pub struct DemodData {
    /// Where the payload's bytes can be fetched.
    pub payload_demod: String,
}

/// One observation of the catalog, reduced to what planning reads.
#[derive(Debug, PartialEq, Eq)]
pub struct Observation {
    /// The catalog's identity of the observation.
    pub id: i32,
    /// When the observation started, as the catalog writes it.
    pub start: Option<String>,
    /// The payloads demodulated from the observation, in catalog order.
    pub demoddata: Vec<DemodData>,
}

/// The mathematical value of an [`Observation`].
pub struct Record {
    pub id: int,
    pub start: Option<Seq<char>>,
    /// The payload addresses, in catalog order.
    pub urls: Seq<Seq<char>>,
}

impl Record {
    /// The name under which a record is stored: its start time where it has
    /// one, else the decimal numeral of its identity.
    pub open spec fn name(self) -> Seq<char> {
        match self.start {
            Some(start) => start,
            None => decimal(self.id),
        }
    }

    /// A record is stored exactly when it refers to at least one payload.
    pub open spec fn eligible(self) -> bool {
        self.urls.len() > 0
    }
}

impl View for DemodData {
    type V = Seq<char>;

    open spec fn view(&self) -> Seq<char> {
        self.payload_demod@
    }
}

impl DeepView for DemodData {
    type V = Seq<char>;

    open spec fn deep_view(&self) -> Seq<char> {
        self.payload_demod@
    }
}

impl View for Observation {
    type V = Record;

    open spec fn view(&self) -> Record {
        Record {
            id: self.id as int,
            start: match self.start {
                Some(s) => Some(s@),
                None => None,
            },
            urls: self.demoddata.deep_view(),
        }
    }
}

impl DeepView for Observation {
    type V = Record;

    open spec fn deep_view(&self) -> Record {
        self@
    }
}

impl Observation {
    /// The name under which the observation is stored.
    pub fn name(&self) -> (r: String)
        ensures
            r@ == self@.name(),
    {
        match &self.start {
            Some(start) => start.clone(),
            None => decimal_string(self.id),
        }
    }

    /// Whether the observation has anything to store.
    pub fn is_eligible(&self) -> (r: bool)
        ensures
            r == self@.eligible(),
    {
        self.demoddata.len() > 0
    }
}

} // verus!
