//! The yield-rate oracle: an admin-settable rate in basis points that the
//! arena snapshots once per round.

use vstd::prelude::*;

use crate::AccountId;

verus! {

/// Why an oracle call is refused.
#[derive(Clone, Copy, PartialEq, Eq, Structural, Debug)]
pub enum OracleError {
    /// `initialize` on an oracle that already has an admin.
    AlreadyInitialised,
    /// A rate update before initialization.
    NotInitialised,
}

/// An event published by the oracle.
#[derive(Clone, Copy, PartialEq, Eq, Structural, Debug)]
pub enum OracleEvent {
    RateSet { rate_bps: u32 },
}

/// The oracle: its admin, the current rate and the events it has published.
pub struct OracleContract {
    pub admin: Option<AccountId>,
    pub rate_bps: Option<u32>,
    pub events: Vec<OracleEvent>,
}

/// The mathematical view of the oracle.
pub struct OracleView {
    pub admin: Option<AccountId>,
    pub rate_bps: Option<u32>,
    pub events: Seq<OracleEvent>,
}

impl View for OracleContract {
    type V = OracleView;

    open spec fn view(&self) -> OracleView {
        OracleView { admin: self.admin, rate_bps: self.rate_bps, events: self.events@ }
    }
}

/// The rate the oracle reports: the stored one, or zero before
/// initialization.
pub open spec fn reported_rate(o: OracleView) -> u32 {
    match o.rate_bps {
        Some(r) => r,
        None => 0,
    }
}

impl OracleContract {
    /// An oracle with nothing stored.
    pub fn new() -> (o: OracleContract)
        ensures
            o@ == (OracleView { admin: None, rate_bps: None, events: Seq::empty() }),
    {
        OracleContract { admin: None, rate_bps: None, events: Vec::new() }
    }

    /// Record the admin and the initial rate; refused once initialized,
    /// leaving everything unchanged.
    pub fn initialize(&mut self, admin: AccountId, initial_rate_bps: u32) -> (r: Result<
        (),
        OracleError,
    >)
        ensures
            old(self)@.admin is Some ==> r == Err::<(), OracleError>(
                OracleError::AlreadyInitialised,
            ) && final(self)@ == old(self)@,
            old(self)@.admin is None ==> r is Ok && final(self)@ == (OracleView {
                admin: Some(admin),
                rate_bps: Some(initial_rate_bps),
                ..old(self)@
            }),
    {
        if self.admin.is_some() {
            return Err(OracleError::AlreadyInitialised);
        }
        self.admin = Some(admin);
        self.rate_bps = Some(initial_rate_bps);
        Ok(())
    }

    /// Update the rate (admin only); refused before initialization.
    pub fn set_yield_bps(&mut self, rate_bps: u32) -> (r: Result<(), OracleError>)
        ensures
            old(self)@.admin is None ==> r == Err::<(), OracleError>(OracleError::NotInitialised)
                && final(self)@ == old(self)@,
            old(self)@.admin is Some ==> r is Ok && final(self)@ == (OracleView {
                rate_bps: Some(rate_bps),
                events: old(self)@.events.push(OracleEvent::RateSet { rate_bps }),
                ..old(self)@
            }),
    {
        if self.admin.is_none() {
            return Err(OracleError::NotInitialised);
        }
        self.rate_bps = Some(rate_bps);
        self.events.push(OracleEvent::RateSet { rate_bps });
        Ok(())
    }

    /// The current rate in basis points; zero before initialization.
    pub fn get_current_yield_bps(&self) -> (r: u32)
        ensures
            r == reported_rate(self@),
    {
        match self.rate_bps {
            Some(r) => r,
            None => 0,
        }
    }
}

/// The oracle reports what was last written: after initialization with a
/// rate, or after a rate update on an initialized oracle, the reported rate
/// is the rate written.
pub proof fn law_rate_reads_back(o: OracleView, admin: AccountId, rate_bps: u32)
    ensures
        o.admin is None ==> reported_rate(
            OracleView { admin: Some(admin), rate_bps: Some(rate_bps), ..o },
        ) == rate_bps,
        o.admin is Some ==> reported_rate(
            OracleView {
                rate_bps: Some(rate_bps),
                events: o.events.push(OracleEvent::RateSet { rate_bps }),
                ..o
            },
        ) == rate_bps,
{
}

} // verus!
