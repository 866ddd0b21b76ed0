//! Events published by the fee arena, and the token movements it asks the
//! host to make.

use vstd::prelude::*;

use crate::AccountId;

verus! {

/// An event published by a fee arena entry point.
#[derive(Clone, PartialEq, Eq, Debug)]
pub enum ArenaEvent {
    ArenaInitialized { admin: AccountId },
    ArenaConfigured,
    GameStarted,
    GameFinished,
    PlayerJoined { player: AccountId },
    ChoiceSubmitted { player: AccountId },
    PlayerEliminated { player: AccountId },
    PrizeClaimed { winner: AccountId },
    ArenaCancelled,
    RefundClaimed { player: AccountId },
    ContractPaused { admin: AccountId, reason: String },
    ContractUnpaused { admin: AccountId },
    TreasuryUpdated { admin: AccountId, new_treasury: AccountId },
    CooldownConfigured { admin: AccountId, cooldown_seconds: u64 },
    CreatorStakeDeposited { creator: AccountId, amount: i128, total: i128 },
    CreatorStakeWithdrawn { creator: AccountId, amount: i128, slashed: bool },
    StakeSlashed { creator: AccountId, slashed_amount: i128, remaining_returned: i128 },
    SlashRateConfigured { admin: AccountId, slash_rate_bps: u32 },
    RwaYieldReceived { amount: i128 },
    RoundStarted { round: u32, deadline: u64 },
    CommitSubmitted { player: AccountId },
    RevealSubmitted { player: AccountId },
    AdminTransferProposed { current_admin: AccountId, proposed_admin: AccountId },
    AdminTransferAccepted { new_admin: AccountId },
}

/// A movement of the arena's token that the host has to perform.
#[derive(Clone, Copy, PartialEq, Eq, Structural, Debug)]
pub enum Transfer {
    /// Move `amount` from `from` to the arena.
    ToArena { from: AccountId, amount: i128 },
    /// Move `amount` from the arena to `to`.
    FromArena { to: AccountId, amount: i128 },
}

/// The events published so far, in order.
#[derive(Clone)]
pub struct ArenaEvents {
    pub log: Vec<ArenaEvent>,
}

impl ArenaEvents {
    pub fn new() -> (e: ArenaEvents)
        ensures
            e.log@ == Seq::<ArenaEvent>::empty(),
    {
        ArenaEvents { log: Vec::new() }
    }

    fn emit(&mut self, event: ArenaEvent)
        ensures
            final(self).log@ == old(self).log@.push(event),
    {
        self.log.push(event);
    }

    pub fn arena_initialized(&mut self, admin: AccountId)
        ensures
            final(self).log@ == old(self).log@.push(ArenaEvent::ArenaInitialized { admin }),
    {
        self.emit(ArenaEvent::ArenaInitialized { admin });
    }

    pub fn arena_configured(&mut self)
        ensures
            final(self).log@ == old(self).log@.push(ArenaEvent::ArenaConfigured),
    {
        self.emit(ArenaEvent::ArenaConfigured);
    }

    pub fn game_started(&mut self)
        ensures
            final(self).log@ == old(self).log@.push(ArenaEvent::GameStarted),
    {
        self.emit(ArenaEvent::GameStarted);
    }

    pub fn game_finished(&mut self)
        ensures
            final(self).log@ == old(self).log@.push(ArenaEvent::GameFinished),
    {
        self.emit(ArenaEvent::GameFinished);
    }

    pub fn player_joined(&mut self, player: AccountId)
        ensures
            final(self).log@ == old(self).log@.push(ArenaEvent::PlayerJoined { player }),
    {
        self.emit(ArenaEvent::PlayerJoined { player });
    }

    pub fn choice_submitted(&mut self, player: AccountId)
        ensures
            final(self).log@ == old(self).log@.push(ArenaEvent::ChoiceSubmitted { player }),
    {
        self.emit(ArenaEvent::ChoiceSubmitted { player });
    }

    pub fn player_eliminated(&mut self, player: AccountId)
        ensures
            final(self).log@ == old(self).log@.push(ArenaEvent::PlayerEliminated { player }),
    {
        self.emit(ArenaEvent::PlayerEliminated { player });
    }

    pub fn prize_claimed(&mut self, winner: AccountId)
        ensures
            final(self).log@ == old(self).log@.push(ArenaEvent::PrizeClaimed { winner }),
    {
        self.emit(ArenaEvent::PrizeClaimed { winner });
    }

    pub fn arena_cancelled(&mut self)
        ensures
            final(self).log@ == old(self).log@.push(ArenaEvent::ArenaCancelled),
    {
        self.emit(ArenaEvent::ArenaCancelled);
    }

    pub fn refund_claimed(&mut self, player: AccountId)
        ensures
            final(self).log@ == old(self).log@.push(ArenaEvent::RefundClaimed { player }),
    {
        self.emit(ArenaEvent::RefundClaimed { player });
    }

    pub fn contract_paused(&mut self, admin: AccountId, reason: String)
        ensures
            final(self).log@ == old(self).log@.push(ArenaEvent::ContractPaused { admin, reason }),
    {
        self.emit(ArenaEvent::ContractPaused { admin, reason });
    }

    pub fn contract_unpaused(&mut self, admin: AccountId)
        ensures
            final(self).log@ == old(self).log@.push(ArenaEvent::ContractUnpaused { admin }),
    {
        self.emit(ArenaEvent::ContractUnpaused { admin });
    }

    pub fn treasury_updated(&mut self, admin: AccountId, new_treasury: AccountId)
        ensures
            final(self).log@ == old(self).log@.push(
                ArenaEvent::TreasuryUpdated { admin, new_treasury },
            ),
    {
        self.emit(ArenaEvent::TreasuryUpdated { admin, new_treasury });
    }

    pub fn cooldown_configured(&mut self, admin: AccountId, cooldown_seconds: u64)
        ensures
            final(self).log@ == old(self).log@.push(
                ArenaEvent::CooldownConfigured { admin, cooldown_seconds },
            ),
    {
        self.emit(ArenaEvent::CooldownConfigured { admin, cooldown_seconds });
    }

    pub fn creator_stake_deposited(&mut self, creator: AccountId, amount: i128, total: i128)
        ensures
            final(self).log@ == old(self).log@.push(
                ArenaEvent::CreatorStakeDeposited { creator, amount, total },
            ),
    {
        self.emit(ArenaEvent::CreatorStakeDeposited { creator, amount, total });
    }

    pub fn creator_stake_withdrawn(&mut self, creator: AccountId, amount: i128, slashed: bool)
        ensures
            final(self).log@ == old(self).log@.push(
                ArenaEvent::CreatorStakeWithdrawn { creator, amount, slashed },
            ),
    {
        self.emit(ArenaEvent::CreatorStakeWithdrawn { creator, amount, slashed });
    }

    pub fn stake_slashed(
        &mut self,
        creator: AccountId,
        slashed_amount: i128,
        remaining_returned: i128,
    )
        ensures
            final(self).log@ == old(self).log@.push(
                ArenaEvent::StakeSlashed { creator, slashed_amount, remaining_returned },
            ),
    {
        self.emit(ArenaEvent::StakeSlashed { creator, slashed_amount, remaining_returned });
    }

    pub fn slash_rate_configured(&mut self, admin: AccountId, slash_rate_bps: u32)
        ensures
            final(self).log@ == old(self).log@.push(
                ArenaEvent::SlashRateConfigured { admin, slash_rate_bps },
            ),
    {
        self.emit(ArenaEvent::SlashRateConfigured { admin, slash_rate_bps });
    }

    pub fn rwa_yield_received(&mut self, amount: i128)
        ensures
            final(self).log@ == old(self).log@.push(ArenaEvent::RwaYieldReceived { amount }),
    {
        self.emit(ArenaEvent::RwaYieldReceived { amount });
    }

    pub fn round_started(&mut self, round: u32, deadline: u64)
        ensures
            final(self).log@ == old(self).log@.push(ArenaEvent::RoundStarted { round, deadline }),
    {
        self.emit(ArenaEvent::RoundStarted { round, deadline });
    }

    pub fn commit_submitted(&mut self, player: AccountId)
        ensures
            final(self).log@ == old(self).log@.push(ArenaEvent::CommitSubmitted { player }),
    {
        self.emit(ArenaEvent::CommitSubmitted { player });
    }

    pub fn reveal_submitted(&mut self, player: AccountId)
        ensures
            final(self).log@ == old(self).log@.push(ArenaEvent::RevealSubmitted { player }),
    {
        self.emit(ArenaEvent::RevealSubmitted { player });
    }

    pub fn admin_transfer_proposed(&mut self, current_admin: AccountId, proposed_admin: AccountId)
        ensures
            final(self).log@ == old(self).log@.push(
                ArenaEvent::AdminTransferProposed { current_admin, proposed_admin },
            ),
    {
        self.emit(ArenaEvent::AdminTransferProposed { current_admin, proposed_admin });
    }

    pub fn admin_transfer_accepted(&mut self, new_admin: AccountId)
        ensures
            final(self).log@ == old(self).log@.push(ArenaEvent::AdminTransferAccepted { new_admin }),
    {
        self.emit(ArenaEvent::AdminTransferAccepted { new_admin });
    }
}

} // verus!
