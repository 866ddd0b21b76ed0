//! Events published by the yield arena, and the calls it asks the host to
//! make on its behalf.

use vstd::prelude::*;

use crate::AccountId;

verus! {

/// An event published by an arena entry point.
#[derive(Clone, PartialEq, Eq, Debug)]
pub enum ArenaEvent {
    Initialized { admin: AccountId },
    PlayerJoined { player: AccountId, player_count: u32 },
    PlayerBanned { admin: AccountId, player: AccountId },
    PlayerUnbanned { admin: AccountId, player: AccountId },
    PlayerLimitsConfigured { min_players: u32, max_players: u32 },
    Upgraded { wasm_hash: [u8; 32] },
    GameStarted { round: u32, duration_seconds: u64 },
    RoundResolved { round: u32, eliminated: u32, survivors: u32 },
    RoundTied { round: u32, survivors: u32 },
    PlayerEliminated { player: AccountId, round: u32 },
    GameFinished { winner: AccountId, round: u32 },
    PrizeClaimed { winner: AccountId, amount: i128, yield_amount: i128 },
    AdminChanged { old_admin: AccountId, new_admin: AccountId },
    Paused { admin: AccountId, reason: String },
    Unpaused { admin: AccountId },
    VaultBalanceDecreased { previous_balance: i128, current_balance: i128 },
}

/// A call that an entry point needs the host to perform: a movement of the
/// stake token, a request to the yield vault, or a code upgrade.
#[derive(Clone, Copy, PartialEq, Eq, Debug)]
pub enum ArenaCall {
    /// Move `amount` of the stake token from `from` to the arena.
    TransferToArena { from: AccountId, amount: i128 },
    /// Move `amount` of the stake token from the arena to `to`.
    TransferFromArena { to: AccountId, amount: i128 },
    /// Deposit `amount` into the yield vault; a failure is ignored.
    VaultDeposit { amount: i128 },
    /// Withdraw the arena's whole position from the yield vault.
    VaultWithdrawAll,
    /// Replace the arena's code.
    UpdateWasm { wasm_hash: [u8; 32] },
}

/// The events published so far, in order.
#[derive(Clone)]
pub struct ArenaEvents {
    pub log: Vec<ArenaEvent>,
}

impl ArenaEvents {
    pub fn new() -> (e: ArenaEvents)
        ensures
            e.log@ == Seq::<ArenaEvent>::empty(),
    {
        ArenaEvents { log: Vec::new() }
    }

    pub fn initialized(&mut self, admin: AccountId)
        ensures
            final(self).log@ == old(self).log@.push(ArenaEvent::Initialized { admin }),
    {
        self.log.push(ArenaEvent::Initialized { admin });
    }

    pub fn player_joined(&mut self, player: AccountId, player_count: u32)
        ensures
            final(self).log@ == old(self).log@.push(ArenaEvent::PlayerJoined { player, player_count }),
    {
        self.log.push(ArenaEvent::PlayerJoined { player, player_count });
    }

    pub fn player_banned(&mut self, admin: AccountId, player: AccountId)
        ensures
            final(self).log@ == old(self).log@.push(ArenaEvent::PlayerBanned { admin, player }),
    {
        self.log.push(ArenaEvent::PlayerBanned { admin, player });
    }

    pub fn player_unbanned(&mut self, admin: AccountId, player: AccountId)
        ensures
            final(self).log@ == old(self).log@.push(ArenaEvent::PlayerUnbanned { admin, player }),
    {
        self.log.push(ArenaEvent::PlayerUnbanned { admin, player });
    }

    pub fn player_limits_configured(&mut self, min_players: u32, max_players: u32)
        ensures
            final(self).log@ == old(self).log@.push(
                ArenaEvent::PlayerLimitsConfigured { min_players, max_players },
            ),
    {
        self.log.push(ArenaEvent::PlayerLimitsConfigured { min_players, max_players });
    }

    pub fn upgraded(&mut self, wasm_hash: &[u8; 32])
        ensures
            final(self).log@ == old(self).log@.push(ArenaEvent::Upgraded { wasm_hash: *wasm_hash }),
    {
        self.log.push(ArenaEvent::Upgraded { wasm_hash: *wasm_hash });
    }

    pub fn game_started(&mut self, round: u32, duration_seconds: u64)
        ensures
            final(self).log@ == old(self).log@.push(
                ArenaEvent::GameStarted { round, duration_seconds },
            ),
    {
        self.log.push(ArenaEvent::GameStarted { round, duration_seconds });
    }

    pub fn round_resolved(&mut self, round: u32, eliminated: u32, survivors: u32)
        ensures
            final(self).log@ == old(self).log@.push(
                ArenaEvent::RoundResolved { round, eliminated, survivors },
            ),
    {
        self.log.push(ArenaEvent::RoundResolved { round, eliminated, survivors });
    }

    pub fn round_tied(&mut self, round: u32, survivors: u32)
        ensures
            final(self).log@ == old(self).log@.push(ArenaEvent::RoundTied { round, survivors }),
    {
        self.log.push(ArenaEvent::RoundTied { round, survivors });
    }

    pub fn player_eliminated(&mut self, player: AccountId, round: u32)
        ensures
            final(self).log@ == old(self).log@.push(ArenaEvent::PlayerEliminated { player, round }),
    {
        self.log.push(ArenaEvent::PlayerEliminated { player, round });
    }

    pub fn game_finished(&mut self, winner: AccountId, round: u32)
        ensures
            final(self).log@ == old(self).log@.push(ArenaEvent::GameFinished { winner, round }),
    {
        self.log.push(ArenaEvent::GameFinished { winner, round });
    }

    pub fn prize_claimed(&mut self, winner: AccountId, amount: i128, yield_amount: i128)
        ensures
            final(self).log@ == old(self).log@.push(
                ArenaEvent::PrizeClaimed { winner, amount, yield_amount },
            ),
    {
        self.log.push(ArenaEvent::PrizeClaimed { winner, amount, yield_amount });
    }

    pub fn admin_changed(&mut self, old_admin: AccountId, new_admin: AccountId)
        ensures
            final(self).log@ == old(self).log@.push(ArenaEvent::AdminChanged { old_admin, new_admin }),
    {
        self.log.push(ArenaEvent::AdminChanged { old_admin, new_admin });
    }

    pub fn paused(&mut self, admin: AccountId, reason: String)
        ensures
            final(self).log@ == old(self).log@.push(ArenaEvent::Paused { admin, reason }),
    {
        self.log.push(ArenaEvent::Paused { admin, reason });
    }

    pub fn unpaused(&mut self, admin: AccountId)
        ensures
            final(self).log@ == old(self).log@.push(ArenaEvent::Unpaused { admin }),
    {
        self.log.push(ArenaEvent::Unpaused { admin });
    }

    pub fn vault_balance_decreased(&mut self, previous_balance: i128, current_balance: i128)
        ensures
            final(self).log@ == old(self).log@.push(
                ArenaEvent::VaultBalanceDecreased { previous_balance, current_balance },
            ),
    {
        self.log.push(ArenaEvent::VaultBalanceDecreased { previous_balance, current_balance });
    }
}

} // verus!
