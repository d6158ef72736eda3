use vstd::prelude::*;

use crate::account::AccountId;

verus! {

/// The reason an operation was rejected.  No rejected call mutates the game.
#[derive(Clone, Copy, Debug, PartialEq, Eq, Structural)]
pub enum GameError {
    /// The caller used the zero sentinel identity, or is not the role the
    /// operation is reserved for.
    NotAuthorized,
    /// The caller already holds the other role (house vs. player).
    RoleConflict,
    /// Two players are already registered.
    CapacityExceeded,
    /// The caller does not hold the turn.
    NotYourTurn,
    /// The offered amount is below the current bid.
    BidTooLow,
    /// The game is not in a phase where this operation applies.
    InvalidPhase,
}

/// Notification: a new lodden (house) was assigned.
#[derive(Clone, Copy, Debug)]
pub struct NewLodden {
    pub address: AccountId,
}

/// Notification: a player joined the game.
#[derive(Clone, Copy, Debug)]
pub struct NewPlayer {
    pub address: AccountId,
}

/// Notification: a bid was accepted; carries the new bid and whose turn is next.
#[derive(Clone, Copy, Debug)]
pub struct Bet {
    pub current_over: u64,
    pub turn: AccountId,
}

/// Notification: the round was resolved; carries the winner.
#[derive(Clone, Copy, Debug)]
pub struct GameResult {
    pub winner: AccountId,
}

/// The whole mutable state of one game instance.
pub struct Loddenthinks {
    /// The house identity; the zero sentinel until claimed.
    pub lodden: AccountId,
    /// The registered players with their stakes, in joining order (at most two).
    pub players: Vec<(AccountId, u64)>,
    /// Whose bid is due; the zero sentinel until the first player joins.
    pub turn: AccountId,
    /// The house's target number; 0 until set.
    pub guess: u64,
    /// The highest bid accepted so far; starts at 0.
    pub current_over: u64,
    /// True once a player has declined to raise; never reset.
    pub wait_for_reveal: bool,
}

impl Loddenthinks {
    /// Whether `a` is a registered player.
    pub open spec fn is_registered(self, a: AccountId) -> bool {
        exists|i: int| 0 <= i < self.players@.len() && self.players@[i].0 == a
    }

    /// Whether a house has been claimed.
    pub open spec fn house_set(self) -> bool {
        !self.lodden.spec_is_zero()
    }

    /// Well-formedness: holds of the fresh game and is preserved by every
    /// operation.
    ///
    /// - at most two players are registered, all distinct and none the sentinel;
    /// - the house is never one of the players;
    /// - every stake is zero (no operation ever changes a stake);
    /// - the turn is the sentinel until a player joins, and from then on
    ///   always one of the registered players.
    pub open spec fn wf(self) -> bool {
        &&& self.players@.len() <= 2
        &&& (forall|i: int, j: int|
            0 <= i < j < self.players@.len() ==> self.players@[i].0 != self.players@[j].0)
        &&& (forall|i: int| 0 <= i < self.players@.len() ==> !self.players@[i].0.spec_is_zero())
        &&& (forall|i: int| 0 <= i < self.players@.len() ==> self.players@[i].0 != self.lodden)
        &&& (forall|i: int| 0 <= i < self.players@.len() ==> self.players@[i].1 == 0)
        &&& (self.players@.len() == 0 ==> self.turn.spec_is_zero())
        &&& (self.players@.len() > 0 ==> self.is_registered(self.turn))
    }

    /// A fresh game: no house, no players, no turn, everything zero.
    pub fn new() -> (g: Loddenthinks)
        ensures
            g.wf(),
            g.lodden.spec_is_zero(),
            g.players@.len() == 0,
            g.turn.spec_is_zero(),
            g.guess == 0,
            g.current_over == 0,
            !g.wait_for_reveal,
    {
        Loddenthinks {
            lodden: AccountId::zero(),
            players: Vec::new(),
            turn: AccountId::zero(),
            guess: 0,
            current_over: 0,
            wait_for_reveal: false,
        }
    }

    /// The house's current target number.
    pub fn current_guess(&self) -> (r: u64)
        ensures
            r == self.guess,
    {
        self.guess
    }

    /// The house identity (the zero sentinel while unclaimed).
    pub fn get_lodden(&self) -> (r: AccountId)
        ensures
            r == self.lodden,
    {
        self.lodden
    }

    /// The highest bid accepted so far.
    pub fn current_bid(&self) -> (r: u64)
        ensures
            r == self.current_over,
    {
        self.current_over
    }

    /// Whether `caller` holds the house role.  The sentinel never does, so
    /// nobody is the house while it is unclaimed.
    pub open spec fn spec_is_lodden(self, caller: AccountId) -> bool {
        self.house_set() && caller == self.lodden
    }

    /// Pure predicate: is `caller` the house?
    pub fn is_lodden(&self, caller: AccountId) -> (r: bool)
        ensures
            r == self.spec_is_lodden(caller),
    {
        if self.lodden.is_zero() {
            false
        } else {
            caller == self.lodden
        }
    }

    /// Pure predicate: is `caller` a registered player?
    pub fn is_player(&self, caller: AccountId) -> (r: bool)
        ensures
            r == self.is_registered(caller),
    {
        let mut i: usize = 0;
        while i < self.players.len()
            invariant
                0 <= i <= self.players@.len(),
                forall|j: int| 0 <= j < i ==> self.players@[j].0 != caller,
            decreases self.players@.len() - i,
        {
            if self.players[i].0 == caller {
                return true;
            }
            i = i + 1;
        }
        false
    }

    /// Pure predicate: does `caller` hold the turn?
    pub fn is_turn(&self, caller: AccountId) -> (r: bool)
        ensures
            r == (caller == self.turn),
    {
        caller == self.turn
    }

    /// Claims the house role for `caller`.
    ///
    /// Rejected for the sentinel identity and for a registered player; any
    /// other caller becomes the house, silently replacing a previous one.
    pub fn be_lodden(&mut self, caller: AccountId) -> (r: Result<NewLodden, GameError>)
        requires
            old(self).wf(),
        ensures
            final(self).wf(),
            (r is Ok) <==> (!caller.spec_is_zero() && !old(self).is_registered(caller)),
            caller.spec_is_zero() ==> r == Err::<NewLodden, GameError>(GameError::NotAuthorized),
            !caller.spec_is_zero() && old(self).is_registered(caller)
                ==> r == Err::<NewLodden, GameError>(GameError::RoleConflict),
            r is Err ==> *final(self) == *old(self),
            r is Ok ==> *final(self) == (Loddenthinks { lodden: caller, ..*old(self) }),
            r is Ok ==> r == Ok::<NewLodden, GameError>((NewLodden { address: caller })),
    {
        if caller.is_zero() {
            return Err(GameError::NotAuthorized);
        }
        if self.is_player(caller) {
            return Err(GameError::RoleConflict);
        }
        self.lodden = caller;
        Ok(NewLodden { address: self.lodden })
    }

    /// Registers `caller` as a player.
    ///
    /// Rejected for the sentinel identity, for the house, and once two
    /// players are registered.  The first joiner receives the turn.  A lone
    /// already-registered player may join again: the registry is unchanged
    /// and the notification is emitted once more.
    pub fn be_player(&mut self, caller: AccountId) -> (r: Result<NewPlayer, GameError>)
        requires
            old(self).wf(),
        ensures
            final(self).wf(),
            (r is Ok) <==> (!caller.spec_is_zero() && !old(self).spec_is_lodden(caller)
                && old(self).players@.len() < 2),
            caller.spec_is_zero() ==> r == Err::<NewPlayer, GameError>(GameError::NotAuthorized),
            !caller.spec_is_zero() && old(self).spec_is_lodden(caller)
                ==> r == Err::<NewPlayer, GameError>(GameError::RoleConflict),
            !caller.spec_is_zero() && !old(self).spec_is_lodden(caller)
                && old(self).players@.len() == 2
                ==> r == Err::<NewPlayer, GameError>(GameError::CapacityExceeded),
            r is Err ==> *final(self) == *old(self),
            r is Ok ==> r == Ok::<NewPlayer, GameError>((NewPlayer { address: caller })),
            r is Ok && old(self).is_registered(caller) ==> *final(self) == *old(self),
            r is Ok && !old(self).is_registered(caller)
                ==> final(self).players@ == old(self).players@.push((caller, 0)),
            r is Ok && !old(self).is_registered(caller) ==> final(self).is_registered(caller),
            r is Ok ==> final(self).turn == (if old(self).players@.len() == 0 {
                caller
            } else {
                old(self).turn
            }),
            r is Ok ==> final(self).lodden == old(self).lodden
                && final(self).guess == old(self).guess
                && final(self).current_over == old(self).current_over
                && final(self).wait_for_reveal == old(self).wait_for_reveal,
    {
        if caller.is_zero() {
            return Err(GameError::NotAuthorized);
        }
        // can't be both a player and lodden
        if self.is_lodden(caller) {
            return Err(GameError::RoleConflict);
        }
        // max two players
        if self.players.len() == 2 {
            return Err(GameError::CapacityExceeded);
        }
        if self.is_player(caller) {
            // re-joining: the stake is already recorded as zero
        } else {
            self.players.push((caller, 0));
        }
        if self.turn.is_zero() {
            self.turn = caller;
        }
        proof {
            if !old(self).is_registered(caller) {
                let n = old(self).players@.len() as int;
                assert(self.players@ == old(self).players@.push((caller, 0)));
                assert(forall|i: int|
                    0 <= i < n ==> self.players@[i] == old(self).players@[i]);
                assert(self.players@[n].0 == caller);
                assert(self.is_registered(caller));
            }
        }
        Ok(NewPlayer { address: caller })
    }

    /// Sets the house's target number.  Only the house may do so; any value
    /// is accepted, including 0.
    pub fn guess(&mut self, caller: AccountId, guess: u64) -> (r: Result<(), GameError>)
        requires
            old(self).wf(),
        ensures
            final(self).wf(),
            (r is Ok) <==> old(self).spec_is_lodden(caller),
            r is Err ==> r == Err::<(), GameError>(GameError::NotAuthorized),
            r is Err ==> *final(self) == *old(self),
            r is Ok ==> *final(self) == (Loddenthinks { guess, ..*old(self) }),
    {
        if !self.is_lodden(caller) {
            return Err(GameError::NotAuthorized);
        }
        self.guess = guess;
        Ok(())
    }

    /// The registered player who does not hold the turn: in the state this
    /// function is meant for (two distinct players, the turn one of them) it
    /// is the unique other player.
    pub open spec fn not_turn_spec(self) -> AccountId
        recommends
            self.wf(),
            self.players@.len() == 2,
    {
        if self.players@[0].0 != self.turn {
            self.players@[0].0
        } else {
            self.players@[1].0
        }
    }

    /// The first registered player whose identity differs from the turn
    /// holder, or the zero sentinel if there is none.
    pub fn get_not_turn(&self) -> (r: AccountId)
        requires
            self.players@.len() <= 2,
        ensures
            (forall|i: int| 0 <= i < self.players@.len() ==> self.players@[i].0 == self.turn)
                ==> r.spec_is_zero(),
            self.players@.len() >= 1 && self.players@[0].0 != self.turn
                ==> r == self.players@[0].0,
            self.players@.len() == 2 && self.players@[0].0 == self.turn
                && self.players@[1].0 != self.turn ==> r == self.players@[1].0,
            self.players@.len() == 2 && (self.players@[0].0 != self.turn
                || self.players@[1].0 != self.turn) ==> r == self.not_turn_spec(),
    {
        let mut i: usize = 0;
        while i < self.players.len()
            invariant
                0 <= i <= self.players@.len(),
                self.players@.len() <= 2,
                forall|j: int| 0 <= j < i ==> self.players@[j].0 == self.turn,
            decreases self.players@.len() - i,
        {
            if self.players[i].0 != self.turn {
                return self.players[i].0;
            }
            i = i + 1;
        }
        // only reached while fewer than two distinct players are registered
        AccountId::zero()
    }

    /// Hands the turn to the other registered player.
    fn swap_turn(&mut self)
        requires
            old(self).wf(),
            old(self).players@.len() == 2,
        ensures
            final(self).wf(),
            *final(self) == (Loddenthinks { turn: old(self).not_turn_spec(), ..*old(self) }),
            final(self).turn != old(self).turn,
            final(self).is_registered(final(self).turn),
    {
        self.turn = self.get_not_turn();
    }

    /// The winner the round resolves to: the turn holder if the current bid
    /// has reached the target, otherwise the other registered player.
    pub open spec fn winner_spec(self) -> AccountId
        recommends
            self.wf(),
            self.players@.len() == 2,
    {
        if self.current_over >= self.guess {
            self.turn
        } else {
            self.not_turn_spec()
        }
    }

    /// Resolves the round: compares the current bid against the target and
    /// names the winner.  Pure; mutates nothing.
    pub fn winner(&self) -> (r: AccountId)
        requires
            self.wf(),
            self.players@.len() == 2,
        ensures
            r == self.winner_spec(),
    {
        if self.current_over >= self.guess {
            return self.turn;
        }
        self.get_not_turn()
    }

    /// Places a bid of `bet` for `caller`.
    ///
    /// Rejected once a player has stayed, before both players have joined,
    /// when the caller does not hold the turn, and when the amount is below
    /// the current bid (an equal bid is accepted).  On success the bid is
    /// recorded and the turn passes to the other player.
    pub fn bet(&mut self, caller: AccountId, bet: u64) -> (r: Result<Bet, GameError>)
        requires
            old(self).wf(),
        ensures
            final(self).wf(),
            (r is Ok) <==> (!old(self).wait_for_reveal && old(self).players@.len() == 2
                && caller == old(self).turn && bet >= old(self).current_over),
            old(self).wait_for_reveal ==> r == Err::<Bet, GameError>(GameError::InvalidPhase),
            !old(self).wait_for_reveal && old(self).players@.len() != 2
                ==> r == Err::<Bet, GameError>(GameError::InvalidPhase),
            !old(self).wait_for_reveal && old(self).players@.len() == 2
                && caller != old(self).turn
                ==> r == Err::<Bet, GameError>(GameError::NotYourTurn),
            !old(self).wait_for_reveal && old(self).players@.len() == 2
                && caller == old(self).turn && bet < old(self).current_over
                ==> r == Err::<Bet, GameError>(GameError::BidTooLow),
            r is Err ==> *final(self) == *old(self),
            r is Ok ==> final(self).current_over == bet
                && final(self).turn == old(self).not_turn_spec()
                && final(self).turn != caller
                && final(self).is_registered(final(self).turn)
                && final(self).lodden == old(self).lodden
                && final(self).players == old(self).players
                && final(self).guess == old(self).guess
                && !final(self).wait_for_reveal,
            r is Ok ==> r == Ok::<Bet, GameError>((Bet {
                current_over: bet,
                turn: old(self).not_turn_spec(),
            })),
    {
        if self.wait_for_reveal {
            // the round has ended; no further bids are accepted
            return Err(GameError::InvalidPhase);
        }
        if self.players.len() != 2 {
            return Err(GameError::InvalidPhase);
        }
        if !self.is_turn(caller) {
            return Err(GameError::NotYourTurn);
        }
        if bet < self.current_over {
            return Err(GameError::BidTooLow);
        }
        self.current_over = bet;
        self.swap_turn();
        Ok(Bet { current_over: self.current_over, turn: self.turn })
    }

    /// Declines to raise: ends the bidding round for `caller`.
    ///
    /// Rejected before both players have joined or when the caller does not
    /// hold the turn.  On success the game awaits the reveal and the
    /// resolved winner is reported.
    pub fn stay(&mut self, caller: AccountId) -> (r: Result<GameResult, GameError>)
        requires
            old(self).wf(),
        ensures
            final(self).wf(),
            (r is Ok) <==> (old(self).players@.len() == 2 && caller == old(self).turn),
            old(self).players@.len() != 2
                ==> r == Err::<GameResult, GameError>(GameError::InvalidPhase),
            old(self).players@.len() == 2 && caller != old(self).turn
                ==> r == Err::<GameResult, GameError>(GameError::NotYourTurn),
            r is Err ==> *final(self) == *old(self),
            r is Ok ==> *final(self) == (Loddenthinks { wait_for_reveal: true, ..*old(self) }),
            r is Ok ==> r == Ok::<GameResult, GameError>((GameResult {
                winner: old(self).winner_spec(),
            })),
    {
        if self.players.len() != 2 {
            return Err(GameError::InvalidPhase);
        }
        if !self.is_turn(caller) {
            return Err(GameError::NotYourTurn);
        }
        self.wait_for_reveal = true;
        let w = self.winner();
        Ok(GameResult { winner: w })
    }

    /// Acknowledges the end of the round.  Only the house may call it, and
    /// only once a player has stayed.  The round's target was stored in
    /// plain sight all along, so nothing remains to disclose: the call
    /// changes no state.
    pub fn reveal_round(&mut self, caller: AccountId) -> (r: Result<(), GameError>)
        requires
            old(self).wf(),
        ensures
            *final(self) == *old(self),
            (r is Ok) <==> (old(self).spec_is_lodden(caller) && old(self).wait_for_reveal),
            !old(self).spec_is_lodden(caller)
                ==> r == Err::<(), GameError>(GameError::NotAuthorized),
            old(self).spec_is_lodden(caller) && !old(self).wait_for_reveal
                ==> r == Err::<(), GameError>(GameError::InvalidPhase),
    {
        if !self.is_lodden(caller) {
            return Err(GameError::NotAuthorized);
        }
        if !self.wait_for_reveal {
            return Err(GameError::InvalidPhase);
        }
        Ok(())
    }
}

/// The house identity is never one of the registered players, however the
/// roles were claimed.
pub proof fn lemma_house_not_player(g: Loddenthinks, a: AccountId)
    requires
        g.wf(),
        g.is_registered(a),
    ensures
        a != g.lodden,
{
}

/// Once both players have joined, the turn holder is one of exactly the two
/// registered identities, and those identities are distinct.
pub proof fn lemma_turn_one_of_two(g: Loddenthinks)
    requires
        g.wf(),
        g.players@.len() == 2,
    ensures
        g.turn == g.players@[0].0 || g.turn == g.players@[1].0,
        g.players@[0].0 != g.players@[1].0,
{
}

/// Resolution: the winner is the turn holder exactly when the current bid
/// has reached the target; otherwise the winner is the other registered
/// player.  Either way the winner is a registered player.
pub proof fn lemma_resolution(g: Loddenthinks)
    requires
        g.wf(),
        g.players@.len() == 2,
    ensures
        (g.winner_spec() == g.turn) <==> (g.current_over >= g.guess),
        g.current_over < g.guess ==> g.winner_spec() == g.not_turn_spec(),
        g.is_registered(g.winner_spec()),
{
}

} // verus!
