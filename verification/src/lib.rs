//! A two-player wagering game mediated by a neutral "lodden" (house) role.
//!
//! The lodden commits to a target number; two players alternately raise a
//! bid; when a player stays, the last bid is compared against the target to
//! decide the winner.  Every operation takes the calling identity as an
//! explicit parameter, returns the notification it emits on success, and
//! reports the precise reason on failure.

mod account;
mod game;

pub use account::AccountId;
pub use game::Bet;
pub use game::GameError;
pub use game::GameResult;
pub use game::Loddenthinks;
pub use game::NewLodden;
pub use game::NewPlayer;
