//! Live-data acquisition for a game client's loopback API: decode diagnostics,
//! the polling state machine, the record types of the API and the statistics
//! derived from a snapshot.

pub mod diagnostics;
pub mod json;
pub mod poller;
pub mod records;
pub mod slot;
pub mod stats;

pub use diagnostics::{context_bounds, DecodeError};
pub use json::decode_json;
pub use poller::{Action, Event, FetchOutcome, Mode, Poller, ACTIVE_WAIT_MS, IDLE_WAIT_MS};
pub use records::{Abilities, AbilityInfo, Item, Rune, RuneType, SummonerSpell, SummonerSpells};
pub use stats::{find_player, item_gold, player_name};
pub use slot::LatestSlot;
