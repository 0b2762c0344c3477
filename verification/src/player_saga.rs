//! The player-to-table saga: a player stepping away from, or back to, play
//! becomes a fact on the table it sits at.

use vstd::prelude::*;
use crate::envelope::{cover_root, cover_root_of, copy_bytes, now, Cover, EventBook, EventPage, ProtoUuid, SagaResponse, SequenceType};
use crate::hand_messages::{PlayerReturningToPlay, PlayerSatIn, PlayerSatOut, PlayerSittingOut};
use crate::hexfmt::{hex_encode, hex_lower};
use crate::messages::PlayerRegistered;

verus! {

/// Facts the saga records on a table.
#[derive(Debug, Clone, PartialEq, Eq)]
pub enum TableFact {
    PlayerSatOut(PlayerSatOut),
    PlayerSatIn(PlayerSatIn),
}

/// What the saga hands back: no commands, facts for the table.
pub type TableSagaResponse = SagaResponse<(), TableFact>;

/// `r` records on table `table_root` one fact, sequenced by the stable
/// external id `external_id`.
pub open spec fn one_table_fact(r: TableSagaResponse, table_root: Seq<u8>, external_id: Seq<char>) -> bool {
    &&& r.commands@.len() == 0
    &&& r.events@.len() == 1
    &&& r.events@[0].cover is Some
    &&& r.events@[0].cover->0.domain@ == "table"@
    &&& r.events@[0].cover->0.root is Some
    &&& r.events@[0].cover->0.root->0.value@ == table_root
    &&& r.events@[0].cover->0.correlation_id@.len() == 0
    &&& r.events@[0].pages@.len() == 1
    &&& r.events@[0].pages@[0].created_at is Some
    &&& r.events@[0].pages@[0].sequence is ExternalDeferred
    &&& r.events@[0].pages@[0].sequence->ExternalDeferred_0@ == external_id
}

/// The fact of a saga response.
pub open spec fn fact_of(r: TableSagaResponse) -> TableFact {
    r.events@[0].pages@[0].event
}

fn fact_book(table_root: &Vec<u8>, fact: TableFact, external_id: String) -> (b: EventBook<TableFact>)
    ensures
        b.cover is Some,
        b.cover->0.domain@ == "table"@,
        b.cover->0.root is Some,
        b.cover->0.root->0.value@ == table_root@,
        b.cover->0.correlation_id@.len() == 0,
        b.pages@.len() == 1,
        b.pages@[0].sequence == SequenceType::ExternalDeferred(external_id),
        b.pages@[0].created_at is Some,
        b.pages@[0].event == fact,
{
    let cover = Cover {
        domain: String::from_str("table"),
        root: Some(ProtoUuid { value: copy_bytes(table_root) }),
        correlation_id: String::new(),
    };
    let mut pages: Vec<EventPage<TableFact>> = Vec::new();
    pages.push(EventPage {
        sequence: SequenceType::ExternalDeferred(external_id),
        created_at: Some(now()),
        event: fact,
    });
    EventBook { cover: Some(cover), pages }
}

/// The player-to-table saga.
pub struct PlayerTableSaga;

impl PlayerTableSaga {
    /// `PlayerSittingOut`: the table records `PlayerSatOut` for the player
    /// whose stream raised it, once per player (`sitout-<hex root>`).
    pub fn on_player_sitting_out(&self, event: PlayerSittingOut, source_cover: Option<Cover>) -> (r: TableSagaResponse)
        ensures
            one_table_fact(r, event.table_root@, "sitout-"@ + hex_lower(cover_root(source_cover))),
            fact_of(r) is PlayerSatOut,
            fact_of(r)->PlayerSatOut_0.player_root@ == cover_root(source_cover),
            fact_of(r)->PlayerSatOut_0.sat_out_at == event.sat_out_at,
    {
        let player_root = cover_root_of(&source_cover);
        let external_id = String::from_str("sitout-").concat(hex_encode(player_root.as_slice()).as_str());
        let fact = PlayerSatOut { player_root, sat_out_at: event.sat_out_at };
        let mut events: Vec<EventBook<TableFact>> = Vec::new();
        events.push(fact_book(&event.table_root, TableFact::PlayerSatOut(fact), external_id));
        SagaResponse { commands: Vec::new(), events }
    }

    /// `PlayerReturningToPlay`: the table records `PlayerSatIn` for the
    /// player whose stream raised it, once per player (`sitin-<hex root>`).
    pub fn on_player_returning_to_play(&self, event: PlayerReturningToPlay, source_cover: Option<Cover>) -> (r:
        TableSagaResponse)
        ensures
            one_table_fact(r, event.table_root@, "sitin-"@ + hex_lower(cover_root(source_cover))),
            fact_of(r) is PlayerSatIn,
            fact_of(r)->PlayerSatIn_0.player_root@ == cover_root(source_cover),
            fact_of(r)->PlayerSatIn_0.sat_in_at == event.sat_in_at,
    {
        let player_root = cover_root_of(&source_cover);
        let external_id = String::from_str("sitin-").concat(hex_encode(player_root.as_slice()).as_str());
        let fact = PlayerSatIn { player_root, sat_in_at: event.sat_in_at };
        let mut events: Vec<EventBook<TableFact>> = Vec::new();
        events.push(fact_book(&event.table_root, TableFact::PlayerSatIn(fact), external_id));
        SagaResponse { commands: Vec::new(), events }
    }
}

/// The player stream's upcaster: `PlayerRegistered` is carried over as it is.
pub fn upcast_player_registered(old: PlayerRegistered) -> (r: PlayerRegistered)
    ensures
        r == old,
{
    old
}

} // verus!
