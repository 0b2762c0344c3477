//! The game log: one plain line per player, table and hand event, keyed by
//! domain (`PLAYER`, `TABLE`, `HAND`).

use vstd::prelude::*;
use crate::decimal::{dec_int, dec_nat, fmt_i64, push_dec};
use crate::hand_messages::{ActionTaken, BlindPosted, CardsDealt, HandComplete, HandStarted, PlayerJoined, PotAwarded, TableCreated};
use crate::hexfmt::{fmt_player_short, short_id_spec};
use crate::messages::{amount_of, amount_or_zero, FundsDeposited, GameVariant, PlayerRegistered};
use crate::pretty::texts;
use crate::text::{join, joined};

verus! {

/// What `format!("{:?}", s)` makes of a string: its quoted, escaped form.
pub uninterp spec fn debug_text(s: Seq<char>) -> Seq<char>;

/// `<str as Debug>::fmt`, taken through `format!("{:?}", ..)`. The result is
/// named by `debug_text`; the escaping rules are not restated here.
#[verifier::external_body]
fn debug_str(s: &str) -> (r: String)
    ensures
        r@ == debug_text(s@),
{
    format!("{:?}", s)
}

/// The number a game variant travels as.
pub open spec fn variant_number(v: GameVariant) -> int {
    match v {
        GameVariant::Unspecified => 0,
        GameVariant::TexasHoldem => 1,
        GameVariant::Omaha => 2,
        GameVariant::FiveCardDraw => 3,
    }
}

fn variant_wire(v: GameVariant) -> (n: i64)
    ensures
        n == variant_number(v),
{
    match v {
        GameVariant::Unspecified => 0,
        GameVariant::TexasHoldem => 1,
        GameVariant::Omaha => 2,
        GameVariant::FiveCardDraw => 3,
    }
}

/// The decimal digits of a count.
fn count_text(n: usize) -> (s: String)
    ensures
        s@ == dec_nat(n as nat),
{
    push_dec(String::new(), n as u64)
}

/// A player's short identity: hex of at most the first four bytes of its root.
pub fn truncate_id(player_root: &[u8]) -> (s: String)
    ensures
        s@ == short_id_spec(player_root@),
{
    fmt_player_short(player_root)
}

/// The game log projector.
pub struct OutputProjector;

pub open spec fn winners_text(w: Seq<crate::hand_messages::PotWinner>) -> Seq<char> {
    joined(
        w.map_values(
            |x: crate::hand_messages::PotWinner| short_id_spec(x.player_root@) + " wins "@ + dec_int(x.amount as int),
        ),
        ", "@,
    )
}

impl OutputProjector {
    pub fn project_registered(&self, event: &PlayerRegistered) -> (s: String)
        ensures
            s@ == "PLAYER registered: "@ + event.display_name@ + " ("@ + event.email@ + ")"@,
    {
        String::from_str("PLAYER registered: ").concat(event.display_name.as_str()).concat(" (").concat(
            event.email.as_str(),
        ).concat(")")
    }

    pub fn project_deposited(&self, event: &FundsDeposited) -> (s: String)
        ensures
            s@ == "PLAYER deposited "@ + dec_int(amount_or_zero(event.amount)) + ", balance: "@ + dec_int(
                amount_or_zero(event.new_balance),
            ),
    {
        String::from_str("PLAYER deposited ").concat(fmt_i64(amount_of(&event.amount)).as_str()).concat(
            ", balance: ",
        ).concat(fmt_i64(amount_of(&event.new_balance)).as_str())
    }

    pub fn project_table_created(&self, event: &TableCreated) -> (s: String)
        ensures
            s@ == "TABLE created: "@ + event.table_name@ + " (variant "@ + dec_int(variant_number(event.game_variant))
                + ")"@,
    {
        String::from_str("TABLE created: ").concat(event.table_name.as_str()).concat(" (variant ").concat(
            fmt_i64(variant_wire(event.game_variant)).as_str(),
        ).concat(")")
    }

    pub fn project_player_joined(&self, event: &PlayerJoined) -> (s: String)
        ensures
            s@ == "TABLE player "@ + short_id_spec(event.player_root@) + " joined with "@ + dec_int(event.stack as int)
                + " chips"@,
    {
        String::from_str("TABLE player ").concat(truncate_id(event.player_root.as_slice()).as_str()).concat(
            " joined with ",
        ).concat(fmt_i64(event.stack).as_str()).concat(" chips")
    }

    pub fn project_hand_started(&self, event: &HandStarted) -> (s: String)
        ensures
            s@ == "TABLE hand #"@ + dec_int(event.hand_number as int) + " started, "@ + dec_nat(
                event.active_players@.len(),
            ) + " players, dealer at position "@ + dec_int(event.dealer_position as int),
    {
        String::from_str("TABLE hand #").concat(fmt_i64(event.hand_number).as_str()).concat(" started, ").concat(
            count_text(event.active_players.len()).as_str(),
        ).concat(" players, dealer at position ").concat(fmt_i64(event.dealer_position as i64).as_str())
    }

    pub fn project_cards_dealt(&self, event: &CardsDealt) -> (s: String)
        ensures
            s@ == "HAND cards dealt to "@ + dec_nat(event.player_cards@.len()) + " players"@,
    {
        String::from_str("HAND cards dealt to ").concat(count_text(event.player_cards.len()).as_str()).concat(" players")
    }

    pub fn project_blind_posted(&self, event: &BlindPosted) -> (s: String)
        ensures
            s@ == "HAND player "@ + short_id_spec(event.player_root@) + " posted "@ + debug_text(event.blind_type@)
                + " blind: "@ + dec_int(event.amount as int),
    {
        String::from_str("HAND player ").concat(truncate_id(event.player_root.as_slice()).as_str()).concat(
            " posted ",
        ).concat(debug_str(event.blind_type.as_str()).as_str()).concat(" blind: ").concat(fmt_i64(event.amount).as_str())
    }

    pub fn project_action_taken(&self, event: &ActionTaken) -> (s: String)
        ensures
            s@ == "HAND player "@ + short_id_spec(event.player_root@) + ": "@ + dec_int(event.action as int)
                + " "@ + dec_int(event.amount as int),
    {
        String::from_str("HAND player ").concat(truncate_id(event.player_root.as_slice()).as_str()).concat(": ").concat(
            fmt_i64(event.action as i64).as_str(),
        ).concat(" ").concat(fmt_i64(event.amount).as_str())
    }

    pub fn project_pot_awarded(&self, event: &PotAwarded) -> (s: String)
        ensures
            s@ == "HAND pot awarded: "@ + winners_text(event.winners@),
    {
        let ghost want = event.winners@.map_values(
            |x: crate::hand_messages::PotWinner| short_id_spec(x.player_root@) + " wins "@ + dec_int(x.amount as int),
        );
        let mut parts: Vec<String> = Vec::new();
        let mut i: usize = 0;
        while i < event.winners.len()
            invariant
                i <= event.winners@.len(),
                want == event.winners@.map_values(
                    |x: crate::hand_messages::PotWinner| short_id_spec(x.player_root@) + " wins "@ + dec_int(
                        x.amount as int,
                    ),
                ),
                texts(parts@) == want.subrange(0, i as int),
            decreases event.winners@.len() - i,
        {
            let w = &event.winners[i];
            let ghost before = parts@;
            parts.push(truncate_id(w.player_root.as_slice()).concat(" wins ").concat(fmt_i64(w.amount).as_str()));
            proof {
                assert(texts(before).len() == before.len());
                assert forall|k: int| 0 <= k < parts@.len() implies #[trigger] texts(parts@)[k] == want.subrange(0, i + 1)[k] by {
                    if k < i {
                        assert(parts@[k] == before[k]);
                        assert(texts(before)[k] == want.subrange(0, i as int)[k]);
                    }
                }
                assert(texts(parts@) =~= want.subrange(0, i + 1));
            }
            i = i + 1;
        }
        proof {
            assert(want.subrange(0, want.len() as int) =~= want);
        }
        String::from_str("HAND pot awarded: ").concat(join(&parts, ", ").as_str())
    }

    pub fn project_hand_complete(&self, event: &HandComplete) -> (s: String)
        ensures
            s@ == "HAND #"@ + dec_int(event.hand_number as int) + " complete"@,
    {
        String::from_str("HAND #").concat(fmt_i64(event.hand_number).as_str()).concat(" complete")
    }
}

} // verus!
