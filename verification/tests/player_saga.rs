use poker_domain::envelope::{Cover, ProtoUuid, SequenceType, Timestamp};
use poker_domain::hand_messages::{PlayerReturningToPlay, PlayerSittingOut};
use hex::encode as hex_encode;
use poker_domain::messages::{PlayerRegistered, PlayerType};
use poker_domain::player_saga::{upcast_player_registered, PlayerTableSaga, TableFact};

fn player_cover(player_root: Vec<u8>) -> Option<Cover> {
    Some(Cover {
        domain: "player".to_string(),
        root: Some(ProtoUuid { value: player_root }),
        correlation_id: String::new(),
    })
}

#[test]
fn sitting_out_emits_fact_to_table_with_player_root_from_source_cover() {
    let saga = PlayerTableSaga;
    let player_root = vec![0x11; 16];
    let resp = saga.on_player_sitting_out(
        PlayerSittingOut {
            table_root: vec![0xaa],
            sat_out_at: None,
        },
        player_cover(player_root.clone()),
    );
    assert!(resp.commands.is_empty());
    assert_eq!(resp.events.len(), 1);

    let cover = resp.events[0].cover.as_ref().expect("cover");
    assert_eq!(cover.domain, "table");
    assert_eq!(cover.root.as_ref().expect("root").value, vec![0xaa]);

    match &resp.events[0].pages[0].event {
        TableFact::PlayerSatOut(fact) => assert_eq!(fact.player_root, player_root),
        other => panic!("expected PlayerSatOut, got {:?}", other),
    }

    match &resp.events[0].pages[0].sequence {
        SequenceType::ExternalDeferred(external_id) => {
            assert_eq!(
                *external_id,
                format!("sitout-{}", hex_encode(&player_root))
            );
        }
        other => panic!("expected ExternalDeferred, got {:?}", other),
    }
}

#[test]
fn returning_emits_fact_to_table_with_player_root_from_source_cover() {
    let saga = PlayerTableSaga;
    let player_root = vec![0x22; 16];
    let resp = saga.on_player_returning_to_play(
        PlayerReturningToPlay {
            table_root: vec![0xbb],
            sat_in_at: None,
        },
        player_cover(player_root.clone()),
    );
    assert_eq!(resp.events.len(), 1);
    match &resp.events[0].pages[0].event {
        TableFact::PlayerSatIn(fact) => assert_eq!(fact.player_root, player_root),
        other => panic!("expected PlayerSatIn, got {:?}", other),
    }
}

#[test]
fn sitting_out_with_no_source_cover_leaves_player_root_empty() {
    let saga = PlayerTableSaga;
    let resp = saga.on_player_sitting_out(
        PlayerSittingOut {
            table_root: vec![0xaa],
            sat_out_at: None,
        },
        None,
    );
    match &resp.events[0].pages[0].event {
        TableFact::PlayerSatOut(fact) => assert!(fact.player_root.is_empty()),
        other => panic!("expected PlayerSatOut, got {:?}", other),
    }
    assert_eq!(
        resp.events[0].pages[0].sequence,
        SequenceType::ExternalDeferred("sitout-".to_string())
    );
}

#[test]
fn returning_uses_sitin_external_id_and_keeps_timestamp() {
    let at = Timestamp {
        seconds: 1_700_000_000,
        nanos: 5,
    };
    let resp = PlayerTableSaga.on_player_returning_to_play(
        PlayerReturningToPlay {
            table_root: vec![0x01, 0x02],
            sat_in_at: Some(at),
        },
        player_cover(vec![0xab, 0x01]),
    );
    assert_eq!(
        resp.events[0].pages[0].sequence,
        SequenceType::ExternalDeferred("sitin-ab01".to_string())
    );
    match &resp.events[0].pages[0].event {
        TableFact::PlayerSatIn(fact) => assert_eq!(fact.sat_in_at, Some(at)),
        other => panic!("expected PlayerSatIn, got {:?}", other),
    }
}

#[test]
fn upcaster_passes_registration_through() {
    let old = PlayerRegistered {
        display_name: "Bo".into(),
        email: "bo@x".into(),
        player_type: PlayerType::Ai,
        ai_model_id: "m1".into(),
        registered_at: None,
    };
    assert_eq!(upcast_player_registered(old.clone()), old);
}

#[test]
fn dispatch_player_sitting_out_emits_player_sat_out_fact_to_table() {
    let table_root = vec![0xAA; 16];
    let player_root = vec![0x33; 16];
    let resp = PlayerTableSaga.on_player_sitting_out(
        PlayerSittingOut {
            table_root: table_root.clone(),
            sat_out_at: None,
        },
        player_cover(player_root.clone()),
    );
    assert!(resp.commands.is_empty(), "expected no commands");
    assert_eq!(resp.events.len(), 1, "expected one fact emitted");
    let fact = &resp.events[0];
    let cover = fact.cover.as_ref().expect("cover set");
    assert_eq!(cover.domain, "table");
    assert_eq!(cover.root.as_ref().expect("root set").value, table_root);
    match &fact.pages[0].event {
        TableFact::PlayerSatOut(decoded) => {
            assert_eq!(decoded.sat_out_at, None);
            assert_eq!(decoded.player_root, player_root);
        }
        other => panic!("expected PlayerSatOut, got {:?}", other),
    }
    assert_eq!(
        fact.pages[0].sequence,
        SequenceType::ExternalDeferred(format!("sitout-{}", hex_encode(&player_root)))
    );
}

#[test]
fn dispatch_player_returning_to_play_emits_player_sat_in_fact_to_table() {
    let table_root = vec![0xBB; 16];
    let player_root = vec![0x44; 16];
    let resp = PlayerTableSaga.on_player_returning_to_play(
        PlayerReturningToPlay {
            table_root: table_root.clone(),
            sat_in_at: None,
        },
        player_cover(player_root.clone()),
    );
    assert!(resp.commands.is_empty());
    assert_eq!(resp.events.len(), 1);
    let fact = &resp.events[0];
    let cover = fact.cover.as_ref().expect("cover set");
    assert_eq!(cover.domain, "table");
    assert_eq!(cover.root.as_ref().expect("root set").value, table_root);
    match &fact.pages[0].event {
        TableFact::PlayerSatIn(decoded) => assert_eq!(decoded.player_root, player_root),
        other => panic!("expected PlayerSatIn, got {:?}", other),
    }
}
