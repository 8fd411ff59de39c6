use vizmat::client::{
    after_send, forward_snapshot, handle_socket_message, poll_websocket_stream, publish,
    setup_websocket_stream, ConnectorStep, SocketMessage,
};
use vizmat::scene::{refresh_atoms_system, Scene};
use vizmat::structure::{load_crystal, update_crystal_system, Atom, UpdateStructure};

fn atom(element: &str, x: f32, y: f32, z: f32) -> Atom {
    Atom::new(element, x.to_bits(), y.to_bits(), z.to_bits())
}

fn water() -> Vec<Atom> {
    vec![
        atom("O", 0.0, 0.0, 0.0),
        atom("H", 0.757, 0.587, 0.0),
        atom("H", -0.757, 0.587, 0.0),
    ]
}

#[test]
fn poll_of_an_empty_channel_gives_nothing() {
    let (_sender, stream) = setup_websocket_stream();
    let mut events = Vec::new();
    poll_websocket_stream(&stream, &mut events);
    assert!(events.is_empty());
}

#[test]
fn poll_drains_in_arrival_order() {
    let (sender, stream) = setup_websocket_stream();
    for n in 0..4 {
        assert!(forward_snapshot(&sender, vec![atom("C", n as f32, 0.0, 0.0)]));
    }
    let mut events = Vec::new();
    poll_websocket_stream(&stream, &mut events);
    let firsts: Vec<f32> = events.iter().map(|e| f32::from_bits(e.atoms[0].x)).collect();
    assert_eq!(firsts, vec![0.0, 1.0, 2.0, 3.0]);
    poll_websocket_stream(&stream, &mut events);
    assert_eq!(events.len(), 4);
}

#[test]
fn poll_keeps_earlier_events_in_front() {
    let (sender, stream) = setup_websocket_stream();
    let mut events = vec![UpdateStructure { atoms: water() }];
    assert!(forward_snapshot(&sender, Vec::new()));
    poll_websocket_stream(&stream, &mut events);
    assert_eq!(events, vec![UpdateStructure { atoms: water() }, UpdateStructure { atoms: Vec::new() }]);
}

#[test]
fn poll_after_the_source_is_gone_still_drains() {
    let (sender, stream) = setup_websocket_stream();
    assert!(forward_snapshot(&sender, water()));
    drop(sender);
    let mut events = Vec::new();
    poll_websocket_stream(&stream, &mut events);
    assert_eq!(events, vec![UpdateStructure { atoms: water() }]);
}

#[test]
fn a_hundred_snapshots_arrive_in_order() {
    let (sender, stream) = setup_websocket_stream();
    let second = sender.clone();
    for n in 0..100 {
        let end = if n % 2 == 0 { &sender } else { &second };
        assert!(forward_snapshot(end, vec![atom("C", n as f32, 0.0, 0.0)]));
    }
    let mut events = Vec::new();
    poll_websocket_stream(&stream, &mut events);
    assert_eq!(events.len(), 100);
    for (n, event) in events.iter().enumerate() {
        assert_eq!(f32::from_bits(event.atoms[0].x), n as f32);
    }
}

#[test]
fn store_after_draining_holds_the_last_snapshot() {
    let (sender, stream) = setup_websocket_stream();
    let mut crystal = load_crystal();
    for n in 1..=6 {
        let atoms = (0..n).map(|k| atom("S", k as f32, n as f32, 0.0)).collect();
        assert!(forward_snapshot(&sender, atoms));
        if n % 2 == 0 {
            let mut events = Vec::new();
            poll_websocket_stream(&stream, &mut events);
            update_crystal_system(&mut crystal, &events);
        }
    }
    let last: Vec<Atom> = (0..6).map(|k| atom("S", k as f32, 6.0, 0.0)).collect();
    assert_eq!(crystal.atoms, last);
}

#[test]
fn water_then_empty_drained_in_one_tick_clears_the_scene() {
    let (sender, stream) = setup_websocket_stream();
    let mut crystal = load_crystal();
    let mut scene = Scene::new();
    refresh_atoms_system(&mut crystal, &mut scene);
    assert_eq!(scene.entities.len(), 3);
    assert_eq!(
        handle_socket_message(&sender, SocketMessage::Snapshot(water())),
        ConnectorStep::Continue
    );
    assert_eq!(
        handle_socket_message(&sender, SocketMessage::Snapshot(Vec::new())),
        ConnectorStep::Continue
    );
    let mut events = Vec::new();
    poll_websocket_stream(&stream, &mut events);
    assert_eq!(events.len(), 2);
    update_crystal_system(&mut crystal, &events);
    refresh_atoms_system(&mut crystal, &mut scene);
    assert!(crystal.atoms.is_empty());
    assert!(scene.entities.is_empty());
}

#[test]
fn publish_appends_a_snapshot_and_stops_at_none() {
    let mut events = Vec::new();
    assert!(publish(Some(UpdateStructure { atoms: water() }), &mut events));
    assert_eq!(events, vec![UpdateStructure { atoms: water() }]);
    assert!(!publish(None, &mut events));
    assert_eq!(events.len(), 1);
}

#[test]
fn send_to_a_closed_channel_stops_the_source() {
    let (sender, stream) = setup_websocket_stream();
    drop(stream);
    assert!(!forward_snapshot(&sender, water()));
    assert_eq!(
        handle_socket_message(&sender, SocketMessage::Snapshot(water())),
        ConnectorStep::Stop
    );
}

#[test]
fn close_and_failure_stop_the_source() {
    let (sender, _stream) = setup_websocket_stream();
    assert_eq!(handle_socket_message(&sender, SocketMessage::Closed), ConnectorStep::Stop);
    assert_eq!(handle_socket_message(&sender, SocketMessage::Failed), ConnectorStep::Stop);
}

#[test]
fn malformed_and_other_messages_are_passed_over() {
    let (sender, stream) = setup_websocket_stream();
    assert_eq!(handle_socket_message(&sender, SocketMessage::Malformed), ConnectorStep::Continue);
    assert_eq!(handle_socket_message(&sender, SocketMessage::Other), ConnectorStep::Continue);
    let mut events = Vec::new();
    poll_websocket_stream(&stream, &mut events);
    assert!(events.is_empty());
}

#[test]
fn after_send_goes_on_only_if_delivered() {
    assert_eq!(after_send(true), ConnectorStep::Continue);
    assert_eq!(after_send(false), ConnectorStep::Stop);
}
