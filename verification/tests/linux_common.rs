use reflex_instrument::linux_common::{
    is_probe_port, is_probe_sport_hibyte, looks_like_client_hello, steer_fate, steer_mode_of, Fate,
    FlowAction, FlowEvent, SteerMode, SteerStat, Sighting, DIR_DOWNSTREAM, DIR_UPSTREAM,
    PROBE_PORT_HI, PROBE_PORT_LO, PROBE_SPORT_HIBYTE, SIGHT_BYTES, STEER_STAT_SLOTS, TCP_ACK, TCP_SYN,
};

#[test]
fn each_known_code_means_its_own_mode() {
    assert_eq!(steer_mode_of(0), SteerMode::Surgical);
    assert_eq!(steer_mode_of(1), SteerMode::All443);
    assert_eq!(steer_mode_of(2), SteerMode::ByMap);
}

#[test]
fn an_unknown_code_falls_back_to_lifting_everything() {
    assert_eq!(steer_mode_of(3), SteerMode::All443);
    assert_eq!(steer_mode_of(255), SteerMode::All443);
}

#[test]
fn surgical_non_target_always_transit() {
    assert_eq!(steer_fate(false, false), Fate::Transit);
    assert_eq!(steer_fate(false, true), Fate::Transit);
}

#[test]
fn guarded_fail_open_when_carrier_not_ready() {
    assert_eq!(steer_fate(true, false), Fate::Transit);
}

#[test]
fn target_owned_when_carrier_ready() {
    assert_eq!(steer_fate(true, true), Fate::Owned);
}

#[test]
fn steer_stat_slots_are_dense_and_ordered() {
    assert_eq!(SteerStat::all().len(), STEER_STAT_SLOTS as usize);
    for (idx, stat) in SteerStat::all().iter().enumerate() {
        assert_eq!(stat.slot(), idx as u32, "слот {} не на своём индексе", stat.label());
        assert_eq!(*stat as u32, idx as u32, "слот {} не на своём индексе", stat.label());
    }
}

#[test]
fn fate_projects_to_flow_action() {
    assert_eq!(Fate::Owned.action(), FlowAction::Steer);
    assert_eq!(Fate::Transit.action(), FlowAction::Pass);
}

#[test]
fn flow_action_codes_are_the_table_bytes() {
    assert_eq!(FlowAction::Pass.code(), 0);
    assert_eq!(FlowAction::Drop.code(), 1);
    assert_eq!(FlowAction::CopyAndDrop.code(), 2);
    assert_eq!(FlowAction::Steer.code(), 3);
}

#[test]
fn probe_port_range_recognizes_hairpin_not_clients() {
    assert!(is_probe_port(PROBE_PORT_LO), "низ диапазона");
    assert!(is_probe_port(PROBE_PORT_HI), "верх диапазона");
    assert!(is_probe_port(65400), "внутри диапазона");
    assert!(is_probe_sport_hibyte(PROBE_SPORT_HIBYTE));
    assert_eq!((PROBE_PORT_LO >> 8) as u8, PROBE_SPORT_HIBYTE);
    assert_eq!((PROBE_PORT_HI >> 8) as u8, PROBE_SPORT_HIBYTE);
    assert!(!is_probe_port(32768) && !is_probe_port(60999));
    assert!(!is_probe_sport_hibyte((60999u16 >> 8) as u8));
    assert!(!is_probe_port(PROBE_PORT_LO - 1), "ниже диапазона — не проба");
}

#[test]
fn sighting_layout_is_fixed() {
    assert_eq!(std::mem::size_of::<Sighting>(), 24 + SIGHT_BYTES);
    assert_eq!(std::mem::align_of::<Sighting>(), 4);
}

#[test]
fn sighting_addresses_the_flow_not_just_the_target() {
    let s = Sighting {
        dst: u32::from_be_bytes([128, 75, 236, 12]).to_be(),
        src: u32::from_be_bytes([192, 168, 2, 50]).to_be(),
        seq: 1000u32.to_be(),
        ack: 7777u32.to_be(),
        dport: 443u16.to_be(),
        sport: 51000u16.to_be(),
        len: 0,
        _pad: 0,
        bytes: [0; SIGHT_BYTES],
    };

    assert_eq!(
        (u32::from_be(s.src), u16::from_be(s.sport)),
        (u32::from_be_bytes([192, 168, 2, 50]), 51000),
        "адресат лечения — клиент, и он обязан быть в наблюдении"
    );
    assert_eq!(
        u32::from_be(s.ack),
        7777,
        "номер, которого клиент ждёт от сервера: кадр вне окна клиент отбросит молча"
    );
}

#[test]
fn sighting_payload_is_only_what_was_copied() {
    let head = [0x16u8, 0x03, 0x01];
    let mut bytes = [0xAAu8; SIGHT_BYTES];
    bytes[..3].copy_from_slice(&head);
    let s = Sighting { dst: 0, src: 0, seq: 0, ack: 0, dport: 0, sport: 0, len: 3, _pad: 0, bytes };
    assert_eq!(s.payload(), &head);

    let broken = Sighting {
        dst: 0,
        src: 0,
        seq: 0,
        ack: 0,
        dport: 0,
        sport: 0,
        len: u16::MAX,
        _pad: 0,
        bytes: [0; SIGHT_BYTES],
    };
    assert_eq!(broken.payload().len(), SIGHT_BYTES);
}

#[test]
fn sight_gate_admits_client_hello_and_rejects_the_rest() {
    assert!(looks_like_client_hello(&[0x16, 0x03, 0x01, 0x02, 0x00, 0x01]));
    assert!(!looks_like_client_hello(&[0x16, 0x03, 0x03, 0x00, 0x46, 0x10]));
    assert!(!looks_like_client_hello(&[0x16, 0x03, 0x03, 0x00, 0x20, 0x14]));
    assert!(!looks_like_client_hello(&[0x17, 0x03, 0x03, 0x00, 0x20, 0x01]));
    assert!(!looks_like_client_hello(&[0x16, 0x00, 0x01, 0x02, 0x00, 0x01]));
    assert!(!looks_like_client_hello(&[]));
    assert!(!looks_like_client_hello(&[0x16, 0x03, 0x01, 0x02, 0x00]));
}

#[test]
fn flow_event_layout_is_fixed_16_bytes() {
    assert_eq!(std::mem::size_of::<FlowEvent>(), 16);
    assert_eq!(std::mem::align_of::<FlowEvent>(), 4);
}

#[test]
fn flow_event_reads_flags_and_dir() {
    let synack = FlowEvent {
        src: 0,
        dst: 0,
        sport: 0,
        dport: 0,
        payload_len: 0,
        flags: TCP_SYN | TCP_ACK,
        dir: DIR_DOWNSTREAM,
    };
    assert!(synack.has_syn() && synack.has_ack());
    assert!(!synack.has_rst() && !synack.has_payload());
    assert!(!synack.is_upstream());

    let hello = FlowEvent {
        src: 0,
        dst: 0,
        sport: 0,
        dport: 0,
        payload_len: 517,
        flags: TCP_ACK,
        dir: DIR_UPSTREAM,
    };
    assert!(hello.is_upstream() && hello.has_payload());
    assert!(!hello.has_syn());
}
