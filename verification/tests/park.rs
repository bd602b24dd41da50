use reflex_instrument::park::{here, parameterised};
use reflex_instrument::{passport_holds, Layer, Protocol, Rung};

#[test]
fn no_two_instruments_share_a_name() {
    let names: std::collections::BTreeSet<&str> =
        here().iter().map(|passport| passport.instrument).collect();

    assert_eq!(names.len(), here().len(), "имена приборов повторяются");
}

#[test]
fn every_passport_here_agrees_with_the_table_of_evidence() {
    for passport in here() {
        assert!(passport_holds(passport.rung, passport.protocols, passport.layer), "{}", passport.instrument);
    }
    assert_eq!(parameterised(), ["departure", "episode", "leg"]);
}

#[test]
fn a_rung_declared_where_its_evidence_does_not_lie_is_refused() {
    assert!(!passport_holds(Some(Rung::Severed), &[Protocol::Udp], Layer::Transport));
    assert!(!passport_holds(Some(Rung::Answered), &[], Layer::Transport));
    assert!(!passport_holds(Some(Rung::Authentic), &[Protocol::Tls], Layer::Application));
    assert!(passport_holds(Some(Rung::Authentic), &[Protocol::Tls], Layer::Session));
    assert!(passport_holds(None, &[], Layer::Link));
}

#[test]
fn http_is_carried_by_tcp_and_tls_down_to_the_transport() {
    assert_eq!(Protocol::Http.beneath(), vec![Protocol::Tcp, Protocol::Tls, Protocol::Tcp]);
    assert_eq!(Protocol::Quic.beneath(), vec![Protocol::Udp]);
    assert!(Protocol::Tcp.beneath().is_empty());
}
