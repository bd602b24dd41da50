use reflex_instrument::{initiator, Endpoints, Layer, Side};

fn plain(src: [u8; 4], dst: [u8; 4], src_port: u16, dst_port: u16) -> Endpoints<'static> {
    Endpoints { src, dst, src_port, dst_port, payload: &[] }
}

/// The client's QUIC `Initial`: a long header and padding to 1200 bytes.
fn client_initial() -> Vec<u8> {
    let mut bytes = vec![0u8; 1200];
    bytes[0] = 0xC0;
    bytes
}

#[test]
fn the_address_floor_answers_first_when_one_side_is_private() {
    let answer = initiator(&plain([192, 168, 1, 10], [142, 251, 155, 119], 51234, 443));
    assert_eq!(answer, Some((Side::Source, Layer::Network)));

    let back = initiator(&plain([142, 251, 155, 119], [192, 168, 1, 10], 443, 51234));
    assert_eq!(back, Some((Side::Destination, Layer::Network)));
}

#[test]
fn the_port_floor_answers_when_both_sides_are_private() {
    let answer = initiator(&plain([10, 77, 0, 11], [10, 77, 0, 2], 45678, 53));
    assert_eq!(answer, Some((Side::Source, Layer::Transport)));
}

#[test]
fn the_content_floor_answers_when_neither_address_nor_port_can() {
    let payload = client_initial();
    let quic = Endpoints {
        src: [203, 0, 113, 7],
        dst: [198, 51, 100, 9],
        src_port: 40000,
        dst_port: 40001,
        payload: &payload,
    };
    assert_eq!(initiator(&quic), Some((Side::Source, Layer::Session)));
}

#[test]
fn nothing_answers_when_no_floor_discriminates() {
    let neither = initiator(&plain([203, 0, 113, 7], [198, 51, 100, 9], 40000, 40001));
    assert_eq!(neither, None, "сторона названа там, где различить её нечем");
}

#[test]
fn the_lowest_floor_wins_even_when_a_higher_one_would_agree() {
    let payload = client_initial();
    let both = Endpoints {
        src: [192, 168, 1, 10],
        dst: [142, 251, 155, 119],
        src_port: 51234,
        dst_port: 443,
        payload: &payload,
    };
    assert_eq!(
        initiator(&both),
        Some((Side::Source, Layer::Network)),
        "ответ пришёл не с самого низкого различающего уровня"
    );
}

#[test]
fn carrier_grade_nat_counts_as_private_and_a_short_initial_does_not_count() {
    let answer = initiator(&plain([100, 64, 0, 1], [8, 8, 8, 8], 40000, 40001));
    assert_eq!(answer, Some((Side::Source, Layer::Network)));
    let short = vec![0xC0u8; 1199];
    let quic = Endpoints {
        src: [203, 0, 113, 7],
        dst: [198, 51, 100, 9],
        src_port: 40000,
        dst_port: 40001,
        payload: &short,
    };
    assert_eq!(initiator(&quic), None);
}
