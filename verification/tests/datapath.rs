use reflex_instrument::datapath::{
    classify, flow_of, hash_5tuple, return_header, return_route, steer, verdict, Delivery, FlowKey,
    ReturnRoute, TC_ACT_OK, TC_ACT_SHOT,
};
use reflex_instrument::linux_common::{FlowAction, SteerStat};

/// An Ethernet + IPv4 + TCP frame from 192.168.1.10:51234 to 142.251.155.119:`dport`.
fn frame(ip_id: u16, proto: u8, dport: u16) -> Vec<u8> {
    let mut f = vec![0u8; 14 + 20 + 20];
    f[0..6].copy_from_slice(&[1, 2, 3, 4, 5, 6]);
    f[6..12].copy_from_slice(&[0xaa, 0xbb, 0xcc, 0xdd, 0xee, 0xff]);
    f[12] = 0x08;
    f[13] = 0x00;
    f[14] = 0x45;
    f[18..20].copy_from_slice(&ip_id.to_be_bytes());
    f[22] = 64;
    f[23] = proto;
    f[26..30].copy_from_slice(&[192, 168, 1, 10]);
    f[30..34].copy_from_slice(&[142, 251, 155, 119]);
    f[34..36].copy_from_slice(&51234u16.to_be_bytes());
    f[36..38].copy_from_slice(&dport.to_be_bytes());
    f
}

#[test]
fn the_flow_key_is_fnv1a_over_the_five_tuple() {
    assert_eq!(hash_5tuple(0, 0, 0, 0, 0), 0xda0f_62ef);
    let key = flow_of(&frame(1, 6, 443)).expect("an IPv4 TCP frame");
    assert_eq!(
        key,
        FlowKey {
            src_ip: u32::from_le_bytes([192, 168, 1, 10]),
            dst_ip: u32::from_le_bytes([142, 251, 155, 119]),
            src_port: 51234,
            dst_port: 443,
        }
    );
    assert_eq!(classify(&frame(1, 6, 443)), Some(0xb883_aded));
}

#[test]
fn our_own_injected_packets_and_other_protocols_are_not_looked_up() {
    assert_eq!(classify(&frame(0xDEAD, 6, 443)), None);
    assert_eq!(classify(&frame(1, 17, 443)), None);
    let mut ipv6 = frame(1, 6, 443);
    ipv6[12] = 0x86;
    ipv6[13] = 0xdd;
    assert_eq!(classify(&ipv6), None);
    assert_eq!(classify(&frame(1, 6, 443)[..37]), None);
    let mut short_header = frame(1, 6, 443);
    short_header[14] = 0x44;
    assert_eq!(classify(&short_header), None);
}

#[test]
fn only_drop_actions_drop() {
    assert_eq!(verdict(Some(FlowAction::Drop.code())), TC_ACT_SHOT);
    assert_eq!(verdict(Some(FlowAction::CopyAndDrop.code())), TC_ACT_SHOT);
    assert_eq!(verdict(Some(FlowAction::Steer.code())), TC_ACT_OK);
    assert_eq!(verdict(Some(FlowAction::Pass.code())), TC_ACT_OK);
    assert_eq!(verdict(None), TC_ACT_OK);
}

#[test]
fn https_is_redirected_where_the_carrier_device_is_set() {
    let plan = steer(&frame(1, 6, 443), Some(7), [None; 6]);
    assert_eq!(plan.reached, SteerStat::TargetHit);
    assert_eq!(plan.delivery, Delivery::Redirect { ifindex: 7 });
    assert_eq!(
        plan.learn,
        Some((u32::from_le_bytes([192, 168, 1, 10]), [0xaa, 0xbb, 0xcc, 0xdd, 0xee, 0xff]))
    );
}

#[test]
fn without_a_device_the_bridge_mac_is_written_or_the_frame_stays() {
    let mac = [Some(0x02), Some(0), None, Some(0), Some(0), Some(1)];
    let plan = steer(&frame(1, 6, 443), Some(0), mac);
    assert_eq!(plan.delivery, Delivery::Rewrite { mac: [0x02, 0, 0, 0, 0, 1] });
    let plan = steer(&frame(1, 6, 443), None, [Some(0); 6]);
    assert_eq!(plan.delivery, Delivery::Transit);
}

#[test]
fn what_is_not_https_stays_on_the_transit() {
    let plan = steer(&frame(1, 6, 80), Some(7), [Some(1); 6]);
    assert_eq!(plan.reached, SteerStat::Ipv4Tcp);
    assert_eq!(plan.delivery, Delivery::Transit);
    assert!(plan.learn.is_none());
    let plan = steer(&frame(1, 17, 443), Some(7), [Some(1); 6]);
    assert_eq!(plan.reached, SteerStat::Seen);
    assert_eq!(plan.delivery, Delivery::Transit);
}

#[test]
fn the_return_hook_glues_the_learned_header() {
    let packet = &frame(1, 6, 443)[14..];
    assert_eq!(return_route(packet, Some(3)), ReturnRoute::Back { ifindex: 3, client: u32::from_le_bytes([142, 251, 155, 119]) });
    assert_eq!(return_route(packet, Some(0)), ReturnRoute::NoDevice);
    assert_eq!(return_route(&[0x60], Some(3)), ReturnRoute::NotIpv4);
    assert_eq!(return_route(&packet[..19], Some(3)), ReturnRoute::Short);
    let header = return_header([1, 2, 3, 4, 5, 6], [Some(9), Some(8), Some(7), Some(6), Some(5), Some(4)]);
    assert_eq!(header, Some([1, 2, 3, 4, 5, 6, 9, 8, 7, 6, 5, 4, 0x08, 0x00]));
    assert_eq!(return_header([1, 2, 3, 4, 5, 6], [None, Some(0), None, None, None, None]), None);
}
