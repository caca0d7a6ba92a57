use icmp_echo::device::{
    cvt, down_plan, encode_ifname, encode_ifname_truncated, tun_flags, up_plan, MtuPlan,
    NetCommand, TunBuilder, IFF_NO_PI, IFF_TUN, IFNAMSIZ, ROUTE_TABLE, RULE_PREF_DEFAULT,
    RULE_PREF_TUNNEL, SIOCGIFMTU, SIOCSIFMTU, TUNSETIFF,
};

#[test]
fn cvt_rejects_minus_one_and_keeps_other_values() {
    assert_eq!(cvt(0i32).unwrap(), 0);
    assert_eq!(cvt(42i32).unwrap(), 42);
    assert_eq!(cvt(-2i64).unwrap(), -2);
    assert!(cvt(-1i32).is_err());
    assert!(cvt(-1i8).is_err());
    assert!(cvt(-1i16).is_err());
    assert!(cvt(-1i64).is_err());
    assert!(cvt(-1isize).is_err());
}

#[test]
fn ifname_is_zero_padded_to_field_width() {
    let r = encode_ifname(b"tun0").unwrap();
    assert_eq!(r.len(), IFNAMSIZ);
    assert_eq!(&r[..4], b"tun0");
    assert!(r[4..].iter().all(|&b| b == 0));
}

#[test]
fn over_long_ifname_is_rejected() {
    assert!(encode_ifname(b"0123456789abcdef").is_none());
    assert!(encode_ifname(b"0123456789abcde").is_some());
}

#[test]
fn truncating_encoder_keeps_fifteen_bytes_and_final_zero() {
    let r = encode_ifname_truncated(b"0123456789abcdefgh");
    assert_eq!(r.len(), IFNAMSIZ);
    assert_eq!(&r[..15], b"0123456789abcde");
    assert_eq!(r[15], 0);
}

#[test]
fn tun_flags_request_tun_without_packet_info() {
    assert_eq!(tun_flags(), IFF_TUN | IFF_NO_PI);
    assert_eq!(tun_flags(), 0x1001);
}

#[test]
fn control_request_constants_match_the_fixed_abi() {
    assert_eq!(TUNSETIFF, 0x400454ca);
    assert_eq!(SIOCGIFMTU, 0x8921);
    assert_eq!(SIOCSIFMTU, 0x8922);
}

#[test]
fn up_plan_issues_the_fixed_command_sequence() {
    let plan = up_plan("tun0", "172.32.0.1", "24");
    assert_eq!(plan.len(), 6);
    match &plan[0] {
        NetCommand::AcceptLocal { iface } => assert_eq!(iface, "tun0"),
        _ => panic!("first command must relax local-address acceptance"),
    }
    match &plan[1] {
        NetCommand::LinkUp { iface } => assert_eq!(iface, "tun0"),
        _ => panic!("second command must bring the link up"),
    }
    match &plan[2] {
        NetCommand::AddrAdd { iface, address, netmask } => {
            assert_eq!(iface, "tun0");
            assert_eq!(address, "172.32.0.1");
            assert_eq!(netmask, "24");
        }
        _ => panic!("third command must assign the address"),
    }
    match &plan[3] {
        NetCommand::RouteAddDefault { iface, address, table } => {
            assert_eq!(iface, "tun0");
            assert_eq!(address, "172.32.0.1");
            assert_eq!(*table, ROUTE_TABLE);
        }
        _ => panic!("fourth command must install the default route"),
    }
    match &plan[4] {
        NetCommand::RuleAddIifMain { iface, pref } => {
            assert_eq!(iface, "tun0");
            assert_eq!(*pref, RULE_PREF_TUNNEL);
        }
        _ => panic!("fifth command must route tunnel ingress via main"),
    }
    match &plan[5] {
        NetCommand::RuleAddLookup { pref, table } => {
            assert_eq!(*pref, RULE_PREF_DEFAULT);
            assert_eq!(*table, ROUTE_TABLE);
        }
        _ => panic!("sixth command must send other traffic via the table"),
    }
}

#[test]
fn down_plan_reverses_the_bring_up_sequence() {
    let plan = down_plan("tun0", "172.32.0.1", "24");
    assert_eq!(plan.len(), 5);
    assert!(matches!(&plan[0], NetCommand::RuleDelLookup { .. }));
    assert!(matches!(&plan[1], NetCommand::RuleDelIifMain { .. }));
    assert!(matches!(&plan[2], NetCommand::RouteDelDefault { .. }));
    assert!(matches!(&plan[3], NetCommand::AddrDel { .. }));
    match &plan[4] {
        NetCommand::LinkDown { iface } => assert_eq!(iface, "tun0"),
        _ => panic!("last command must bring the link down"),
    }
}

#[test]
fn builder_collects_configuration() {
    let mut b = TunBuilder::new("tun0".to_owned(), "172.32.0.1".to_owned(), "24".to_owned());
    assert_eq!(b.name, "tun0");
    assert_eq!(b.ipv4_address, "172.32.0.1");
    assert_eq!(b.ipv4_netmask, "24");
    assert_eq!(b.mtu, None);
    assert!(!b.nonblock);
    assert_eq!(b.mtu_plan(), MtuPlan::Query);
    b.set_mtu(1500);
    b.set_nonblock(true);
    assert_eq!(b.mtu, Some(1500));
    assert!(b.nonblock);
    assert_eq!(b.mtu_plan(), MtuPlan::SetTo(1500));
}
