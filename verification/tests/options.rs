use tcp_greeter::device::LinkMedium;
use tcp_greeter::options::{create_options, exit_for_usage, select_device, UsageError};

#[test]
fn select_tun_only_is_ip_device() {
    let r = select_device(Some(String::from("tun0")), None).unwrap();
    assert_eq!(r.name, "tun0");
    assert!(matches!(r.medium, LinkMedium::Ip));
}

#[test]
fn select_tap_only_is_ethernet_device() {
    let r = select_device(None, Some(String::from("tap0"))).unwrap();
    assert_eq!(r.name, "tap0");
    assert!(matches!(r.medium, LinkMedium::Ethernet));
}

#[test]
fn select_both_is_usage_error() {
    let r = select_device(Some(String::from("tun0")), Some(String::from("tap0")));
    assert_eq!(r.unwrap_err(), UsageError::BothSelectors);
}

#[test]
fn select_neither_is_usage_error() {
    let r = select_device(None, None);
    assert_eq!(r.unwrap_err(), UsageError::NoSelector);
}

#[test]
fn usage_exit_codes() {
    assert_eq!(exit_for_usage(false, false), None);
    assert_eq!(exit_for_usage(true, false), Some(0));
    assert_eq!(exit_for_usage(false, true), Some(1));
    assert_eq!(exit_for_usage(true, true), Some(1));
}

#[test]
fn create_options_registers_help_flag() {
    let (opts, free) = create_options();
    assert!(free.is_empty());
    let matches = opts.parse(["-h"]).unwrap();
    assert!(matches.opt_present("h"));
    let matches = opts.parse(["--help"]).unwrap();
    assert!(matches.opt_present("help"));
    let matches = opts.parse::<&[&str]>(&[]).unwrap();
    assert!(!matches.opt_present("h"));
}
