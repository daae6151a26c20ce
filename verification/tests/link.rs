use ax88179_178a::link::{
    link_report, medium_mode, select_profile, usb_speed, BulkProfile, Duplex, LinkSpeed, UsbSpeed,
    PROFILES,
};

#[test]
fn profile_follows_port_and_link_speed() {
    assert_eq!(select_profile(UsbSpeed::Super, LinkSpeed::Mb1000), 0);
    assert_eq!(select_profile(UsbSpeed::High, LinkSpeed::Mb1000), 1);
    assert_eq!(select_profile(UsbSpeed::Super, LinkSpeed::Mb100), 2);
    assert_eq!(select_profile(UsbSpeed::High, LinkSpeed::Mb100), 2);
    assert_eq!(select_profile(UsbSpeed::Full, LinkSpeed::Mb100), 2);
    assert_eq!(select_profile(UsbSpeed::Full, LinkSpeed::Mb1000), 3);
    assert_eq!(select_profile(UsbSpeed::Super, LinkSpeed::Mb10), 3);
    assert_eq!(select_profile(UsbSpeed::High, LinkSpeed::Mb10), 3);
    assert_eq!(select_profile(UsbSpeed::Full, LinkSpeed::Mb10), 3);
}

#[test]
fn profile_is_always_one_of_four() {
    for usb in [UsbSpeed::Super, UsbSpeed::High, UsbSpeed::Full] {
        for link in [LinkSpeed::Mb10, LinkSpeed::Mb100, LinkSpeed::Mb1000] {
            let n = select_profile(usb, link);
            assert!(n < PROFILES);
            assert_eq!(n, select_profile(usb, link));
        }
    }
}

#[test]
fn profiles_hold_the_fixed_register_values() {
    assert_eq!(BulkProfile::get(0).bytes(), [7, 0x4f, 0, 0x12, 0xff]);
    assert_eq!(BulkProfile::get(1).bytes(), [7, 0x20, 3, 0x16, 0xff]);
    assert_eq!(BulkProfile::get(2).bytes(), [7, 0xae, 7, 0x18, 0xff]);
    assert_eq!(BulkProfile::get(3).bytes(), [7, 0xcc, 0x4c, 0x18, 8]);
    assert_eq!(BulkProfile::get(200), BulkProfile::get(3));
}

#[test]
fn receive_transfer_size_follows_the_profile() {
    assert_eq!(BulkProfile::get(0).rx_urb_size(), 1024 * 20);
    assert_eq!(BulkProfile::get(1).rx_urb_size(), 1024 * 24);
    assert_eq!(BulkProfile::get(2).rx_urb_size(), 1024 * 26);
    assert_eq!(BulkProfile::get(3).rx_urb_size(), 1024 * 26);
}

#[test]
fn port_speed_is_the_fastest_reported() {
    assert_eq!(usb_speed(0x04), UsbSpeed::Super);
    assert_eq!(usb_speed(0x06), UsbSpeed::Super);
    assert_eq!(usb_speed(0xff), UsbSpeed::Super);
    assert_eq!(usb_speed(0x02), UsbSpeed::High);
    assert_eq!(usb_speed(0x03), UsbSpeed::High);
    assert_eq!(usb_speed(0x01), UsbSpeed::Full);
    assert_eq!(usb_speed(0x00), UsbSpeed::Full);
    assert_eq!(usb_speed(0xf8), UsbSpeed::Full);
}

#[test]
fn phy_status_gives_speed_and_duplex_once_the_link_is_up() {
    assert_eq!(link_report(0x0000), None);
    assert_eq!(link_report(0xa000), None);
    assert_eq!(link_report(0xfbff), None);
    assert_eq!(link_report(0x0400), Some((LinkSpeed::Mb10, Duplex::Half)));
    assert_eq!(link_report(0x2400), Some((LinkSpeed::Mb10, Duplex::Full)));
    assert_eq!(link_report(0x4400), Some((LinkSpeed::Mb100, Duplex::Half)));
    assert_eq!(link_report(0x6400), Some((LinkSpeed::Mb100, Duplex::Full)));
    assert_eq!(link_report(0x8400), Some((LinkSpeed::Mb1000, Duplex::Half)));
    assert_eq!(link_report(0xa400), Some((LinkSpeed::Mb1000, Duplex::Full)));
    assert_eq!(link_report(0xe400), Some((LinkSpeed::Mb10, Duplex::Full)));
    assert_eq!(link_report(0xc400), Some((LinkSpeed::Mb10, Duplex::Half)));
}

#[test]
fn medium_mode_is_put_together_from_the_link() {
    assert_eq!(medium_mode(LinkSpeed::Mb1000, Duplex::Full, 1500), 0x0033);
    assert_eq!(medium_mode(LinkSpeed::Mb1000, Duplex::Full, 1501), 0x8073);
    assert_eq!(medium_mode(LinkSpeed::Mb1000, Duplex::Half, 9000), 0x8071);
    assert_eq!(medium_mode(LinkSpeed::Mb100, Duplex::Full, 1500), 0x0232);
    assert_eq!(medium_mode(LinkSpeed::Mb100, Duplex::Half, 9000), 0x0230);
    assert_eq!(medium_mode(LinkSpeed::Mb10, Duplex::Full, 9000), 0x0032);
    assert_eq!(medium_mode(LinkSpeed::Mb10, Duplex::Half, 1500), 0x0030);
}
