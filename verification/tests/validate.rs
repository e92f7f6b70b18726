use kernel_net::drivers::dummy_rs::validate;
use kernel_net::drivers::dummy_rs::validate_callback;
use kernel_net::error::Error;
use kernel_net::net::is_multicast_ether_addr;
use kernel_net::net::is_zero_ether_addr;
use kernel_net::net::netlink::NlAttr;
use kernel_net::net::netlink::NlAttrVec;
use kernel_net::net::netlink::NlExtAck;
use kernel_net::net::netlink::IFLA_ADDRESS;
use kernel_net::net::netlink::__IFLA_MAX;

fn request(address: Option<Vec<u8>>) -> NlAttrVec {
    let mut attrs = Vec::new();
    for index in 0..__IFLA_MAX {
        if index == IFLA_ADDRESS as usize {
            match &address {
                Some(payload) => attrs.push(NlAttr::from_ptr(0x1000, 1, payload.clone())),
                None => attrs.push(NlAttr::null()),
            }
        } else {
            attrs.push(NlAttr::null());
        }
    }
    NlAttrVec::from_ptr(0x7000, attrs)
}

fn no_data() -> NlAttrVec {
    request(None)
}

#[test]
fn request_without_address_passes() {
    let ack = NlExtAck::from_ptr(0x3000);
    assert_eq!(validate(&request(None), &no_data(), &ack), Ok(()));
    assert_eq!(validate_callback(&request(None), &no_data(), &ack), 0);
}

#[test]
fn all_zero_address_is_rejected_as_not_available() {
    let ack = NlExtAck::from_ptr(0x3000);
    let addr = [0u8; 6];
    assert!(is_zero_ether_addr(&addr));
    assert!(!is_multicast_ether_addr(&addr));
    let tb = request(Some(addr.to_vec()));
    assert_eq!(validate(&tb, &no_data(), &ack), Err(Error::eaddrnotavail()));
    assert_eq!(validate_callback(&tb, &no_data(), &ack), -99);
}

#[test]
fn multicast_address_is_rejected_as_not_available() {
    let ack = NlExtAck::from_ptr(0x3000);
    let addr = [0x01u8, 0, 0, 0, 0, 0];
    assert!(is_multicast_ether_addr(&addr));
    assert!(!is_zero_ether_addr(&addr));
    let tb = request(Some(addr.to_vec()));
    assert_eq!(validate(&tb, &no_data(), &ack), Err(Error::eaddrnotavail()));
    assert_eq!(validate_callback(&tb, &no_data(), &ack), -99);
}

#[test]
fn unicast_address_is_accepted() {
    let ack = NlExtAck::from_ptr(0x3000);
    let tb = request(Some(vec![0x02, 0x00, 0x00, 0x00, 0x00, 0x01]));
    assert_eq!(validate(&tb, &no_data(), &ack), Ok(()));
    assert_eq!(validate_callback(&tb, &no_data(), &ack), 0);
}

#[test]
fn four_octet_address_is_rejected_as_invalid_whatever_it_holds() {
    let ack = NlExtAck::from_ptr(0x3000);
    // would pass the multicast and zero tests
    let tb = request(Some(vec![0x02, 0x00, 0x00, 0x01]));
    assert_eq!(validate(&tb, &no_data(), &ack), Err(Error::einval()));
    assert_eq!(validate_callback(&tb, &no_data(), &ack), -22);
    // would fail them: the length still decides
    let tb = request(Some(vec![0x00, 0x00, 0x00, 0x00]));
    assert_eq!(validate(&tb, &no_data(), &ack), Err(Error::einval()));
    let tb = request(Some(vec![0x01, 0x00, 0x00, 0x00]));
    assert_eq!(validate(&tb, &no_data(), &ack), Err(Error::einval()));
}

#[test]
fn every_length_but_six_is_rejected_as_invalid() {
    let ack = NlExtAck::from_ptr(0x3000);
    for len in 0..20usize {
        let mut payload = vec![0u8; len];
        if len > 0 {
            payload[0] = 0x02;
        }
        let tb = request(Some(payload));
        let result = validate(&tb, &no_data(), &ack);
        if len == 6 {
            assert_eq!(result, Ok(()));
        } else {
            assert_eq!(result, Err(Error::einval()));
        }
    }
}

#[test]
fn attributes_of_the_data_table_are_not_looked_at() {
    let ack = NlExtAck::from_ptr(0x3000);
    let data = request(Some(vec![0u8; 6]));
    assert_eq!(validate(&request(None), &data, &ack), Ok(()));
}
