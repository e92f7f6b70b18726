use kernel_net::net::netlink::NlAttr;
use kernel_net::net::netlink::NlAttrVec;
use kernel_net::net::netlink::NlExtAck;
use kernel_net::net::netlink::ETH_ALEN;
use kernel_net::net::netlink::IFLA_ADDRESS;
use kernel_net::net::netlink::NLA_HDRLEN;
use kernel_net::net::netlink::__IFLA_MAX;

fn table_with(entries: Vec<(usize, NlAttr)>) -> NlAttrVec {
    let mut slots: Vec<Option<NlAttr>> = Vec::new();
    for _ in 0..__IFLA_MAX {
        slots.push(None);
    }
    for (index, attr) in entries {
        slots[index] = Some(attr);
    }
    let attrs = slots
        .into_iter()
        .map(|slot| match slot {
            Some(attr) => attr,
            None => NlAttr::null(),
        })
        .collect();
    NlAttrVec::from_ptr(0x7000, attrs)
}

#[test]
fn constants_of_the_attribute_layout() {
    assert_eq!(ETH_ALEN, 6);
    assert_eq!(NLA_HDRLEN, 4);
    assert_eq!(__IFLA_MAX, 56);
    assert_eq!(IFLA_ADDRESS, 1);
}

#[test]
fn null_attribute_has_no_payload() {
    let attr = NlAttr::null();
    assert!(attr.is_null());
    assert_eq!(attr.nla_len(), 0);
    assert_eq!(attr.payload().len(), 0);
    assert!(!attr.is_valid_ether_addr());
}

#[test]
fn attribute_reports_its_payload() {
    let attr = NlAttr::from_ptr(0x1000, 1, vec![2, 0, 0, 0, 0, 1]);
    assert!(!attr.is_null());
    assert_eq!(attr.nla_len(), 6);
    assert_eq!(attr.nla_type(), 1);
    assert_eq!(attr.payload(), &[2, 0, 0, 0, 0, 1]);
    assert_eq!(attr.data(), 0x1004);
    assert!(attr.is_valid_ether_addr());
}

#[test]
fn payload_length_is_the_header_length_less_the_header() {
    for len in [0usize, 1, 4, 6, 7, 100, 65531] {
        let attr = NlAttr::from_ptr(0x2000, 9, vec![0xaa; len]);
        assert_eq!(attr.nla_len() as usize, len);
        assert_eq!(attr.data(), 0x2004);
    }
}

#[test]
fn address_of_any_other_length_is_not_a_valid_address() {
    // four octets that would pass the content tests
    assert!(!NlAttr::from_ptr(0x1000, 1, vec![2, 0, 0, 1]).is_valid_ether_addr());
    // five and seven octets around a valid address
    assert!(!NlAttr::from_ptr(0x1000, 1, vec![2, 0, 0, 0, 1]).is_valid_ether_addr());
    assert!(!NlAttr::from_ptr(0x1000, 1, vec![2, 0, 0, 0, 0, 1, 0]).is_valid_ether_addr());
    assert!(!NlAttr::from_ptr(0x1000, 1, vec![]).is_valid_ether_addr());
    // six octets: the content decides
    assert!(NlAttr::from_ptr(0x1000, 1, vec![2, 0, 0, 0, 0, 1]).is_valid_ether_addr());
    assert!(!NlAttr::from_ptr(0x1000, 1, vec![1, 0, 0, 0, 0, 1]).is_valid_ether_addr());
    assert!(!NlAttr::from_ptr(0x1000, 1, vec![0, 0, 0, 0, 0, 0]).is_valid_ether_addr());
}

#[test]
fn lookup_finds_present_attributes_only() {
    let tb = table_with(vec![
        (1, NlAttr::from_ptr(0x1000, 1, vec![2, 0, 0, 0, 0, 1])),
        (4, NlAttr::from_ptr(0x1010, 4, vec![0xdc, 0x05, 0, 0])),
        (55, NlAttr::from_ptr(0x1020, 55, vec![1])),
    ]);
    assert_eq!(tb.get_ptr(), 0x7000);
    for index in 0..__IFLA_MAX as u32 {
        let found = tb.get(index);
        match index {
            1 | 4 | 55 => {
                let attr = found.unwrap();
                assert!(!attr.is_null());
                assert_eq!(attr.nla_type() as u32, index);
            }
            _ => assert!(found.is_none()),
        }
    }
    assert_eq!(tb.get(4).unwrap().payload(), &[0xdc, 0x05, 0, 0]);
    assert_eq!(tb.get(55).unwrap().data(), 0x1024);
}

#[test]
fn lookup_beyond_the_table_finds_nothing() {
    let mut entries = Vec::new();
    for index in 0..__IFLA_MAX {
        entries.push((index, NlAttr::from_ptr(0x1000 + 16 * index, index as u16, vec![7])));
    }
    let tb = table_with(entries);
    // every identifier below the maximum is there
    for index in 0..__IFLA_MAX as u32 {
        assert!(tb.get(index).is_some());
    }
    // the maximum itself and everything above is not
    assert!(tb.get(__IFLA_MAX as u32).is_none());
    assert!(tb.get(__IFLA_MAX as u32 + 1).is_none());
    assert!(tb.get(1000).is_none());
    assert!(tb.get(u32::MAX).is_none());
}

#[test]
fn empty_table_finds_nothing() {
    let tb = table_with(vec![]);
    for index in 0..100u32 {
        assert!(tb.get(index).is_none());
    }
}

#[test]
fn ext_ack_keeps_its_address() {
    let ack = NlExtAck::from_ptr(0x3000);
    assert_eq!(ack.get_ptr(), 0x3000);
}
