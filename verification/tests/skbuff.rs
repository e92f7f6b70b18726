use kernel_net::net::skbuff::SkBuff;
use kernel_net::net::skbuff::SkbCall;
use kernel_net::net::skbuff::SkbSharedInfo;
use kernel_net::net::skbuff::SKBTX_SW_TSTAMP;

#[test]
fn buffer_reports_its_fields() {
    let skb = SkBuff::from_ptr(0x4000, 1514, 0x9000, 0x640, 0);
    assert_eq!(skb.get_ptr(), 0x4000);
    assert_eq!(skb.len(), 1514);
    assert_eq!(skb.end_pointer(), 0x9640);
    assert!(!skb.is_released());
    assert!(skb.calls().is_empty());
}

#[test]
fn shared_info_lies_at_the_end_of_the_data() {
    let skb = SkBuff::from_ptr(0x4000, 60, 0x1_0000, 0x100, 0x03);
    let info = skb.shinfo();
    assert_eq!(info.get_ptr(), 0x1_0100);
    assert_eq!(info.tx_flags(), 0x03);
    let info = SkbSharedInfo::from_ptr(0x5000, 0x80);
    assert_eq!(info.get_ptr(), 0x5000);
    assert_eq!(info.tx_flags(), 0x80);
}

#[test]
fn software_timestamp_flag_is_two() {
    assert_eq!(SKBTX_SW_TSTAMP, 2);
}

#[test]
fn timestamp_hook_without_the_software_flag() {
    for flags in [0x00u8, 0x01, 0x04, 0xfd] {
        let mut skb = SkBuff::from_ptr(0x4000, 60, 0x9000, 0x100, flags);
        skb.tx_timestamp();
        assert_eq!(skb.calls(), &[SkbCall::CloneTxTimestamp]);
        assert!(!skb.is_released());
    }
}

#[test]
fn timestamp_hook_with_the_software_flag() {
    for flags in [0x02u8, 0x03, 0x06, 0xff] {
        let mut skb = SkBuff::from_ptr(0x4000, 60, 0x9000, 0x100, flags);
        skb.tx_timestamp();
        assert_eq!(skb.calls(), &[SkbCall::CloneTxTimestamp, SkbCall::TstampTx]);
        assert!(!skb.is_released());
    }
}

#[test]
fn clone_tx_timestamp_asks_for_one_call() {
    let mut skb = SkBuff::from_ptr(0x4000, 60, 0x9000, 0x100, 0xff);
    skb.clone_tx_timestamp();
    assert_eq!(skb.calls(), &[SkbCall::CloneTxTimestamp]);
    skb.clone_tx_timestamp();
    assert_eq!(skb.calls(), &[SkbCall::CloneTxTimestamp, SkbCall::CloneTxTimestamp]);
}

#[test]
fn release_is_the_last_call() {
    let mut skb = SkBuff::from_ptr(0x4000, 60, 0x9000, 0x100, 0x02);
    skb.tx_timestamp();
    skb.release();
    assert!(skb.is_released());
    assert_eq!(
        skb.calls(),
        &[SkbCall::CloneTxTimestamp, SkbCall::TstampTx, SkbCall::Release]
    );
    let releases = skb.calls().iter().filter(|c| **c == SkbCall::Release).count();
    assert_eq!(releases, 1);
    // the fields are as they were
    assert_eq!(skb.len(), 60);
    assert_eq!(skb.get_ptr(), 0x4000);
    assert_eq!(skb.end_pointer(), 0x9100);
}

#[test]
fn release_without_any_other_call() {
    let mut skb = SkBuff::from_ptr(0x4000, 0, 0x9000, 0, 0);
    skb.release();
    assert!(skb.is_released());
    assert_eq!(skb.calls(), &[SkbCall::Release]);
}
