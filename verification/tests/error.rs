use kernel_net::error::from_kernel_result_helper;
use kernel_net::error::status_of;
use kernel_net::error::Error;
use kernel_net::error::KernelResult;
use kernel_net::error::EADDRNOTAVAIL;
use kernel_net::error::EBUSY;
use kernel_net::error::EINVAL;
use kernel_net::error::ENOMEM;
use kernel_net::error::MAX_ERRNO;

#[test]
fn named_errors_have_their_codes() {
    assert_eq!(Error::einval().to_kernel_errno(), -22);
    assert_eq!(Error::enomem().to_kernel_errno(), -12);
    assert_eq!(Error::eaddrnotavail().to_kernel_errno(), -99);
    assert_eq!(Error::ebusy().to_kernel_errno(), -16);
    assert_eq!(EINVAL, 22);
    assert_eq!(ENOMEM, 12);
    assert_eq!(EADDRNOTAVAIL, 99);
    assert_eq!(EBUSY, 16);
    assert_eq!(MAX_ERRNO, 4095);
}

#[test]
fn a_kernel_status_in_the_error_domain_is_kept() {
    assert_eq!(Error::from_kernel_errno(-1).to_kernel_errno(), -1);
    assert_eq!(Error::from_kernel_errno(-17).to_kernel_errno(), -17);
    assert_eq!(Error::from_kernel_errno(-4095).to_kernel_errno(), -4095);
    assert_eq!(Error::from_kernel_errno(-22), Error::einval());
    assert_eq!(Error::from_kernel_errno(-12), Error::enomem());
}

#[test]
fn a_status_outside_the_error_domain_is_an_invalid_argument() {
    assert_eq!(Error::from_kernel_errno(0), Error::einval());
    assert_eq!(Error::from_kernel_errno(1), Error::einval());
    assert_eq!(Error::from_kernel_errno(22), Error::einval());
    assert_eq!(Error::from_kernel_errno(-4096), Error::einval());
    assert_eq!(Error::from_kernel_errno(i32::MIN), Error::einval());
    assert_eq!(Error::from_kernel_errno(i32::MAX), Error::einval());
}

#[test]
fn every_error_lowers_to_a_negative_status() {
    for code in [-1, -12, -16, -22, -99, -4095, 0, 5, -5000, i32::MIN, i32::MAX] {
        let e = Error::from_kernel_errno(code);
        let status = e.to_kernel_errno();
        assert!(status < 0);
        assert!(status >= -4095);
    }
}

#[test]
fn results_are_lowered_to_statuses() {
    let ok: KernelResult<()> = Ok(());
    assert_eq!(status_of(ok), 0);
    assert_eq!(status_of(Err(Error::einval())), -22);
    assert_eq!(status_of(Err(Error::eaddrnotavail())), -99);
    assert_eq!(from_kernel_result_helper(Ok(0)), 0);
    assert_eq!(from_kernel_result_helper(Ok(7)), 7);
    assert_eq!(from_kernel_result_helper(Err(Error::enomem())), -12);
    assert_eq!(from_kernel_result_helper(Err(Error::from_kernel_errno(-95))), -95);
}
