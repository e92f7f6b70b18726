//! Kernel error codes.

use vstd::prelude::*;

verus! {

/// Largest errno the kernel encodes in a status or a pointer.
pub const MAX_ERRNO: i32 = 4095;

/// Errno: out of memory.
pub const ENOMEM: i32 = 12;

/// Errno: device or resource busy.
pub const EBUSY: i32 = 16;

/// Errno: invalid argument.
pub const EINVAL: i32 = 22;

/// Errno: cannot assign requested address.
pub const EADDRNOTAVAIL: i32 = 99;

/// Whether `code` lies in the kernel's error domain: `-MAX_ERRNO ..= -1`.
pub open spec fn is_error_code(code: int) -> bool {
    -MAX_ERRNO <= code < 0
}

/// A failure kind, held as the negative status the kernel uses for it.
///
/// No value of this type holds zero or a positive number, so a failure can
/// never be lowered to the status that means success.
#[derive(Clone, Copy, Debug, PartialEq, Eq, Structural)]
pub struct Error {
    errno: i32,
}

/// The result of an operation that can fail with a kernel error.
pub type KernelResult<T = ()> = Result<T, Error>;

impl View for Error {
    type V = int;

    /// The status code, always in the error domain for a value that exists
    /// at run time.
    closed spec fn view(&self) -> int {
        self.errno as int
    }
}

impl Error {
    /// What holds of every value of the type.
    #[verifier::type_invariant]
    spec fn in_error_domain(self) -> bool {
        is_error_code(self.errno as int)
    }

    /// The error with status `code`; meaningful for codes of the error domain.
    pub closed spec fn with_code(code: int) -> Error {
        Error { errno: code as i32 }
    }

    /// The error a kernel status stands for: the status itself inside the
    /// error domain, "invalid argument" for anything else.
    pub open spec fn spec_from_kernel_errno(errno: i32) -> Error {
        if is_error_code(errno as int) {
            Self::with_code(errno as int)
        } else {
            Self::with_code(-EINVAL)
        }
    }

    /// Invalid argument.
    pub open spec fn spec_einval() -> Error {
        Self::with_code(-EINVAL)
    }

    /// The device is busy.
    pub open spec fn spec_ebusy() -> Error {
        Self::with_code(-EBUSY)
    }

    /// Out of memory.
    pub open spec fn spec_enomem() -> Error {
        Self::with_code(-ENOMEM)
    }

    /// The requested address cannot be assigned.
    pub open spec fn spec_eaddrnotavail() -> Error {
        Self::with_code(-EADDRNOTAVAIL)
    }

    /// Invalid argument.
    #[verifier::when_used_as_spec(spec_einval)]
    pub fn einval() -> (e: Error)
        ensures
            e == Self::spec_einval(),
            e@ == -EINVAL,
    {
        Error { errno: -EINVAL }
    }

    /// The device is busy.
    #[verifier::when_used_as_spec(spec_ebusy)]
    pub fn ebusy() -> (e: Error)
        ensures
            e == Self::spec_ebusy(),
            e@ == -EBUSY,
    {
        Error { errno: -EBUSY }
    }

    /// Out of memory.
    #[verifier::when_used_as_spec(spec_enomem)]
    pub fn enomem() -> (e: Error)
        ensures
            e == Self::spec_enomem(),
            e@ == -ENOMEM,
    {
        Error { errno: -ENOMEM }
    }

    /// The requested address cannot be assigned.
    #[verifier::when_used_as_spec(spec_eaddrnotavail)]
    pub fn eaddrnotavail() -> (e: Error)
        ensures
            e == Self::spec_eaddrnotavail(),
            e@ == -EADDRNOTAVAIL,
    {
        Error { errno: -EADDRNOTAVAIL }
    }

    /// Takes a status returned by the kernel as a failure kind.
    ///
    /// A status outside the error domain names no failure; it is reported as
    /// "invalid argument" rather than kept, so that the result can still be
    /// lowered to a negative status.
    #[verifier::when_used_as_spec(spec_from_kernel_errno)]
    pub fn from_kernel_errno(errno: i32) -> (e: Error)
        ensures
            e == Self::spec_from_kernel_errno(errno),
            is_error_code(errno as int) ==> e@ == errno,
            !is_error_code(errno as int) ==> e@ == -EINVAL,
    {
        if -MAX_ERRNO <= errno && errno < 0 {
            Error { errno }
        } else {
            Error { errno: -EINVAL }
        }
    }

    /// The status the kernel uses for this failure kind.
    pub fn to_kernel_errno(&self) -> (code: i32)
        ensures
            code == self@,
            is_error_code(code as int),
    {
        proof {
            use_type_invariant(self);
        }
        self.errno
    }
}

/// A code of the error domain is kept as it is by `with_code`.
pub proof fn lemma_with_code_view(code: int)
    requires
        is_error_code(code),
    ensures
        Error::with_code(code)@ == code,
{
}

/// A failure kind is found again in the status it lowers to: taking the
/// status of an error as a kernel status gives the error back.
pub proof fn lemma_errno_round_trip(e: Error)
    requires
        is_error_code(e@),
    ensures
        Error::spec_from_kernel_errno(e@ as i32) == e,
        Error::spec_from_kernel_errno(e@ as i32)@ == e@,
{
}

/// Two failure kinds are the same exactly when their statuses are.
pub proof fn lemma_error_eq(a: Error, b: Error)
    ensures
        (a == b) <==> (a@ == b@),
{
}

/// Lowers a result to the status convention of the kernel's callbacks: the
/// value itself on success, the failure's negative status otherwise.
pub fn from_kernel_result_helper(r: KernelResult<i32>) -> (status: i32)
    ensures
        r matches Ok(v) ==> status == v,
        r matches Err(e) ==> status == e@ && is_error_code(status as int),
{
    match r {
        Ok(v) => v,
        Err(e) => e.to_kernel_errno(),
    }
}

/// The status that the result of an operation without a value is lowered
/// to: zero for success, the failure's code otherwise.
pub open spec fn spec_status_of(r: KernelResult<()>) -> int {
    match r {
        Ok(_) => 0,
        Err(e) => e@,
    }
}

/// Lowers the result of an operation without a value: zero on success, the
/// failure's negative status otherwise. The status is zero only on success.
pub fn status_of(r: KernelResult<()>) -> (status: i32)
    ensures
        status == spec_status_of(r),
        r is Ok <==> status == 0,
        r matches Err(e) ==> status == e@ && is_error_code(status as int),
{
    match r {
        Ok(()) => 0,
        Err(e) => e.to_kernel_errno(),
    }
}

} // verus!
