//! Status codes, and the status pointers that non-blocking calls return.

use crate::request::RequestHandle;
use vstd::prelude::*;

verus! {

/// The operation completed successfully.
pub const UCS_OK: i8 = 0;

/// The operation is queued and still in progress.
pub const UCS_INPROGRESS: i8 = 1;

/// The resource is busy.
pub const UCS_ERR_BUSY: i8 = -15;

/// The lowest error code.
pub const UCS_ERR_LAST: i8 = -100;

/// A status code of UCX. Errors are the codes below zero.
#[derive(Debug, Clone, Copy, PartialEq, Eq, Structural)]
pub struct Status {
    pub code: i8,
}

impl Status {
    /// Accepts success and nothing else: a status other than [`UCS_OK`] comes
    /// back as the error.
    pub fn check(self) -> (result: Result<(), Status>)
        ensures
            self.code == UCS_OK ==> result == Ok::<(), Status>(()),
            self.code != UCS_OK ==> result == Err::<(), Status>(self),
    {
        if self.code == UCS_OK {
            Ok(())
        } else {
            Err(self)
        }
    }

    /// Takes over what a call has left in its out parameter: only on success
    /// is `raw` made into an owned object. Any other status comes back as the
    /// error.
    pub fn adopt<R, H, F: FnOnce(R) -> H>(self, raw: R, own: F) -> (result: Result<H, Status>)
        requires
            own.requires((raw,)),
        ensures
            match result {
                Ok(handle) => self.code == UCS_OK && own.ensures((raw,), handle),
                Err(status) => self.code != UCS_OK && status == self,
            },
    {
        match self.check() {
            Ok(()) => Ok(own(raw)),
            Err(status) => Err(status),
        }
    }

    /// Whether a request with this status is in a completed state.
    pub open spec fn spec_is_completed(self) -> bool {
        self.code != UCS_INPROGRESS
    }

    /// Whether a request with this status is in a completed state: any status
    /// but [`UCS_INPROGRESS`] says so, an error too.
    #[verifier::when_used_as_spec(spec_is_completed)]
    pub fn is_completed(self) -> (completed: bool)
        ensures
            completed == self.is_completed(),
            completed == (self.code != UCS_INPROGRESS),
    {
        self.code != UCS_INPROGRESS
    }
}

/// What a non-blocking call returns: null, an error code or a request, told
/// apart by the numeric value of the pointer.
///
/// The highest hundred addresses stand for the error codes, each for the code
/// that it equals as a signed number.
#[derive(Debug, Clone, Copy, PartialEq, Eq, Structural)]
pub struct StatusPtr {
    pub address: usize,
}

/// The outcome of posting a non-blocking call.
#[derive(Debug, Clone, Copy, PartialEq, Eq, Structural)]
pub enum Posted {
    /// The operation completed in place.
    Complete,
    /// The operation is under way and this request tracks it.
    Wait(RequestHandle),
    /// The operation could not be started.
    Failed(Status),
}

/// The address that stands for an error code.
pub open spec fn error_address(code: i8) -> int {
    usize::MAX + 1 + code
}

impl StatusPtr {
    /// Null: the operation completed in place.
    pub open spec fn spec_is_null(&self) -> bool {
        self.address == 0
    }

    /// The address of a request.
    pub open spec fn spec_is_ptr(&self) -> bool {
        0 < self.address < error_address(UCS_ERR_LAST)
    }

    /// One of the addresses that stand for error codes.
    pub open spec fn is_err(&self) -> bool {
        error_address(UCS_ERR_LAST) <= self.address
    }

    /// What this value says about the call that returned it.
    pub open spec fn spec_posted(self) -> Posted {
        if self.is_null() {
            Posted::Complete
        } else if self.is_ptr() {
            Posted::Wait(RequestHandle { address: self.address })
        } else {
            Posted::Failed(Status { code: (self.address - usize::MAX - 1) as i8 })
        }
    }

    /// Whether the pointer is null.
    #[verifier::when_used_as_spec(spec_is_null)]
    pub fn is_null(&self) -> (null: bool)
        ensures
            null == self.is_null(),
            null == (self.address == 0),
    {
        self.address == 0
    }

    /// Whether the pointer is a request: neither null nor an error code.
    #[verifier::when_used_as_spec(spec_is_ptr)]
    pub fn is_ptr(&self) -> (ptr: bool)
        ensures
            ptr == self.is_ptr(),
            ptr == (0 < self.address < usize::MAX - 99),
    {
        0 < self.address && self.address < usize::MAX - 99
    }

    /// The pointer read as a status code, which is one byte wide: the code is
    /// the signed reading of the lowest byte, whatever the pointer is. For an
    /// error pointer that is the error.
    pub fn as_raw(&self) -> (status: Status)
        ensures
            (status.code - self.address) % 256 == 0,
            self.is_err() ==> self.address == error_address(status.code),
    {
        let address: usize = self.address;
        let code: i8 = #[verifier::truncate] (address as i8);
        assert((address as i8 - address) % 256 == 0) by (bit_vector);
        assert(usize::MAX == 0xffff_ffff || usize::MAX == 0xffff_ffff_ffff_ffff);
        Status { code }
    }

    /// Sorts the reply of a non-blocking call into the three outcomes.
    pub fn posted(self) -> (posted: Posted)
        ensures
            posted == self.spec_posted(),
            self.address == 0 ==> posted == Posted::Complete,
            0 < self.address < usize::MAX - 99 ==> posted == Posted::Wait(
                (RequestHandle { address: self.address }),
            ),
            usize::MAX - 99 <= self.address ==> posted is Failed && posted->Failed_0.code
                == self.address - usize::MAX - 1,
    {
        if self.is_null() {
            Posted::Complete
        } else if self.is_ptr() {
            Posted::Wait(RequestHandle::from(self))
        } else {
            Posted::Failed(self.as_raw())
        }
    }
}

/// The status codes that this crate tells apart have the numbers that UCX gives
/// them.
pub proof fn status_codes_are_those_of_ucx()
    ensures
        UCS_OK == 0,
        UCS_INPROGRESS == 1,
        UCS_ERR_BUSY == -15,
        UCS_ERR_LAST == -100,
{
}

/// A request is over with whatever status but the one code for being under way:
/// success and every error alike.
pub proof fn every_code_but_in_progress_is_completed(status: Status)
    ensures
        status.is_completed() <==> status.code != 1,
{
}

/// The borders between the kinds of status pointers: null is the address zero
/// alone, the errors are the highest hundred addresses, and every address in
/// between is a request.
pub proof fn borders_between_status_pointers(ptr: StatusPtr)
    ensures
        ptr.is_null() <==> ptr.address == 0,
        ptr.is_ptr() <==> 0 < ptr.address <= usize::MAX - 100,
        ptr.is_err() <==> usize::MAX - 99 <= ptr.address,
{
}

/// Nothing is lost in sorting a status pointer: only null is complete, a request
/// keeps the very address of the pointer, and an error has the code that lies as
/// far below zero as the address lies below the end of the address space.
pub proof fn posted_keeps_what_the_pointer_says(ptr: StatusPtr)
    ensures
        ptr.spec_posted() is Complete <==> ptr.address == 0,
        match ptr.spec_posted() {
            Posted::Complete => ptr.address == 0,
            Posted::Wait(request) => {
                &&& request.address == ptr.address
                &&& 0 < ptr.address <= usize::MAX - 100
            },
            Posted::Failed(status) => {
                &&& status.code < 0
                &&& ptr.address - status.code == usize::MAX + 1
            },
        },
        0 < ptr.address <= usize::MAX - 100 ==> ptr.spec_posted() is Wait,
        usize::MAX - 99 <= ptr.address ==> ptr.spec_posted() is Failed,
{
}

/// Different status pointers are sorted into different outcomes.
pub proof fn posted_tells_pointers_apart(a: StatusPtr, b: StatusPtr)
    requires
        a.address != b.address,
    ensures
        a.spec_posted() != b.spec_posted(),
{
}

/// Every status pointer is null, a request or an error, and only one of them.
pub proof fn status_pointer_is_one_of_three(ptr: StatusPtr)
    ensures
        ptr.is_null() || ptr.is_ptr() || ptr.is_err(),
        !(ptr.is_null() && ptr.is_ptr()),
        !(ptr.is_null() && ptr.is_err()),
        !(ptr.is_ptr() && ptr.is_err()),
{
}

/// An error code that is turned into a status pointer comes back out of it:
/// the pointer is an error and posts a failure with that very code.
pub proof fn error_code_survives_status_pointer(code: i8, ptr: StatusPtr)
    requires
        UCS_ERR_LAST <= code < 0,
        ptr.address == error_address(code),
    ensures
        ptr.is_err(),
        ptr.spec_posted() == Posted::Failed(Status { code }),
{
}

} // verus!
