//! The configuration of UCP.

use crate::status::{Status, UCS_OK};
use vstd::prelude::*;

verus! {

/// Print the values of the options.
pub const UCS_CONFIG_PRINT_CONFIG: u32 = 1;

/// Print a header.
pub const UCS_CONFIG_PRINT_HEADER: u32 = 2;

/// Print the documentation of the options.
pub const UCS_CONFIG_PRINT_DOC: u32 = 4;

/// Print the hidden options too.
pub const UCS_CONFIG_PRINT_HIDDEN: u32 = 8;

/// A configuration that was read from the environment.
///
/// `H` owns an object of UCX: dropping it releases the object.
#[derive(Debug)]
pub struct Config<H> {
    handle: H,
}

/// What is handed to `ucp_config_print`, besides the stream.
#[derive(Debug)]
pub struct ConfigPrint<'a, H> {
    pub config: &'a H,
    pub title: &'static str,
    pub flags: u32,
}

impl<H> View for Config<H> {
    type V = H;

    closed spec fn view(&self) -> H {
        self.handle
    }
}

impl<H> Config<H> {
    /// The configuration that `ucp_config_read` has left in `raw`, or the
    /// status with which it failed.
    pub fn new<R, F: FnOnce(R) -> H>(status: Status, raw: R, own: F) -> (result: Result<
        Config<H>,
        Status,
    >)
        requires
            own.requires((raw,)),
        ensures
            match result {
                Ok(config) => status.code == UCS_OK && own.ensures((raw,), config@),
                Err(error) => status.code != UCS_OK && error == status,
            },
    {
        match status.adopt(raw, own) {
            Ok(handle) => Ok(Config { handle }),
            Err(error) => Err(error),
        }
    }

    /// The object that this configuration owns.
    pub fn handle(&self) -> (handle: &H)
        ensures
            *handle == self@,
    {
        &self.handle
    }

    /// Printing the configuration: everything there is, under a title.
    pub fn print_to_stderr(&self) -> (call: ConfigPrint<'_, H>)
        ensures
            *call.config == self@,
            call.title@ == "UCP Configuration"@,
            call.flags == 0b1111,
    {
        let flags: u32 = UCS_CONFIG_PRINT_CONFIG | UCS_CONFIG_PRINT_DOC | UCS_CONFIG_PRINT_HEADER
            | UCS_CONFIG_PRINT_HIDDEN;
        assert(1u32 | 4u32 | 2u32 | 8u32 == 0b1111u32) by (bit_vector);
        ConfigPrint { config: &self.handle, title: "UCP Configuration", flags }
    }
}

} // verus!
