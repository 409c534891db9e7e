//! Declarations of outside types that flow through the library opaquely.

use vstd::prelude::*;

use notify::Error as NotifyError;
use std::io::Error as IoError;

verus! {

#[verifier::external_type_specification]
#[verifier::external_body]
/// `std::io::Error`, carried opaquely inside the library's error type.
pub struct ExIoError(IoError);

#[verifier::external_type_specification]
#[verifier::external_body]
/// `notify::Error`, carried opaquely inside the library's error type.
pub struct ExNotifyError(NotifyError);

} // verus!
