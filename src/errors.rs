use crate::models::RegistrationMessage;
use vstd::prelude::*;

verus! {

/// The failures of the library's own logic.
#[derive(Debug)]
pub enum WizError {
    /// A model name without a second `_`-separated segment.
    NoIdent(String),
    /// A registration response with no sender address attached.
    NoIP(RegistrationMessage),
    /// A registration response whose device refused the registration.
    RegErr(RegistrationMessage),
    /// A registration response whose hardware identifier is empty.
    NoMac(RegistrationMessage),
}

} // verus!
