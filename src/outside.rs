use clap::ColorChoice as ClapColorChoice;
use vstd::prelude::*;

verus! {

/// `atty::Stream` names one of the standard streams of the process.
#[verifier::external_type_specification]
#[verifier::external_body]
pub struct ExStream(atty::Stream);

/// Relies on `atty::is`: whether the given standard stream is connected to a
/// terminal. The answer depends on how the process was started, so nothing
/// is stated of it.
#[verifier::external_body]
pub(crate) fn stream_is_terminal(stream: atty::Stream) -> (r: bool) {
    atty::is(stream)
}

/// `clap::ColorChoice`, whose three variants `Auto`, `Always` and `Never`
/// carry no data.
#[verifier::external_type_specification]
pub struct ExClapColorChoice(ClapColorChoice);

} // verus!
