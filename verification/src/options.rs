//! Startup configuration: the command-line option set and the device-selector
//! decision.  Exactly one of the two device selectors (an IP-mode name or an
//! Ethernet-mode name) must be supplied; both or neither is a usage error.

use vstd::prelude::*;
use vstd::string::StringSliceAdditionalSpecFns;
use crate::device::LinkMedium;

verus! {

#[verifier::external_type_specification]
#[verifier::external_body]
pub struct ExOptions(getopts::Options);

/// The (short name, long name) pairs of the options registered on the option
/// set, as character sequences, in registration order.
pub uninterp spec fn opts_registered(opts: getopts::Options) -> Seq<(Seq<char>, Seq<char>)>;

/// Relies on getopts::Options::new: a fresh option set with no options in it.
#[verifier::external_body]
fn options_new() -> (r: getopts::Options)
    ensures
        opts_registered(r) == Seq::<(Seq<char>, Seq<char>)>::empty(),
{
    getopts::Options::new()
}

/// Relies on getopts::Options::optflag: registers exactly one more option, a
/// boolean flag under the given short and long names, with the given
/// description.  getopts panics on a short name over one byte and on a long
/// name of exactly one byte, so those are excluded.
#[verifier::external_body]
fn options_add_flag(opts: &mut getopts::Options, short: &str, long: &str, desc: &str)
    requires
        short.spec_bytes().len() <= 1,
        long.spec_bytes().len() != 1,
    ensures
        opts_registered(*final(opts)) == opts_registered(*old(opts)).push((short@, long@)),
{
    opts.optflag(short, long, desc);
}

/// Build the base option set — a help flag (short `h`, long `help`) and
/// nothing else — together with the list of expected free (positional)
/// arguments, which is empty: this program takes all of its configuration
/// through named options.
pub fn create_options() -> (r: (getopts::Options, Vec<&'static str>))
    ensures
        r.1@ == Seq::<&'static str>::empty(),
        opts_registered(r.0).len() == 1,
        opts_registered(r.0)[0] == ("h"@, "help"@),
{
    let mut opts = options_new();
    proof {
        reveal_strlit("h");
        reveal_strlit("help");
        assert(vstd::utf8::is_ascii_chars("h"@));
        assert(vstd::utf8::is_ascii_chars("help"@));
        vstd::utf8::is_ascii_chars_encode_utf8("h"@);
        vstd::utf8::is_ascii_chars_encode_utf8("help"@);
    }
    options_add_flag(&mut opts, "h", "help", "print this help menu");
    (opts, Vec::new())
}

/// Why the supplied device selectors were rejected.
#[derive(Clone, Copy, Debug, PartialEq, Eq, Structural)]
pub enum UsageError {
    /// Both an IP-mode and an Ethernet-mode device name were supplied.
    BothSelectors,
    /// No device name was supplied at all.
    NoSelector,
}

/// The one device the process will drive: its name and its link medium.
#[derive(Debug)]
pub struct DeviceChoice {
    pub name: String,
    pub medium: LinkMedium,
}

/// Decide which device to open from the two optional selectors: a TUN (raw
/// IP) device name and a TAP (Ethernet) device name.  Exactly one must be
/// present; both or neither is a fatal usage error, reported before any
/// device is opened.
pub fn select_device(tun: Option<String>, tap: Option<String>) -> (r: Result<DeviceChoice, UsageError>)
    ensures
        tun is Some && tap is None ==> (tun matches Some(name) && r matches Ok(c)
            && c.medium == LinkMedium::Ip && c.name@ == name@),
        tap is Some && tun is None ==> (tap matches Some(name) && r matches Ok(c)
            && c.medium == LinkMedium::Ethernet && c.name@ == name@),
        tun is Some && tap is Some ==> r == Err::<DeviceChoice, UsageError>(UsageError::BothSelectors),
        tun is None && tap is None ==> r == Err::<DeviceChoice, UsageError>(UsageError::NoSelector),
{
    match (tun, tap) {
        (Some(name), None) => Ok(DeviceChoice { name, medium: LinkMedium::Ip }),
        (None, Some(name)) => Ok(DeviceChoice { name, medium: LinkMedium::Ethernet }),
        (Some(_), Some(_)) => Err(UsageError::BothSelectors),
        (None, None) => Err(UsageError::NoSelector),
    }
}

/// The usage-handling decision made right after parsing: `Some(code)` means
/// print the usage text and exit with `code`.  Unexpected positional
/// arguments exit with status 1 (a usage error); an explicit help request
/// alone exits with status 0.
pub fn exit_for_usage(help: bool, unexpected_args: bool) -> (r: Option<i32>)
    ensures
        r is Some <==> help || unexpected_args,
        unexpected_args ==> r == Some(1i32),
        help && !unexpected_args ==> r == Some(0i32),
{
    if unexpected_args {
        Some(1)
    } else if help {
        Some(0)
    } else {
        None
    }
}

} // verus!
