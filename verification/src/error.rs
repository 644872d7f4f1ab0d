//! The error taxonomy of the core: every way a watcher can reject its input.

use vstd::prelude::*;
use vstd::string::StringExecFns;

use crate::unit::{encode_active_state, ActiveState};

verus! {

/// This library's error type.
///
/// The variants mirror the failure taxonomy of the watcher: invalid
/// configuration values, protocol violations in a unit's property set, and a
/// rule referencing a recipient that the configuration does not define.
#[derive(Debug)]
pub enum Error {
    InvalidActiveState(String),
    InvalidBusName(String),
    InvalidBusType(String),
    InvalidExpressionType(String),
    InvalidNotifier(String),
    InvalidRegex(String),
    CastOrgFreedesktopSystemd1UnitActiveState,
    CastOrgFreedesktopSystemd1UnitTimestamp(String),
    PropertiesLacksActiveState,
    PropertiesLacksTimestamp(ActiveState, String),
}

/// The one-line description of each error.
pub open spec fn error_message(e: Error) -> Seq<char> {
    match e {
        Error::InvalidActiveState(s) => "Found invalid active state: "@ + s@,
        Error::InvalidBusName(s) => "Found invalid bus name: "@ + s@,
        Error::InvalidBusType(s) => "Found invalid bus type: "@ + s@,
        Error::InvalidExpressionType(s) => "Found invalid expression type: "@ + s@,
        Error::InvalidNotifier(s) => "Rule references non-existent notifier: "@ + s@,
        Error::InvalidRegex(s) => "Found invalid regular expression: "@ + s@,
        Error::CastOrgFreedesktopSystemd1UnitActiveState
            => "Failed to cast org.freedesktop.systemd1.Unit.ActiveState to a string."@,
        Error::CastOrgFreedesktopSystemd1UnitTimestamp(k) => "Failed to cast org.freedesktop.systemd1.Unit."@
            + k@ + " to a u64."@,
        Error::PropertiesLacksActiveState
            => "A unit's properties lacks the ActiveState property."@,
        Error::PropertiesLacksTimestamp(st, k) => "A unit has entered the "@ + encode_active_state(
            st,
        ) + " state, but that unit's properties lack a timestamp named '"@ + k@ + "'."@,
    }
}

impl Error {
    /// Render this error as its one-line description.
    pub fn message(&self) -> (r: String)
        ensures
            r@ == error_message(*self),
    {
        match self {
            Error::InvalidActiveState(s) => concat2("Found invalid active state: ", s.as_str()),
            Error::InvalidBusName(s) => concat2("Found invalid bus name: ", s.as_str()),
            Error::InvalidBusType(s) => concat2("Found invalid bus type: ", s.as_str()),
            Error::InvalidExpressionType(s) => concat2(
                "Found invalid expression type: ",
                s.as_str(),
            ),
            Error::InvalidNotifier(s) => concat2(
                "Rule references non-existent notifier: ",
                s.as_str(),
            ),
            Error::InvalidRegex(s) => concat2("Found invalid regular expression: ", s.as_str()),
            Error::CastOrgFreedesktopSystemd1UnitActiveState => {
                "Failed to cast org.freedesktop.systemd1.Unit.ActiveState to a string.".to_owned()
            },
            Error::CastOrgFreedesktopSystemd1UnitTimestamp(k) => {
                let r = concat2("Failed to cast org.freedesktop.systemd1.Unit.", k.as_str()).concat(
                    " to a u64.",
                );
                proof {
                    assert(r@ =~= error_message(*self));
                }
                r
            },
            Error::PropertiesLacksActiveState => {
                "A unit's properties lacks the ActiveState property.".to_owned()
            },
            Error::PropertiesLacksTimestamp(st, k) => {
                let r = concat2("A unit has entered the ", st.encode().as_str()).concat(
                    " state, but that unit's properties lack a timestamp named '",
                ).concat(k.as_str()).concat("'.");
                proof {
                    assert(r@ =~= error_message(*self));
                }
                r
            },
        }
    }
}

/// `prefix` then `tail`, as one string.
fn concat2(prefix: &str, tail: &str) -> (r: String)
    ensures
        r@ == prefix@ + tail@,
{
    prefix.to_owned().concat(tail)
}

} // verus!
