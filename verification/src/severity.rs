//! The fixed, totally ordered classification of log importance.

use vstd::prelude::*;
use vstd::string::StringExecFns;

verus! {

/// Importance of a log event, from the most severe to the least.
#[derive(Clone, Copy, Debug, PartialEq, Eq, Structural)]
pub enum Severity {
    Error,
    Warn,
    Info,
    Debug,
    Trace,
}

impl Severity {
    /// Position in the order of severities: the more severe, the higher.
    pub open spec fn spec_rank(self) -> nat {
        match self {
            Severity::Error => 5,
            Severity::Warn => 4,
            Severity::Info => 3,
            Severity::Debug => 2,
            Severity::Trace => 1,
        }
    }

    /// Whether `self` is at least as severe as `threshold`.
    pub open spec fn spec_at_least(self, threshold: Severity) -> bool {
        self.spec_rank() >= threshold.spec_rank()
    }

    /// The upper-case name under which a severity is printed and stored.
    pub open spec fn spec_name(self) -> Seq<char> {
        match self {
            Severity::Error => "ERROR"@,
            Severity::Warn => "WARN"@,
            Severity::Info => "INFO"@,
            Severity::Debug => "DEBUG"@,
            Severity::Trace => "TRACE"@,
        }
    }

    /// The severity that a stored name stands for, if it is one of the five.
    pub open spec fn spec_from_name(name: Seq<char>) -> Option<Severity> {
        if name == "ERROR"@ {
            Some(Severity::Error)
        } else if name == "WARN"@ {
            Some(Severity::Warn)
        } else if name == "INFO"@ {
            Some(Severity::Info)
        } else if name == "DEBUG"@ {
            Some(Severity::Debug)
        } else if name == "TRACE"@ {
            Some(Severity::Trace)
        } else {
            None
        }
    }

    /// Position in the order of severities: 5 for `Error`, down to 1 for `Trace`.
    pub fn rank(self) -> (r: u8)
        ensures
            r == self.spec_rank(),
    {
        match self {
            Severity::Error => 5,
            Severity::Warn => 4,
            Severity::Info => 3,
            Severity::Debug => 2,
            Severity::Trace => 1,
        }
    }

    /// Whether `self` is at least as severe as `threshold`.
    #[verifier::when_used_as_spec(spec_at_least)]
    pub fn at_least(self, threshold: Severity) -> (b: bool)
        ensures
            b == self.spec_at_least(threshold),
    {
        self.rank() >= threshold.rank()
    }

    /// The name under which the severity is printed and stored.
    pub fn name(self) -> (text: String)
        ensures
            text@ == self.spec_name(),
    {
        level_name(self)
    }

    /// The severity that a stored name stands for. The name is taken as it is:
    /// neither case nor surrounding space is forgiven.
    pub fn from_name(name: &str) -> (found: Option<Severity>)
        ensures
            found == Severity::spec_from_name(name@),
    {
        let owned = name.to_owned();
        if owned == String::from_str("ERROR") {
            Some(Severity::Error)
        } else if owned == String::from_str("WARN") {
            Some(Severity::Warn)
        } else if owned == String::from_str("INFO") {
            Some(Severity::Info)
        } else if owned == String::from_str("DEBUG") {
            Some(Severity::Debug)
        } else if owned == String::from_str("TRACE") {
            Some(Severity::Trace)
        } else {
            None
        }
    }
}

/// The order of severities is total: any two compare, only equal severities
/// compare both ways, and the comparison carries over a middle one.
pub proof fn lemma_severity_order_is_total(a: Severity, b: Severity, c: Severity)
    ensures
        a.spec_at_least(a),
        a.spec_at_least(b) || b.spec_at_least(a),
        a.spec_at_least(b) && b.spec_at_least(a) ==> a == b,
        a.spec_at_least(b) && b.spec_at_least(c) ==> a.spec_at_least(c),
        Severity::Error.spec_at_least(a),
        a.spec_at_least(Severity::Trace),
{
}

/// A severity is found again from its name, and only the five names stand for
/// a severity.
pub proof fn lemma_severity_name_round_trip(severity: Severity, name: Seq<char>)
    ensures
        Severity::spec_from_name(severity.spec_name()) == Some(severity),
        Severity::spec_from_name(name) matches Some(found) ==> found.spec_name() == name,
{
    reveal_strlit("ERROR");
    reveal_strlit("WARN");
    reveal_strlit("INFO");
    reveal_strlit("DEBUG");
    reveal_strlit("TRACE");
    assert("ERROR"@[0] == 'E' && "WARN"@[0] == 'W' && "INFO"@[0] == 'I');
    assert("DEBUG"@[0] == 'D' && "TRACE"@[0] == 'T');
}

/// `log::Level::as_str`: the level's name in upper case, as the table of level
/// names in the `log` crate gives it.
#[verifier::external_body]
fn level_name(severity: Severity) -> (text: String)
    ensures
        text@ == severity.spec_name(),
{
    let level = match severity {
        Severity::Error => log::Level::Error,
        Severity::Warn => log::Level::Warn,
        Severity::Info => log::Level::Info,
        Severity::Debug => log::Level::Debug,
        Severity::Trace => log::Level::Trace,
    };
    level.as_str().to_owned()
}

} // verus!
