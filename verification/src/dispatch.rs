//! Deciding what to do with one call of the entry point.
//!
//! A call names a command in its first argument.  The call is refused when
//! that argument is not a string, ignored (with a notice) when no command has
//! that name, refused when one of the command's rules fails (the first that
//! fails is reported), and carried out otherwise.

use vstd::prelude::*;
use vstd::string::StringExecFns;

use crate::command::{law_names_distinct, parse_command, Command};
use crate::mx::MxArg;
use crate::rules::{
    all_pass, first_failing, first_failure, lemma_first_failure_unique, law_rules_well_formed,
    rule_list, rules, Test,
};

verus! {

/// Why a call is refused.
#[derive(Debug, Clone, Copy, PartialEq, Eq, Structural)]
pub enum Rejection {
    /// The first argument, which names the command, is not a string.
    NameNotText,
    /// Rule number `step` of `command` is the first of its rules that fails.
    Rule { command: Command, step: usize },
}

/// What to do with a call.
#[derive(Debug, Clone, Copy, PartialEq, Eq, Structural)]
pub enum Decision {
    /// Carry out the command: every one of its rules passed.
    Run(Command),
    /// Report the error to MATLAB and do nothing else.
    Reject(Rejection),
    /// No command has the requested name: print the notice and do nothing else.
    NotImplemented,
}

/// The decimal digits of `n`.
pub open spec fn decimal(n: nat) -> Seq<char>
    decreases n,
{
    if n < 10 {
        digit(n)
    } else {
        decimal(n / 10) + digit(n % 10)
    }
}

/// The digit `d` (below ten) as text.
pub open spec fn digit(d: nat) -> Seq<char> {
    if d == 0 {
        "0"@
    } else if d == 1 {
        "1"@
    } else if d == 2 {
        "2"@
    } else if d == 3 {
        "3"@
    } else if d == 4 {
        "4"@
    } else if d == 5 {
        "5"@
    } else if d == 6 {
        "6"@
    } else if d == 7 {
        "7"@
    } else if d == 8 {
        "8"@
    } else {
        "9"@
    }
}

/// The message shown when argument `i` should have been a string.
pub open spec fn string_message(i: nat) -> Seq<char> {
    "Please make sure that argument #"@ + decimal(i) + " is a valid string."@
}

impl Rejection {
    /// Only a rule that the command has can be reported.
    pub open spec fn well_formed(self) -> bool {
        match self {
            Rejection::NameNotText => true,
            Rejection::Rule { command, step } => step < rules(command).len(),
        }
    }

    /// The MATLAB error identifier under which the refusal is reported.
    pub open spec fn id_text(self) -> Seq<char> {
        match self {
            Rejection::NameNotText => "Strobe:strobeMainFunction"@,
            Rejection::Rule { command, step } => "Strobe:"@ + rules(command)[step as int].id.name(),
        }
    }

    /// The message that is reported with the refusal.
    pub open spec fn message_text(self) -> Seq<char> {
        match self {
            Rejection::NameNotText => string_message(0),
            Rejection::Rule { command, step } => match rules(command)[step as int].test {
                Test::Text(i) => string_message(i as nat),
                _ => rules(command)[step as int].message@,
            },
        }
    }

    pub fn error_id(&self) -> (r: String)
        requires
            self.well_formed(),
        ensures
            r@ == self.id_text(),
    {
        match self {
            Rejection::NameNotText => String::from_str("Strobe:strobeMainFunction"),
            Rejection::Rule { command, step } => {
                let rs = rule_list(*command);
                let mut id = String::from_str("Strobe:");
                id.append(rs[*step].id.name_str());
                id
            },
        }
    }

    pub fn message(&self) -> (r: String)
        requires
            self.well_formed(),
        ensures
            r@ == self.message_text(),
    {
        match self {
            Rejection::NameNotText => string_check_message(0),
            Rejection::Rule { command, step } => {
                let rs = rule_list(*command);
                let rule = rs[*step];
                match rule.test {
                    Test::Text(i) => string_check_message(i),
                    _ => String::from_str(rule.message),
                }
            },
        }
    }
}

fn digit_str(d: usize) -> (r: &'static str)
    requires
        d < 10,
    ensures
        r@ == digit(d as nat),
{
    if d == 0 {
        "0"
    } else if d == 1 {
        "1"
    } else if d == 2 {
        "2"
    } else if d == 3 {
        "3"
    } else if d == 4 {
        "4"
    } else if d == 5 {
        "5"
    } else if d == 6 {
        "6"
    } else if d == 7 {
        "7"
    } else if d == 8 {
        "8"
    } else {
        "9"
    }
}

/// `n` in decimal notation.
pub fn decimal_string(n: usize) -> (r: String)
    ensures
        r@ == decimal(n as nat),
    decreases n,
{
    if n < 10 {
        String::from_str(digit_str(n))
    } else {
        let mut s = decimal_string(n / 10);
        s.append(digit_str(n % 10));
        s
    }
}

/// The message for an argument `i` that should have been a string.
pub fn string_check_message(i: usize) -> (r: String)
    ensures
        r@ == string_message(i as nat),
{
    let mut s = String::from_str("Please make sure that argument #");
    let n = decimal_string(i);
    s.append(n.as_str());
    s.append(" is a valid string.");
    s
}

/// The notice printed when no command has the requested name.
pub fn not_implemented_notice() -> (r: &'static str)
    ensures
        r@ == "not yet implemented, sorry...\n"@,
{
    "not yet implemented, sorry...\n"
}

/// The decision on a call of command `c` with `nlhs` output variables and
/// input arguments `args` (the name included): carry it out when every rule
/// of `c` passes, and otherwise refuse it for the first rule that fails.
pub open spec fn judgement(c: Command, nlhs: i32, args: Seq<MxArg>) -> Decision {
    if all_pass(rules(c), nlhs, args) {
        Decision::Run(c)
    } else {
        Decision::Reject(
            Rejection::Rule {
                command: c,
                step: choose|k: usize| first_failure(rules(c), nlhs, args, k as int),
            },
        )
    }
}

/// The decision on a call of the entry point whose first argument has the
/// text `name` (when it is a string).  A call without arguments names no
/// command and is refused like one whose name is not a string.
pub open spec fn verdict(name: Seq<char>, nlhs: i32, args: Seq<MxArg>) -> Decision {
    if args.len() == 0 || !args[0].text() {
        Decision::Reject(Rejection::NameNotText)
    } else if exists|c: Command| name == c.name() {
        judgement(choose|c: Command| name == c.name(), nlhs, args)
    } else {
        Decision::NotImplemented
    }
}

/// Decides a call of command `c`.
pub fn judge(c: Command, nlhs: i32, args: &Vec<MxArg>) -> (r: Decision)
    ensures
        r == judgement(c, nlhs, args@),
        r matches Decision::Reject(j) ==> j.well_formed(),
{
    proof {
        law_rules_well_formed(c);
    }
    let rs = rule_list(c);
    match first_failing(&rs, nlhs, args) {
        Some(k) => {
            proof {
                let j = choose|j: usize| first_failure(rules(c), nlhs, args@, j as int);
                lemma_first_failure_unique(rules(c), nlhs, args@, j as int, k as int);
            }
            Decision::Reject(Rejection::Rule { command: c, step: k })
        },
        None => Decision::Run(c),
    }
}

/// Decides a call of the entry point: `name` is the text of the first
/// argument (read only when there is one and it is a string), `nlhs` the
/// number of output variables, and `args` the input arguments, the name
/// included.
pub fn decide(name: &str, nlhs: i32, args: &Vec<MxArg>) -> (r: Decision)
    ensures
        r == verdict(name@, nlhs, args@),
        r matches Decision::Reject(j) ==> j.well_formed(),
{
    if args.len() == 0 || !args[0].is_text() {
        return Decision::Reject(Rejection::NameNotText);
    }
    match parse_command(name) {
        Some(c) => {
            proof {
                let d = choose|d: Command| name@ == d.name();
                law_names_distinct(c, d);
            }
            judge(c, nlhs, args)
        },
        None => Decision::NotImplemented,
    }
}

} // verus!
