//! Command line options, declared and parsed by the `getopts` crate.
//!
//! The items of this module are not verified: each states what the crate's
//! code does, in terms of the options that a description holds and of the
//! values that a parsed command line holds.

use vstd::prelude::*;
use getopts::{Fail, Matches, Options};

verus! {

/// `getopts::Options`: the description of the options that a program takes.
#[verifier::external_type_specification]
#[verifier::external_body]
pub struct ExOptions(Options);

/// `getopts::Matches`: a command line that was parsed and accepted.
#[verifier::external_type_specification]
#[verifier::external_body]
pub struct ExMatches(Matches);

/// `getopts::Fail`: why a command line was rejected.
#[verifier::external_type_specification]
#[verifier::external_body]
pub struct ExFail(Fail);

/// One declared option: its short and long name (either may be empty), the
/// description and the value hint shown in the usage text, and whether it
/// takes a value.
pub struct OptionGroup {
    pub short_name: Seq<char>,
    pub long_name: Seq<char>,
    pub desc: Seq<char>,
    pub hint: Seq<char>,
    pub takes_value: bool,
}

/// What a parsed command line holds: for each name of a declared option,
/// the occurrences of that option in order, each with the value it was
/// given, if any.
pub type Occurrences = Map<Seq<char>, Seq<Option<Seq<char>>>>;

/// The options that a description holds, in the order of their declaration.
pub uninterp spec fn declared(options: Options) -> Seq<OptionGroup>;

/// The occurrences that a parsed command line holds.
pub uninterp spec fn matched(matches: Matches) -> Occurrences;

/// What `getopts` makes of the arguments `args` under the options `groups`:
/// the occurrences it found, or nothing where it rejects the command line.
pub uninterp spec fn parse_outcome(groups: Seq<OptionGroup>, args: Seq<Seq<char>>) -> Option<
    Occurrences,
>;

/// The usage text that `getopts` lays out for the options `groups` under the
/// heading `brief`.
pub uninterp spec fn usage_text(groups: Seq<OptionGroup>, brief: Seq<char>) -> Seq<char>;

/// The arguments as plain text.
pub open spec fn texts(args: Seq<String>) -> Seq<Seq<char>> {
    args.map_values(|arg: String| arg@)
}

/// Names that `getopts` is sure to accept for one option: a short name of
/// one ASCII character, a long name of several, either of which may be left
/// out. (It refuses a short name of more than one byte and a long name of
/// exactly one.)
pub open spec fn names_accepted(short_name: Seq<char>, long_name: Seq<char>) -> bool {
    &&& short_name.len() <= 1
    &&& long_name.len() != 1
    &&& forall|i: int| 0 <= i < short_name.len() ==> (short_name[i] as u32) < 128
    &&& forall|i: int| 0 <= i < long_name.len() ==> (long_name[i] as u32) < 128
}

/// Whether every option of `groups` can be asked for in `found` under each
/// of its names.
pub open spec fn answers_for(found: Occurrences, groups: Seq<OptionGroup>) -> bool {
    forall|i: int|
        #![trigger groups[i]]
        0 <= i < groups.len() ==> {
            &&& groups[i].short_name.len() > 0 ==> found.dom().contains(groups[i].short_name)
            &&& groups[i].long_name.len() > 0 ==> found.dom().contains(groups[i].long_name)
        }
}

/// The value of the first occurrence, if there is one and it has a value.
pub open spec fn first_value(occurrences: Seq<Option<Seq<char>>>) -> Option<Seq<char>> {
    if occurrences.len() > 0 {
        occurrences[0]
    } else {
        None
    }
}

/// `Options::new`: a description that holds no option yet. Command lines
/// are parsed under it in the crate's usual style, in which options and
/// other words may be mixed.
#[verifier::external_body]
pub(crate) fn no_options() -> (options: Options)
    ensures
        declared(options) == Seq::<OptionGroup>::empty(),
{
    Options::new()
}

/// `Options::optflag`: declares an option that takes no value and may be
/// given once. The call panics on names that it refuses, which
/// `names_accepted` rules out.
#[verifier::external_body]
pub(crate) fn declare_flag(options: &mut Options, short_name: &str, long_name: &str, desc: &str)
    requires
        names_accepted(short_name@, long_name@),
    ensures
        declared(*final(options)) == declared(*old(options)).push(
            (OptionGroup {
                short_name: short_name@,
                long_name: long_name@,
                desc: desc@,
                hint: Seq::empty(),
                takes_value: false,
            }),
        ),
{
    options.optflag(short_name, long_name, desc);
}

/// `Options::optopt`: declares an option that takes a value and may be given
/// once. The call panics on names that it refuses, which `names_accepted`
/// rules out.
#[verifier::external_body]
pub(crate) fn declare_value(
    options: &mut Options,
    short_name: &str,
    long_name: &str,
    desc: &str,
    hint: &str,
)
    requires
        names_accepted(short_name@, long_name@),
    ensures
        declared(*final(options)) == declared(*old(options)).push(
            (OptionGroup {
                short_name: short_name@,
                long_name: long_name@,
                desc: desc@,
                hint: hint@,
                takes_value: true,
            }),
        ),
{
    options.optopt(short_name, long_name, desc, hint);
}

/// `Options::parse`: reads the arguments under the declared options. It
/// panics on an option that has neither name. What it finds depends on the
/// options and the arguments alone, and whatever it accepts can be asked for
/// each declared option, under either name.
#[verifier::external_body]
pub(crate) fn parse_args(options: &Options, args: &[String]) -> (parsed: Result<Matches, Fail>)
    requires
        forall|i: int|
            #![trigger declared(*options)[i]]
            0 <= i < declared(*options).len() ==> declared(*options)[i].short_name.len()
                + declared(*options)[i].long_name.len() > 0,
    ensures
        match parsed {
            Ok(matches) => parse_outcome(declared(*options), texts(args@)) == Some(
                matched(matches),
            ) && answers_for(matched(matches), declared(*options)),
            Err(_) => parse_outcome(declared(*options), texts(args@)) is None,
        },
{
    options.parse(args)
}

/// `Options::usage`: the usage text for the declared options, which depends
/// on the options and the heading alone. It panics on a short name of more
/// than one column.
#[verifier::external_body]
pub(crate) fn usage_of(options: &Options, brief: &str) -> (text: String)
    requires
        forall|i: int|
            #![trigger declared(*options)[i]]
            0 <= i < declared(*options).len() ==> names_accepted(
                declared(*options)[i].short_name,
                declared(*options)[i].long_name,
            ),
    ensures
        text@ == usage_text(declared(*options), brief@),
{
    options.usage(brief)
}

/// `Matches::opt_present`: whether the option occurs. It panics on a name
/// that no declared option has.
#[verifier::external_body]
pub(crate) fn is_present(matches: &Matches, name: &str) -> (present: bool)
    requires
        matched(*matches).dom().contains(name@),
    ensures
        present == (matched(*matches)[name@].len() > 0),
{
    matches.opt_present(name)
}

/// `Matches::opt_str`: the value of the option's first occurrence. It panics
/// on a name that no declared option has.
#[verifier::external_body]
pub(crate) fn value_of(matches: &Matches, name: &str) -> (value: Option<String>)
    requires
        matched(*matches).dom().contains(name@),
    ensures
        match value {
            Some(text) => first_value(matched(*matches)[name@]) == Some(text@),
            None => first_value(matched(*matches)[name@]) is None,
        },
{
    matches.opt_str(name)
}

} // verus!
