//! The three durations of a routine and how the command line sets them.

use vstd::prelude::*;
use vstd::slice::slice_subrange;
use vstd::string::*;
use getopts::Options;
use crate::decimal::{integer_i64, parse_i64};
use crate::options::{
    declare_flag,
    declare_value,
    declared,
    first_value,
    is_present,
    names_accepted,
    no_options,
    parse_args,
    parse_outcome,
    texts,
    usage_of,
    usage_text,
    value_of,
    Occurrences,
    OptionGroup,
};
use crate::step::StepId;

verus! {

/// Why the command line did not yield a configuration.
#[derive(Debug, Clone, Copy, PartialEq, Eq, Structural)]
pub enum ParseError {
    /// The help flag was given.
    HelpArgument,
    /// An option is unknown, given twice or lacks its value.
    InvalidArgument,
    /// The value of an option is not a decimal integer.
    InvalidFormat,
}

/// How long each step of a routine lasts, in whole seconds.
#[derive(Debug, Clone, Copy, PartialEq, Eq, Structural)]
pub struct Settings {
    /// Seconds of preparation before the first round.
    pub prep_duration: i64,
    /// Seconds of work in each round.
    pub work_duration: i64,
    /// Seconds of rest in each round.
    pub rest_duration: i64,
}

impl Settings {
    /// The options of the command line: `-h` or `--help`, and one option
    /// for each step that takes its duration in seconds.
    pub open spec fn options() -> Seq<OptionGroup> {
        seq![
            OptionGroup {
                short_name: "h"@,
                long_name: "help"@,
                desc: "display this help and exit"@,
                hint: Seq::empty(),
                takes_value: false,
            },
            OptionGroup {
                short_name: "p"@,
                long_name: "prep"@,
                desc: "set the preparation time to NUMBER seconds"@,
                hint: "NUMBER"@,
                takes_value: true,
            },
            OptionGroup {
                short_name: "w"@,
                long_name: "work"@,
                desc: "set the workout time to NUMBER seconds"@,
                hint: "NUMBER"@,
                takes_value: true,
            },
            OptionGroup {
                short_name: "r"@,
                long_name: "rest"@,
                desc: "set the rest time to NUMBER seconds"@,
                hint: "NUMBER"@,
                takes_value: true,
            },
        ]
    }

    /// The short name of the option that sets the duration of `step`.
    pub open spec fn option_of(step: StepId) -> Seq<char> {
        match step {
            StepId::Prep => "p"@,
            StepId::Work => "w"@,
            StepId::Rest => "r"@,
        }
    }

    /// The heading of the usage text for the program called `program`.
    pub open spec fn brief(program: Seq<char>) -> Seq<char> {
        "Usage: "@ + program + " [options]"@
    }

    /// Whether no duration is negative.
    pub open spec fn spec_is_valid(&self) -> bool {
        self.prep_duration >= 0 && self.work_duration >= 0 && self.rest_duration >= 0
    }

    /// Whether a routine with these durations always has a step to move on
    /// to: its work or its rest lasts.
    pub open spec fn spec_is_runnable(&self) -> bool {
        self.work_duration > 0 || self.rest_duration > 0
    }

    /// These settings with the duration of `step` replaced.
    pub open spec fn with(self, step: StepId, seconds: i64) -> Settings {
        match step {
            StepId::Prep => Settings { prep_duration: seconds, ..self },
            StepId::Work => Settings { work_duration: seconds, ..self },
            StepId::Rest => Settings { rest_duration: seconds, ..self },
        }
    }

    /// What becomes of these settings when the option of `step` has the
    /// value `value`. No value leaves them as they are, a decimal integer
    /// becomes the duration of the step, and any other text is an error.
    pub open spec fn given(self, step: StepId, value: Option<Seq<char>>) -> (
        Result<(), ParseError>,
        Settings,
    ) {
        match value {
            None => (Ok(()), self),
            Some(text) => match integer_i64(text) {
                Some(seconds) => (Ok(()), self.with(step, seconds)),
                None => (Err(ParseError::InvalidFormat), self),
            },
        }
    }

    /// What becomes of these settings under the options of a command line:
    /// whether help was asked for, and the value given for each step, if
    /// any. A call for help changes nothing. Otherwise the values are applied
    /// in the order prepare, work, rest, up to the first that is no integer.
    pub open spec fn chosen(
        self,
        help: bool,
        prep: Option<Seq<char>>,
        work: Option<Seq<char>>,
        rest: Option<Seq<char>>,
    ) -> (Result<(), ParseError>, Settings) {
        if help {
            (Err(ParseError::HelpArgument), self)
        } else {
            let after_prep = self.given(StepId::Prep, prep);
            let after_work = after_prep.1.given(StepId::Work, work);
            let after_rest = after_work.1.given(StepId::Rest, rest);
            if after_prep.0 is Err {
                after_prep
            } else if after_work.0 is Err {
                after_work
            } else {
                after_rest
            }
        }
    }

    /// What becomes of these settings under a parsed command line. A command
    /// line that was rejected changes nothing. One that was accepted counts
    /// by the options it holds: help if `-h` occurs, and for each step the
    /// value of the first occurrence of its option.
    pub open spec fn configured(self, found: Option<Occurrences>) -> (
        Result<(), ParseError>,
        Settings,
    ) {
        match found {
            None => (Err(ParseError::InvalidArgument), self),
            Some(found) => self.chosen(
                found["h"@].len() > 0,
                first_value(found[Settings::option_of(StepId::Prep)]),
                first_value(found[Settings::option_of(StepId::Work)]),
                first_value(found[Settings::option_of(StepId::Rest)]),
            ),
        }
    }

    /// The text of a value, if there is one.
    pub open spec fn text_of(value: Option<String>) -> Option<Seq<char>> {
        match value {
            Some(text) => Some(text@),
            None => None,
        }
    }

    /// The settings with the given durations, in seconds.
    pub fn new(prep_seconds: i64, work_seconds: i64, rest_seconds: i64) -> (settings: Settings)
        ensures
            settings.prep_duration == prep_seconds,
            settings.work_duration == work_seconds,
            settings.rest_duration == rest_seconds,
    {
        Settings {
            prep_duration: prep_seconds,
            work_duration: work_seconds,
            rest_duration: rest_seconds,
        }
    }

    /// Whether no duration is negative.
    #[verifier::when_used_as_spec(spec_is_valid)]
    pub fn is_valid(&self) -> (valid: bool)
        ensures
            valid == self.spec_is_valid(),
    {
        self.prep_duration >= 0 && self.work_duration >= 0 && self.rest_duration >= 0
    }

    /// Whether the work or the rest lasts.
    #[verifier::when_used_as_spec(spec_is_runnable)]
    pub fn is_runnable(&self) -> (runnable: bool)
        ensures
            runnable == self.spec_is_runnable(),
    {
        self.work_duration > 0 || self.rest_duration > 0
    }

    /// The options of the command line are four, each with a short name of
    /// one letter and a long name of four.
    proof fn lemma_options_named()
        ensures
            Settings::options().len() == 4,
            Settings::options()[0].short_name == "h"@,
            Settings::options()[1].short_name == Settings::option_of(StepId::Prep),
            Settings::options()[2].short_name == Settings::option_of(StepId::Work),
            Settings::options()[3].short_name == Settings::option_of(StepId::Rest),
            forall|i: int|
                #![trigger Settings::options()[i]]
                0 <= i < 4 ==> Settings::options()[i].short_name.len() == 1 && names_accepted(
                    Settings::options()[i].short_name,
                    Settings::options()[i].long_name,
                ),
    {
        reveal_strlit("h");
        reveal_strlit("help");
        reveal_strlit("p");
        reveal_strlit("prep");
        reveal_strlit("w");
        reveal_strlit("work");
        reveal_strlit("r");
        reveal_strlit("rest");
    }

    /// Declares the options of the command line.
    fn declare_options() -> (options: Options)
        ensures
            declared(options) == Settings::options(),
    {
        proof {
            Settings::lemma_options_named();
            reveal_strlit("");
        }
        let mut options = no_options();
        declare_flag(&mut options, "h", "help", "display this help and exit");
        declare_value(
            &mut options,
            "p",
            "prep",
            "set the preparation time to NUMBER seconds",
            "NUMBER",
        );
        declare_value(&mut options, "w", "work", "set the workout time to NUMBER seconds", "NUMBER");
        declare_value(&mut options, "r", "rest", "set the rest time to NUMBER seconds", "NUMBER");
        assert(declared(options) =~= Settings::options());
        options
    }

    /// The usage text for the program called `program`.
    pub fn usage(program: &str) -> (text: String)
        ensures
            text@ == usage_text(Settings::options(), Settings::brief(program@)),
    {
        proof {
            Settings::lemma_options_named();
        }
        let options = Settings::declare_options();
        let mut brief = String::from_str("Usage: ");
        brief.append(program);
        brief.append(" [options]");
        usage_of(&options, brief.as_str())
    }

    /// Sets the durations from the command line `args`, whose first entry is
    /// the name of the program.
    pub fn set_from_cmdline(&mut self, args: &Vec<String>) -> (result: Result<(), ParseError>)
        requires
            args@.len() >= 1,
        ensures
            (result, *final(self)) == old(self).configured(
                parse_outcome(Settings::options(), texts(args@.skip(1))),
            ),
            result == Err::<(), ParseError>(ParseError::HelpArgument) || result == Err::<
                (),
                ParseError,
            >(ParseError::InvalidArgument) ==> *final(self) == *old(self),
    {
        proof {
            Settings::lemma_options_named();
        }
        let options = Settings::declare_options();
        let rest = slice_subrange(args.as_slice(), 1, args.len());
        assert(rest@ == args@.skip(1));
        let matches = match parse_args(&options, rest) {
            Ok(matches) => matches,
            Err(_) => {
                return Err(ParseError::InvalidArgument);
            },
        };
        let help = is_present(&matches, "h");
        let prep = value_of(&matches, "p");
        let work = value_of(&matches, "w");
        let rest = value_of(&matches, "r");
        self.set_from_options(help, prep, work, rest)
    }

    /// Sets the durations from the options of a command line: whether help
    /// was asked for, and the value given for each step, if any.
    ///
    /// A call for help is reported and changes nothing. Otherwise each value
    /// is applied in turn, prepare, then work, then rest; the first that is
    /// no decimal integer ends it with an error, and the values before it
    /// stay applied.
    pub fn set_from_options(
        &mut self,
        help: bool,
        prep: Option<String>,
        work: Option<String>,
        rest: Option<String>,
    ) -> (result: Result<(), ParseError>)
        ensures
            (result, *final(self)) == old(self).chosen(
                help,
                Settings::text_of(prep),
                Settings::text_of(work),
                Settings::text_of(rest),
            ),
            help <==> result == Err::<(), ParseError>(ParseError::HelpArgument),
            result is Ok <==> !help && old(self).given(StepId::Prep, Settings::text_of(prep)).0 is Ok
                && old(self).given(StepId::Work, Settings::text_of(work)).0 is Ok && old(
                self,
            ).given(StepId::Rest, Settings::text_of(rest)).0 is Ok,
    {
        if help {
            return Err(ParseError::HelpArgument);
        }
        match self.set_arg(StepId::Prep, prep) {
            Ok(_) => {},
            Err(e) => {
                return Err(e);
            },
        }
        match self.set_arg(StepId::Work, work) {
            Ok(_) => {},
            Err(e) => {
                return Err(e);
            },
        }
        match self.set_arg(StepId::Rest, rest) {
            Ok(_) => {},
            Err(e) => {
                return Err(e);
            },
        }
        Ok(())
    }

    /// Sets the duration of `step` from the text of its option, if it was
    /// given: a decimal integer, taken as seconds. Text that is no such
    /// integer is an error and changes nothing.
    pub fn set_arg(&mut self, step: StepId, value: Option<String>) -> (result: Result<
        (),
        ParseError,
    >)
        ensures
            (result, *final(self)) == old(self).given(step, Settings::text_of(value)),
            result is Ok <==> (value matches Some(text) ==> integer_i64(text@) is Some),
    {
        match value {
            Some(text) => {
                match parse_i64(text.as_str()) {
                    Some(seconds) => {
                        match step {
                            StepId::Prep => {
                                self.prep_duration = seconds;
                            },
                            StepId::Work => {
                                self.work_duration = seconds;
                            },
                            StepId::Rest => {
                                self.rest_duration = seconds;
                            },
                        }
                        Ok(())
                    },
                    None => Err(ParseError::InvalidFormat),
                }
            },
            None => Ok(()),
        }
    }
}

} // verus!
