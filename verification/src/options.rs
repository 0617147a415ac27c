//! The command line of the relay: which options it knows, and what a given
//! line of arguments asks for.

use vstd::prelude::*;
use vstd::string::StringExecFns;
use vstd::string::StringSliceAdditionalSpecFns;

verus! {

/// A set of command-line options, as `getopts` holds it.
#[verifier::external_type_specification]
#[verifier::external_body]
pub struct ExOptions(getopts::Options);

/// What `getopts` found on a command line.
#[verifier::external_type_specification]
#[verifier::external_body]
pub struct ExMatches(getopts::Matches);

/// Why `getopts` turned a command line down.
#[verifier::external_type_specification]
#[verifier::external_body]
pub struct ExFail(getopts::Fail);

/// One option as it was declared: short name, long name, description, hint
/// for its value, and whether it takes a value.
pub type Declared = (Seq<char>, Seq<char>, Seq<char>, Seq<char>, bool);

/// The values found for each name that a command line was read against: one
/// entry for every time the option occurred, holding the value given there,
/// if any.
pub type Found = Map<Seq<char>, Seq<Option<Seq<char>>>>;

/// The options that a set holds, in the order in which they were declared.
pub uninterp spec fn declared(opts: getopts::Options) -> Seq<Declared>;

/// Whether a set reads command lines in the style that a new set has: free
/// arguments may stand anywhere, and a long option takes two dashes.
pub uninterp spec fn default_style(opts: getopts::Options) -> bool;

/// What a command line was found to hold, by option name.
pub uninterp spec fn found(matches: getopts::Matches) -> Found;

/// The message that describes a failure.
pub uninterp spec fn failure_text(fail: getopts::Fail) -> Seq<char>;

/// What reading `args` against the options `decls` gives: the values found,
/// or the message of the failure.
pub uninterp spec fn parse_outcome(decls: Seq<Declared>, args: Seq<Seq<char>>) -> Result<
    Found,
    Seq<char>,
>;

/// The usage text for the options `decls` under the heading `brief`.
pub uninterp spec fn usage_text(decls: Seq<Declared>, brief: Seq<char>) -> Seq<char>;

/// The texts of a sequence of strings.
pub open spec fn texts(strings: Seq<String>) -> Seq<Seq<char>> {
    strings.map_values(|s: String| s@)
}

/// Whether an option has a short or a long name.
pub open spec fn named(decl: Declared) -> bool {
    decl.0.len() > 0 || decl.1.len() > 0
}

/// Whether every name of the option `decl` can be asked for in `values`.
pub open spec fn defines(values: Found, decl: Declared) -> bool {
    &&& decl.0.len() > 0 ==> values.dom().contains(decl.0)
    &&& decl.1.len() > 0 ==> values.dom().contains(decl.1)
}

/// The value given at the first occurrence of an option, if it occurred
/// and was given one there.
pub open spec fn first_value(occurrences: Seq<Option<Seq<char>>>) -> Option<Seq<char>> {
    if occurrences.len() > 0 {
        occurrences[0]
    } else {
        None
    }
}

/// `getopts::Options::new`: a set in the default style that holds no option.
pub assume_specification[ getopts::Options::new ]() -> (opts: getopts::Options)
    ensures
        declared(opts) == Seq::<Declared>::empty(),
        default_style(opts),
;

/// `getopts::Options::optopt`: adds, behind those already declared, an
/// option that may be left out and that takes a value. The call panics on a
/// short name of more than one byte and on a long name of exactly one.
#[verifier::external_body]
fn optopt(opts: &mut getopts::Options, short_name: &str, long_name: &str, desc: &str, hint: &str)
    requires
        short_name.spec_bytes().len() <= 1,
        long_name.spec_bytes().len() != 1,
    ensures
        declared(*final(opts)) == declared(*old(opts)).push(
            (short_name@, long_name@, desc@, hint@, true),
        ),
        default_style(*final(opts)) == default_style(*old(opts)),
{
    opts.optopt(short_name, long_name, desc, hint);
}

/// `getopts::Options::optflag`: adds, behind those already declared, an
/// option that may be left out and that takes no value; its hint is empty.
/// The call panics on the same names as `optopt`.
#[verifier::external_body]
fn optflag(opts: &mut getopts::Options, short_name: &str, long_name: &str, desc: &str)
    requires
        short_name.spec_bytes().len() <= 1,
        long_name.spec_bytes().len() != 1,
    ensures
        declared(*final(opts)) == declared(*old(opts)).push(
            (short_name@, long_name@, desc@, Seq::<char>::empty(), false),
        ),
        default_style(*final(opts)) == default_style(*old(opts)),
{
    opts.optflag(short_name, long_name, desc);
}

/// `getopts::Options::parse`: reads a command line against the options. The
/// outcome depends on the options and the arguments alone. On success every
/// name that was declared can be asked for. The call panics where an option
/// has neither a short nor a long name.
#[verifier::external_body]
fn parse(opts: &getopts::Options, args: &[String]) -> (outcome: Result<
    getopts::Matches,
    getopts::Fail,
>)
    requires
        default_style(*opts),
        forall|i: int| 0 <= i < declared(*opts).len() ==> named(#[trigger] declared(*opts)[i]),
    ensures
        match outcome {
            Ok(matches) => {
                &&& parse_outcome(declared(*opts), texts(args@)) == Ok::<Found, Seq<char>>(
                    found(matches),
                )
                &&& forall|i: int|
                    0 <= i < declared(*opts).len() ==> defines(
                        found(matches),
                        #[trigger] declared(*opts)[i],
                    )
            },
            Err(fail) => parse_outcome(declared(*opts), texts(args@)) == Err::<Found, Seq<char>>(
                failure_text(fail),
            ),
        },
{
    opts.parse(args)
}

/// `getopts::Matches::opt_present`: whether the option occurred. The call
/// panics on a name that no declared option has.
pub assume_specification[ getopts::Matches::opt_present ](
    matches: &getopts::Matches,
    name: &str,
) -> (present: bool)
    requires
        found(*matches).dom().contains(name@),
    ensures
        present == (found(*matches)[name@].len() > 0),
;

/// `getopts::Matches::opt_str`: the value given at the option's first
/// occurrence, if there is one. The call panics on a name that no declared
/// option has.
pub assume_specification[ getopts::Matches::opt_str ](
    matches: &getopts::Matches,
    name: &str,
) -> (value: Option<String>)
    requires
        found(*matches).dom().contains(name@),
    ensures
        match value {
            Some(text) => first_value(found(*matches)[name@]) == Some(text@),
            None => first_value(found(*matches)[name@]) is None,
        },
;

/// `getopts::Options::usage`: the usage text, which depends on the options
/// and the heading alone.
pub assume_specification[ getopts::Options::usage ](opts: &getopts::Options, brief: &str) -> (text:
    String)
    requires
        default_style(*opts),
    ensures
        text@ == usage_text(declared(*opts), brief@),
;

/// The `Display` of `getopts::Fail`: the message of the failure.
#[verifier::external_body]
fn failure_message(fail: &getopts::Fail) -> (message: String)
    ensures
        message@ == failure_text(*fail),
{
    fail.to_string()
}

/// Where the relay listens and where it sends.
#[derive(Clone, Debug, PartialEq, Eq)]
pub struct Conf {
    /// The address and port on which producers are accepted.
    pub listen_on: String,
    /// The address and port of the remote destination.
    pub connect_to: String,
}

/// A configuration as plain text.
pub struct ConfView {
    pub listen_on: Seq<char>,
    pub connect_to: Seq<char>,
}

impl View for Conf {
    type V = ConfView;

    open spec fn view(&self) -> ConfView {
        ConfView { listen_on: self.listen_on@, connect_to: self.connect_to@ }
    }
}

/// What a command line asks of the program.
#[derive(Debug, PartialEq, Eq)]
pub enum Invocation {
    /// Run the relay with this configuration.
    Run(Conf),
    /// Show the usage text and stop: help was asked for, or an address is
    /// missing.
    Usage(String),
    /// The command line is malformed: show the reason, then the usage text,
    /// and stop.
    Refused { reason: String, usage: String },
}

/// An invocation as plain text.
pub enum InvocationView {
    Run(ConfView),
    Usage(Seq<char>),
    Refused { reason: Seq<char>, usage: Seq<char> },
}

impl View for Invocation {
    type V = InvocationView;

    open spec fn view(&self) -> InvocationView {
        match self {
            Invocation::Run(conf) => InvocationView::Run(conf@),
            Invocation::Usage(usage) => InvocationView::Usage(usage@),
            Invocation::Refused { reason, usage } => InvocationView::Refused {
                reason: reason@,
                usage: usage@,
            },
        }
    }
}

/// The options of the relay, in the order of the usage text.
pub open spec fn relay_options() -> Seq<Declared> {
    seq![
        ("l"@, "listen"@, "port on where listening"@, "PORT"@, true),
        ("d"@, "destination"@, "remote address on where sends data"@, "ADDRESS:PORT"@, true),
        ("h"@, "help"@, "print this help menu"@, Seq::<char>::empty(), false),
    ]
}

/// The heading of the usage text for a program called `program`.
pub open spec fn brief(program: Seq<char>) -> Seq<char> {
    "Usage: "@ + program + " FILE [options]"@
}

/// The configuration that the options found amount to: none where help was
/// asked for, none where either address is missing.
pub open spec fn configuration_of(
    help: bool,
    listen_on: Option<Seq<char>>,
    connect_to: Option<Seq<char>>,
) -> Option<ConfView> {
    if !help && listen_on is Some && connect_to is Some {
        Some(ConfView { listen_on: listen_on->0, connect_to: connect_to->0 })
    } else {
        None
    }
}

/// What the command line `args` asks for; `args[0]` is the program's name.
pub open spec fn invocation_of(args: Seq<Seq<char>>) -> InvocationView {
    let usage = usage_text(relay_options(), brief(args[0]));
    match parse_outcome(relay_options(), args.skip(1)) {
        Err(reason) => InvocationView::Refused { reason, usage },
        Ok(values) => match configuration_of(
            values["h"@].len() > 0,
            first_value(values["l"@]),
            first_value(values["d"@]),
        ) {
            Some(conf) => InvocationView::Run(conf),
            None => InvocationView::Usage(usage),
        },
    }
}

/// Decides from the options found whether the relay has a configuration to
/// run with.
pub fn configuration(help: bool, listen_on: Option<String>, connect_to: Option<String>) -> (conf:
    Option<Conf>)
    ensures
        match conf {
            Some(c) => configuration_of(help, view_of(listen_on), view_of(connect_to)) == Some(c@),
            None => configuration_of(help, view_of(listen_on), view_of(connect_to)) is None,
        },
{
    if help {
        return None;
    }
    match (listen_on, connect_to) {
        (Some(listen_on), Some(connect_to)) => Some(Conf { listen_on, connect_to }),
        _ => None,
    }
}

/// The text of a string that may be absent.
pub open spec fn view_of(text: Option<String>) -> Option<Seq<char>> {
    match text {
        Some(t) => Some(t@),
        None => None,
    }
}

/// The usage text of the relay's options for a program called `program`.
fn usage(program: &str, opts: &getopts::Options) -> (text: String)
    requires
        default_style(*opts),
    ensures
        text@ == usage_text(declared(*opts), brief(program@)),
{
    let brief = "Usage: ".to_owned().concat(program).concat(" FILE [options]");
    opts.usage(brief.as_str())
}

/// A text of ASCII characters has as many bytes as characters.
proof fn lemma_ascii_len(text: &str)
    requires
        vstd::utf8::is_ascii_chars(text@),
    ensures
        text.spec_bytes().len() == text@.len(),
{
    vstd::utf8::is_ascii_chars_encode_utf8(text@);
}

/// Reads the command line `args`, whose first entry is the program's name.
pub fn handle_options(args: &Vec<String>) -> (invocation: Invocation)
    requires
        args.len() > 0,
    ensures
        invocation@ == invocation_of(texts(args@)),
{
    let mut opts = getopts::Options::new();
    proof {
        reveal_strlit("l");
        reveal_strlit("listen");
        reveal_strlit("d");
        reveal_strlit("destination");
        reveal_strlit("h");
        reveal_strlit("help");
        lemma_ascii_len("l");
        lemma_ascii_len("listen");
        lemma_ascii_len("d");
        lemma_ascii_len("destination");
        lemma_ascii_len("h");
        lemma_ascii_len("help");
    }
    optopt(&mut opts, "l", "listen", "port on where listening", "PORT");
    optopt(&mut opts, "d", "destination", "remote address on where sends data", "ADDRESS:PORT");
    optflag(&mut opts, "h", "help", "print this help menu");
    assert(declared(opts) == relay_options());
    let usage = usage(args[0].as_str(), &opts);
    let rest = vstd::slice::slice_subrange(args.as_slice(), 1, args.len());
    assert(texts(rest@) == texts(args@).skip(1));
    match parse(&opts, rest) {
        Err(fail) => Invocation::Refused { reason: failure_message(&fail), usage },
        Ok(matches) => {
            let help = matches.opt_present("h");
            let listen_on = matches.opt_str("l");
            let connect_to = matches.opt_str("d");
            match configuration(help, listen_on, connect_to) {
                Some(conf) => Invocation::Run(conf),
                None => Invocation::Usage(usage),
            }
        },
    }
}

} // verus!
