//! A command definition: a name, the arguments the host declares on
//! it, and the step that matches process arguments against it.
//!
//! The definition itself lives inside clap and is opaque to the
//! verifier; the uninterpreted `command_name`, `declared_ids` and
//! `parse_ok` model the parts of it the contracts speak of.

use vstd::prelude::*;

use crate::arg_matches::ArgMatches;
use crate::arg_matches::bool_arg;
use crate::arg_matches::string_arg;

verus! {

/// An owned command definition, created from a name and consumed when
/// process arguments are matched against it.
///
/// The wrapped clap value is public: the verifier refuses every
/// float-typed declaration, so a host that wants one (a 64-bit float
/// option, say) attaches it to `inner` directly.
#[verifier::external_body]
pub struct Command {
    pub inner: clap::Command,
}

/// The name a command definition carries.
pub uninterp spec fn command_name(c: Command) -> Seq<char>;

/// The ids of the arguments the host has declared on a command
/// definition (clap's own built-ins, such as help, are not counted).
pub uninterp spec fn declared_ids(c: Command) -> Set<Seq<char>>;

/// Whether matching the given argument vector (the first element
/// taken as the program name) against a command definition succeeds.
/// The outcome is determined by the definition and the vector alone.
pub uninterp spec fn parse_ok(c: Command, args: Seq<Seq<char>>) -> bool;

impl Command {
    /// Builds a command definition with the given name.
    ///
    /// Relies on clap's `Command::new`: it sets the name and leaves
    /// everything else default, so no argument is declared and no
    /// input is required — matching a bare program name succeeds.
    #[verifier::external_body]
    pub fn new(name: String) -> (r: Self)
        ensures
            command_name(r) == name@,
            declared_ids(r) == Set::<Seq<char>>::empty(),
            forall|args: Seq<Seq<char>>| args.len() == 1 ==> #[trigger] parse_ok(r, args),
    {
        Command { inner: clap::Command::new(name) }
    }

    /// Builds an all-default command definition.
    ///
    /// Relies on clap's `Default` impl for `Command`: every part of
    /// the definition is default, the name empty, no argument
    /// declared and no input required — matching a bare program name
    /// succeeds.
    #[verifier::external_body]
    pub fn default() -> (r: Self)
        ensures
            command_name(r) == Seq::<char>::empty(),
            declared_ids(r) == Set::<Seq<char>>::empty(),
            forall|args: Seq<Seq<char>>| args.len() == 1 ==> #[trigger] parse_ok(r, args),
    {
        Command { inner: clap::Command::default() }
    }

    /// Declares a named option that takes one string value, reachable
    /// on the command line as `--<id> <value>`.
    ///
    /// A repeated id, an id beginning with `-`, or the id `help`
    /// (clap declares that one itself) makes the definition
    /// ill-formed — clap's debug assertions panic on it when matching
    /// — so the `requires` leaves those ids out.
    pub fn arg_string(self, id: String) -> (r: Self)
        requires
            !declared_ids(self).contains(id@),
            id@.len() > 0 ==> id@[0] != '-',
            id@ != "help"@,
        ensures
            command_name(r) == command_name(self),
            declared_ids(r) == declared_ids(self).insert(id@),
    {
        raw_arg_string(self, id)
    }

    /// Declares a named boolean flag, reachable on the command line as
    /// `--<id>`.
    ///
    /// A repeated id, an id beginning with `-`, or the id `help`
    /// (clap declares that one itself) makes the definition
    /// ill-formed — clap's debug assertions panic on it when matching
    /// — so the `requires` leaves those ids out.
    pub fn arg_flag(self, id: String) -> (r: Self)
        requires
            !declared_ids(self).contains(id@),
            id@.len() > 0 ==> id@[0] != '-',
            id@ != "help"@,
        ensures
            command_name(r) == command_name(self),
            declared_ids(r) == declared_ids(self).insert(id@),
    {
        raw_arg_flag(self, id)
    }

    /// Parses the live process arguments against this definition,
    /// consuming it. A parse failure is fatal at this layer: clap
    /// reports it and exits the process.
    ///
    /// Relies on clap's `Command::get_matches`: which arguments the
    /// environment held is not promised, but whatever they were, a
    /// parse can only match declared arguments, so an undeclared id
    /// never yields a value from the result.
    #[verifier::external_body]
    pub fn get_matches(self) -> (r: ArgMatches)
        ensures
            forall|id: Seq<char>| !declared_ids(self).contains(id) ==> !(#[trigger] string_arg(
                r,
                id,
            ) matches Ok(Some(_))),
            forall|id: Seq<char>| !declared_ids(self).contains(id) ==> !(#[trigger] bool_arg(
                r,
                id,
            ) matches Ok(Some(_))),
    {
        ArgMatches { inner: self.inner.get_matches() }
    }

    /// Parses the given arguments (the first is taken as the program
    /// name) against this definition, consuming it; a parse failure
    /// comes back as clap's rendered message. Succeeds exactly when
    /// matching the vector against the definition succeeds, and a
    /// parse can only match declared arguments, so an undeclared id
    /// never yields a value from the result.
    pub fn try_get_matches_from(self, args: Vec<String>) -> (r: Result<ArgMatches, String>)
        ensures
            r is Ok <==> parse_ok(self, args@.map_values(|s: String| s@)),
            r matches Ok(m) ==> (forall|id: Seq<char>| !declared_ids(self).contains(id) ==> !(
            #[trigger] string_arg(m, id) matches Ok(Some(_)))),
            r matches Ok(m) ==> (forall|id: Seq<char>| !declared_ids(self).contains(id) ==> !(
            #[trigger] bool_arg(m, id) matches Ok(Some(_)))),
    {
        raw_try_get_matches_from(self, args)
    }
}

/// Relies on clap's `Arg` builder and `Command::arg`: adding an
/// argument leaves the command's name as it was and declares exactly
/// the given id; the declared option takes one value and stores it as
/// a `String`.
#[verifier::external_body]
fn raw_arg_string(c: Command, id: String) -> (r: Command)
    ensures
        command_name(r) == command_name(c),
        declared_ids(r) == declared_ids(c).insert(id@),
{
    Command { inner: c.inner.arg(clap::Arg::new(id.clone()).long(id).value_parser(clap::builder::StringValueParser::new())) }
}

/// Relies on clap's `Arg` builder and `Command::arg`: adding an
/// argument leaves the command's name as it was and declares exactly
/// the given id; the declared flag takes no value and stores `true`
/// when present, `false` otherwise.
#[verifier::external_body]
fn raw_arg_flag(c: Command, id: String) -> (r: Command)
    ensures
        command_name(r) == command_name(c),
        declared_ids(r) == declared_ids(c).insert(id@),
{
    Command { inner: c.inner.arg(clap::Arg::new(id.clone()).long(id).action(clap::ArgAction::SetTrue)) }
}

/// Relies on clap's `Command::try_get_matches_from`: a pure parse of
/// the given arguments against the definition, succeeding exactly
/// when matching does; a parse can only match declared arguments, so
/// an undeclared id never yields a value from the result; an error
/// comes back as its rendered message. In a debug build an ill-formed
/// definition panics here instead, which the declaring functions'
/// `requires` keep unreachable.
#[verifier::external_body]
fn raw_try_get_matches_from(c: Command, args: Vec<String>) -> (r: Result<ArgMatches, String>)
    ensures
        r is Ok <==> parse_ok(c, args@.map_values(|s: String| s@)),
        r matches Ok(m) ==> (forall|id: Seq<char>| !declared_ids(c).contains(id) ==> !(
        #[trigger] string_arg(m, id) matches Ok(Some(_)))),
        r matches Ok(m) ==> (forall|id: Seq<char>| !declared_ids(c).contains(id) ==> !(
        #[trigger] bool_arg(m, id) matches Ok(Some(_)))),
{
    match c.inner.try_get_matches_from(args) {
        Ok(m) => Ok(ArgMatches { inner: m }),
        Err(e) => Err(e.to_string()),
    }
}

} // verus!
