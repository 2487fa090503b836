//! A parse result, queried by id for typed values.
//!
//! The parse result lives inside clap and is opaque to the verifier;
//! the three uninterpreted lookup functions model what each typed
//! query into it yields, and the coercion on top of them is verified.

use vstd::prelude::*;

use crate::value::Value;
use crate::value::ValueView;
use crate::value::coerce_spec;

verus! {

/// An owned parse result, consumed when a value is read out of it.
///
/// The wrapped clap value is public: the verifier refuses every
/// float-typed query, so a host that wants one (a 64-bit float lookup,
/// say) makes it on `inner` directly and hands the outcome to
/// [`ArgMatches::get_one`].
#[verifier::external_body]
pub struct ArgMatches {
    pub inner: clap::ArgMatches,
}

/// The outcome of looking an id up in a parse result as a `String`:
/// `Ok(Some(s))` when it matched `s`, `Ok(None)` when it matched
/// nothing, `Err(())` when the stored value is not a string — and,
/// under debug assertions, when the id was never declared; a release
/// build of clap answers `Ok(None)` for an undeclared id instead.
/// Within one build, the outcome is determined by the parse result
/// and the id alone.
pub uninterp spec fn string_arg(m: ArgMatches, id: Seq<char>) -> Result<Option<Seq<char>>, ()>;

/// The outcome of looking an id up in a parse result as a `bool`;
/// outcomes shaped as in `string_arg`.
pub uninterp spec fn bool_arg(m: ArgMatches, id: Seq<char>) -> Result<Option<bool>, ()>;

/// A string lookup outcome, with the string taken to its view.
pub open spec fn str_lookup_view(r: Result<Option<String>, ()>) -> Result<Option<Seq<char>>, ()> {
    match r {
        Ok(Some(s)) => Ok(Some(s@)),
        Ok(None) => Ok(None),
        Err(_) => Err(()),
    }
}

/// Relies on clap's `ArgMatches::try_get_one::<String>`: a pure
/// lookup, here with its two error variants collapsed and the value
/// cloned out.
#[verifier::external_body]
fn try_get_string(m: &ArgMatches, id: &str) -> (r: Result<Option<String>, ()>)
    ensures
        str_lookup_view(r) == string_arg(*m, id@),
{
    m.inner.try_get_one::<String>(id).map(|a| a.cloned()).map_err(|_| ())
}

/// Relies on clap's `ArgMatches::try_get_one::<bool>`: a pure lookup,
/// here with its two error variants collapsed and the value copied out.
#[verifier::external_body]
fn try_get_bool(m: &ArgMatches, id: &str) -> (r: Result<Option<bool>, ()>)
    ensures
        r == bool_arg(*m, id@),
{
    m.inner.try_get_one::<bool>(id).map(|a| a.copied()).map_err(|_| ())
}

impl ArgMatches {
    /// The outcome of the ordered trial on an id, given the outcome of
    /// the float-typed lookup: the string lookup is taken first, then
    /// the numeric one, then the boolean one.
    pub open spec fn coerced_lookup(
        self,
        id: Seq<char>,
        number: Result<Option<u64>, ()>,
    ) -> Result<Option<ValueView>, ()> {
        coerce_spec(string_arg(self, id), number, bool_arg(self, id))
    }

    /// Reads the value matched for `id` out as a string, consuming the
    /// parse result. Errs exactly when the string lookup errs.
    pub fn get_one_string(self, id: String) -> (r: Result<Option<String>, String>)
        ensures
            match r {
                Ok(Some(s)) => string_arg(self, id@) == Ok::<Option<Seq<char>>, ()>(Some(s@)),
                Ok(None) => string_arg(self, id@) == Ok::<Option<Seq<char>>, ()>(None),
                Err(e) => string_arg(self, id@) is Err && e@
                    == "Unable to convert the unmatches id from String"@,
            },
    {
        match try_get_string(&self, id.as_str()) {
            Ok(v) => Ok(v),
            Err(_) => Err(String::from_str("Unable to convert the unmatches id from String")),
        }
    }

    /// Reads the value matched for `id` out as a dynamic value,
    /// consuming the parse result: the first of the string, number and
    /// boolean lookups that does not err decides, in that order, and
    /// when all three err an error message comes back.
    ///
    /// The numeric lookup is a float-typed query, which the verifier
    /// refuses to make here: the caller makes it on [`Self::inner`]
    /// and passes its outcome in `number`, the value as its IEEE 754
    /// bit pattern.
    pub fn get_one(self, id: String, number: Result<Option<u64>, ()>) -> (r: Result<
        Option<Value>,
        String,
    >)
        ensures
            match r {
                Ok(Some(v)) => self.coerced_lookup(id@, number) == Ok::<
                    Option<ValueView>,
                    (),
                >(Some(v@)),
                Ok(None) => self.coerced_lookup(id@, number) == Ok::<Option<ValueView>, ()>(None),
                Err(e) => self.coerced_lookup(id@, number) is Err && e@
                    == "Unable to convert the unmatches id from f64, String or bool"@,
            },
    {
        let s = try_get_string(&self, id.as_str());
        let b = try_get_bool(&self, id.as_str());
        coerce(s, number, b)
    }
}

/// The ordered trial itself, on the three lookup outcomes: the first
/// that did not err decides, and when all three err an error message
/// comes back.
pub fn coerce(
    s: Result<Option<String>, ()>,
    n: Result<Option<u64>, ()>,
    b: Result<Option<bool>, ()>,
) -> (r: Result<Option<Value>, String>)
    ensures
        match r {
            Ok(Some(v)) => coerce_spec(str_lookup_view(s), n, b) == Ok::<
                Option<ValueView>,
                (),
            >(Some(v@)),
            Ok(None) => coerce_spec(str_lookup_view(s), n, b) == Ok::<Option<ValueView>, ()>(None),
            Err(e) => coerce_spec(str_lookup_view(s), n, b) is Err && e@
                == "Unable to convert the unmatches id from f64, String or bool"@,
        },
{
    match s {
        Ok(Some(x)) => Ok(Some(Value::Str(x))),
        Ok(None) => Ok(None),
        Err(_) => match n {
            Ok(Some(x)) => Ok(Some(Value::NumberBits(x))),
            Ok(None) => Ok(None),
            Err(_) => match b {
                Ok(Some(x)) => Ok(Some(Value::Bool(x))),
                Ok(None) => Ok(None),
                Err(_) => Err(
                    String::from_str("Unable to convert the unmatches id from f64, String or bool"),
                ),
            },
        },
    }
}

} // verus!
