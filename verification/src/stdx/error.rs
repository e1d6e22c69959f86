//! The error for a violated expectation about what `webtoons.com` sends.
use crate::stdx::num::{int_error_text, IntErrorKind};
use crate::stdx::text::string_from_chars;
use vstd::prelude::*;
use vstd::string::to_string_from_display_ensures;
use std::fmt::Display;

verus! {

/// A violated internal invariant: `webtoons.com` sent something this library does not
/// expect. It always points at a change on the platform or a bug here, never at user input.
#[derive(Debug)]
pub struct Assumption {
    msg: String,
}

impl Assumption {
    /// The explanation carried by this error.
    pub closed spec fn spec_message(&self) -> Seq<char> {
        self.msg@
    }

    /// Wraps `msg` (`From<String>`).
    pub fn from(msg: String) -> (a: Self)
        ensures
            a.spec_message() == msg@,
    {
        Self { msg }
    }

    /// Wraps a static message.
    pub fn new(msg: &str) -> (a: Self)
        ensures
            a.spec_message() == msg@,
    {
        Self { msg: msg.to_owned() }
    }

    /// Wraps `msg` followed by what caused the failure: `{msg}: {cause}`.
    pub fn with_cause(msg: &str, cause: &str) -> (a: Self)
        ensures
            a.spec_message() == msg@ + ": "@ + cause@,
    {
        let mut m = msg.to_owned();
        m.append(": ");
        m.append(cause);
        Self { msg: m }
    }

    /// The error for a text that did not parse as an integer: what was expected, the text
    /// found, and why it failed: `{what}, got: `{got}`: {cause}`.
    pub fn unparsed(what: &str, got: &[char], e: IntErrorKind) -> (a: Self)
        ensures
            a.spec_message() == what@ + ", got: `"@ + got@ + "`"@ + ": "@ + int_error_text(e),
    {
        let mut m = what.to_owned();
        m.append(", got: `");
        let g = string_from_chars(got);
        m.append(g.as_str());
        m.append("`");
        Self::with_cause(m.as_str(), e.text())
    }

    /// The explanation carried by this error.
    pub fn message(&self) -> (m: &str)
        ensures
            m@ == self.spec_message(),
    {
        self.msg.as_str()
    }

    /// The text this error displays: `internal assumption violated: {message}`.
    pub fn to_string(&self) -> (s: String)
        ensures
            s@ == "internal assumption violated: "@ + self.spec_message(),
    {
        let mut s = "internal assumption violated: ".to_owned();
        s.append(self.msg.as_str());
        s
    }
}

/// Attaches an [`Assumption`] message to an `Option` or `Result`.
pub trait Assume<T>: Sized {
    /// What the conversion produces.
    type Output;

    /// Converts `self` into a `Result`, using `msg` as the [`Assumption`] message.
    fn assumption(self, msg: &'static str) -> Self::Output;

    /// Like [`assumption`](Assume::assumption), but builds the message lazily.
    fn with_assumption<F: FnOnce() -> String>(self, msg: F) -> Self::Output
        requires
            call_requires(msg, ()),
    ;
}

impl<T> Assume<T> for Option<T> {
    type Output = Result<T, Assumption>;

    fn assumption(self, msg: &'static str) -> (r: Result<T, Assumption>)
        ensures
            self matches Some(v) ==> r == Ok::<T, Assumption>(v),
            self is None ==> (r matches Err(a) && a.spec_message() == msg@),
    {
        match self {
            Some(v) => Ok(v),
            None => Err(Assumption::new(msg)),
        }
    }

    fn with_assumption<F: FnOnce() -> String>(self, msg: F) -> (r: Result<T, Assumption>)
        ensures
            self matches Some(v) ==> r == Ok::<T, Assumption>(v),
            self is None ==> (r matches Err(a) && exists|m: String|
                call_ensures(msg, (), m) && a.spec_message() == m@),
    {
        match self {
            Some(v) => Ok(v),
            None => {
                let m = msg();
                Err(Assumption::from(m))
            },
        }
    }
}

impl<T, E: Display> Assume<T> for Result<T, E> {
    type Output = Result<T, Assumption>;

    fn assumption(self, msg: &'static str) -> (r: Result<T, Assumption>)
        ensures
            self matches Ok(v) ==> r == Ok::<T, Assumption>(v),
            self matches Err(e) ==> (r matches Err(a) && exists|es: String|
                to_string_from_display_ensures::<E>(&e, es) && a.spec_message() == msg@ + ": "@
                    + es@),
    {
        match self {
            Ok(v) => Ok(v),
            Err(e) => {
                let es = e.to_string();
                let mut m = msg.to_owned();
                m.append(": ");
                m.append(es.as_str());
                Err(Assumption::from(m))
            },
        }
    }

    fn with_assumption<F: FnOnce() -> String>(self, msg: F) -> (r: Result<T, Assumption>)
        ensures
            self matches Ok(v) ==> r == Ok::<T, Assumption>(v),
            self matches Err(e) ==> (r matches Err(a) && exists|m: String, es: String|
                call_ensures(msg, (), m) && to_string_from_display_ensures::<E>(&e, es)
                    && a.spec_message() == m@ + ": "@ + es@),
    {
        match self {
            Ok(v) => Ok(v),
            Err(e) => {
                let mut m = msg();
                let es = e.to_string();
                m.append(": ");
                m.append(es.as_str());
                Err(Assumption::from(m))
            },
        }
    }
}

} // verus!
