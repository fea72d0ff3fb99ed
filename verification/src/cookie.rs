//! The handle on one instance of the detection engine.
//!
//! A [`Cookie`] keeps what this layer knows of its engine instance, the flags
//! in effect, and decides what each answer of the engine means to the caller.
//! Whoever owns the instance makes the calls: each operation here takes what
//! the engine returned to the call of the same name and gives what the caller
//! is to see.
//!
//! The engine answers a query with a pointer to a description or with a null
//! pointer, a database operation with a status code, and keeps a diagnostic of
//! the operation that failed last. Pointers arrive here as `Option`s of the
//! bytes before the terminating nul. What the engine is handed comes from here
//! as well: flags as [`CookieFlags::bits`] gives them, file names as
//! [`c_string`](crate::marshal::c_string) gives them.

use crate::flags::{lemma_of_bits, lemma_option_view, lemma_union_view, CookieFlags, ERROR};
use crate::marshal::{decode, text_of};
use libc::c_int;
use vstd::prelude::*;

verus! {

/// The engine could not set up a new instance.
#[derive(Clone, Copy, Debug, PartialEq, Eq)]
pub struct OpenFailure;

/// A query that the engine could not carry out.
#[derive(Debug, PartialEq, Eq)]
pub struct QueryFailure {
    /// The engine's diagnostic of the failure.
    pub diagnostic: String,
}

impl View for QueryFailure {
    type V = Seq<char>;

    open spec fn view(&self) -> Seq<char> {
        self.diagnostic@
    }
}

/// The result of a query as characters.
pub open spec fn result_view(result: Result<Option<String>, QueryFailure>) -> Result<
    Option<Seq<char>>,
    Seq<char>,
> {
    match result {
        Ok(description) => Ok(description.deep_view()),
        Err(failure) => Err(failure@),
    }
}

/// What a query comes to: a description, no match, or a failure.
///
/// A description always wins. Without one, the query has failed only if
/// failures are reported strictly and the engine holds a diagnostic, which
/// the failure then carries; in every other case there is no match.
pub open spec fn query_result(
    strict: bool,
    description: Option<Seq<char>>,
    diagnostic: Option<Seq<char>>,
) -> Result<Option<Seq<char>>, Seq<char>> {
    match description {
        Some(found) => Ok(Some(found)),
        None => if strict && diagnostic is Some {
            Err(diagnostic.unwrap())
        } else {
            Ok(None)
        },
    }
}

/// The state of one engine instance as this layer tracks it.
///
/// There is one `Cookie` to an instance: the type can be neither copied nor
/// cloned.
#[derive(Debug)]
pub struct Cookie {
    flags: CookieFlags,
}

impl Cookie {
    /// The flags in effect for the queries to come.
    pub closed spec fn spec_flags(&self) -> CookieFlags {
        self.flags
    }

    /// Whether conditions such as a missing file count as failures.
    pub open spec fn strict(&self) -> bool {
        self.flags()@.contains(ERROR)
    }

    /// `flags` with strict errors switched on.
    pub open spec fn spec_open_flags(flags: CookieFlags) -> CookieFlags {
        flags.union(CookieFlags::of(ERROR))
    }

    /// The flags in effect for the queries to come.
    #[verifier::when_used_as_spec(spec_flags)]
    pub fn flags(&self) -> (r: CookieFlags)
        ensures
            r == self.flags(),
    {
        self.flags
    }

    /// The flags to set an engine instance up with when the caller asks for
    /// `flags`: strict errors are on whether the caller asked for them or not.
    #[verifier::when_used_as_spec(spec_open_flags)]
    pub fn open_flags(flags: CookieFlags) -> (r: CookieFlags)
        ensures
            r == Cookie::open_flags(flags),
            r.bits() == flags.bits() | ERROR,
            r@ == flags@.insert(ERROR),
    {
        proof {
            lemma_of_bits(ERROR);
            lemma_of_bits(flags.bits() | ERROR);
            lemma_open_is_strict(flags);
        }
        flags | CookieFlags::error()
    }

    /// Takes charge of the instance that the engine was asked to set up with
    /// `open_flags(flags)`. `allocated` tells whether the engine returned one;
    /// if it did not, there is no handle.
    pub fn open(flags: CookieFlags, allocated: bool) -> (r: Result<Cookie, OpenFailure>)
        ensures
            r is Ok <==> allocated,
            r matches Ok(cookie) ==> cookie.flags() == Cookie::open_flags(flags),
            r matches Ok(cookie) ==> cookie.flags()@ == flags@.insert(ERROR) && cookie.strict(),
    {
        if allocated {
            Ok(Cookie { flags: Cookie::open_flags(flags) })
        } else {
            Err(OpenFailure)
        }
    }

    /// Puts `flags` in place of the flags in effect. The engine is to be told
    /// the same; its status is of no account here.
    pub fn setflags(&mut self, flags: CookieFlags)
        ensures
            final(self).flags() == flags,
    {
        self.flags = flags;
    }

    /// Decides what a query comes to, from the description that the engine
    /// returned and the diagnostic that it holds after the query.
    pub fn outcome(&self, description: Option<String>, diagnostic: Option<String>) -> (r: Result<
        Option<String>,
        QueryFailure,
    >)
        ensures
            result_view(r) == query_result(
                self.strict(),
                description.deep_view(),
                diagnostic.deep_view(),
            ),
    {
        match description {
            Some(found) => Ok(Some(found)),
            None => {
                if self.flags.contains(CookieFlags::error()) {
                    match diagnostic {
                        Some(diagnostic) => Err(QueryFailure { diagnostic }),
                        None => Ok(None),
                    }
                } else {
                    Ok(None)
                }
            },
        }
    }

    /// A textual description of the file at a path, from the engine's answer
    /// `reply` to the path and the diagnostic that the engine holds after it.
    pub fn file(&self, reply: Option<&[u8]>, diagnostic: Option<&[u8]>) -> (r: Result<
        Option<String>,
        QueryFailure,
    >)
        ensures
            result_view(r) == query_result(self.strict(), text_of(reply), text_of(diagnostic)),
    {
        self.outcome(decode(reply), decode(diagnostic))
    }

    /// A textual description of the contents of a buffer, from the engine's
    /// answer `reply` to the buffer and the diagnostic that the engine holds
    /// after it.
    pub fn buffer(&self, reply: Option<&[u8]>, diagnostic: Option<&[u8]>) -> (r: Result<
        Option<String>,
        QueryFailure,
    >)
        ensures
            result_view(r) == query_result(self.strict(), text_of(reply), text_of(diagnostic)),
    {
        self.outcome(decode(reply), decode(diagnostic))
    }

    /// A textual description of the file behind an open descriptor, from the
    /// engine's answer `reply` to the descriptor and the diagnostic that the
    /// engine holds after it.
    pub fn descriptor(&self, reply: Option<&[u8]>, diagnostic: Option<&[u8]>) -> (r: Result<
        Option<String>,
        QueryFailure,
    >)
        ensures
            result_view(r) == query_result(self.strict(), text_of(reply), text_of(diagnostic)),
    {
        self.outcome(decode(reply), decode(diagnostic))
    }

    /// The diagnostic of the operation that failed last, or nothing if the
    /// engine holds none.
    pub fn error(&self, reply: Option<&[u8]>) -> (r: Option<String>)
        ensures
            r.deep_view() == text_of(reply),
    {
        decode(reply)
    }

    /// Whether the engine found the database file in order, from the status it
    /// returned.
    pub fn check(&self, status: c_int) -> (r: bool)
        ensures
            r <==> status == 0,
    {
        status == 0
    }

    /// Whether the engine compiled the database file, from the status it
    /// returned.
    pub fn compile(&self, status: c_int) -> (r: bool)
        ensures
            r <==> status == 0,
    {
        status == 0
    }

    /// Whether the engine listed the database, from the status it returned.
    pub fn list(&self, status: c_int) -> (r: bool)
        ensures
            r <==> status == 0,
    {
        status == 0
    }

    /// Whether the engine loaded the database for the queries to come, from
    /// the status it returned.
    pub fn load(&self, status: c_int) -> (r: bool)
        ensures
            r <==> status == 0,
    {
        status == 0
    }
}

/// A query fails exactly when errors are strict, the engine returned no
/// description and it holds a diagnostic; it comes to no match exactly when
/// the engine returned no description and the query has not failed.
pub proof fn lemma_query_result_cases(
    strict: bool,
    description: Option<Seq<char>>,
    diagnostic: Option<Seq<char>>,
)
    ensures
        query_result(strict, description, diagnostic) is Err <==> strict && description is None
            && diagnostic is Some,
        query_result(strict, description, diagnostic) == Ok::<Option<Seq<char>>, Seq<char>>(None)
            <==> description is None && !(strict && diagnostic is Some),
        description is Some ==> query_result(strict, description, diagnostic) == Ok::<
            Option<Seq<char>>,
            Seq<char>,
        >(description),
{
}

/// A newly opened handle reports failures strictly, whatever flags the caller
/// asked for, and has the caller's options besides.
pub proof fn lemma_open_is_strict(flags: CookieFlags)
    ensures
        Cookie::open_flags(flags)@.contains(ERROR),
        Cookie::open_flags(flags)@ == flags@.insert(ERROR),
{
    lemma_union_view(flags, CookieFlags::of(ERROR));
    lemma_option_view(ERROR);
    assert(flags@ + set![ERROR] =~= flags@.insert(ERROR));
}

} // verus!
