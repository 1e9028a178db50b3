//! The structured error model: what failed, where, and what it was caused by.
//!
//! An [`Error`] is built by a factory and decorated by setters that take the
//! value and hand back the updated one. Its mathematical model is
//! [`ErrorView`]; every operation is specified by the function of the same
//! name on the model.

pub mod foreign;
pub mod laws;

use crate::context::Context;
use std::fmt::Display;
use vstd::prelude::*;
use vstd::std_specs::cmp::PartialEqSpecImpl;
use vstd::string::to_string_from_display_ensures;

verus! {

/// Reasons for which a request cannot be processed.
pub enum UnprocessableCode {
    /// What was to be created exists already.
    Exists,
    /// The caller could not be authenticated.
    AuthFailed,
}

/// Whether a failure is a defect of the system or attributable to the caller.
#[derive(Debug, Clone, Copy, PartialEq, Eq, Structural)]
pub enum ErrorKind {
    /// A defect or unexpected failure in this system or a dependency.
    Internal,
    /// An expected failure attributable to the caller or to external state.
    Application,
}

impl ErrorKind {
    /// The lower-case name of the kind.
    pub open spec fn name(self) -> Seq<char> {
        match self {
            ErrorKind::Internal => "internal"@,
            ErrorKind::Application => "application"@,
        }
    }

    /// Renders the kind as its lower-case name.
    pub fn to_string(&self) -> (text: String)
        ensures
            text@ == self.name(),
    {
        match self {
            ErrorKind::Internal => "internal".to_owned(),
            ErrorKind::Application => "application".to_owned(),
        }
    }
}

/// The mathematical model of an [`Error`].
pub struct ErrorView {
    pub kind: ErrorKind,
    pub path: Seq<char>,
    pub code: Seq<char>,
    pub status: Option<u16>,
    pub message: Option<Seq<char>>,
    pub context: Map<Seq<char>, Seq<char>>,
    pub cause: Option<Box<ErrorView>>,
}

impl ErrorView {
    /// A bare error of the given kind: no status, message, context or cause.
    pub open spec fn bare(kind: ErrorKind, path: Seq<char>, code: Seq<char>) -> ErrorView {
        ErrorView {
            kind,
            path,
            code,
            status: None,
            message: None,
            context: Map::empty(),
            cause: None,
        }
    }

    /// A bare application error.
    pub open spec fn new(path: Seq<char>, code: Seq<char>) -> ErrorView {
        ErrorView::bare(ErrorKind::Application, path, code)
    }

    /// A bare internal error.
    pub open spec fn internal(path: Seq<char>, code: Seq<char>) -> ErrorView {
        ErrorView::bare(ErrorKind::Internal, path, code)
    }

    /// The minimal cause that stands for a foreign value rendered as `text`:
    /// internal, with code `raw`, an empty path and `text` as its message.
    pub open spec fn raw(text: Seq<char>) -> ErrorView {
        ErrorView { message: Some(text), ..ErrorView::internal(Seq::empty(), "raw"@) }
    }

    /// The error with another path.
    pub open spec fn set_path(self, path: Seq<char>) -> ErrorView {
        ErrorView { path, ..self }
    }

    /// The error with another code.
    pub open spec fn set_code(self, code: Seq<char>) -> ErrorView {
        ErrorView { code, ..self }
    }

    /// The error with the given status.
    pub open spec fn set_status(self, status: u16) -> ErrorView {
        ErrorView { status: Some(status), ..self }
    }

    /// The error with the given message.
    pub open spec fn set_message(self, message: Seq<char>) -> ErrorView {
        ErrorView { message: Some(message), ..self }
    }

    /// Puts `value` under `key` in the context; a value already there is
    /// replaced.
    pub open spec fn add_context(self, key: Seq<char>, value: Seq<char>) -> ErrorView {
        ErrorView { context: self.context.insert(key, value), ..self }
    }

    /// Makes `inner` the direct cause, in place of any earlier one.
    pub open spec fn wrap(self, inner: ErrorView) -> ErrorView {
        ErrorView { cause: Some(Box::new(inner)), ..self }
    }

    /// Folds `other` into the context: first the entry `other.path ->
    /// other.code`, then every entry of `other`'s context, each write
    /// replacing what was under its key. Nothing else of `other` is kept.
    pub open spec fn merge(self, other: ErrorView) -> ErrorView {
        ErrorView {
            context: self.context.insert(other.path, other.code).union_prefer_right(
                other.context,
            ),
            ..self
        }
    }

    /// Whether the context holds any entry.
    pub open spec fn has_context(self) -> bool {
        self.context.len() != 0
    }

    /// The equality of errors: the same code, path and status. Kind,
    /// message, context and cause play no part.
    pub open spec fn same_failure(self, other: ErrorView) -> bool {
        &&& self.code == other.code
        &&& self.path == other.path
        &&& self.status == other.status
    }

    /// The context is finite, here and all along the chain of causes.
    pub open spec fn well_formed(self) -> bool
        decreases self,
    {
        &&& self.context.dom().finite()
        &&& match self.cause {
            Some(cause) => cause.well_formed(),
            None => true,
        }
    }
}

/// `text` is what the `Display` impl of `value` renders, as `to_string`
/// returns it.
pub open spec fn renders_as<T: Display + ?Sized>(value: &T, text: Seq<char>) -> bool {
    exists|rendered: String| #[trigger]
        to_string_from_display_ensures::<T>(value, rendered) && rendered@ == text
}

impl ErrorView {
    /// `self` is `outer` with its cause replaced by the raw cause whose
    /// message is the rendering of `value`.
    pub open spec fn wraps_rendering<T: Display + ?Sized>(
        self,
        outer: ErrorView,
        value: &T,
    ) -> bool {
        &&& self.cause matches Some(cause)
        &&& cause.message matches Some(text)
        &&& renders_as(value, text)
        &&& self == outer.wrap(ErrorView::raw(text))
    }
}

/// A string slice renders as its own characters.
pub proof fn lemma_str_renders_as_itself(value: &str, text: Seq<char>)
    requires
        renders_as::<str>(value, text),
    ensures
        text == value@,
{
    broadcast use vstd::string::to_string_from_display_ensures_for_str;

}

/// One occurrence of a failure.
#[derive(Debug)]
pub struct Error {
    kind: ErrorKind,
    path: String,
    code: String,
    status: Option<u16>,
    message: Option<String>,
    context: Context,
    cause: Option<Box<Error>>,
}

impl Error {
    /// The model of the error, cause chain included.
    pub closed spec fn model(&self) -> ErrorView
        decreases self,
    {
        ErrorView {
            kind: self.kind,
            path: self.path@,
            code: self.code@,
            status: self.status,
            message: match self.message {
                Some(text) => Some(text@),
                None => None,
            },
            context: self.context@,
            cause: match self.cause {
                Some(cause) => Some(Box::new(cause.model())),
                None => None,
            },
        }
    }
}

impl View for Error {
    type V = ErrorView;

    open spec fn view(&self) -> ErrorView {
        self.model()
    }
}

impl Error {
    /// Every error's model is well formed.
    pub proof fn lemma_well_formed(self)
        ensures
            self@.well_formed(),
        decreases self,
    {
        self.context.lemma_finite();
        match self.cause {
            Some(cause) => {
                (*cause).lemma_well_formed();
            },
            None => {},
        }
    }

    fn bare(kind: ErrorKind, path: String, code: String) -> (result: Error)
        ensures
            result@ == ErrorView::bare(kind, path@, code@),
    {
        Error {
            kind,
            path,
            code,
            status: None,
            message: None,
            context: Context::new(),
            cause: None,
        }
    }

    /// An application error at `path` with reason `code`, and nothing else.
    pub fn new(path: &str, code: &str) -> (result: Error)
        ensures
            result@ == ErrorView::new(path@, code@),
    {
        Error::bare(ErrorKind::Application, path.to_owned(), code.to_owned())
    }

    /// An internal error at `path` with reason `code`, and nothing else.
    pub fn internal(path: &str, code: &str) -> (result: Error)
        ensures
            result@ == ErrorView::internal(path@, code@),
    {
        Error::bare(ErrorKind::Internal, path.to_owned(), code.to_owned())
    }

    /// The minimal cause that carries `text`.
    fn raw(text: String) -> (result: Error)
        ensures
            result@ == ErrorView::raw(text@),
    {
        let mut cause = Error::bare(ErrorKind::Internal, String::new(), "raw".to_owned());
        cause.message = Some(text);
        cause
    }

    /// Makes `err` the direct cause, in place of any earlier one.
    pub fn wrap(self, err: Error) -> (result: Error)
        ensures
            result@ == self@.wrap(err@),
    {
        let mut wrapped = self;
        wrapped.cause = Some(Box::new(err));
        wrapped
    }

    /// Attaches as cause the minimal internal error whose message is the
    /// rendering of `s`.
    pub fn wrap_str<S: Display + ?Sized>(self, s: &S) -> (result: Error)
        ensures
            result@.wraps_rendering(self@, s),
    {
        let text = s.to_string();
        self.wrap(Error::raw(text))
    }

    /// Attaches as cause the minimal internal error whose message is the
    /// rendering of the foreign error `err`.
    pub fn wrap_raw<E: Display>(self, err: E) -> (result: Error)
        ensures
            result@.wraps_rendering(self@, &err),
    {
        self.wrap_str(&err)
    }

    /// Folds `err` into the context: the entry `err.path -> err.code`, then
    /// every entry of `err`'s context. `err`'s kind, status, message and
    /// cause are dropped.
    pub fn merge(self, err: Error) -> (result: Error)
        ensures
            result@ == self@.merge(err@),
    {
        let Error { path, code, context, .. } = err;
        let mut merged = self;
        merged.context = merged.context.insert(path, code).extend(context);
        merged
    }
}

impl Error {
    /// An application error for an entity that was not found: code
    /// `not_found`, status 404.
    pub fn not_found(entity: &str) -> (result: Error)
        ensures
            result@ == ErrorView::new(entity@, "not_found"@).set_status(404),
    {
        Error::new(entity, "not_found").set_status(404)
    }

    /// An application error for a caller that is not authenticated: path
    /// `authorization`, code `unauthorized`, status 401.
    pub fn unauthorized() -> (result: Error)
        ensures
            result@ == ErrorView::new("authorization"@, "unauthorized"@).set_status(401),
    {
        Error::new("authorization", "unauthorized").set_status(401)
    }

    /// An application error for an action that is not allowed: code
    /// `forbidden`, status 403.
    pub fn forbidden(path: &str) -> (result: Error)
        ensures
            result@ == ErrorView::new(path@, "forbidden"@).set_status(403),
    {
        Error::new(path, "forbidden").set_status(403)
    }

    /// An application error for input that cannot be read: code
    /// `bad_format`, status 400.
    pub fn bad_format(path: &str) -> (result: Error)
        ensures
            result@ == ErrorView::new(path@, "bad_format"@).set_status(400),
    {
        Error::new(path, "bad_format").set_status(400)
    }

    /// An application error for input that breaks a rule: code `invalid`,
    /// status 422.
    pub fn invalid(path: &str) -> (result: Error)
        ensures
            result@ == ErrorView::new(path@, "invalid"@).set_status(422),
    {
        Error::new(path, "invalid").set_status(422)
    }

    /// An application error for a clash with what exists: code `conflict`,
    /// status 409.
    pub fn conflict(path: &str) -> (result: Error)
        ensures
            result@ == ErrorView::new(path@, "conflict"@).set_status(409),
    {
        Error::new(path, "conflict").set_status(409)
    }

    /// An application error for a caller that does not own the entity: code
    /// `not_owner`, status 401.
    pub fn not_owner(entity: &str) -> (result: Error)
        ensures
            result@ == ErrorView::new(entity@, "not_owner"@).set_status(401),
    {
        Error::new(entity, "not_owner").set_status(401)
    }

    /// The classification of the failure.
    pub fn kind(&self) -> (kind: &ErrorKind)
        ensures
            *kind == self@.kind,
    {
        &self.kind
    }

    /// The short reason, readable by machines, within the path.
    pub fn code(&self) -> (code: &str)
        ensures
            code@ == self@.code,
    {
        self.code.as_str()
    }

    /// The logical place of what failed.
    pub fn path(&self) -> (path: &str)
        ensures
            path@ == self@.path,
    {
        self.path.as_str()
    }

    /// The status suggested for the wire, if one was set.
    pub fn status(&self) -> (status: Option<u16>)
        ensures
            status == self@.status,
    {
        self.status
    }

    /// The detail for human readers, if one was set.
    pub fn message(&self) -> (message: Option<&String>)
        ensures
            match message {
                Some(text) => self@.message == Some(text@),
                None => self@.message is None,
            },
    {
        self.message.as_ref()
    }

    /// The annotations gathered so far.
    pub fn context(&self) -> (context: &Context)
        ensures
            context@ == self@.context,
    {
        &self.context
    }

    /// Whether the context holds any entry.
    pub fn has_context(&self) -> (present: bool)
        ensures
            present == self@.has_context(),
    {
        !self.context.is_empty()
    }

    /// The direct cause, if one was attached.
    pub fn cause(&self) -> (cause: Option<&Error>)
        ensures
            match cause {
                Some(inner) => self@.cause == Some(Box::new(inner@)),
                None => self@.cause is None,
            },
    {
        match &self.cause {
            Some(boxed) => Some(&**boxed),
            None => None,
        }
    }

    /// Replaces the path.
    pub fn set_path(self, path: &str) -> (result: Error)
        ensures
            result@ == self@.set_path(path@),
    {
        let mut updated = self;
        updated.path = path.to_owned();
        updated
    }

    /// Replaces the code.
    pub fn set_code(self, code: &str) -> (result: Error)
        ensures
            result@ == self@.set_code(code@),
    {
        let mut updated = self;
        updated.code = code.to_owned();
        updated
    }

    /// Sets the status, in place of any earlier one.
    pub fn set_status(self, status: u16) -> (result: Error)
        ensures
            result@ == self@.set_status(status),
    {
        let mut updated = self;
        updated.status = Some(status);
        updated
    }

    /// Sets the message, in place of any earlier one.
    pub fn set_message(self, message: &str) -> (result: Error)
        ensures
            result@ == self@.set_message(message@),
    {
        let mut updated = self;
        updated.message = Some(message.to_owned());
        updated
    }

    /// Puts `v` under `k` in the context; a value already under `k` is
    /// replaced.
    pub fn add_context(self, k: &str, v: &str) -> (result: Error)
        ensures
            result@ == self@.add_context(k@, v@),
    {
        let mut updated = self;
        updated.context = updated.context.insert(k.to_owned(), v.to_owned());
        updated
    }

    /// A copy of the error, cause chain included.
    fn duplicate(&self) -> (result: Error)
        ensures
            result@ == self@,
        decreases self,
    {
        Error {
            kind: self.kind,
            path: self.path.clone(),
            code: self.code.clone(),
            status: self.status,
            message: match &self.message {
                Some(text) => Some(text.clone()),
                None => None,
            },
            context: self.context.clone(),
            cause: match &self.cause {
                Some(boxed) => Some(Box::new((**boxed).duplicate())),
                None => None,
            },
        }
    }
}

impl Clone for Error {
    fn clone(&self) -> (result: Error)
        ensures
            result@ == self@,
    {
        self.duplicate()
    }
}

impl PartialEq for Error {
    /// Two errors are equal when they have the same code, path and status.
    fn eq(&self, other: &Error) -> (same: bool) {
        self.code == other.code && self.path == other.path && self.status == other.status
    }
}

impl PartialEqSpecImpl for Error {
    open spec fn obeys_eq_spec() -> bool {
        true
    }

    open spec fn eq_spec(&self, other: &Error) -> bool {
        self@.same_failure(other@)
    }
}

/// The result of an operation that fails with an [`Error`].
pub type Result<T> = std::result::Result<T, Error>;

} // verus!
