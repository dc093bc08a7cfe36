//! The error mapper: every failure of a handler becomes one response.
//!
//! A failure is raised with one of a closed set of kinds. The kind fixes
//! the status code, the prefix of the message, and whether the failure is
//! shown on the styled error page or as plain text.

use crate::engine::{insert_text, no_entries, one_off, one_off_output, Entry};
use crate::response::{ContentKind, Response, ResponseView};
use crate::status::{is_status, status_digits, status_text};
use vstd::prelude::*;
use vstd::std_specs::convert::FromSpecImpl;
use vstd::string::StringExecFns;

verus! {

/// The template of the styled error page. It is rendered on its own,
/// without the compiled template set, so that a broken template directory
/// cannot hide why a request failed.
pub const ERROR_TEMPLATE: &'static str = "\
    <link
      href=\"//fonts.googleapis.com/css?family=Raleway:400,300,600\"
                                 rel=\"stylesheet\"
        type=\"text/css\"
            />
            <link rel=\"stylesheet\" href=\"/static/css/normalize.css\" />
            <link rel=\"stylesheet\" href=\"/static/css/skeleton.css\" />
            <link rel=\"stylesheet\" href=\"/static/css/style.css\" />
<div class=\"container\">
Uh oh! An error ocurred. Please report this to the system administrator.
<pre>{{ code }}</pre>
<pre>{{ message }}</pre>
</div>
        ";

/// The closed set of ways in which a request can fail.
#[derive(Clone, Copy, Debug, PartialEq, Eq, Structural)]
pub enum FailureKind {
    /// The store could not execute a statement.
    StoreExecution,
    /// The connection to the store failed.
    StoreConnection,
    /// A value could not be converted to or from JSON.
    StoreSerialization,
    /// The store could not run a query.
    StoreQuery,
    /// A record that was asked for does not exist.
    StoreRecordNotFound,
    /// A column held a value of another type than expected.
    StoreTypeMismatch,
    /// A store failure of no other kind.
    StoreCustom,
    /// A template could not be rendered.
    TemplateRender,
    /// The templates could not be compiled.
    TemplateCompile,
    /// A static asset could not be read.
    StaticAssetIo,
    /// No route matches the request.
    RouteNotFound,
}

impl FailureKind {
    /// Whether the store raised a failure of this kind.
    pub open spec fn spec_is_store(self) -> bool {
        self is StoreExecution || self is StoreConnection || self is StoreSerialization
            || self is StoreQuery || self is StoreRecordNotFound || self is StoreTypeMismatch
            || self is StoreCustom
    }

    /// The status code of a failure of this kind: 404 where no route
    /// matched, 500 for every other kind. A record that was not found is
    /// an internal error like the other store failures.
    pub open spec fn spec_status(self) -> u16 {
        if self is RouteNotFound {
            404
        } else {
            500
        }
    }

    /// What the message of a failure of this kind begins with.
    pub open spec fn spec_prefix(self) -> Seq<char> {
        match self {
            FailureKind::StoreExecution => "Execution error: "@,
            FailureKind::StoreConnection => "Connection error: "@,
            FailureKind::StoreSerialization => "JSON error: "@,
            FailureKind::StoreQuery => "Query error: "@,
            FailureKind::StoreRecordNotFound => "Record not found error: "@,
            FailureKind::StoreTypeMismatch => "Type error: "@,
            FailureKind::StoreCustom => "Custom error: "@,
            FailureKind::TemplateRender => ""@,
            FailureKind::TemplateCompile => ""@,
            FailureKind::StaticAssetIo => "Static service error: "@,
            FailureKind::RouteNotFound => ""@,
        }
    }

    /// Whether a failure of this kind is shown on the styled error page.
    /// Failures of the static service and unmatched routes are not: they
    /// arise where no handler ran, and are answered in plain text.
    pub open spec fn spec_styled(self) -> bool {
        !(self is StaticAssetIo || self is RouteNotFound)
    }

    /// Whether the store raised a failure of this kind.
    #[verifier::when_used_as_spec(spec_is_store)]
    pub fn is_store(self) -> (store: bool)
        ensures
            store == self.spec_is_store(),
    {
        match self {
            FailureKind::StoreExecution => true,
            FailureKind::StoreConnection => true,
            FailureKind::StoreSerialization => true,
            FailureKind::StoreQuery => true,
            FailureKind::StoreRecordNotFound => true,
            FailureKind::StoreTypeMismatch => true,
            FailureKind::StoreCustom => true,
            FailureKind::TemplateRender => false,
            FailureKind::TemplateCompile => false,
            FailureKind::StaticAssetIo => false,
            FailureKind::RouteNotFound => false,
        }
    }

    /// The status code of a failure of this kind.
    #[verifier::when_used_as_spec(spec_status)]
    pub fn status(self) -> (code: u16)
        ensures
            code == self.spec_status(),
    {
        match self {
            FailureKind::StoreExecution => 500,
            FailureKind::StoreConnection => 500,
            FailureKind::StoreSerialization => 500,
            FailureKind::StoreQuery => 500,
            FailureKind::StoreRecordNotFound => 500,
            FailureKind::StoreTypeMismatch => 500,
            FailureKind::StoreCustom => 500,
            FailureKind::TemplateRender => 500,
            FailureKind::TemplateCompile => 500,
            FailureKind::StaticAssetIo => 500,
            FailureKind::RouteNotFound => 404,
        }
    }

    /// What the message of a failure of this kind begins with.
    pub fn prefix(self) -> (text: &'static str)
        ensures
            text@ == self.spec_prefix(),
    {
        match self {
            FailureKind::StoreExecution => "Execution error: ",
            FailureKind::StoreConnection => "Connection error: ",
            FailureKind::StoreSerialization => "JSON error: ",
            FailureKind::StoreQuery => "Query error: ",
            FailureKind::StoreRecordNotFound => "Record not found error: ",
            FailureKind::StoreTypeMismatch => "Type error: ",
            FailureKind::StoreCustom => "Custom error: ",
            FailureKind::TemplateRender => "",
            FailureKind::TemplateCompile => "",
            FailureKind::StaticAssetIo => "Static service error: ",
            FailureKind::RouteNotFound => "",
        }
    }

    /// Whether a failure of this kind is shown on the styled error page.
    #[verifier::when_used_as_spec(spec_styled)]
    pub fn styled(self) -> (styled: bool)
        ensures
            styled == self.spec_styled(),
    {
        match self {
            FailureKind::StoreExecution => true,
            FailureKind::StoreConnection => true,
            FailureKind::StoreSerialization => true,
            FailureKind::StoreQuery => true,
            FailureKind::StoreRecordNotFound => true,
            FailureKind::StoreTypeMismatch => true,
            FailureKind::StoreCustom => true,
            FailureKind::TemplateRender => true,
            FailureKind::TemplateCompile => true,
            FailureKind::StaticAssetIo => false,
            FailureKind::RouteNotFound => false,
        }
    }
}

/// A failure as it is raised: its kind and what the failing part reported.
#[derive(Debug, PartialEq, Eq)]
pub struct Failure {
    pub kind: FailureKind,
    pub detail: String,
}

/// The message shown for a failure: the prefix of its kind, then the
/// detail as it was reported.
pub open spec fn failure_message(kind: FailureKind, detail: Seq<char>) -> Seq<char> {
    kind.spec_prefix() + detail
}

/// The bindings that the error page is rendered against: the message, and
/// the status code in decimal digits.
pub open spec fn error_entries(message: Seq<char>, code: u16) -> Map<Seq<char>, Entry> {
    no_entries().insert("message"@, Entry::Text(message)).insert(
        "code"@,
        Entry::Text(status_digits(code)),
    )
}

/// The body of the styled error page for a message and a status code:
/// what the engine renders from the template of the error page against
/// these bindings, with HTML escaping on. `None` where the engine cannot
/// render the page.
pub open spec fn error_page(message: Seq<char>, code: u16) -> Option<Seq<char>> {
    one_off_output(ERROR_TEMPLATE@, error_entries(message, code), true)
}

/// The styled response for a message and a status code: the error page as
/// HTML under that status code.
pub open spec fn styled_response(message: Seq<char>, code: u16) -> Option<ResponseView> {
    match error_page(message, code) {
        Some(body) => Some(ResponseView { status: code as int, kind: ContentKind::Html, body }),
        None => None,
    }
}

/// The plain response to a failure: its message as plain text under the
/// status code of its kind.
pub open spec fn plain_response(kind: FailureKind, detail: Seq<char>) -> ResponseView {
    ResponseView {
        status: kind.spec_status() as int,
        kind: ContentKind::PlainText,
        body: failure_message(kind, detail),
    }
}

/// The response to a failure: the styled page for the kinds that are
/// styled, plain text for the others.
pub open spec fn failure_response(kind: FailureKind, detail: Seq<char>) -> Option<ResponseView> {
    if kind.spec_styled() {
        styled_response(failure_message(kind, detail), kind.spec_status())
    } else {
        Some(plain_response(kind, detail))
    }
}

/// A failure as it is shown: a message and an HTTP status code.
#[derive(Debug)]
pub struct Error {
    msg: String,
    code: u16,
}

impl Error {
    #[verifier::type_invariant]
    spec fn code_is_a_status(self) -> bool {
        is_status(self.code)
    }

    /// The message of this error.
    pub closed spec fn spec_message(&self) -> Seq<char> {
        self.msg@
    }

    /// The status code of this error.
    pub closed spec fn spec_code(&self) -> u16 {
        self.code
    }

    /// The message of this error.
    pub fn message(&self) -> (text: &str)
        ensures
            text@ == self.spec_message(),
    {
        self.msg.as_str()
    }

    /// The status code of this error, between 100 and 999.
    #[verifier::when_used_as_spec(spec_code)]
    pub fn code(&self) -> (code: u16)
        ensures
            code == self.spec_code(),
            100 <= code <= 999,
    {
        proof {
            use_type_invariant(self);
        }
        self.code
    }

    /// The body of the styled error page for this error. `None` means
    /// that the engine could not render the page.
    pub fn render_body(&self) -> (body: Option<String>)
        ensures
            body matches Some(text) ==> error_page(self.spec_message(), self.spec_code()) == Some(
                text@,
            ),
            body is None ==> error_page(self.spec_message(), self.spec_code()) is None,
    {
        proof {
            use_type_invariant(self);
        }
        let digits = status_text(self.code);
        let mut ctx = tera::Context::new();
        insert_text(&mut ctx, "message", self.msg.as_str());
        insert_text(&mut ctx, "code", digits.as_str());
        one_off(ERROR_TEMPLATE, &ctx, true)
    }

    /// The response that shows this error: the styled error page under
    /// the status code of the error. `None` means that the engine could
    /// not render the page.
    pub fn into_response(self) -> (response: Option<Response>)
        ensures
            response matches Some(r) ==> styled_response(self.spec_message(), self.spec_code())
                == Some(r@),
            response is None ==> styled_response(self.spec_message(), self.spec_code()) is None,
    {
        match self.render_body() {
            Some(body) => Some(Response { status: self.code, kind: ContentKind::Html, body }),
            None => None,
        }
    }
}

impl From<Failure> for Error {
    /// The error that shows a failure: the message is the prefix of the
    /// kind followed by the detail, the code is the status of the kind.
    fn from(failure: Failure) -> (error: Error)
        ensures
            error.spec_message() == failure_message(failure.kind, failure.detail@),
            error.spec_code() == failure.kind.spec_status(),
    {
        let code = failure.kind.status();
        let msg = String::from_str(failure.kind.prefix()).concat(failure.detail.as_str());
        Error { msg, code }
    }
}

impl FromSpecImpl<Failure> for Error {
    /// The message of an error is compared by its characters, so `from`
    /// states its result itself and not as a value to be equal to.
    open spec fn obeys_from_spec() -> bool {
        false
    }

    open spec fn from_spec(failure: Failure) -> Error {
        choose|error: Error|
            error.spec_message() == failure_message(failure.kind, failure.detail@)
                && error.spec_code() == failure.kind.spec_status()
    }
}

/// The error of the store: one of seven variants, each with the text
/// that the store reported.
#[verifier::external_type_specification]
#[verifier::external_body]
pub struct ExDbErr(sea_orm::DbErr);

/// The kind of failure that an error of the store stands for: the kind
/// of its variant.
pub uninterp spec fn store_kind(error: sea_orm::DbErr) -> FailureKind;

/// The text that an error of the store carries in its variant.
pub uninterp spec fn store_text(error: sea_orm::DbErr) -> Seq<char>;

/// Tells the variants of `DbErr` apart: each becomes the failure of the
/// store with the kind of that variant and the text that it carries.
#[verifier::external_body]
fn store_failure(error: sea_orm::DbErr) -> (failure: Failure)
    ensures
        failure.kind == store_kind(error),
        failure.detail@ == store_text(error),
        failure.kind.spec_is_store(),
{
    let (kind, detail) = match error {
        sea_orm::DbErr::Exec(s) => (FailureKind::StoreExecution, s),
        sea_orm::DbErr::Conn(s) => (FailureKind::StoreConnection, s),
        sea_orm::DbErr::Json(s) => (FailureKind::StoreSerialization, s),
        sea_orm::DbErr::Query(s) => (FailureKind::StoreQuery, s),
        sea_orm::DbErr::RecordNotFound(s) => (FailureKind::StoreRecordNotFound, s),
        sea_orm::DbErr::Type(s) => (FailureKind::StoreTypeMismatch, s),
        sea_orm::DbErr::Custom(s) => (FailureKind::StoreCustom, s),
    };
    Failure { kind, detail }
}

impl From<sea_orm::DbErr> for Error {
    /// The error that shows an error of the store: an internal error
    /// whose message is the prefix of the variant's kind followed by the
    /// text that the store reported.
    fn from(error: sea_orm::DbErr) -> (shown: Error)
        ensures
            shown.spec_message() == failure_message(store_kind(error), store_text(error)),
            shown.spec_code() == 500,
            store_kind(error).spec_is_store(),
    {
        Error::from(store_failure(error))
    }
}

impl FromSpecImpl<sea_orm::DbErr> for Error {
    /// The message of an error is compared by its characters, so `from`
    /// states its result itself and not as a value to be equal to.
    open spec fn obeys_from_spec() -> bool {
        false
    }

    open spec fn from_spec(error: sea_orm::DbErr) -> Error {
        choose|shown: Error|
            shown.spec_message() == failure_message(store_kind(error), store_text(error))
                && shown.spec_code() == 500
    }
}

/// Every failure of the store is an internal error with status 500; it
/// is shown on the styled error page, and its message begins with the
/// prefix of its kind, which is not empty.
pub proof fn lemma_store_failures_are_internal_errors(kind: FailureKind, detail: Seq<char>)
    requires
        kind.spec_is_store(),
    ensures
        kind.spec_status() == 500,
        kind.spec_styled(),
        kind.spec_prefix().len() > 0,
        kind.spec_prefix().is_prefix_of(failure_message(kind, detail)),
        failure_response(kind, detail) == styled_response(failure_message(kind, detail), 500),
{
    reveal_strlit("Execution error: ");
    reveal_strlit("Connection error: ");
    reveal_strlit("JSON error: ");
    reveal_strlit("Query error: ");
    reveal_strlit("Record not found error: ");
    reveal_strlit("Type error: ");
    reveal_strlit("Custom error: ");
    let message = failure_message(kind, detail);
    assert(message.subrange(0, kind.spec_prefix().len() as int) =~= kind.spec_prefix());
}

/// A failure of the template engine is shown with the engine's own
/// message, under status 500, on the styled error page.
pub proof fn lemma_template_failures_keep_the_message(kind: FailureKind, detail: Seq<char>)
    requires
        kind is TemplateRender || kind is TemplateCompile,
    ensures
        failure_message(kind, detail) == detail,
        failure_response(kind, detail) == styled_response(detail, 500),
{
    reveal_strlit("");
    assert(failure_message(kind, detail) =~= detail);
}

/// A failure that is not styled always has a response: its message in
/// plain text under the status of its kind.
pub proof fn lemma_plain_failures_are_always_answered(kind: FailureKind, detail: Seq<char>)
    requires
        !kind.spec_styled(),
    ensures
        failure_response(kind, detail) == Some(plain_response(kind, detail)),
        kind is StaticAssetIo ==> plain_response(kind, detail).status == 500,
        kind is RouteNotFound ==> plain_response(kind, detail).status == 404,
{
}

/// Maps a failure to its response: the styled error page for the kinds
/// that are styled, plain text for the others. `None` means that the
/// engine could not render the styled page.
pub fn respond(failure: Failure) -> (response: Option<Response>)
    ensures
        response matches Some(r) ==> failure_response(failure.kind, failure.detail@) == Some(r@),
        response is None ==> failure_response(failure.kind, failure.detail@) is None,
{
    if failure.kind.styled() {
        Error::from(failure).into_response()
    } else {
        let status = failure.kind.status();
        let body = String::from_str(failure.kind.prefix()).concat(failure.detail.as_str());
        Some(Response { status, kind: ContentKind::PlainText, body })
    }
}

} // verus!
