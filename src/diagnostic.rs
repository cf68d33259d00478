use vstd::prelude::*;
use vstd::string::StringSliceAdditionalSpecFns;
use vstd::utf8::encode_utf8;

use crate::protocol::{ExitStatus, Issue};
use crate::text::{append_bytes, append_decimal, append_str, decimal_spec, escape_html, escape_spec};

verus! {

/// An HTML page with a slot for its body: the bytes before the slot and the
/// bytes after it.
pub struct FallbackPage {
    pub before_body: Vec<u8>,
    pub after_body: Vec<u8>,
}

impl FallbackPage {
    pub fn new(before_body: Vec<u8>, after_body: Vec<u8>) -> (r: Self)
        ensures
            r.before_body == before_body,
            r.after_body == after_body,
    {
        FallbackPage { before_body, after_body }
    }

    /// The page with `body` in its body slot.
    pub fn with_body(&self, body: &[u8]) -> (r: Vec<u8>)
        ensures
            r@ == self.before_body@ + body@ + self.after_body@,
    {
        let mut out: Vec<u8> = Vec::new();
        append_bytes(&mut out, self.before_body.as_slice());
        append_bytes(&mut out, body);
        append_bytes(&mut out, self.after_body.as_slice());
        out
    }
}

/// The human-readable summary of how a process ended.
pub open spec fn status_summary_spec(status: ExitStatus) -> Seq<u8> {
    match status {
        ExitStatus::Exited { code } => "exit status: ".spec_bytes() + decimal_spec(code as int),
        ExitStatus::Killed => "killed".spec_bytes(),
    }
}

/// The message shown on the error page: the escaped error, then a status
/// line where the process status is known.
pub open spec fn error_message_spec(error: Seq<u8>, status: Option<ExitStatus>) -> Seq<u8> {
    match status {
        Some(s) => escape_spec(error) + "\n\nStatus: ".spec_bytes() + status_summary_spec(s),
        None => escape_spec(error),
    }
}

/// An error page body showing `status_code`, `title` and `message`.
pub open spec fn error_html_body_spec(status_code: u16, title: Seq<u8>, message: Seq<u8>) -> Seq<u8> {
    "<div id=\"__next_error__\"><h1>".spec_bytes() + decimal_spec(status_code as int)
        + "</h1><h2>".spec_bytes() + title + "</h2><pre>".spec_bytes() + message
        + "</pre></div>".spec_bytes()
}

/// An inert data block in the shape that the client side expects, so that it
/// can still parse the page.
pub open spec fn placeholder_data_spec() -> Seq<u8> {
    "<script id=\"__NEXT_DATA__\" type=\"application/json\">{ \"props\": {} }</script>".spec_bytes()
}

/// The body of the diagnostic page for `error`.
pub open spec fn diagnostic_body_spec(error: Seq<u8>, status: Option<ExitStatus>) -> Seq<u8> {
    placeholder_data_spec() + error_html_body_spec(
        500,
        "Error rendering page".spec_bytes(),
        error_message_spec(error, status),
    )
}

/// Renders an error page body showing `status_code`, `title` and `message`.
pub fn error_html_body(status_code: u16, title: &str, message: &[u8]) -> (r: Vec<u8>)
    ensures
        r@ == error_html_body_spec(status_code, title.spec_bytes(), message@),
{
    let mut out: Vec<u8> = Vec::new();
    append_str(&mut out, "<div id=\"__next_error__\"><h1>");
    append_decimal(&mut out, status_code as i64);
    append_str(&mut out, "</h1><h2>");
    append_str(&mut out, title);
    append_str(&mut out, "</h2><pre>");
    append_bytes(&mut out, message);
    append_str(&mut out, "</pre></div>");
    out
}

/// Renders the error message shown on the diagnostic page.
pub fn error_message(error: &str, status: Option<ExitStatus>) -> (r: Vec<u8>)
    ensures
        r@ == error_message_spec(error.spec_bytes(), status),
{
    let mut message = escape_html(error.as_bytes());
    match status {
        Some(s) => {
            append_str(&mut message, "\n\nStatus: ");
            match s {
                ExitStatus::Exited { code } => {
                    append_str(&mut message, "exit status: ");
                    append_decimal(&mut message, code as i64);
                },
                ExitStatus::Killed => {
                    append_str(&mut message, "killed");
                },
            }
        },
        None => {},
    }
    message
}

/// The diagnostic page for a failed rendering of `page`, and the issue that
/// reports it. The issue carries the error as it came, not escaped.
pub fn static_error(
    page: String,
    error: String,
    status: Option<ExitStatus>,
    fallback: &FallbackPage,
) -> (r: (Vec<u8>, Issue))
    ensures
        r.0@ == fallback.before_body@ + diagnostic_body_spec(encode_utf8(error@), status)
            + fallback.after_body@,
        r.1.context@ == page@,
        r.1.message@ == error@,
        r.1.exit_code == (match status {
            Some(s) => s.code_spec(),
            None => None,
        }),
{
    let message = error_message(error.as_str(), status);
    let mut body: Vec<u8> = Vec::new();
    append_str(&mut body, "<script id=\"__NEXT_DATA__\" type=\"application/json\">{ \"props\": {} }</script>");
    let page_body = error_html_body(500, "Error rendering page", message.as_slice());
    append_bytes(&mut body, page_body.as_slice());
    let exit_code = match status {
        Some(s) => s.code(),
        None => None,
    };
    let html = fallback.with_body(body.as_slice());
    (html, Issue { context: page, message: error, exit_code })
}

} // verus!
