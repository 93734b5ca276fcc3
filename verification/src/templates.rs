//! Rendered pages. Templates are rendered outside; what comes back is either
//! the page or the text of the render failure.

use crate::error::{template_error, AppError, CallSite, ErrorKind, HttpResponse, HttpResponseView};
use vstd::prelude::*;

verus! {

/// Status of a page that rendered.
pub const OK: u16 = 200;

/// An HTML page.
#[derive(Debug, PartialEq, Eq)]
pub struct Html(pub String);

impl Html {
    /// The response that delivers the page: status 200 and the page as body.
    pub fn into_response(self) -> (r: HttpResponse)
        ensures
            r@ == (HttpResponseView {
                status: OK,
                content_type: "text/html; charset=utf-8"@,
                body: self.0@,
            }),
    {
        HttpResponse { status: OK, content_type: "text/html; charset=utf-8", body: self.0 }
    }
}

/// Turns the outcome of rendering a template into the handler's result: the
/// page, or a template error raised at `location` that carries the text of the
/// render failure.
pub fn render(rendered: Result<String, String>, location: CallSite) -> (r: Result<Html, AppError>)
    ensures
        match rendered {
            Ok(content) => r matches Ok(page) && page.0@ == content@,
            Err(cause) => r matches Err(e) && e@ == (ErrorKind::TemplateRenderError {
                location: location@,
                source: cause@,
            }),
        },
{
    match rendered {
        Ok(content) => Ok(Html(content)),
        Err(cause) => Err(template_error(location, cause)),
    }
}

} // verus!
