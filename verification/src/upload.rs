//! The upload response: composing the public link of a freshly stored
//! file, and the payload the upload endpoint answers with — exactly one of
//! a link or an error message, never both and never neither.

use vstd::prelude::*;
use vstd::string::*;

use crate::paths::push_char;

verus! {

/// What the url library yields for joining a reference string onto a base
/// string: parse the base, resolve the reference against it, serialize.
/// The outcome is a function of the two strings alone; it is `None`
/// exactly when parsing or resolution fails.
pub uninterp spec fn url_join_of(base: Seq<char>, reference: Seq<char>) -> Option<Seq<char>>;

/// Relies on url's `Url::parse`, `Url::join` (RFC 3986 reference
/// resolution) and the `Display` serialization: deterministic in the two
/// strings, `None` exactly when parsing or joining fails.
#[verifier::external_body]
fn url_join(base: &str, reference: &str) -> (r: Option<String>)
    ensures
        (r is Some) == (url_join_of(base@, reference@) is Some),
        r matches Some(s) ==> Some(s@) == url_join_of(base@, reference@),
{
    match url::Url::parse(base) {
        Ok(u) => match u.join(reference) {
            Ok(joined) => Some(joined.to_string()),
            Err(_) => None,
        },
        Err(_) => None,
    }
}

/// The public link of a stored file: the base URL, resolved against
/// `<namespace>/`, resolved against the file's base name.
pub open spec fn spec_upload_link(
    base: Seq<char>,
    namespace: Seq<char>,
    file_name: Seq<char>,
) -> Option<Seq<char>> {
    match url_join_of(base, namespace + seq!['/']) {
        Some(with_namespace) => url_join_of(with_namespace, file_name),
        None => None,
    }
}

/// Composes the public URL for a freshly stored file from the configured
/// base URL, the namespace name and the allocated file's base name.
/// `None` means the composition was structurally invalid, which the
/// caller reports as an error.
pub fn build_upload_link(base_url: &str, namespace: &str, file_name: &str) -> (r: Option<String>)
    ensures
        (r is Some) == (spec_upload_link(base_url@, namespace@, file_name@) is Some),
        r matches Some(s) ==> Some(s@) == spec_upload_link(base_url@, namespace@, file_name@),
{
    let mut namespace_segment = namespace.to_owned();
    push_char(&mut namespace_segment, '/');
    proof {
        assert(namespace_segment@ =~= namespace@ + seq!['/']);
    }
    match url_join(base_url, namespace_segment.as_str()) {
        Some(with_namespace) => url_join(with_namespace.as_str(), file_name),
        None => None,
    }
}

/// The upload endpoint's answer. Exactly one of the two fields is
/// populated: a link on success, an error message on failure.
pub struct ResponsePayload {
    pub link: Option<String>,
    pub error: Option<String>,
}

impl ResponsePayload {
    /// Exactly one of the two fields populated.
    pub open spec fn wf(&self) -> bool {
        (self.link is Some) != (self.error is Some)
    }

    pub fn of_link(url: String) -> (r: ResponsePayload)
        ensures
            r.link == Some(url),
            r.error is None,
            r.wf(),
    {
        ResponsePayload { link: Some(url), error: None }
    }

    pub fn of_error(error_message: String) -> (r: ResponsePayload)
        ensures
            r.link is None,
            r.error == Some(error_message),
            r.wf(),
    {
        ResponsePayload { link: None, error: Some(error_message) }
    }
}

} // verus!
