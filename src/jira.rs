//! Data exchanged with the remote issue tracker.
use vstd::prelude::*;

verus! {

/// Authentication method for requests to the issue tracker.
#[derive(Debug, Clone)]
pub enum Auth {
    /// No authentication.
    Anonymous,
    /// Basic authentication with a user name and an optional password.
    Basic { username: String, password: Option<String> },
    /// Bearer token authentication.
    Bearer { token: String },
}

/// A file attachment of an issue, as listed by the tracker.
#[derive(Debug, Clone)]
pub struct Attachment {
    /// The file name of the attachment, unique within one listing.
    pub filename: String,
    /// The declared size in bytes.
    pub size: u64,
    /// The creation time, as the tracker wrote it.
    pub created: String,
    /// The locator from which the content is fetched.
    pub content: String,
}

/// Events emitted by one transfer, in this order: `Starting`, any number of
/// `Progress`, then exactly one of `Finished` or `Error`.
#[derive(Debug, Clone)]
pub enum DownloadEvent {
    /// The transfer is starting.
    Starting,
    /// Bytes received so far, and the total when the remote declared one.
    Progress { downloaded: u64, total: Option<u64> },
    /// The file is complete and visible under its final name.
    Finished,
    /// The transfer stopped on an error.
    Error { msg: String },
}

impl DownloadEvent {
    /// Whether this event ends a transfer.
    pub open spec fn is_last(self) -> bool {
        self is Finished || self is Error
    }
}

/// `s` without the `'/'` characters at its end.
pub open spec fn trim_trailing_slashes(s: Seq<char>) -> Seq<char>
    decreases s.len(),
{
    if s.len() > 0 && s.last() == '/' {
        trim_trailing_slashes(s.drop_last())
    } else {
        s
    }
}

/// The address of the attachment listing of `issue` under `base_url`.
pub open spec fn issue_url_of(base_url: Seq<char>, issue: Seq<char>) -> Seq<char> {
    trim_trailing_slashes(base_url) + "/rest/api/2/issue/"@ + issue + "?fields=attachment"@
}

proof fn lemma_trim_prefix(s: Seq<char>, n: int)
    requires
        0 <= n <= s.len(),
        forall|k: int| n <= k < s.len() ==> s[k] == '/',
        n == 0 || s[n - 1] != '/',
    ensures
        trim_trailing_slashes(s) == s.subrange(0, n),
    decreases s.len(),
{
    if s.len() > n {
        lemma_trim_prefix(s.drop_last(), n);
        assert(s.drop_last().subrange(0, n) =~= s.subrange(0, n));
    } else {
        assert(s.subrange(0, n) =~= s);
    }
}

/// The address from which the attachments of `issue` are listed: the base
/// address without trailing slashes, then the issue path and field filter.
pub fn issue_url(base_url: &str, issue: &str) -> (r: String)
    ensures
        r@ == issue_url_of(base_url@, issue@),
{
    let mut end: usize = base_url.unicode_len();
    while end > 0 && base_url.get_char(end - 1) == '/'
        invariant
            end <= base_url@.len(),
            forall|k: int| end <= k < base_url@.len() ==> base_url@[k] == '/',
        decreases end,
    {
        end = end - 1;
    }
    proof {
        lemma_trim_prefix(base_url@, end as int);
    }
    let mut r = String::from_str(base_url.substring_char(0, end));
    r.append("/rest/api/2/issue/");
    r.append(issue);
    r.append("?fields=attachment");
    r
}

} // verus!
