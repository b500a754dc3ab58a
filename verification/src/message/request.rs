//! What a client asked for: the URL it connected to, the stream it named and
//! the role it took.

use crate::connection::RtmpConnType;
use crate::message::error::ReuquestError;
use crate::text::{find, find_char, join_path};
use url::{ParseError, Url};
use vstd::prelude::*;
use vstd::string::StrSliceExecFns;

verus! {

/// `url::ParseError`: why a text is no URL.
#[verifier::external_type_specification]
#[verifier::external_body]
pub struct ExParseError(ParseError);

/// What `Url::parse` makes of a text: the URL in its normal form, its path and
/// its query; `None` for a text that is no URL.
pub uninterp spec fn url_parts(text: Seq<char>) -> Option<(Seq<char>, Seq<char>, Option<Seq<char>>)>;

/// The view of a string that may be missing.
pub open spec fn optional_text(s: Option<String>) -> Option<Seq<char>> {
    match s {
        Some(x) => Some(x@),
        None => None,
    }
}

/// `Url::parse`, with `Url::as_str`, `Url::path` and `Url::query` of the
/// result: the three are what `url_parts` names.
#[verifier::external_body]
fn parse_url(text: &str) -> (r: Result<(String, String, Option<String>), ParseError>)
    ensures
        match r {
            Ok((url, path, query)) => url_parts(text@) == Some(
                (url@, path@, optional_text(query)),
            ),
            Err(_) => url_parts(text@) is None,
        },
{
    let url = Url::parse(text)?;
    Ok((url.as_str().to_string(), url.path().to_string(), url.query().map(str::to_string)))
}

#[derive(Debug)]
pub struct Request {
    /// Remote address.
    pub ip: Option<String>,
    /// The URL the client connected to, as `rtmp://a.com/live?key=1`.
    pub tc_url: String,
    /// The path of `tc_url`, as `/live`.
    pub path: String,
    /// The query of `tc_url`, as `key=1`.
    pub query: Option<String>,
    pub stream: Option<String>,
    pub conn_type: RtmpConnType,
    /// For how long to play, as `play` asked.
    pub duration: u32,
}

/// What a [`Request`] stands for.
pub struct RequestView {
    pub ip: Option<Seq<char>>,
    pub tc_url: Seq<char>,
    pub path: Seq<char>,
    pub query: Option<Seq<char>>,
    pub stream: Option<Seq<char>>,
    pub conn_type: RtmpConnType,
    pub duration: u32,
}

impl View for Request {
    type V = RequestView;

    open spec fn view(&self) -> RequestView {
        RequestView {
            ip: optional_text(self.ip),
            tc_url: self.tc_url@,
            path: self.path@,
            query: optional_text(self.query),
            stream: optional_text(self.stream),
            conn_type: self.conn_type,
            duration: self.duration,
        }
    }
}

impl RequestView {
    /// The request that a URL alone makes.
    pub open spec fn parsed(text: Seq<char>) -> Option<RequestView> {
        match url_parts(text) {
            Some((tc_url, path, query)) => Some(
                RequestView {
                    ip: None,
                    tc_url,
                    path,
                    query,
                    stream: None,
                    conn_type: RtmpConnType::Unknow,
                    duration: 0,
                },
            ),
            None => None,
        }
    }

    /// The stream key: the path, a slash, and the stream's name if it has one.
    pub open spec fn app_stream(self) -> Seq<char> {
        self.path + seq!['/'] + match self.stream {
            Some(s) => s,
            None => Seq::empty(),
        }
    }

    /// The application: the first segment of the path.
    pub open spec fn app(self) -> Seq<char> {
        if self.path.len() > 0 && self.path[0] == '/' {
            self.path.subrange(1, find_char(self.path, '/', 1))
        } else {
            Seq::empty()
        }
    }
}

impl Request {
    /// Makes a request from the URL that a client connected to.
    ///
    /// Fails with `ParseUrl`, and only so, where the text is no URL.
    pub fn parse_from(url: String) -> (r: Result<Self, ReuquestError>)
        ensures
            match r {
                Ok(req) => RequestView::parsed(url@) == Some(req@),
                Err(e) => RequestView::parsed(url@) is None && e is ParseUrl,
            },
    {
        match parse_url(url.as_str()) {
            Ok((tc_url, path, query)) => Ok(
                Request {
                    ip: None,
                    tc_url,
                    path,
                    query,
                    stream: None,
                    conn_type: RtmpConnType::Unknow,
                    duration: 0,
                },
            ),
            Err(_) => Err(ReuquestError::ParseUrl),
        }
    }

    /// The stream key `/app/stream`.
    pub fn app_stream(&self) -> (r: String)
        ensures
            r@ == self@.app_stream(),
    {
        match &self.stream {
            Some(s) => join_path(self.path.as_str(), s.as_str()),
            None => {
                let r = join_path(self.path.as_str(), "");
                proof {
                    reveal_strlit("");
                    assert(""@ =~= Seq::<char>::empty());
                }
                r
            },
        }
    }

    /// The application that the URL names.
    pub fn app(&self) -> (r: String)
        ensures
            r@ == self@.app(),
    {
        let path = self.path.as_str();
        if path.unicode_len() > 0 && path.get_char(0) == '/' {
            let end = find(path, '/', 1);
            path.substring_char(1, end).to_owned()
        } else {
            String::new()
        }
    }
}

} // verus!
