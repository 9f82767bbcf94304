use vstd::prelude::*;

verus! {

/// Why no response came back for a request.
#[derive(Clone, Copy, Debug, PartialEq, Eq, Structural)]
pub enum NetworkError {
    ConnectionFailed,
    Timeout,
    InvalidResponse,
}

/// Which failure a transport error is: a timeout where the request timed
/// out, else a failed connection where none was made, else a response that
/// could not be read.
pub fn network_error_of(timed_out: bool, connect_failed: bool) -> (r: NetworkError)
    ensures
        r == if timed_out {
            NetworkError::Timeout
        } else if connect_failed {
            NetworkError::ConnectionFailed
        } else {
            NetworkError::InvalidResponse
        },
{
    if timed_out {
        NetworkError::Timeout
    } else if connect_failed {
        NetworkError::ConnectionFailed
    } else {
        NetworkError::InvalidResponse
    }
}

#[derive(Clone, Copy, Debug, PartialEq, Eq, Structural)]
pub enum Method {
    Get,
    Post,
}

/// One header line of a request.
#[derive(Debug)]
pub struct Header {
    pub name: String,
    pub value: String,
}

impl View for Header {
    type V = (Seq<char>, Seq<char>);

    open spec fn view(&self) -> (Seq<char>, Seq<char>) {
        (self.name@, self.value@)
    }
}

/// A request for the caller to send.
#[derive(Debug)]
pub struct HttpRequest {
    pub method: Method,
    pub url: String,
    pub headers: Vec<Header>,
    pub body: Option<String>,
}

pub struct HttpRequestView {
    pub method: Method,
    pub url: Seq<char>,
    pub headers: Seq<(Seq<char>, Seq<char>)>,
    pub body: Option<Seq<char>>,
}

impl View for HttpRequest {
    type V = HttpRequestView;

    open spec fn view(&self) -> HttpRequestView {
        HttpRequestView {
            method: self.method,
            url: self.url@,
            headers: self.headers@.map_values(|h: Header| h@),
            body: match self.body {
                Some(text) => Some(text@),
                None => None,
            },
        }
    }
}

/// A cookie as a response sets it: the domain and the path may be left out.
#[derive(Debug)]
pub struct SetCookie {
    pub name: String,
    pub value: String,
    pub domain: Option<String>,
    pub path: Option<String>,
}

pub struct SetCookieView {
    pub name: Seq<char>,
    pub value: Seq<char>,
    pub domain: Option<Seq<char>>,
    pub path: Option<Seq<char>>,
}

impl View for SetCookie {
    type V = SetCookieView;

    open spec fn view(&self) -> SetCookieView {
        SetCookieView {
            name: self.name@,
            value: self.value@,
            domain: match self.domain {
                Some(d) => Some(d@),
                None => None,
            },
            path: match self.path {
                Some(p) => Some(p@),
                None => None,
            },
        }
    }
}

/// What came back for a request: the status, the cookies that the response
/// sets, in the order of its headers, and the body.
#[derive(Debug)]
pub struct HttpResponse {
    pub status: u16,
    pub cookies: Vec<SetCookie>,
    pub body: String,
}

/// A status from 200 to 299.
pub open spec fn is_success(status: u16) -> bool {
    200 <= status < 300
}

impl HttpResponse {
    /// The cookies that the response sets, in the order of its headers.
    pub open spec fn set_cookies(&self) -> Seq<SetCookieView> {
        self.cookies@.map_values(|c: SetCookie| c@)
    }

    /// Whether the status is one from 200 to 299.
    pub fn succeeded(&self) -> (r: bool)
        ensures
            r == is_success(self.status),
    {
        200 <= self.status && self.status < 300
    }
}

} // verus!
