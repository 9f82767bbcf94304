use crate::cookie::{
    distinct_names, header_text, lemma_upsert, lookup, upsert, without, Cookie, CookieStore,
    CookieView,
};
use crate::http::{
    is_success, Header, HttpRequest, HttpRequestView, HttpResponse, Method, NetworkError,
    SetCookieView,
};
use crate::json::{json_object_text, object_text};
use vstd::prelude::*;

verus! {

/// Whether a login has been accepted since the cookies were last cleared.
#[derive(Clone, Copy, Debug, PartialEq, Eq, Structural)]
pub enum SessionState {
    Anonymous,
    Authenticated,
}

/// The cookie that the store keeps for one that a response sets: a domain
/// left out becomes the empty domain, a path left out becomes `/`.
pub open spec fn stored_form(set: SetCookieView) -> CookieView {
    CookieView {
        name: set.name,
        value: set.value,
        domain: match set.domain {
            Some(d) => d,
            None => Seq::empty(),
        },
        path: match set.path {
            Some(p) => p,
            None => seq!['/'],
        },
    }
}

/// The entries after the cookies of a response went in, one after the other.
pub open spec fn after_set_cookies(entries: Seq<CookieView>, sets: Seq<SetCookieView>) -> Seq<
    CookieView,
>
    decreases sets.len(),
{
    if sets.len() == 0 {
        entries
    } else {
        upsert(after_set_cookies(entries, sets.drop_last()), stored_form(sets.last()))
    }
}

/// The cookies after a login was answered: those of a response with a
/// status from 200 to 299 went in, those of any other response did not.
pub open spec fn cookies_after_login(entries: Seq<CookieView>, response: HttpResponse) -> Seq<
    CookieView,
> {
    if is_success(response.status) {
        after_set_cookies(entries, response.set_cookies())
    } else {
        entries
    }
}

/// The state after a login was answered: authenticated once a response with
/// a status from 200 to 299 has set a cookie, and as before otherwise.
pub open spec fn state_after_login(before: SessionState, response: HttpResponse) -> SessionState {
    if is_success(response.status) && response.cookies@.len() > 0 {
        SessionState::Authenticated
    } else {
        before
    }
}

/// The body of a login request: a JSON object with the two credentials.
pub open spec fn login_body(username: Seq<char>, password: Seq<char>) -> Seq<char> {
    json_object_text(seq![("username"@, username), ("password"@, password)])
}

/// The headers of a request that replays the entries: one `Cookie` header
/// where there are entries, none where there are none.
pub open spec fn cookie_headers(entries: Seq<CookieView>) -> Seq<(Seq<char>, Seq<char>)> {
    if entries.len() == 0 {
        Seq::empty()
    } else {
        seq![("Cookie"@, header_text(entries))]
    }
}

/// The request that fetches a resource with the entries as credentials.
pub open spec fn get_request_spec(entries: Seq<CookieView>, url: Seq<char>) -> HttpRequestView {
    HttpRequestView { method: Method::Get, url, headers: cookie_headers(entries), body: None }
}

/// The request that posts a JSON body.
pub open spec fn post_request_spec(url: Seq<char>, body: Seq<char>) -> HttpRequestView {
    HttpRequestView {
        method: Method::Post,
        url,
        headers: seq![("Content-Type"@, "application/json"@)],
        body: Some(body),
    }
}

/// A response with a status outside 200 to 299 leaves the cookies and the
/// state as they were, whatever cookies it sets.
pub proof fn lemma_rejected_login_changes_nothing(
    entries: Seq<CookieView>,
    before: SessionState,
    response: HttpResponse,
)
    requires
        !is_success(response.status),
    ensures
        cookies_after_login(entries, response) == entries,
        state_after_login(before, response) == before,
{
}

/// The one session of a client: its cookies and whether it is logged in.
#[derive(Debug)]
pub struct RequestClient {
    store: CookieStore,
    state: SessionState,
}

impl RequestClient {
    /// The cookies of the session, oldest name first.
    pub closed spec fn cookies(&self) -> Seq<CookieView> {
        self.store.entries()
    }

    /// Whether the session is logged in.
    pub closed spec fn session(&self) -> SessionState {
        self.state
    }

    /// A session holds at most one cookie per name.
    pub open spec fn wf(&self) -> bool {
        distinct_names(self.cookies())
    }

    /// A session without cookies that is not logged in.
    pub fn new() -> (r: Self)
        ensures
            r.wf(),
            r.cookies() == Seq::<CookieView>::empty(),
            r.session() == SessionState::Anonymous,
    {
        RequestClient { store: CookieStore::new(), state: SessionState::Anonymous }
    }

    /// Stores the cookie under its name, in place of an earlier one of that
    /// name: looked up by that name it is then found, and the session holds
    /// one cookie more only where the name was new.
    pub fn add_cookie(&mut self, cookie: Cookie)
        requires
            old(self).wf(),
        ensures
            final(self).wf(),
            final(self).cookies() == upsert(old(self).cookies(), cookie@),
            lookup(final(self).cookies(), cookie@.name) == Some(cookie@),
            final(self).cookies().len() == old(self).cookies().len() + (if lookup(
                old(self).cookies(),
                cookie@.name,
            ) is Some {
                0int
            } else {
                1int
            }),
            final(self).session() == old(self).session(),
    {
        proof {
            lemma_upsert(self.store.entries(), cookie@);
        }
        self.store.add(cookie);
    }

    /// Drops the cookie of the given name, if there is one.
    pub fn remove_cookie(&mut self, name: &str)
        requires
            old(self).wf(),
        ensures
            final(self).wf(),
            final(self).cookies() == without(old(self).cookies(), name@),
            final(self).session() == old(self).session(),
    {
        self.store.remove(name);
    }

    /// The cookie stored under the name.
    pub fn get_cookie(&self, name: &str) -> (r: Option<&Cookie>)
        requires
            self.wf(),
        ensures
            match r {
                Some(c) => lookup(self.cookies(), name@) == Some(c@),
                None => lookup(self.cookies(), name@) is None,
            },
    {
        self.store.get(name)
    }

    /// Drops every cookie and with them the login.
    pub fn clear_cookies(&mut self)
        ensures
            final(self).wf(),
            final(self).cookies() == Seq::<CookieView>::empty(),
            final(self).session() == SessionState::Anonymous,
    {
        self.store.clear();
        self.state = SessionState::Anonymous;
    }

    /// Whether the session is logged in.
    pub fn state(&self) -> (r: SessionState)
        ensures
            r == self.session(),
    {
        self.state
    }

    /// The request that fetches `url`: a GET that carries the cookies of the
    /// session in one `Cookie` header, and no such header where the session
    /// has no cookie.
    pub fn get_request(&self, url: &str) -> (r: HttpRequest)
        ensures
            r@ == get_request_spec(self.cookies(), url@),
    {
        let mut headers: Vec<Header> = Vec::new();
        match self.store.cookie_header() {
            Some(value) => {
                headers.push(Header { name: "Cookie".to_owned(), value });
            },
            None => {},
        }
        let r = HttpRequest { method: Method::Get, url: url.to_owned(), headers, body: None };
        assert(r@.headers =~= cookie_headers(self.cookies()));
        r
    }

    /// The request that posts a JSON body to `url`.
    pub fn post_request(url: &str, body: String) -> (r: HttpRequest)
        ensures
            r@ == post_request_spec(url@, body@),
    {
        let mut headers: Vec<Header> = Vec::new();
        headers.push(
            Header { name: "Content-Type".to_owned(), value: "application/json".to_owned() },
        );
        let r = HttpRequest { method: Method::Post, url: url.to_owned(), headers, body: Some(body) };
        assert(r@.headers =~= seq![("Content-Type"@, "application/json"@)]);
        r
    }

    /// The request that logs in at `url`: a POST whose body is the JSON
    /// object of the two credentials.
    pub fn login_request(url: &str, username: &str, password: &str) -> (r: HttpRequest)
        ensures
            r@ == post_request_spec(url@, login_body(username@, password@)),
    {
        let mut members: Vec<(String, String)> = Vec::new();
        members.push(("username".to_owned(), username.to_owned()));
        members.push(("password".to_owned(), password.to_owned()));
        assert(members.deep_view() =~= seq![("username"@, username@), ("password"@, password@)]);
        Self::post_request(url, object_text(&members))
    }

    /// Takes in the reply to a login request. A transport failure is handed
    /// on and changes nothing. Of a response the result says whether the
    /// status is one from 200 to 299. Where it is, every cookie that the
    /// response sets goes into the store, and the session is logged in from
    /// then on if the response has set one. Where it is not, the server has
    /// rejected the login: the store and the state stay as they were,
    /// whatever the response carries.
    pub fn complete_login(&mut self, reply: &Result<HttpResponse, NetworkError>) -> (r: Result<
        bool,
        NetworkError,
    >)
        requires
            old(self).wf(),
        ensures
            final(self).wf(),
            match *reply {
                Err(failure) => {
                    &&& r == Err::<bool, NetworkError>(failure)
                    &&& final(self).cookies() == old(self).cookies()
                    &&& final(self).session() == old(self).session()
                },
                Ok(response) => {
                    &&& r == Ok::<bool, NetworkError>(is_success(response.status))
                    &&& final(self).cookies() == cookies_after_login(
                        old(self).cookies(),
                        response,
                    )
                    &&& final(self).session() == state_after_login(old(self).session(), response)
                },
            },
            reply matches Ok(response) && !is_success(response.status) ==> r == Ok::<
                bool,
                NetworkError,
            >(false) && final(self).cookies() == old(self).cookies() && final(self).session()
                == old(self).session(),
    {
        match reply {
            Err(failure) => Err(*failure),
            Ok(response) => {
                if !response.succeeded() {
                    return Ok(false);
                }
                let ghost sets = response.set_cookies();
                let mut i: usize = 0;
                while i < response.cookies.len()
                    invariant
                        i <= response.cookies.len(),
                        sets == response.set_cookies(),
                        self.store.wf(),
                        self.store.entries() == after_set_cookies(
                            old(self).cookies(),
                            sets.take(i as int),
                        ),
                        self.state == old(self).state,
                    decreases response.cookies.len() - i,
                {
                    let set = &response.cookies[i];
                    let cookie = Cookie {
                        name: set.name.clone(),
                        value: set.value.clone(),
                        domain: match &set.domain {
                            Some(d) => d.clone(),
                            None => String::new(),
                        },
                        path: match &set.path {
                            Some(p) => p.clone(),
                            None => "/".to_owned(),
                        },
                    };
                    proof {
                        reveal_strlit("/");
                        assert("/"@ =~= seq!['/']);
                        assert(sets.take(i as int + 1).drop_last() == sets.take(i as int));
                    }
                    self.store.add(cookie);
                    i += 1;
                }
                proof {
                    assert(sets.take(response.cookies.len() as int) == sets);
                }
                if response.cookies.len() > 0 {
                    self.state = SessionState::Authenticated;
                }
                Ok(true)
            },
        }
    }
}

} // verus!
