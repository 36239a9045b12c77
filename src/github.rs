use vstd::prelude::*;
use reqwest::header::{HeaderValue, InvalidHeaderValue};

verus! {

#[verifier::external_type_specification]
#[verifier::external_body]
pub struct ExHeaderValue(HeaderValue);

#[verifier::external_type_specification]
#[verifier::external_body]
pub struct ExInvalidHeaderValue(InvalidHeaderValue);

#[verifier::external_type_specification]
#[verifier::external_body]
pub struct ExReqwestError(reqwest::Error);

#[verifier::external_type_specification]
#[verifier::external_body]
pub struct ExJsonError(serde_json::Error);

/// A character that may stand in an HTTP header value: a tab, or any
/// character from the space upwards but DEL. Characters above ASCII are
/// encoded as bytes of 0x80 and more, which are allowed.
pub open spec fn valid_header_char(c: char) -> bool {
    c == '\t' || (c as u32 >= 32 && c as u32 != 127)
}

/// Text that can be used as an HTTP header value as it stands.
pub open spec fn valid_header_text(s: Seq<char>) -> bool {
    forall|i: int| 0 <= i < s.len() ==> #[trigger] valid_header_char(s[i])
}

/// Relies on `HeaderValue::from_str`: it succeeds exactly when every byte of
/// the text is a tab, or at least 32 and not 127.
#[verifier::external_body]
fn header_value(s: &str) -> (r: Result<HeaderValue, InvalidHeaderValue>)
    ensures
        r is Ok <==> valid_header_text(s@),
{
    HeaderValue::from_str(s)
}
/// The media type that selects the versioned JSON form of the API.
pub const ACCEPT_MEDIA_TYPE: &'static str = "application/vnd.github+json";

/// The root of every endpoint.
pub const API_ROOT: &'static str = "https://api.github.com";

/// The errors of a call to the API.
pub enum GitHubErr {
    /// The token or the client name cannot be used as a header value.
    HeaderErr(InvalidHeaderValue),
    /// The transport failed.
    APIErr(reqwest::Error),
    /// The response body does not have the expected shape.
    SerdeErr(serde_json::Error),
    /// The server answered with a status other than success; the body as it came.
    ErrResponse(String),
}

/// The headers that every request carries.
#[derive(Clone, Copy, Debug, PartialEq, Eq, Structural)]
pub enum HeaderField {
    Accept,
    Authorization,
    UserAgent,
}

/// One header of a request: its field, its text, and the validated value.
pub struct Header {
    pub field: HeaderField,
    pub text: String,
    pub value: HeaderValue,
}

/// What a request to the API consists of, short of sending it.
pub struct ApiRequest {
    /// The full URL, without a query string.
    pub url: String,
    /// The query parameters, in order.
    pub query: Vec<(String, String)>,
    pub headers: Vec<Header>,
}

/// The fields and texts of a list of headers, in order.
pub open spec fn header_texts(hs: Seq<Header>) -> Seq<(HeaderField, Seq<char>)> {
    hs.map_values(|h: Header| (h.field, h.text@))
}

/// The three headers of every request, built from a token and a client name.
pub open spec fn common_header_texts(token: Seq<char>, agent: Seq<char>) -> Seq<(HeaderField, Seq<char>)> {
    seq![
        (HeaderField::Accept, ACCEPT_MEDIA_TYPE@),
        (HeaderField::Authorization, token),
        (HeaderField::UserAgent, agent),
    ]
}

/// The URL of the user search.
pub open spec fn search_url() -> Seq<char> {
    API_ROOT@ + "/search/users"@
}

/// The URL of one user's profile.
pub open spec fn user_url(login: Seq<char>) -> Seq<char> {
    API_ROOT@ + "/users/"@ + login
}

/// The credentials of a client: a bearer token and the client's name, which
/// is sent as its user agent.
pub struct GitHub {
    token: String,
    username: String,
}

impl GitHub {
    /// The token sent in the `Authorization` header.
    pub closed spec fn token_text(&self) -> Seq<char> {
        self.token@
    }

    /// The name sent in the `User-Agent` header.
    pub closed spec fn agent_text(&self) -> Seq<char> {
        self.username@
    }

    pub fn new(token: &str, username: &str) -> (r: GitHub)
        ensures
            r.token_text() == token@,
            r.agent_text() == username@,
    {
        GitHub { token: String::from_str(token), username: String::from_str(username) }
    }

    fn header(field: HeaderField, text: &str) -> (r: Result<Header, GitHubErr>)
        ensures
            r is Ok <==> valid_header_text(text@),
            r matches Ok(h) ==> h.field == field && h.text@ == text@,
            r matches Err(e) ==> e is HeaderErr,
    {
        match header_value(text) {
            Ok(value) => Ok(Header { field, text: String::from_str(text), value }),
            Err(e) => Err(GitHubErr::HeaderErr(e)),
        }
    }

    /// The headers of every request, in order: the media type, the token and
    /// the client name. Fails, before anything is sent, when the token or the
    /// name cannot be a header value.
    pub fn get_common_headers(&self) -> (r: Result<Vec<Header>, GitHubErr>)
        ensures
            r is Ok <==> valid_header_text(self.token_text()) && valid_header_text(
                self.agent_text(),
            ),
            r matches Ok(hs) ==> header_texts(hs@) == common_header_texts(
                self.token_text(),
                self.agent_text(),
            ),
            r matches Err(e) ==> e is HeaderErr,
    {
        proof {
            reveal_strlit("application/vnd.github+json");
            assert(valid_header_text(ACCEPT_MEDIA_TYPE@));
        }
        let accept = Self::header(HeaderField::Accept, ACCEPT_MEDIA_TYPE)?;
        let auth = Self::header(HeaderField::Authorization, self.token.as_str())?;
        let agent = Self::header(HeaderField::UserAgent, self.username.as_str())?;
        let hs = vec![accept, auth, agent];
        assert(header_texts(hs@) =~= common_header_texts(self.token_text(), self.agent_text()));
        Ok(hs)
    }
}
/// A status code in the success class.
pub open spec fn is_success_status(code: u16) -> bool {
    200 <= code <= 299
}

/// The texts of a list of query parameters, in order.
pub open spec fn query_texts(q: Seq<(String, String)>) -> Seq<(Seq<char>, Seq<char>)> {
    q.map_values(|p: (String, String)| (p.0@, p.1@))
}

/// Whether a status code is in the success class (200 to 299).
pub fn is_success(code: u16) -> (r: bool)
    ensures
        r == is_success_status(code),
{
    200 <= code && code <= 299
}

impl GitHub {
    /// The request of a user search: the search URL, `q` as its single query
    /// parameter, and the common headers. Fails as the headers do.
    pub fn search_request(&self, q: &str) -> (r: Result<ApiRequest, GitHubErr>)
        ensures
            r is Ok <==> valid_header_text(self.token_text()) && valid_header_text(
                self.agent_text(),
            ),
            r matches Ok(req) ==> req.url@ == search_url() && query_texts(req.query@) == seq![
                ("q"@, q@),
            ] && header_texts(req.headers@) == common_header_texts(
                self.token_text(),
                self.agent_text(),
            ),
            r matches Err(e) ==> e is HeaderErr,
    {
        let headers = self.get_common_headers()?;
        let mut url = String::from_str(API_ROOT);
        url.append("/search/users");
        let query = vec![(String::from_str("q"), String::from_str(q))];
        assert(query_texts(query@) =~= seq![("q"@, q@)]);
        Ok(ApiRequest { url, query, headers })
    }

    /// The request of one user's profile: the URL of `login`, no query
    /// parameter, and the common headers. Fails as the headers do.
    pub fn user_request(&self, login: &str) -> (r: Result<ApiRequest, GitHubErr>)
        ensures
            r is Ok <==> valid_header_text(self.token_text()) && valid_header_text(
                self.agent_text(),
            ),
            r matches Ok(req) ==> req.url@ == user_url(login@) && req.query@.len() == 0
                && header_texts(req.headers@) == common_header_texts(
                self.token_text(),
                self.agent_text(),
            ),
            r matches Err(e) ==> e is HeaderErr,
    {
        let headers = self.get_common_headers()?;
        let mut url = String::from_str(API_ROOT);
        url.append("/users/");
        url.append(login);
        Ok(ApiRequest { url, query: Vec::new(), headers })
    }

    /// What the answer of the profile endpoint means before it is decoded: a
    /// status other than success gives `ErrResponse` with the body as it came;
    /// a success hands the body on to be decoded.
    pub fn user_response(status: u16, body: String) -> (r: Result<String, GitHubErr>)
        ensures
            is_success_status(status) ==> (r matches Ok(b) && b@ == body@),
            !is_success_status(status) ==> (r matches Err(GitHubErr::ErrResponse(b)) && b@ == body@),
    {
        if is_success(status) {
            Ok(body)
        } else {
            Err(GitHubErr::ErrResponse(body))
        }
    }

    /// The outcome of decoding a body: the value, or `SerdeErr` with the
    /// decoder's error.
    pub fn decoded<T>(d: Result<T, serde_json::Error>) -> (r: Result<T, GitHubErr>)
        ensures
            d matches Ok(v) ==> (r matches Ok(w) && w == v),
            d is Err ==> (r matches Err(e) && e is SerdeErr),
    {
        match d {
            Ok(v) => Ok(v),
            Err(e) => Err(GitHubErr::SerdeErr(e)),
        }
    }
}
/// One row of a user search.
pub struct SearchEntry {
    pub login: String,
    pub id: u32,
    pub html_url: String,
    /// The account type, such as `User` or `Organization`.
    pub profile_type: String,
}

/// The answer of a user search: the number of matches and the first page of
/// entries, in the server's order.
pub struct SearchRes {
    pub total_count: u32,
    pub items: Vec<SearchEntry>,
}

/// A user's public profile.
pub struct User {
    pub login: String,
    pub html_url: String,
    pub name: String,
    pub bio: Option<String>,
    pub company: Option<String>,
    pub location: Option<String>,
    pub email: Option<String>,
    pub public_repos: u32,
    pub public_gists: u32,
    pub followers: u32,
    pub following: u32,
}

/// The decimal digit of a number below ten.
pub open spec fn digit_char(d: nat) -> char {
    if d == 0 {
        '0'
    } else if d == 1 {
        '1'
    } else if d == 2 {
        '2'
    } else if d == 3 {
        '3'
    } else if d == 4 {
        '4'
    } else if d == 5 {
        '5'
    } else if d == 6 {
        '6'
    } else if d == 7 {
        '7'
    } else if d == 8 {
        '8'
    } else {
        '9'
    }
}

/// A number in decimal, without sign or leading zeros.
pub open spec fn decimal_text(n: nat) -> Seq<char>
    decreases n,
{
    if n < 10 {
        seq![digit_char(n)]
    } else {
        decimal_text(n / 10).push(digit_char(n % 10))
    }
}

/// Relies on `u32`'s `Display`, through `to_string`: a number in decimal,
/// without sign or leading zeros.
#[verifier::external_body]
pub(crate) fn decimal(n: u32) -> (r: String)
    ensures
        r@ == decimal_text(n as nat),
{
    n.to_string()
}

/// The text of a search entry: `login(type)  #id url`.
pub open spec fn entry_text(e: SearchEntry) -> Seq<char> {
    e.login@ + "("@ + e.profile_type@ + ")  #"@ + decimal_text(e.id as nat) + " "@ + e.html_url@
}

/// The line of an optional profile field: the prefix and the value, or nothing
/// where the value is absent.
pub open spec fn optional_line(prefix: Seq<char>, field: Option<String>) -> Seq<char> {
    match field {
        Some(v) => prefix + v@ + " \n"@,
        None => Seq::empty(),
    }
}

/// The text of a profile, line by line: greeting, bio, company, location,
/// email (each only when present), repository and gist counts, follower
/// counts, and the profile URL.
pub open spec fn profile_text(u: User) -> Seq<char> {
    "👋 "@ + u.name@ + "("@ + u.login@ + ") \n"@
        + optional_line("❔ "@, u.bio)
        + optional_line("🖥️  @ "@, u.company)
        + optional_line("📍 "@, u.location)
        + optional_line("📧 "@, u.email)
        + "Public repos 📔 "@ + decimal_text(u.public_repos as nat) + ", public gists 📕 "@
        + decimal_text(u.public_gists as nat) + " \n"@
        + "followers 🏃 "@ + decimal_text(u.followers as nat) + ", following ❤️ "@
        + decimal_text(u.following as nat) + " \n"@
        + "More at 📘 "@ + u.html_url@ + " \n"@
}

impl SearchEntry {
    /// The entry as one line of a list.
    pub fn to_string(&self) -> (r: String)
        ensures
            r@ == entry_text(*self),
    {
        let mut s = self.login.clone();
        s.append("(");
        s.append(self.profile_type.as_str());
        s.append(")  #");
        let id = decimal(self.id);
        s.append(id.as_str());
        s.append(" ");
        s.append(self.html_url.as_str());
        s
    }
}

fn append_optional(s: &mut String, prefix: &str, field: &Option<String>)
    ensures
        final(s)@ == old(s)@ + optional_line(prefix@, *field),
{
    match field {
        Some(v) => {
            s.append(prefix);
            s.append(v.as_str());
            s.append(" \n");
        },
        None => {
            assert(old(s)@ + optional_line(prefix@, *field) =~= old(s)@);
        },
    }
}

impl User {
    /// The profile as text, one field per line.
    pub fn to_string(&self) -> (r: String)
        ensures
            r@ == profile_text(*self),
    {
        let mut s = String::from_str("👋 ");
        s.append(self.name.as_str());
        s.append("(");
        s.append(self.login.as_str());
        s.append(") \n");
        append_optional(&mut s, "❔ ", &self.bio);
        append_optional(&mut s, "🖥️  @ ", &self.company);
        append_optional(&mut s, "📍 ", &self.location);
        append_optional(&mut s, "📧 ", &self.email);
        s.append("Public repos 📔 ");
        let repos = decimal(self.public_repos);
        s.append(repos.as_str());
        s.append(", public gists 📕 ");
        let gists = decimal(self.public_gists);
        s.append(gists.as_str());
        s.append(" \n");
        s.append("followers 🏃 ");
        let followers = decimal(self.followers);
        s.append(followers.as_str());
        s.append(", following ❤️ ");
        let following = decimal(self.following);
        s.append(following.as_str());
        s.append(" \n");
        s.append("More at 📘 ");
        s.append(self.html_url.as_str());
        s.append(" \n");
        s
    }
}
/// An ASCII control character other than tab: below the space, or DEL.
pub open spec fn is_forbidden_control(c: char) -> bool {
    (c as u32) < 32 && c != '\t' || c as u32 == 127
}

/// Text that holds an ASCII control character other than tab (a newline, a
/// carriage return, DEL, ...) is no valid header value: a client whose token or
/// name holds one fails with `HeaderErr` on every request, before the request
/// is built.
pub proof fn lemma_control_char_refused(text: Seq<char>, i: int)
    requires
        0 <= i < text.len(),
        is_forbidden_control(text[i]),
    ensures
        !valid_header_text(text),
{
    assert(!valid_header_char(text[i]));
}

} // verus!
