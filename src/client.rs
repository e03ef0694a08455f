use std::collections::HashMap;
use vstd::prelude::*;
use vstd::string::StringExecFns;

use crate::catalog::{merge_catalog, merged_catalog, sources_view};
use crate::error::XepherError;
use crate::score::IIDXScoreResult;
use crate::song::IIDXSong;

verus! {

/// The decimal digit `d` as a character.
pub open spec fn digit_char(d: nat) -> char {
    if d == 0 {
        '0'
    } else if d == 1 {
        '1'
    } else if d == 2 {
        '2'
    } else if d == 3 {
        '3'
    } else if d == 4 {
        '4'
    } else if d == 5 {
        '5'
    } else if d == 6 {
        '6'
    } else if d == 7 {
        '7'
    } else if d == 8 {
        '8'
    } else {
        '9'
    }
}

/// The decimal notation of `n`, without leading zeros.
pub open spec fn decimal_digits(n: nat) -> Seq<char>
    decreases n,
{
    if n < 10 {
        seq![digit_char(n)]
    } else {
        decimal_digits(n / 10).push(digit_char(n % 10))
    }
}

/// The cookie that carries a session: `SessionID=<session>; UserID=<user>`.
pub open spec fn cookie_text(session: Seq<char>, user: Seq<char>) -> Seq<char> {
    "SessionID="@ + session + "; UserID="@ + user
}

/// The text of one decimal digit.
fn digit_str(d: u64) -> (r: &'static str)
    requires
        d < 10,
    ensures
        r@ == seq![digit_char(d as nat)],
{
    match d {
        0 => {
            proof { reveal_strlit("0"); }
            "0"
        },
        1 => {
            proof { reveal_strlit("1"); }
            "1"
        },
        2 => {
            proof { reveal_strlit("2"); }
            "2"
        },
        3 => {
            proof { reveal_strlit("3"); }
            "3"
        },
        4 => {
            proof { reveal_strlit("4"); }
            "4"
        },
        5 => {
            proof { reveal_strlit("5"); }
            "5"
        },
        6 => {
            proof { reveal_strlit("6"); }
            "6"
        },
        7 => {
            proof { reveal_strlit("7"); }
            "7"
        },
        8 => {
            proof { reveal_strlit("8"); }
            "8"
        },
        _ => {
            proof { reveal_strlit("9"); }
            "9"
        },
    }
}

/// The decimal notation of `n`.
pub fn decimal_string(n: u64) -> (r: String)
    ensures
        r@ == decimal_digits(n as nat),
    decreases n,
{
    if n < 10 {
        String::from_str(digit_str(n))
    } else {
        let mut s = decimal_string(n / 10);
        s.append(digit_str(n % 10));
        s
    }
}

/// The cookie for a session identifier and a user identifier.
pub fn session_cookie(session: &str, user: &str) -> (r: String)
    ensures
        r@ == cookie_text(session@, user@),
{
    let mut s = String::from_str("SessionID=");
    s.append(session);
    s.append("; UserID=");
    s.append(user);
    s
}

/// What `url::Url::parse` makes of a text: the URL's serialization, or
/// `None` where the text is no valid absolute URL.
pub uninterp spec fn parsed_url(text: Seq<char>) -> Option<Seq<char>>;

/// What `url::Url::join` makes of a reference resolved against a base URL
/// (given by its text): the resolved URL's serialization, or `None`.
pub uninterp spec fn joined_url(base: Seq<char>, reference: Seq<char>) -> Option<Seq<char>>;

/// Relies on url::Url::parse (re-exported by reqwest) for parsing and
/// normalising an absolute URL; the result depends on the text alone.
#[verifier::external_body]
fn parse_url(text: &str) -> (r: Option<String>)
    ensures
        match r {
            Some(u) => parsed_url(text@) == Some(u@),
            None => parsed_url(text@) is None,
        },
{
    reqwest::Url::parse(text).ok().map(String::from)
}

/// Relies on url::Url::join (re-exported by reqwest) for resolving a
/// relative reference against a base URL, which url::Url::parse reads from
/// its text; the result depends on the two texts alone.
#[verifier::external_body]
fn join_url(base: &str, reference: &str) -> (r: Option<String>)
    ensures
        match r {
            Some(u) => joined_url(base@, reference@) == Some(u@),
            None => joined_url(base@, reference@) is None,
        },
{
    reqwest::Url::parse(base).ok()?.join(reference).ok().map(String::from)
}

/// The address of a user's score page, before it is parsed.
pub open spec fn score_page_text(user_id: u64) -> Seq<char> {
    "https://webui.xepher.fun/iidx/scores/"@ + decimal_digits(user_id as nat) + "/"@
}

/// The base URL as parsed and `reference` resolved against it, or `None`
/// where either step fails.
pub open spec fn resolved_pair(base: Seq<char>, reference: Seq<char>) -> Option<
    (Seq<char>, Seq<char>),
> {
    match parsed_url(base) {
        Some(b) => match joined_url(b, reference) {
            Some(u) => Some((b, u)),
            None => None,
        },
        None => None,
    }
}

/// The pair of strings as a pair of character sequences.
pub open spec fn pair_view(p: (String, String)) -> (Seq<char>, Seq<char>) {
    (p.0@, p.1@)
}

/// Parses `base` and resolves `reference` against it, as URL resolution
/// defines it: the result is the parsed base and the resolved URL.
pub fn resolve_url(base: &str, reference: &str) -> (r: Result<(String, String), XepherError>)
    ensures
        match r {
            Ok(p) => resolved_pair(base@, reference@) == Some(pair_view(p)),
            Err(e) => resolved_pair(base@, reference@) is None && e is RequestBuild,
        },
{
    match parse_url(base) {
        Some(b) => match join_url(b.as_str(), reference) {
            Some(u) => Ok((b, u)),
            None => Err(XepherError::RequestBuild),
        },
        None => Err(XepherError::RequestBuild),
    }
}

/// The referer and the list address of a user's scores: the score page, and
/// `list` resolved against it.
pub fn score_urls(user_id: u64) -> (r: Result<(String, String), XepherError>)
    ensures
        match r {
            Ok(p) => resolved_pair(score_page_text(user_id), "list"@) == Some(pair_view(p)),
            Err(e) => resolved_pair(score_page_text(user_id), "list"@) is None && e is RequestBuild,
        },
{
    let mut page = String::from_str("https://webui.xepher.fun/iidx/scores/");
    let id = decimal_string(user_id);
    page.append(id.as_str());
    page.append("/");
    resolve_url(page.as_str(), "list")
}

/// The user agent sent when none is configured.
pub const DEFAULT_USER_AGENT: &'static str =
    "Mozilla/5.0 (X11; Linux x86_64; rv:138.0) Gecko/20100101 Firefox/138.0";

/// The headers of a score query, in the order they are sent.
pub open spec fn score_headers(user_agent: Seq<char>, referer: Seq<char>, cookie: Seq<char>) -> Seq<
    (Seq<char>, Seq<char>),
> {
    seq![
        ("User-Agent"@, user_agent),
        ("Accept"@, "application/json"@),
        ("Content-Type"@, "application/json; charset=utf-8"@),
        ("Referer"@, referer),
        ("Cookie"@, cookie),
    ]
}

/// The headers as pairs of character sequences.
pub open spec fn headers_view(h: Seq<(String, String)>) -> Seq<(Seq<char>, Seq<char>)> {
    h.map_values(|p: (String, String)| pair_view(p))
}

/// A GET request for a user's scores: where it goes and the headers it carries.
#[derive(Debug)]
pub struct ScoreRequest {
    pub url: String,
    pub headers: Vec<(String, String)>,
}

/// The success range of HTTP statuses.
pub open spec fn is_success_status(status: u16) -> bool {
    200 <= status < 300
}

/// The outcome of a score query, given the response status and what
/// decoding the body as `{"attempts": [...]}` gave.
pub open spec fn score_outcome(
    user_id: u64,
    status: u16,
    decoded: Result<Vec<IIDXScoreResult>, String>,
) -> Result<Vec<IIDXScoreResult>, XepherError> {
    if !is_success_status(status) {
        Err(XepherError::Fetch { user_id, status })
    } else {
        match decoded {
            Ok(attempts) => Ok(attempts),
            Err(m) => Err(XepherError::Decode(m)),
        }
    }
}

/// Whether an HTTP status is in the success range.
pub fn status_is_success(status: u16) -> (r: bool)
    ensures
        r == is_success_status(status),
{
    200 <= status && status < 300
}

/// The result of a score query. A status outside the success range fails
/// with the user's identifier, whatever the body held; otherwise the decoded
/// attempts come back as they are, or the decoding failure.
pub fn scores_from_response(
    user_id: u64,
    status: u16,
    decoded: Result<Vec<IIDXScoreResult>, String>,
) -> (r: Result<Vec<IIDXScoreResult>, XepherError>)
    ensures
        r == score_outcome(user_id, status, decoded),
{
    if !status_is_success(status) {
        return Err(XepherError::Fetch { user_id, status });
    }
    match decoded {
        Ok(attempts) => Ok(attempts),
        Err(m) => Err(XepherError::Decode(m)),
    }
}

/// The catalog after an access that may load it: built from `sources` where
/// it was absent, kept as it was otherwise.
pub open spec fn catalog_after_load(
    current: Option<Map<u32, IIDXSong>>,
    sources: Seq<Seq<(u32, IIDXSong)>>,
) -> Option<Map<u32, IIDXSong>> {
    match current {
        Some(c) => Some(c),
        None => Some(merged_catalog(sources)),
    }
}

/// The catalog is built at most once: after the first load, the sources are
/// not needed again, and a later load leaves the catalog as it is.
pub proof fn lemma_catalog_built_once(
    current: Option<Map<u32, IIDXSong>>,
    first: Seq<Seq<(u32, IIDXSong)>>,
    second: Seq<Seq<(u32, IIDXSong)>>,
)
    ensures
        catalog_after_load(current, first) is Some,
        catalog_after_load(catalog_after_load(current, first), second) == catalog_after_load(
            current,
            first,
        ),
        current is None ==> catalog_after_load(current, first) == Some(merged_catalog(first)),
{
}

/// What a client holds, as mathematical values.
pub struct ClientView {
    pub cookie: Seq<char>,
    pub user_agent: Seq<char>,
    pub songs_db_paths: Seq<Seq<char>>,
    pub songs_db: Option<Map<u32, IIDXSong>>,
}

/// The strings as character sequences.
pub open spec fn strings_view(v: Seq<String>) -> Seq<Seq<char>> {
    v.map_values(|s: String| s@)
}

/// The handle on the score service: the session's cookie, the user agent,
/// the song metadata sources and, once loaded, the song catalog.
#[derive(Debug)]
pub struct XepherClient {
    cookie: String,
    user_agent: String,
    songs_db_paths: Vec<String>,
    songs_db: Option<HashMap<u32, IIDXSong>>,
}

impl View for XepherClient {
    type V = ClientView;

    closed spec fn view(&self) -> ClientView {
        ClientView {
            cookie: self.cookie@,
            user_agent: self.user_agent@,
            songs_db_paths: strings_view(self.songs_db_paths@),
            songs_db: match self.songs_db {
                Some(m) => Some(m@),
                None => None,
            },
        }
    }
}

/// The settings of a client under construction.
#[derive(Debug)]
pub struct XepherClientBuilder {
    cookie: Option<String>,
    user_agent: Option<String>,
    songs_db_paths: Vec<String>,
}

/// What a builder holds, as mathematical values.
pub struct BuilderView {
    pub cookie: Option<Seq<char>>,
    pub user_agent: Option<Seq<char>>,
    pub songs_db_paths: Seq<Seq<char>>,
}

/// The optional string as an optional character sequence.
pub open spec fn opt_view(o: Option<String>) -> Option<Seq<char>> {
    match o {
        Some(s) => Some(s@),
        None => None,
    }
}

impl View for XepherClientBuilder {
    type V = BuilderView;

    closed spec fn view(&self) -> BuilderView {
        BuilderView {
            cookie: opt_view(self.cookie),
            user_agent: opt_view(self.user_agent),
            songs_db_paths: strings_view(self.songs_db_paths@),
        }
    }
}

impl XepherClientBuilder {
    /// Sets the session: the cookie is built here, once.
    pub fn cookie(self, session_id: &str, user_id: &str) -> (r: XepherClientBuilder)
        ensures
            r@ == (BuilderView { cookie: Some(cookie_text(session_id@, user_id@)), ..self@ }),
    {
        XepherClientBuilder { cookie: Some(session_cookie(session_id, user_id)), ..self }
    }

    /// Replaces the default user agent.
    pub fn user_agent(self, user_agent: &str) -> (r: XepherClientBuilder)
        ensures
            r@ == (BuilderView { user_agent: Some(user_agent@), ..self@ }),
    {
        XepherClientBuilder { user_agent: Some(String::from_str(user_agent)), ..self }
    }

    /// Sets the song metadata sources, in the order they are merged.
    pub fn songs_db_paths(self, paths: Vec<&str>) -> (r: XepherClientBuilder)
        ensures
            r@ == (BuilderView {
                songs_db_paths: paths@.map_values(|p: &str| p@),
                ..self@
            }),
    {
        let mut owned: Vec<String> = Vec::new();
        let mut i: usize = 0;
        while i < paths.len()
            invariant
                i <= paths.len(),
                owned.len() == i,
                forall|j: int| 0 <= j < i ==> #[trigger] owned@[j]@ == paths@[j]@,
            decreases paths.len() - i,
        {
            owned.push(String::from_str(paths[i]));
            i = i + 1;
        }
        assert(strings_view(owned@) =~= paths@.map_values(|p: &str| p@));
        XepherClientBuilder { songs_db_paths: owned, ..self }
    }

    /// The client. The session must have been set.
    pub fn build(self) -> (r: XepherClient)
        requires
            self@.cookie is Some,
        ensures
            r@.cookie == self@.cookie->0,
            r@.user_agent == match self@.user_agent {
                Some(u) => u,
                None => DEFAULT_USER_AGENT@,
            },
            r@.songs_db_paths == self@.songs_db_paths,
            r@.songs_db is None,
    {
        let cookie = match self.cookie {
            Some(c) => c,
            None => String::new(),
        };
        let user_agent = match self.user_agent {
            Some(u) => u,
            None => String::from_str(DEFAULT_USER_AGENT),
        };
        XepherClient { cookie, user_agent, songs_db_paths: self.songs_db_paths, songs_db: None }
    }
}

impl XepherClient {
    /// A builder with no session, the default user agent and no sources.
    pub fn builder() -> (r: XepherClientBuilder)
        ensures
            r@.cookie is None,
            r@.user_agent is None,
            r@.songs_db_paths == Seq::<Seq<char>>::empty(),
    {
        let r = XepherClientBuilder { cookie: None, user_agent: None, songs_db_paths: Vec::new() };
        assert(strings_view(r.songs_db_paths@) =~= Seq::<Seq<char>>::empty());
        r
    }

    /// The cookie sent with every request.
    pub fn cookie(&self) -> (r: &str)
        ensures
            r@ == self@.cookie,
    {
        self.cookie.as_str()
    }

    /// The user agent sent with every request.
    pub fn user_agent(&self) -> (r: &str)
        ensures
            r@ == self@.user_agent,
    {
        self.user_agent.as_str()
    }

    /// The song metadata sources, in the order they are merged.
    pub fn songs_db_paths(&self) -> (r: &Vec<String>)
        ensures
            strings_view(r@) == self@.songs_db_paths,
    {
        &self.songs_db_paths
    }

    /// The request for a user's scores: a GET of `list` resolved against the
    /// user's score page, with the page itself as referer.
    pub fn score_request(&self, user_id: u64) -> (r: Result<ScoreRequest, XepherError>)
        ensures
            match r {
                Ok(req) => match resolved_pair(score_page_text(user_id), "list"@) {
                    Some(p) => req.url@ == p.1 && headers_view(req.headers@) == score_headers(
                        self@.user_agent,
                        p.0,
                        self@.cookie,
                    ),
                    None => false,
                },
                Err(e) => resolved_pair(score_page_text(user_id), "list"@) is None
                    && e is RequestBuild,
            },
    {
        let (referer, url) = match score_urls(user_id) {
            Ok(p) => p,
            Err(e) => return Err(e),
        };
        let mut headers: Vec<(String, String)> = Vec::new();
        headers.push((String::from_str("User-Agent"), self.user_agent.clone()));
        headers.push((String::from_str("Accept"), String::from_str("application/json")));
        headers.push(
            (
                String::from_str("Content-Type"),
                String::from_str("application/json; charset=utf-8"),
            ),
        );
        headers.push((String::from_str("Referer"), referer));
        headers.push((String::from_str("Cookie"), self.cookie.clone()));
        assert(headers_view(headers@) =~= score_headers(
            self@.user_agent,
            pair_view((referer, url)).0,
            self@.cookie,
        ));
        Ok(ScoreRequest { url, headers })
    }

    /// Whether the song catalog still has to be loaded from its sources.
    pub fn needs_songs_db(&self) -> (r: bool)
        ensures
            r == (self@.songs_db is None),
    {
        self.songs_db.is_none()
    }

    /// Builds the song catalog from the parsed sources, given in the order of
    /// `songs_db_paths`, unless it is built already: the first catalog stays.
    pub fn install_songs_db(&mut self, sources: Vec<Vec<(u32, IIDXSong)>>)
        ensures
            final(self)@.songs_db == catalog_after_load(old(self)@.songs_db, sources_view(sources@)),
            final(self)@.cookie == old(self)@.cookie,
            final(self)@.user_agent == old(self)@.user_agent,
            final(self)@.songs_db_paths == old(self)@.songs_db_paths,
    {
        if self.songs_db.is_none() {
            self.songs_db = Some(merge_catalog(sources));
        }
    }

    /// The song catalog, once it is built.
    pub fn songs_db(&self) -> (r: Option<&HashMap<u32, IIDXSong>>)
        ensures
            match r {
                Some(m) => self@.songs_db == Some(m@),
                None => self@.songs_db is None,
            },
    {
        self.songs_db.as_ref()
    }
}

} // verus!
