//! The client's configuration and the URLs of its requests.

use vstd::prelude::*;
use vstd::string::StringExecFns;
use url::Url;
use crate::auth::{is_salt, pair_view, pairs_view, plain_params, token_params, Auth};
use crate::error::Error;
use crate::request::{
    assemble_url, borrowed_pairs, owned_pairs, parse_url, parsed_url, push_pair, request_room,
    request_url, url_text, URL_LIMIT,
};

verus! {

/// The protocol version that a new client announces.
pub const DEFAULT_API_VERSION: &'static str = "1.16.1";

/// The name under which a new client announces itself.
pub const DEFAULT_CLIENT_NAME: &'static str = "opensubsonic-rs";

/// What is said when a request cannot be put into a URL.
pub const URL_TOO_LONG: &'static str = "request URL too long";

/// The configuration of a client: where the server is, who is calling and
/// how the call is signed. It does not change once it is made; the builder
/// methods give a new one.
#[derive(Debug, Clone)]
pub struct Client {
    base_url: Url,
    username: String,
    auth: Auth,
    client_name: String,
    api_version: String,
}

/// A [`Client`] as mathematical value.
pub ghost struct ClientView {
    /// The base URL.
    pub base: Url,
    /// The account's name.
    pub username: Seq<char>,
    /// Whether requests are signed with a salted token.
    pub by_token: bool,
    /// The password.
    pub secret: Seq<char>,
    /// The client application's name.
    pub client_name: Seq<char>,
    /// The protocol version.
    pub api_version: Seq<char>,
}

impl ClientView {
    /// What the authenticator sends when it draws `salt`.
    pub open spec fn credentials(self, salt: Seq<char>) -> Seq<(Seq<char>, Seq<char>)> {
        if self.by_token {
            token_params(self.secret, salt)
        } else {
            plain_params(self.secret)
        }
    }

    /// The pairs of a request's query, in their order: account, credentials,
    /// protocol version, client name, format, then the caller's own.
    pub open spec fn query(
        self,
        credentials: Seq<(Seq<char>, Seq<char>)>,
        extra: Seq<(Seq<char>, Seq<char>)>,
    ) -> Seq<(Seq<char>, Seq<char>)> {
        seq![("u"@, self.username)] + credentials + seq![
            ("v"@, self.api_version),
            ("c"@, self.client_name),
            ("f"@, "json"@),
        ] + extra
    }

    /// Whether the request for `endpoint` with these credentials and
    /// parameters has room in a URL.
    pub open spec fn fits(
        self,
        endpoint: Seq<char>,
        credentials: Seq<(Seq<char>, Seq<char>)>,
        extra: Seq<(Seq<char>, Seq<char>)>,
    ) -> bool {
        request_room(self.base, endpoint, self.query(credentials, extra)) <= URL_LIMIT
    }

    /// The URL of the request for `endpoint` with these credentials and
    /// parameters.
    pub open spec fn address(
        self,
        endpoint: Seq<char>,
        credentials: Seq<(Seq<char>, Seq<char>)>,
        extra: Seq<(Seq<char>, Seq<char>)>,
    ) -> Url {
        request_url(self.base, endpoint, self.query(credentials, extra))
    }

    /// Whether `r` is what building the URL for `endpoint` gives: the URL
    /// where the request fits, an error where it does not.
    pub open spec fn builds(
        self,
        endpoint: Seq<char>,
        credentials: Seq<(Seq<char>, Seq<char>)>,
        extra: Seq<(Seq<char>, Seq<char>)>,
        r: Result<Url, Error>,
    ) -> bool {
        match r {
            Ok(u) => self.fits(endpoint, credentials, extra) && u == self.address(
                endpoint,
                credentials,
                extra,
            ),
            Err(e) => !self.fits(endpoint, credentials, extra) && (e matches Error::Other(m) && m@
                == URL_TOO_LONG@),
        }
    }
}

impl View for Client {
    type V = ClientView;

    closed spec fn view(&self) -> ClientView {
        ClientView {
            base: self.base_url,
            username: self.username@,
            by_token: self.auth is Token,
            secret: self.auth.secret(),
            client_name: self.client_name@,
            api_version: self.api_version@,
        }
    }
}

impl Client {
    /// A client for the server at `base_url`, calling as `username`.
    ///
    /// Fails with [`Error::Url`] where `base_url` is no absolute URL.
    pub fn new(base_url: &str, username: &str, auth: Auth) -> (r: Result<Client, Error>)
        ensures
            r is Ok <==> parsed_url(base_url@) is Some,
            r matches Ok(c) ==> c@ == (ClientView {
                base: parsed_url(base_url@)->Some_0,
                username: username@,
                by_token: auth is Token,
                secret: auth.secret(),
                client_name: DEFAULT_CLIENT_NAME@,
                api_version: DEFAULT_API_VERSION@,
            }),
            r matches Err(e) ==> e is Url,
    {
        match parse_url(base_url) {
            Ok(url) => Ok(
                Client {
                    base_url: url,
                    username: String::from_str(username),
                    auth,
                    client_name: String::from_str(DEFAULT_CLIENT_NAME),
                    api_version: String::from_str(DEFAULT_API_VERSION),
                },
            ),
            Err(e) => Err(Error::Url(e)),
        }
    }

    /// The same client under another application name, sent as `c`.
    #[must_use]
    pub fn with_client_name(self, name: &str) -> (c: Client)
        ensures
            c@ == (ClientView { client_name: name@, ..self@ }),
    {
        let mut c = self;
        c.client_name = String::from_str(name);
        c
    }

    /// The same client announcing another protocol version, sent as `v`.
    #[must_use]
    pub fn with_api_version(self, version: &str) -> (c: Client)
        ensures
            c@ == (ClientView { api_version: version@, ..self@ }),
    {
        let mut c = self;
        c.api_version = String::from_str(version);
        c
    }

    /// The base URL.
    pub fn base_url(&self) -> (u: &Url)
        ensures
            *u == self@.base,
    {
        &self.base_url
    }

    /// The account's name.
    pub fn username(&self) -> (s: &str)
        ensures
            s@ == self@.username,
    {
        self.username.as_str()
    }

    /// The authenticator.
    pub fn auth(&self) -> (a: &Auth)
        ensures
            a is Token == self@.by_token,
            a.secret() == self@.secret,
    {
        &self.auth
    }

    /// The client application's name.
    pub fn client_name(&self) -> (s: &str)
        ensures
            s@ == self@.client_name,
    {
        self.client_name.as_str()
    }

    /// The protocol version.
    pub fn api_version(&self) -> (s: &str)
        ensures
            s@ == self@.api_version,
    {
        self.api_version.as_str()
    }

    /// The pairs of a request's query, in their order.
    pub fn query_pairs(
        &self,
        credentials: &Vec<(&'static str, String)>,
        params: &[(&str, &str)],
    ) -> (pairs: Vec<(String, String)>)
        ensures
            owned_pairs(pairs@) == self@.query(pairs_view(credentials@), borrowed_pairs(params@)),
    {
        let ghost sent = pairs_view(credentials@);
        let ghost extra = borrowed_pairs(params@);
        let mut pairs: Vec<(String, String)> = Vec::new();
        assert(owned_pairs(pairs@) =~= Seq::empty());
        push_pair(&mut pairs, "u", self.username.clone());
        let ghost head = seq![("u"@, self@.username)];
        assert(owned_pairs(pairs@) =~= head);
        let mut i: usize = 0;
        while i < credentials.len()
            invariant
                i <= credentials.len(),
                sent == pairs_view(credentials@),
                owned_pairs(pairs@) == head + sent.take(i as int),
            decreases credentials.len() - i,
        {
            push_pair(&mut pairs, credentials[i].0, credentials[i].1.clone());
            assert(sent[i as int] == pair_view(credentials@[i as int]));
            assert(owned_pairs(pairs@) =~= head + sent.take(i + 1));
            i += 1;
        }
        assert(sent.take(i as int) =~= sent);
        push_pair(&mut pairs, "v", self.api_version.clone());
        push_pair(&mut pairs, "c", self.client_name.clone());
        push_pair(&mut pairs, "f", String::from_str("json"));
        let ghost fixed = head + sent + seq![
            ("v"@, self@.api_version),
            ("c"@, self@.client_name),
            ("f"@, "json"@),
        ];
        assert(owned_pairs(pairs@) =~= fixed);
        let mut j: usize = 0;
        while j < params.len()
            invariant
                j <= params.len(),
                extra == borrowed_pairs(params@),
                owned_pairs(pairs@) == fixed + extra.take(j as int),
            decreases params.len() - j,
        {
            push_pair(&mut pairs, params[j].0, String::from_str(params[j].1));
            assert(extra[j as int] == (params@[j as int].0@, params@[j as int].1@));
            assert(owned_pairs(pairs@) =~= fixed + extra.take(j + 1));
            j += 1;
        }
        assert(extra.take(j as int) =~= extra);
        pairs
    }

    /// Builds the URL of a request under credentials that the caller holds:
    /// `{base}/rest/{endpoint}?u=..&{credentials}&v=..&c=..&f=json&{params}`.
    pub fn build_url_with(
        &self,
        endpoint: &str,
        credentials: &Vec<(&'static str, String)>,
        params: &[(&str, &str)],
    ) -> (r: Result<Url, Error>)
        ensures
            self@.builds(endpoint@, pairs_view(credentials@), borrowed_pairs(params@), r),
    {
        let pairs = self.query_pairs(credentials, params);
        match assemble_url(&self.base_url, endpoint, &pairs) {
            Some(url) => Ok(url),
            None => Err(Error::Other(String::from_str(URL_TOO_LONG))),
        }
    }

    /// Builds the URL of a request, signing it afresh:
    /// `{base}/rest/{endpoint}?u=..&t=..&s=..&v=..&c=..&f=json&{params}`, or
    /// with `p=enc:..` in place of `t` and `s`.
    pub fn build_url(&self, endpoint: &str, params: &[(&str, &str)]) -> (r: Result<Url, Error>)
        ensures
            exists|salt: Seq<char>|
                is_salt(salt) && #[trigger] self@.builds(
                    endpoint@,
                    self@.credentials(salt),
                    borrowed_pairs(params@),
                    r,
                ),
    {
        let credentials = self.auth.params();
        let r = self.build_url_with(endpoint, &credentials, params);
        proof {
            let salt = choose|salt: Seq<char>|
                is_salt(salt) && pairs_view(credentials@) == #[trigger] self.auth.params_under(
                    salt,
                );
            assert(self.auth.params_under(salt) == self@.credentials(salt));
            assert(self@.builds(endpoint@, self@.credentials(salt), borrowed_pairs(params@), r));
        }
        r
    }
}

/// The query of a request begins with the account, then the credentials, the
/// protocol version, the client's name and the format; the caller's own
/// parameters follow, all of them, in the order given.
pub proof fn lemma_query_order(
    c: ClientView,
    credentials: Seq<(Seq<char>, Seq<char>)>,
    extra: Seq<(Seq<char>, Seq<char>)>,
)
    ensures
        ({
            let q = c.query(credentials, extra);
            let n = credentials.len() as int;
            &&& q.len() == n + 4 + extra.len()
            &&& q[0] == ("u"@, c.username)
            &&& q.subrange(1, 1 + n) == credentials
            &&& q[1 + n] == ("v"@, c.api_version)
            &&& q[2 + n] == ("c"@, c.client_name)
            &&& q[3 + n] == ("f"@, "json"@)
            &&& q.subrange(4 + n, q.len() as int) == extra
        }),
{
    let q = c.query(credentials, extra);
    let n = credentials.len() as int;
    assert(q.subrange(1, 1 + n) =~= credentials);
    assert(q.subrange(4 + n, q.len() as int) =~= extra);
}

/// Two clients with the same configuration build the same URL for the same
/// endpoint, credentials and parameters.
pub proof fn lemma_same_inputs_same_url(
    a: ClientView,
    b: ClientView,
    endpoint: Seq<char>,
    salt: Seq<char>,
    extra: Seq<(Seq<char>, Seq<char>)>,
    first: Result<Url, Error>,
    second: Result<Url, Error>,
)
    requires
        a == b,
        a.builds(endpoint, a.credentials(salt), extra, first),
        b.builds(endpoint, b.credentials(salt), extra, second),
    ensures
        first is Ok <==> second is Ok,
        first matches Ok(u) ==> second matches Ok(v) && u == v && url_text(u) == url_text(v),
{
}

} // verus!
