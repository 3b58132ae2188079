//! What a call asks of the server and where its result stands in the answer.

use vstd::prelude::*;
use vstd::string::StringExecFns;
use url::Url;
use crate::auth::is_salt;
use crate::client::Client;
use crate::envelope::Payload;
use crate::error::Error;
use crate::json::{member, Json, JsonValue};
use crate::request::{borrowed_pairs, owned_pairs, push_pair};
use crate::text::{bool_text, bool_to_text, decimal_text, i32_to_decimal, i64_to_decimal};

verus! {

/// One parameter.
pub open spec fn one(name: Seq<char>, value: Seq<char>) -> Seq<(Seq<char>, Seq<char>)> {
    seq![(name, value)]
}

/// A parameter that is sent only where the caller gave a text.
pub open spec fn opt_text(name: Seq<char>, value: Option<&str>) -> Seq<(Seq<char>, Seq<char>)> {
    match value {
        Some(v) => seq![(name, v@)],
        None => Seq::empty(),
    }
}

/// A parameter that is sent only where the caller gave a number.
pub open spec fn opt_int(name: Seq<char>, value: Option<i32>) -> Seq<(Seq<char>, Seq<char>)> {
    match value {
        Some(v) => seq![(name, decimal_text(v as int))],
        None => Seq::empty(),
    }
}

/// A parameter that is sent only where the caller gave a number.
pub open spec fn opt_long(name: Seq<char>, value: Option<i64>) -> Seq<(Seq<char>, Seq<char>)> {
    match value {
        Some(v) => seq![(name, decimal_text(v as int))],
        None => Seq::empty(),
    }
}

/// A parameter that is sent only where the caller gave a truth value.
pub open spec fn opt_flag(name: Seq<char>, value: Option<bool>) -> Seq<(Seq<char>, Seq<char>)> {
    match value {
        Some(v) => seq![(name, bool_text(v))],
        None => Seq::empty(),
    }
}

/// One parameter of the same name for each text, in their order.
pub open spec fn each_text(name: Seq<char>, values: Seq<&str>) -> Seq<(Seq<char>, Seq<char>)> {
    Seq::new(values.len(), |i: int| (name, values[i]@))
}

/// One parameter of the same name for each number, in their order.
pub open spec fn each_int(name: Seq<char>, values: Seq<i32>) -> Seq<(Seq<char>, Seq<char>)> {
    Seq::new(values.len(), |i: int| (name, decimal_text(values[i] as int)))
}

/// One parameter of the same name for each number, in their order.
pub open spec fn each_long(name: Seq<char>, values: Seq<i64>) -> Seq<(Seq<char>, Seq<char>)> {
    Seq::new(values.len(), |i: int| (name, decimal_text(values[i] as int)))
}

/// The parameters of a call, in the order in which they are sent.
#[derive(Debug, Clone, PartialEq)]
pub struct Params {
    /// Names and values.
    pub pairs: Vec<(String, String)>,
}

impl View for Params {
    type V = Seq<(Seq<char>, Seq<char>)>;

    open spec fn view(&self) -> Seq<(Seq<char>, Seq<char>)> {
        owned_pairs(self.pairs@)
    }
}

impl Params {
    /// No parameters.
    pub fn new() -> (p: Params)
        ensures
            p@ == Seq::<(Seq<char>, Seq<char>)>::empty(),
    {
        let p = Params { pairs: Vec::new() };
        assert(p@ =~= Seq::empty());
        p
    }

    /// Adds a text.
    pub fn text(&mut self, name: &str, value: &str)
        ensures
            final(self)@ == old(self)@ + one(name@, value@),
    {
        push_pair(&mut self.pairs, name, String::from_str(value));
        assert(self@ =~= old(self)@ + one(name@, value@));
    }

    /// Adds a number.
    pub fn number(&mut self, name: &str, value: i32)
        ensures
            final(self)@ == old(self)@ + one(name@, decimal_text(value as int)),
    {
        push_pair(&mut self.pairs, name, i32_to_decimal(value));
        assert(self@ =~= old(self)@ + one(name@, decimal_text(value as int)));
    }

    /// Adds a number.
    pub fn long(&mut self, name: &str, value: i64)
        ensures
            final(self)@ == old(self)@ + one(name@, decimal_text(value as int)),
    {
        push_pair(&mut self.pairs, name, i64_to_decimal(value));
        assert(self@ =~= old(self)@ + one(name@, decimal_text(value as int)));
    }

    /// Adds a truth value.
    pub fn flag(&mut self, name: &str, value: bool)
        ensures
            final(self)@ == old(self)@ + one(name@, bool_text(value)),
    {
        push_pair(&mut self.pairs, name, bool_to_text(value));
        assert(self@ =~= old(self)@ + one(name@, bool_text(value)));
    }

    /// Adds a text where there is one.
    pub fn opt_text(&mut self, name: &str, value: Option<&str>)
        ensures
            final(self)@ == old(self)@ + opt_text(name@, value),
    {
        if let Some(v) = value {
            self.text(name, v);
        }
        assert(self@ =~= old(self)@ + opt_text(name@, value));
    }

    /// Adds a number where there is one.
    pub fn opt_int(&mut self, name: &str, value: Option<i32>)
        ensures
            final(self)@ == old(self)@ + opt_int(name@, value),
    {
        if let Some(v) = value {
            self.number(name, v);
        }
        assert(self@ =~= old(self)@ + opt_int(name@, value));
    }

    /// Adds a number where there is one.
    pub fn opt_long(&mut self, name: &str, value: Option<i64>)
        ensures
            final(self)@ == old(self)@ + opt_long(name@, value),
    {
        if let Some(v) = value {
            self.long(name, v);
        }
        assert(self@ =~= old(self)@ + opt_long(name@, value));
    }

    /// Adds a truth value where there is one.
    pub fn opt_flag(&mut self, name: &str, value: Option<bool>)
        ensures
            final(self)@ == old(self)@ + opt_flag(name@, value),
    {
        if let Some(v) = value {
            self.flag(name, v);
        }
        assert(self@ =~= old(self)@ + opt_flag(name@, value));
    }

    /// Adds one parameter for each text.
    pub fn each_text(&mut self, name: &str, values: &[&str])
        ensures
            final(self)@ == old(self)@ + each_text(name@, values@),
    {
        let ghost all = each_text(name@, values@);
        let mut i: usize = 0;
        assert(self@ =~= old(self)@ + all.take(0));
        while i < values.len()
            invariant
                i <= values.len(),
                all == each_text(name@, values@),
                self@ == old(self)@ + all.take(i as int),
            decreases values.len() - i,
        {
            self.text(name, values[i]);
            assert(self@ =~= old(self)@ + all.take(i + 1));
            i += 1;
        }
        assert(all.take(i as int) =~= all);
    }

    /// Adds one parameter for each number.
    pub fn each_int(&mut self, name: &str, values: &[i32])
        ensures
            final(self)@ == old(self)@ + each_int(name@, values@),
    {
        let ghost all = each_int(name@, values@);
        let mut i: usize = 0;
        assert(self@ =~= old(self)@ + all.take(0));
        while i < values.len()
            invariant
                i <= values.len(),
                all == each_int(name@, values@),
                self@ == old(self)@ + all.take(i as int),
            decreases values.len() - i,
        {
            self.number(name, values[i]);
            assert(self@ =~= old(self)@ + all.take(i + 1));
            i += 1;
        }
        assert(all.take(i as int) =~= all);
    }

    /// Adds one parameter for each number.
    pub fn each_long(&mut self, name: &str, values: &[i64])
        ensures
            final(self)@ == old(self)@ + each_long(name@, values@),
    {
        let ghost all = each_long(name@, values@);
        let mut i: usize = 0;
        assert(self@ =~= old(self)@ + all.take(0));
        while i < values.len()
            invariant
                i <= values.len(),
                all == each_long(name@, values@),
                self@ == old(self)@ + all.take(i as int),
            decreases values.len() - i,
        {
            self.long(name, values[i]);
            assert(self@ =~= old(self)@ + all.take(i + 1));
            i += 1;
        }
        assert(all.take(i as int) =~= all);
    }

    /// The parameters as borrowed pairs, as the URL builder takes them.
    pub fn as_pairs(&self) -> (pairs: Vec<(&str, &str)>)
        ensures
            borrowed_pairs(pairs@) == self@,
    {
        let mut pairs: Vec<(&str, &str)> = Vec::new();
        let mut i: usize = 0;
        while i < self.pairs.len()
            invariant
                i <= self.pairs.len(),
                pairs.len() == i,
                forall|k: int|
                    0 <= k < i ==> (#[trigger] pairs[k]).0@ == self.pairs[k].0@ && pairs[k].1@
                        == self.pairs[k].1@,
            decreases self.pairs.len() - i,
        {
            pairs.push((self.pairs[i].0.as_str(), self.pairs[i].1.as_str()));
            i += 1;
        }
        assert(borrowed_pairs(pairs@) =~= self@);
        pairs
    }
}

/// Where the result of a call stands in the payload.
#[derive(Debug, Clone, Copy, PartialEq, Eq)]
pub enum Expect {
    /// The call has no result beyond its success.
    Nothing,
    /// The result is the raw body of the answer.
    Bytes,
    /// The result is the member of this name, which must be there.
    Required(&'static str),
    /// The result is the list under the second name inside the member of
    /// the first; an empty list where either is missing.
    ListIn(&'static str, &'static str),
    /// The result is the list of this name; an empty list where it is
    /// missing.
    ListOr(&'static str),
    /// The result is the object of this name; an empty object where it is
    /// missing.
    ObjectOr(&'static str),
}

/// An [`Expect`] as mathematical value.
pub ghost enum ExpectView {
    Nothing,
    Bytes,
    Required(Seq<char>),
    ListIn(Seq<char>, Seq<char>),
    ListOr(Seq<char>),
    ObjectOr(Seq<char>),
}

impl View for Expect {
    type V = ExpectView;

    open spec fn view(&self) -> ExpectView {
        match self {
            Expect::Nothing => ExpectView::Nothing,
            Expect::Bytes => ExpectView::Bytes,
            Expect::Required(name) => ExpectView::Required(name@),
            Expect::ListIn(outer, inner) => ExpectView::ListIn(outer@, inner@),
            Expect::ListOr(name) => ExpectView::ListOr(name@),
            Expect::ObjectOr(name) => ExpectView::ObjectOr(name@),
        }
    }
}

/// What is said where a member that must be there is missing.
pub open spec fn missing_text(name: Seq<char>) -> Seq<char> {
    "Missing '"@ + name + "' in response"@
}

impl ExpectView {
    /// The result that a payload holds for a call: the value, or the words
    /// of the parse error where a member that must be there is missing.
    pub open spec fn result_in(self, payload: Seq<(Seq<char>, JsonValue)>) -> Result<
        JsonValue,
        Seq<char>,
    > {
        match self {
            ExpectView::Nothing => Ok(JsonValue::Null),
            ExpectView::Bytes => Ok(JsonValue::Null),
            ExpectView::Required(name) => match member(payload, name) {
                Some(v) => Ok(v),
                None => Err(missing_text(name)),
            },
            ExpectView::ListIn(outer, inner) => match member(payload, outer) {
                Some(o) => match o.field(inner) {
                    Some(v) => Ok(v),
                    None => Ok(JsonValue::Array(Seq::empty())),
                },
                None => Ok(JsonValue::Array(Seq::empty())),
            },
            ExpectView::ListOr(name) => match member(payload, name) {
                Some(v) => Ok(v),
                None => Ok(JsonValue::Array(Seq::empty())),
            },
            ExpectView::ObjectOr(name) => match member(payload, name) {
                Some(v) => Ok(v),
                None => Ok(JsonValue::Object(Seq::empty())),
            },
        }
    }
}

/// The parse error for a member that must be there and is missing.
pub fn missing(name: &str) -> (e: Error)
    ensures
        e matches Error::Parse(m) && m@ == missing_text(name@),
{
    let mut m = String::from_str("Missing '");
    m.append(name);
    m.append("' in response");
    Error::Parse(m)
}

fn empty_list() -> (j: Json)
    ensures
        j@ == JsonValue::Array(Seq::empty()),
{
    let j = Json::Array(Vec::new());
    assert(j@->Array_0 =~= Seq::empty());
    j
}

fn empty_object() -> (j: Json)
    ensures
        j@ == JsonValue::Object(Seq::empty()),
{
    let j = Json::Object(Vec::new());
    assert(j@->Object_0 =~= Seq::empty());
    j
}

impl Expect {
    /// Takes the result of a call out of the payload of its answer.
    pub fn extract(&self, payload: &Payload) -> (r: Result<Json, Error>)
        ensures
            match self@.result_in(payload@) {
                Ok(v) => r matches Ok(j) && j@ == v,
                Err(words) => r matches Err(Error::Parse(m)) && m@ == words,
            },
    {
        match self {
            Expect::Nothing => Ok(Json::Null),
            Expect::Bytes => Ok(Json::Null),
            Expect::Required(name) => match payload.get(name) {
                Some(v) => Ok(v.duplicate()),
                None => Err(missing(name)),
            },
            Expect::ListIn(outer, inner) => match payload.get(outer) {
                Some(o) => match o.get(inner) {
                    Some(v) => Ok(v.duplicate()),
                    None => Ok(empty_list()),
                },
                None => Ok(empty_list()),
            },
            Expect::ListOr(name) => match payload.get(name) {
                Some(v) => Ok(v.duplicate()),
                None => Ok(empty_list()),
            },
            Expect::ObjectOr(name) => match payload.get(name) {
                Some(v) => Ok(v.duplicate()),
                None => Ok(empty_object()),
            },
        }
    }
}

/// How a call is sent.
#[derive(Debug, Clone, Copy, PartialEq, Eq, Structural)]
pub enum Method {
    /// With `GET`: everything stands in the URL.
    Get,
    /// With `POST`: the URL as for `GET`, and a JSON body beside it.
    Post,
}

/// A call as it is put to the server.
#[derive(Debug, Clone, PartialEq)]
pub struct Request {
    /// How the call is sent.
    pub method: Method,
    /// The endpoint's name, the last segment of the path.
    pub endpoint: &'static str,
    /// The parameters of the call, in the order in which they are sent.
    pub params: Params,
    /// Where the result stands in the answer.
    pub expects: Expect,
}

/// A [`Request`] as mathematical value.
pub ghost struct RequestView {
    pub method: Method,
    pub endpoint: Seq<char>,
    pub params: Seq<(Seq<char>, Seq<char>)>,
    pub expects: ExpectView,
}

impl View for Request {
    type V = RequestView;

    open spec fn view(&self) -> RequestView {
        RequestView {
            method: self.method,
            endpoint: self.endpoint@,
            params: self.params@,
            expects: self.expects@,
        }
    }
}

impl Request {
    /// The call of `endpoint` with `params` and the result at `expects`, sent
    /// with `GET`.
    pub fn get(endpoint: &'static str, params: Params, expects: Expect) -> (call: Request)
        ensures
            call@ == asks(endpoint@, params@, expects@),
    {
        Request { method: Method::Get, endpoint, params, expects }
    }
}

/// The call of `endpoint` with `params` and the result at `expects`, sent
/// with `GET`.
pub open spec fn asks(
    endpoint: Seq<char>,
    params: Seq<(Seq<char>, Seq<char>)>,
    expects: ExpectView,
) -> RequestView {
    RequestView { method: Method::Get, endpoint, params, expects }
}

impl Client {
    /// The URL of a call, signed afresh.
    pub fn url_of(&self, call: &Request) -> (r: Result<Url, Error>)
        ensures
            exists|salt: Seq<char>|
                is_salt(salt) && #[trigger] self@.builds(
                    call@.endpoint,
                    self@.credentials(salt),
                    call@.params,
                    r,
                ),
    {
        let pairs = call.params.as_pairs();
        assert(borrowed_pairs(pairs@) == call@.params);
        let r = self.build_url(call.endpoint, pairs.as_slice());
        proof {
            let salt = choose|salt: Seq<char>|
                is_salt(salt) && #[trigger] self@.builds(
                    call.endpoint@,
                    self@.credentials(salt),
                    borrowed_pairs(pairs@),
                    r,
                );
            assert(self@.builds(call@.endpoint, self@.credentials(salt), call@.params, r));
        }
        r
    }
}

} // verus!
