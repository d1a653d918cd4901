//! The API key file format, and the holder of the key and the endpoint
//! templates that builds request URLs.
use vstd::prelude::*;
use vstd::string::*;
use crate::errors::ApiKeyError;
use crate::urls::{
    contains_seq, end_token, fill_dates, fill_template, lemma_default_neows_filled,
    lemma_neows_request_has_no_token, neows_request, start_token, Urls, APOD, NEOWS,
};

verus! {

#[verifier::external_type_specification]
#[verifier::external_body]
pub struct ExSerdeJsonValue(serde_json::Value);

#[verifier::external_type_specification]
#[verifier::external_body]
pub struct ExSerdeJsonError(serde_json::Error);

/// The JSON document that `serde_json` reads from a text, if the text is JSON.
pub uninterp spec fn serde_document(s: Seq<char>) -> Option<serde_json::Value>;

/// The member of a JSON object under a key, if there is one.
pub uninterp spec fn serde_member(v: serde_json::Value, k: Seq<char>) -> Option<serde_json::Value>;

/// The contents of a JSON string, if the value is one.
pub uninterp spec fn serde_string(v: serde_json::Value) -> Option<Seq<char>>;

/// The compact JSON text of a string: its contents quoted and escaped.
pub uninterp spec fn json_quoted(s: Seq<char>) -> Seq<char>;

/// Relies on `serde_json::from_str::<Value>`: it reads a document from the
/// text alone, and fails exactly when the text is not JSON.
#[verifier::external_body]
fn read_document(s: &str) -> (r: Result<serde_json::Value, serde_json::Error>)
    ensures
        match r {
            Ok(v) => serde_document(s@) == Some(v),
            Err(_) => serde_document(s@).is_none(),
        },
{
    serde_json::from_str::<serde_json::Value>(s)
}

/// Relies on `serde_json::Value::get` with a string key: the member under it,
/// `None` on a missing key or a value that is no object.
#[verifier::external_body]
fn document_member<'a>(v: &'a serde_json::Value, k: &str) -> (r: Option<&'a serde_json::Value>)
    ensures
        match r {
            Some(m) => serde_member(*v, k@) == Some(*m),
            None => serde_member(*v, k@).is_none(),
        },
{
    v.get(k)
}

/// Relies on `serde_json::Value::as_str`: the contents of a string value.
#[verifier::external_body]
fn document_string(v: &serde_json::Value) -> (r: Option<String>)
    ensures
        match r {
            Some(s) => serde_string(*v) == Some(s@),
            None => serde_string(*v).is_none(),
        },
{
    v.as_str().map(|s| s.to_string())
}

/// Relies on `From<serde_json::Error> for std::io::Error`.
#[verifier::external_body]
fn syntax_error_as_io(e: serde_json::Error) -> std::io::Error {
    std::io::Error::from(e)
}

/// Relies on `json::stringify` of a string: its compact JSON text.
#[verifier::external_body]
fn quoted(s: &str) -> (r: String)
    ensures
        r@ == json_quoted(s@),
{
    json::stringify(s)
}

/// The key that a key file holds, as `decode_key_file` reads it.
pub open spec fn key_in_document(text: Seq<char>) -> Option<Seq<char>> {
    match serde_document(text) {
        Some(doc) => match serde_member(doc, "key"@) {
            Some(m) => serde_string(m),
            None => None,
        },
        None => None,
    }
}

/// The text of a key file that holds `key`: `{"key":<key as a JSON string>}`.
pub open spec fn key_file_text(key: Seq<char>) -> Seq<char> {
    "{\"key\":"@ + json_quoted(key) + "}"@
}

/// Reads the API key out of the text of a key file, a JSON object with a
/// string member `key`.
pub fn decode_key_file(text: &str) -> (r: Result<String, ApiKeyError>)
    ensures
        serde_document(text@).is_none() <==> (r is Err && r->Err_0 is KeyFile),
        serde_document(text@).is_some() && key_in_document(text@).is_none() <==> (r is Err
            && r->Err_0 is InvalidApiKey),
        key_in_document(text@).is_some() <==> r is Ok,
        r is Ok ==> Some(r->Ok_0@) == key_in_document(text@),
{
    match read_document(text) {
        Err(e) => Err(ApiKeyError::KeyFile(syntax_error_as_io(e))),
        Ok(doc) => match document_member(&doc, "key") {
            None => Err(ApiKeyError::InvalidApiKey()),
            Some(m) => match document_string(m) {
                None => Err(ApiKeyError::InvalidApiKey()),
                Some(k) => Ok(k),
            },
        },
    }
}

/// The text of a key file that holds `key`.
pub fn encode_key_file(key: &str) -> (r: String)
    ensures
        r@ == key_file_text(key@),
{
    let mut out = String::from_str("{\"key\":");
    let q = quoted(key);
    out.append(q.as_str());
    out.append("}");
    out
}

/// The endpoint templates and the API key that requests are made with.
#[derive(Clone, Debug)]
pub struct Parser {
    pub urls: Urls,
    key: String,
}

impl Parser {
    /// The API key.
    pub closed spec fn key_view(&self) -> Seq<char> {
        self.key@
    }

    /// The APOD template.
    pub closed spec fn apod_template(&self) -> Seq<char> {
        self.urls.apod@
    }

    /// The NeoWs template.
    pub closed spec fn neows_template(&self) -> Seq<char> {
        self.urls.neows@
    }

    /// The APOD request URL.
    pub open spec fn apod_request(&self) -> Seq<char> {
        self.apod_template() + self.key_view()
    }

    /// The NeoWs request URL for one day.
    pub open spec fn neows_request_for(&self, date: Seq<char>) -> Seq<char> {
        fill_dates(self.neows_template(), date) + self.key_view()
    }

    /// Whether the templates are the default ones.
    pub open spec fn has_default_urls(&self) -> bool {
        self.apod_template() == APOD@ && self.neows_template() == NEOWS@
    }

    pub fn new(key: String) -> (r: Self)
        ensures
            r.has_default_urls(),
            r.key_view() == key@,
    {
        Parser { urls: Urls::default(), key }
    }

    pub fn apod_url(&self) -> (r: String)
        ensures
            r@ == self.apod_request(),
    {
        let mut out = self.urls.apod.clone();
        out.append(self.key.as_str());
        out
    }

    pub fn neows_url(&self, date: &str) -> (r: String)
        ensures
            r@ == self.neows_request_for(date@),
    {
        let mut out = fill_template(self.urls.neows.as_str(), date);
        out.append(self.key.as_str());
        out
    }

    pub fn get_api_key(&self) -> (r: String)
        ensures
            r@ == self.key_view(),
    {
        self.key.clone()
    }
}

/// A key is appended to the APOD endpoint: with the default templates the
/// URL is the fixed APOD prefix followed by `api_key=` and the key.
pub proof fn lemma_apod_url_shape(p: Parser)
    requires
        p.has_default_urls(),
    ensures
        p.apod_request() == "https://api.nasa.gov/planetary/apod?"@ + "api_key="@ + p.key_view(),
{
    reveal_strlit("https://api.nasa.gov/planetary/apod?");
    reveal_strlit("api_key=");
    reveal_strlit("https://api.nasa.gov/planetary/apod?api_key=");
    assert(APOD@ =~= "https://api.nasa.gov/planetary/apod?"@ + "api_key="@);
}

/// With the default templates the NeoWs URL for a day `d` names `d` as both
/// the start and the end date, verbatim, and carries the key last; no date
/// token is left in it unless the day or the key holds one.
pub proof fn lemma_neows_url_shape(p: Parser, d: Seq<char>)
    requires
        p.has_default_urls(),
    ensures
        p.neows_request_for(d) == neows_request(d, p.key_view()),
        !contains_seq(d, start_token()) && !contains_seq(p.key_view(), start_token())
            ==> !contains_seq(p.neows_request_for(d), start_token()),
        !contains_seq(d, end_token()) && !contains_seq(p.key_view(), end_token())
            ==> !contains_seq(p.neows_request_for(d), end_token()),
{
    lemma_default_neows_filled(d, p.key_view());
    if !contains_seq(d, start_token()) && !contains_seq(p.key_view(), start_token()) {
        lemma_neows_request_has_no_token(d, p.key_view(), start_token());
    }
    if !contains_seq(d, end_token()) && !contains_seq(p.key_view(), end_token()) {
        lemma_neows_request_has_no_token(d, p.key_view(), end_token());
    }
}

} // verus!
