//! Requests to the Discord REST interface, as plain data.
use vstd::prelude::*;

verus! {

/// A file of a multipart form.
pub struct FormFile {
    pub field: String,
    pub filename: String,
    pub content_type: String,
    pub data: Vec<u8>,
}

/// What a request carries.
pub enum Body {
    Empty,
    Bytes(Vec<u8>),
    /// A form with one text field named `payload_json`, then the files.
    Form { payload_json: String, files: Vec<FormFile> },
}

/// How long something may take, in seconds.
#[derive(Clone, Copy, Debug, PartialEq, Eq, Structural)]
pub enum Timeout {
    /// Until the answer begins. Its body may take longer.
    Answer(u64),
    /// The whole exchange.
    Exchange(u64),
}

/// A request that is ready to be sent.
pub struct Request {
    pub method: String,
    pub url: String,
    /// Names and values, in the order in which they are set.
    pub headers: Vec<(String, String)>,
    pub body: Body,
    pub timeout: Option<Timeout>,
}

/// The contents of a `FormFile`.
#[verifier::ext_equal]
pub struct FormFileView {
    pub field: Seq<char>,
    pub filename: Seq<char>,
    pub content_type: Seq<char>,
    pub data: Seq<u8>,
}

/// The contents of a `Body`.
#[verifier::ext_equal]
pub enum BodyView {
    Empty,
    Bytes(Seq<u8>),
    Form { payload_json: Seq<char>, files: Seq<FormFileView> },
}

/// The contents of a `Request`.
#[verifier::ext_equal]
pub struct RequestView {
    pub method: Seq<char>,
    pub url: Seq<char>,
    pub headers: Seq<(Seq<char>, Seq<char>)>,
    pub body: BodyView,
    pub timeout: Option<Timeout>,
}

impl View for FormFile {
    type V = FormFileView;

    open spec fn view(&self) -> FormFileView {
        FormFileView {
            field: self.field@,
            filename: self.filename@,
            content_type: self.content_type@,
            data: self.data@,
        }
    }
}

impl View for Body {
    type V = BodyView;

    open spec fn view(&self) -> BodyView {
        match self {
            Body::Empty => BodyView::Empty,
            Body::Bytes(b) => BodyView::Bytes(b@),
            Body::Form { payload_json, files } => BodyView::Form {
                payload_json: payload_json@,
                files: files@.map_values(|f: FormFile| f@),
            },
        }
    }
}

/// The names and values of a list of headers.
pub open spec fn header_texts(headers: Seq<(String, String)>) -> Seq<(Seq<char>, Seq<char>)> {
    headers.map_values(|h: (String, String)| (h.0@, h.1@))
}

impl View for Request {
    type V = RequestView;

    open spec fn view(&self) -> RequestView {
        RequestView {
            method: self.method@,
            url: self.url@,
            headers: header_texts(self.headers@),
            body: self.body@,
            timeout: self.timeout,
        }
    }
}

/// The value of the `Authorization` header for a bot token.
pub open spec fn bot_authorization(token: Seq<char>) -> Seq<char> {
    "Bot "@ + token
}

/// The headers that identify the bot.
pub open spec fn bot_headers(token: Seq<char>) -> Seq<(Seq<char>, Seq<char>)> {
    seq![("Authorization"@, bot_authorization(token))]
}

/// The headers that identify the bot and announce a JSON body.
pub open spec fn bot_json_headers(token: Seq<char>) -> Seq<(Seq<char>, Seq<char>)> {
    bot_headers(token).push(("Content-Type"@, "application/json"@))
}

/// Adds a header to a list.
pub fn push_header(headers: &mut Vec<(String, String)>, name: &str, value: String)
    ensures
        header_texts(final(headers)@) == header_texts(old(headers)@).push((name@, value@)),
{
    headers.push((name.to_owned(), value));
    assert(header_texts(headers@) == header_texts(old(headers)@).push((name@, value@)));
}

/// The headers that identify the bot.
pub fn authorize(token: &str) -> (r: Vec<(String, String)>)
    ensures
        header_texts(r@) == bot_headers(token@),
{
    let mut headers: Vec<(String, String)> = Vec::new();
    assert(header_texts(headers@) == Seq::<(Seq<char>, Seq<char>)>::empty());
    push_header(&mut headers, "Authorization", crate::text::joined("Bot ", token));
    headers
}

/// The headers that identify the bot and announce a JSON body.
pub fn authorize_json(token: &str) -> (r: Vec<(String, String)>)
    ensures
        header_texts(r@) == bot_json_headers(token@),
{
    let mut headers = authorize(token);
    push_header(&mut headers, "Content-Type", "application/json".to_owned());
    headers
}

/// Whether a status code reports success.
pub open spec fn is_success(status: u16) -> bool {
    200 <= status < 300
}

/// What a rejected call is reported as: its name, the status code and the text
/// of the answer.
pub open spec fn failure_text(what: Seq<char>, status: u16, text: Seq<char>) -> Seq<char> {
    what + " failed ("@ + crate::text::decimal(status as nat) + "): "@ + text
}

/// Turns the answer to a call into its result: nothing on success, a message
/// otherwise.
pub fn outcome(what: &str, status: u16, text: &str) -> (r: Result<(), String>)
    ensures
        r is Ok <==> is_success(status),
        r matches Err(e) ==> e@ == failure_text(what@, status, text@),
{
    if 200 <= status && status < 300 {
        Ok(())
    } else {
        let mut e = what.to_owned();
        e.append(" failed (");
        e.append(crate::text::decimal_text(status as u64).as_str());
        e.append("): ");
        e.append(text);
        Err(e)
    }
}

} // verus!
