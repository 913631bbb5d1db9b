//! The requests that the calls of a plugin turn into.
use serde_json::Value;
use vstd::prelude::*;

use crate::http::{
    authorize, authorize_json, bot_headers, bot_json_headers, header_texts, push_header, Body,
    bot_authorization, BodyView, FormFile, FormFileView, Request, RequestView, Timeout,
};
use crate::json::{
    compact, document, documents, make_object1, make_object2, make_object3, object1, object2,
    object3, parsed, Json,
};
use crate::text::{decimal, decimal_text, joined, starts_with, trimmed};

verus! {

#[verifier::external_type_specification]
#[verifier::external_body]
pub struct ExClient(reqwest::Client);

/// How long an answer may keep a plugin waiting, in seconds.
pub const HTTP_TIMEOUT_SECONDS: u64 = 30;

/// A file that goes with a message.
pub struct Attachment {
    pub filename: String,
    pub content_type: String,
    pub data: Vec<u8>,
}

/// The contents of an `Attachment`.
#[verifier::ext_equal]
pub struct AttachmentView {
    pub filename: Seq<char>,
    pub content_type: Seq<char>,
    pub data: Seq<u8>,
}

impl View for Attachment {
    type V = AttachmentView;

    open spec fn view(&self) -> AttachmentView {
        AttachmentView {
            filename: self.filename@,
            content_type: self.content_type@,
            data: self.data@,
        }
    }
}

/// The contents of a list of attachments.
pub open spec fn attachment_views(attachments: Seq<Attachment>) -> Seq<AttachmentView> {
    attachments.map_values(|a: Attachment| a@)
}

/// Whether a media type is accepted for a part of a form.
pub uninterp spec fn mime_accepted(content_type: Seq<char>) -> bool;

/// Calls `Part::mime_str` of `reqwest::multipart`. Whether it accepts the media
/// type depends on that text alone; the message of its error is always the same.
#[verifier::external_body]
fn check_mime(content_type: &str) -> (r: Result<(), String>)
    ensures
        match r {
            Ok(_) => mime_accepted(content_type@),
            Err(e) => !mime_accepted(content_type@) && e@ == "builder error"@,
        },
{
    match reqwest::multipart::Part::bytes(Vec::new()).mime_str(content_type) {
        Ok(_) => Ok(()),
        Err(e) => Err(e.to_string()),
    }
}

/// Why no request can be made to an address, if none can.
pub uninterp spec fn address_refusal(url: Seq<char>) -> Option<Seq<char>>;

/// Calls `Client::get` and `RequestBuilder::build`. Whether it makes a request,
/// and the message where it does not, depend on the address alone.
#[verifier::external_body]
pub(crate) fn check_address(client: &reqwest::Client, url: &str) -> (r: Result<(), String>)
    ensures
        match r {
            Ok(_) => address_refusal(url@) is None,
            Err(e) => address_refusal(url@) == Some(e@),
        },
{
    match client.get(url).build() {
        Ok(_) => Ok(()),
        Err(e) => Err(e.to_string()),
    }
}

/// Whether a text may be the value of a header: it holds no control characters
/// but tabs.
pub open spec fn is_header_value(value: Seq<char>) -> bool {
    forall|i: int|
        0 <= i < value.len() ==> #[trigger] value[i] == '\t' || (value[i] >= ' ' && value[i]
            != '\x7f')
}

/// Calls `RequestBuilder::header` for the header `Authorization`, then `build`,
/// on a request to an address that takes one. It accepts a value without control
/// characters but tabs; the message of its error is always the same.
#[verifier::external_body]
pub(crate) fn check_authorization(client: &reqwest::Client, url: &str, value: &str) -> (r: Result<
    (),
    String,
>)
    requires
        address_refusal(url@) is None,
    ensures
        match r {
            Ok(_) => is_header_value(value@),
            Err(e) => !is_header_value(value@) && e@ == "builder error"@,
        },
{
    let name = reqwest::header::AUTHORIZATION;
    match client.get(url).header(name, value.to_string()).build() {
        Ok(_) => Ok(()),
        Err(e) => Err(e.to_string()),
    }
}

/// Whether a character may stand in the name of a request method.
pub open spec fn is_token_char(c: char) -> bool {
    ||| 'a' <= c <= 'z'
    ||| 'A' <= c <= 'Z'
    ||| '0' <= c <= '9'
    ||| c == '!' || c == '#' || c == '$' || c == '%' || c == '&' || c == '\''
    ||| c == '*' || c == '+' || c == '-' || c == '.' || c == '^' || c == '_'
    ||| c == '`' || c == '|' || c == '~'
}

/// Whether a text is the name of a request method.
pub open spec fn is_method(name: Seq<char>) -> bool {
    &&& name.len() > 0
    &&& forall|i: int| 0 <= i < name.len() ==> is_token_char(#[trigger] name[i])
}

/// Calls `reqwest::Method::from_bytes`: it accepts one or more token characters
/// and keeps them as they are; the message of its error is always the same.
#[verifier::external_body]
pub(crate) fn check_method(name: &str) -> (r: Result<String, String>)
    ensures
        match r {
            Ok(m) => is_method(name@) && m@ == name@,
            Err(e) => !is_method(name@) && e@ == "invalid HTTP method"@,
        },
{
    match reqwest::Method::from_bytes(name.as_bytes()) {
        Ok(m) => Ok(m.as_str().to_string()),
        Err(e) => Err(e.to_string()),
    }
}

/// Whether an address belongs to the Discord REST interface.
pub open spec fn is_discord_api(url: Seq<char>) -> bool {
    "https://discord.com/api/"@.is_prefix_of(url)
        || "https://canary.discord.com/api/"@.is_prefix_of(url)
}

/// Whether an address belongs to the Discord REST interface.
pub fn is_discord_api_url(url: &str) -> (r: bool)
    ensures
        r == is_discord_api(url@),
{
    starts_with(url, "https://discord.com/api/") || starts_with(
        url,
        "https://canary.discord.com/api/",
    )
}

/// Where the messages of a channel go.
pub open spec fn channel_messages_url(channel_id: u64) -> Seq<char> {
    "https://discord.com/api/v10/channels/"@ + decimal(channel_id as nat) + "/messages"@
}

/// Where an interaction is answered.
pub open spec fn callback_url(interaction_id: u64, interaction_token: Seq<char>) -> Seq<char> {
    "https://discord.com/api/v10/interactions/"@ + decimal(interaction_id as nat) + "/"@
        + interaction_token + "/callback"@
}

/// Where the first answer to an interaction is edited.
pub open spec fn original_message_url(application_id: u64, interaction_token: Seq<char>) -> Seq<
    char,
> {
    "https://discord.com/api/v10/webhooks/"@ + decimal(application_id as nat) + "/"@
        + interaction_token + "/messages/@original"@
}

fn channel_messages(channel_id: u64) -> (r: String)
    ensures
        r@ == channel_messages_url(channel_id),
{
    let mut r = joined(
        "https://discord.com/api/v10/channels/",
        decimal_text(channel_id).as_str(),
    );
    r.append("/messages");
    r
}

fn callback(interaction_id: u64, interaction_token: &str) -> (r: String)
    ensures
        r@ == callback_url(interaction_id, interaction_token@),
{
    let mut r = joined(
        "https://discord.com/api/v10/interactions/",
        decimal_text(interaction_id).as_str(),
    );
    r.append("/");
    r.append(interaction_token);
    r.append("/callback");
    r
}

fn original_message(application_id: u64, interaction_token: &str) -> (r: String)
    ensures
        r@ == original_message_url(application_id, interaction_token@),
{
    let mut r = joined(
        "https://discord.com/api/v10/webhooks/",
        decimal_text(application_id).as_str(),
    );
    r.append("/");
    r.append(interaction_token);
    r.append("/messages/@original");
    r
}

/// The keys of the objects that are sent to Discord differ where they stand side
/// by side.
pub(crate) proof fn lemma_keys_differ()
    ensures
        "content"@ != "components"@,
        "content"@ != "attachments"@,
        "content"@ != "flags"@,
        "type"@ != "data"@,
        "custom_id"@ != "title"@,
        "custom_id"@ != "components"@,
        "title"@ != "components"@,
        "id"@ != "filename"@,
        "id"@ != "description"@,
        "filename"@ != "description"@,
        "name"@ != "description"@,
        "name"@ != "type"@,
        "description"@ != "type"@,
{
    reveal_strlit("content");
    reveal_strlit("components");
    reveal_strlit("attachments");
    reveal_strlit("flags");
    reveal_strlit("type");
    reveal_strlit("data");
    reveal_strlit("custom_id");
    reveal_strlit("title");
    reveal_strlit("id");
    reveal_strlit("filename");
    reveal_strlit("description");
    reveal_strlit("name");
    assert("type"@[0] != "data"@[0]);
    assert("name"@[0] != "type"@[0]);
    assert("content"@.len() == 7 && "components"@.len() == 10 && "attachments"@.len() == 11);
    assert("flags"@.len() == 5 && "custom_id"@.len() == 9 && "title"@.len() == 5);
    assert("id"@.len() == 2 && "filename"@.len() == 8 && "description"@.len() == 11);
    assert("type"@.len() == 4 && "name"@.len() == 4);
}

/// A request with a JSON body.
pub open spec fn json_request(
    method: Seq<char>,
    url: Seq<char>,
    token: Seq<char>,
    body: Json,
) -> RequestView {
    RequestView {
        method,
        url,
        headers: bot_json_headers(token),
        body: BodyView::Bytes(vstd::utf8::encode_utf8(compact(body))),
        timeout: None,
    }
}

fn make_json_request(method: &str, url: String, token: &str, body: &Value) -> (r: Request)
    ensures
        r@ == json_request(method@, url@, token@, document(*body)),
{
    Request {
        method: method.to_owned(),
        url,
        headers: authorize_json(token),
        body: Body::Bytes(crate::json::encode(body)),
        timeout: None,
    }
}

/// The components that a text describes: none where it is blank.
pub open spec fn components_of(components: Seq<char>) -> Result<Json, Seq<char>> {
    if trimmed(components).len() == 0 {
        Ok(Json::Array(Seq::empty()))
    } else {
        required_components_of(components)
    }
}

/// The components that a text describes, where it has to describe some.
pub open spec fn required_components_of(components: Seq<char>) -> Result<Json, Seq<char>> {
    match parsed(components) {
        Ok(j) => Ok(j),
        Err(e) => Err("invalid components json: "@ + e),
    }
}

pub(crate) fn read_required_components(components: &str) -> (r: Result<Value, String>)
    ensures
        required_components_of(components@) == (match r {
            Ok(v) => Ok::<Json, Seq<char>>(document(v)),
            Err(e) => Err(e@),
        }),
{
    match crate::json::parse(components) {
        Ok(v) => Ok(v),
        Err(e) => Err(joined("invalid components json: ", e.as_str())),
    }
}

pub(crate) fn read_components(components: &str) -> (r: Result<Value, String>)
    ensures
        components_of(components@) == (match r {
            Ok(v) => Ok::<Json, Seq<char>>(document(v)),
            Err(e) => Err(e@),
        }),
{
    if crate::text::trim(components).is_empty() {
        let items: Vec<Value> = Vec::new();
        assert(documents(items@) == Seq::<Json>::empty());
        Ok(crate::json::array(items))
    } else {
        read_required_components(components)
    }
}

/// The request that posts a message with components to a channel.
pub open spec fn message_of(
    channel_id: u64,
    content: Seq<char>,
    components: Json,
    token: Seq<char>,
) -> RequestView {
    json_request(
        "POST"@,
        channel_messages_url(channel_id),
        token,
        object2("content"@, Json::Text(content), "components"@, components),
    )
}

/// The request that posts a message with components to a channel.
pub fn message_request(channel_id: u64, content: String, components: Value, token: &str) -> (r:
    Request)
    ensures
        r@ == message_of(channel_id, content@, document(components), token@),
{
    proof {
        lemma_keys_differ();
    }
    let body = make_object2("content", crate::json::text(content), "components", components);
    make_json_request("POST", channel_messages(channel_id), token, &body)
}

/// The request that replaces the first answer to an interaction.
pub open spec fn edit_of(
    application_id: u64,
    interaction_token: Seq<char>,
    content: Seq<char>,
    components: Json,
    token: Seq<char>,
) -> RequestView {
    json_request(
        "PATCH"@,
        original_message_url(application_id, interaction_token),
        token,
        object2("content"@, Json::Text(content), "components"@, components),
    )
}

/// The request that replaces the first answer to an interaction.
pub fn edit_request(
    application_id: u64,
    interaction_token: &str,
    content: String,
    components: Value,
    token: &str,
) -> (r: Request)
    ensures
        r@ == edit_of(application_id, interaction_token@, content@, document(components), token@),
{
    proof {
        lemma_keys_differ();
    }
    let body = make_object2("content", crate::json::text(content), "components", components);
    make_json_request("PATCH", original_message(application_id, interaction_token), token, &body)
}

/// The request that answers an interaction with a form to fill in.
pub open spec fn modal_of(
    interaction_id: u64,
    interaction_token: Seq<char>,
    title: Seq<char>,
    custom_id: Seq<char>,
    components: Json,
    token: Seq<char>,
) -> RequestView {
    json_request(
        "POST"@,
        callback_url(interaction_id, interaction_token),
        token,
        object2(
            "type"@,
            Json::Natural(9),
            "data"@,
            object3(
                "custom_id"@,
                Json::Text(custom_id),
                "title"@,
                Json::Text(title),
                "components"@,
                components,
            ),
        ),
    )
}

/// The request that answers an interaction with a form to fill in.
pub fn modal_request(
    interaction_id: u64,
    interaction_token: &str,
    title: String,
    custom_id: String,
    components: Value,
    token: &str,
) -> (r: Request)
    ensures
        r@ == modal_of(
            interaction_id,
            interaction_token@,
            title@,
            custom_id@,
            document(components),
            token@,
        ),
{
    proof {
        lemma_keys_differ();
    }
    let data = make_object3(
        "custom_id",
        crate::json::text(custom_id),
        "title",
        crate::json::text(title),
        "components",
        components,
    );
    let body = make_object2("type", crate::json::natural(9), "data", data);
    make_json_request("POST", callback(interaction_id, interaction_token), token, &body)
}

/// What an answer says: its text, and that only the asker sees it where it is
/// ephemeral.
pub open spec fn reply_data(content: Seq<char>, ephemeral: bool) -> Json {
    if ephemeral {
        object2("content"@, Json::Text(content), "flags"@, Json::Natural(64))
    } else {
        object1("content"@, Json::Text(content))
    }
}

/// The request that answers an interaction with a message.
pub open spec fn reply_of(
    interaction_id: u64,
    interaction_token: Seq<char>,
    content: Seq<char>,
    ephemeral: bool,
    token: Seq<char>,
) -> RequestView {
    json_request(
        "POST"@,
        callback_url(interaction_id, interaction_token),
        token,
        object2("type"@, Json::Natural(4), "data"@, reply_data(content, ephemeral)),
    )
}

fn make_reply_data(content: String, ephemeral: bool) -> (r: Value)
    ensures
        document(r) == reply_data(content@, ephemeral),
{
    if ephemeral {
        proof {
            lemma_keys_differ();
        }
        make_object2("content", crate::json::text(content), "flags", crate::json::natural(64))
    } else {
        make_object1("content", crate::json::text(content))
    }
}

/// What a message says of one of its attachments.
pub open spec fn attachment_note(index: int, filename: Seq<char>) -> Json {
    object3(
        "id"@,
        Json::Text(decimal(index as nat)),
        "filename"@,
        Json::Text(filename),
        "description"@,
        Json::Text(""@),
    )
}

/// What a message with attachments says.
pub open spec fn attachments_payload(content: Seq<char>, attachments: Seq<AttachmentView>) -> Json {
    object2(
        "content"@,
        Json::Text(content),
        "attachments"@,
        Json::Array(
            Seq::new(attachments.len(), |i: int| attachment_note(i, attachments[i].filename)),
        ),
    )
}

/// The name of the form field that carries an attachment.
pub open spec fn file_field(index: int) -> Seq<char> {
    "files["@ + decimal(index as nat) + "]"@
}

/// The files of a form.
pub open spec fn form_files(attachments: Seq<AttachmentView>) -> Seq<FormFileView> {
    Seq::new(
        attachments.len(),
        |i: int|
            FormFileView {
                field: file_field(i),
                filename: attachments[i].filename,
                content_type: attachments[i].content_type,
                data: attachments[i].data,
            },
    )
}

/// Whether the media types of all attachments are accepted.
pub open spec fn all_mimes_accepted(attachments: Seq<AttachmentView>) -> bool {
    forall|i: int|
        0 <= i < attachments.len() ==> mime_accepted(#[trigger] attachments[i].content_type)
}

/// The request that posts a message with attachments to a channel.
pub open spec fn attachments_of(
    channel_id: u64,
    content: Seq<char>,
    attachments: Seq<AttachmentView>,
    token: Seq<char>,
) -> RequestView {
    RequestView {
        method: "POST"@,
        url: channel_messages_url(channel_id),
        headers: bot_headers(token),
        body: BodyView::Form {
            payload_json: compact(attachments_payload(content, attachments)),
            files: form_files(attachments),
        },
        timeout: Some(Timeout::Answer(HTTP_TIMEOUT_SECONDS)),
    }
}

fn make_attachments_payload(content: String, attachments: &Vec<Attachment>) -> (r: Value)
    ensures
        document(r) == attachments_payload(content@, attachment_views(attachments@)),
{
    let ghost views = attachment_views(attachments@);
    let mut notes: Vec<Value> = Vec::new();
    let mut index: usize = 0;
    while index < attachments.len()
        invariant
            views == attachment_views(attachments@),
            index <= attachments@.len(),
            notes@.len() == index,
            forall|i: int|
                0 <= i < index ==> document(#[trigger] notes@[i]) == attachment_note(
                    i,
                    views[i].filename,
                ),
        decreases attachments@.len() - index,
    {
        proof {
            lemma_keys_differ();
        }
        let note = make_object3(
            "id",
            crate::json::text(decimal_text(index as u64)),
            "filename",
            crate::json::text(attachments[index].filename.clone()),
            "description",
            crate::json::text("".to_owned()),
        );
        notes.push(note);
        index += 1;
    }
    assert(documents(notes@) == Seq::new(
        views.len(),
        |i: int| attachment_note(i, views[i].filename),
    ));
    proof {
        lemma_keys_differ();
    }
    make_object2(
        "content",
        crate::json::text(content),
        "attachments",
        crate::json::array(notes),
    )
}

fn copy_bytes(v: &Vec<u8>) -> (r: Vec<u8>)
    ensures
        r@ == v@,
{
    let r = v.clone();
    assert(r@ == v@);
    r
}

fn make_form_files(attachments: &Vec<Attachment>) -> (r: Vec<FormFile>)
    ensures
        r@.map_values(|f: FormFile| f@) == form_files(attachment_views(attachments@)),
{
    let ghost views = attachment_views(attachments@);
    let mut files: Vec<FormFile> = Vec::new();
    let mut index: usize = 0;
    while index < attachments.len()
        invariant
            views == attachment_views(attachments@),
            index <= attachments@.len(),
            files@.len() == index,
            forall|i: int| 0 <= i < index ==> (#[trigger] files@[i])@ == form_files(views)[i],
        decreases attachments@.len() - index,
    {
        let attachment = &attachments[index];
        assert(views[index as int] == attachment@);
        let mut field = joined("files[", decimal_text(index as u64).as_str());
        field.append("]");
        files.push(
            FormFile {
                field,
                filename: attachment.filename.clone(),
                content_type: attachment.content_type.clone(),
                data: copy_bytes(&attachment.data),
            },
        );
        assert(files@[index as int]@ == form_files(views)[index as int]);
        index += 1;
    }
    assert(files@.map_values(|f: FormFile| f@) == form_files(views));
    files
}

/// Checks the media types of all attachments.
pub(crate) fn check_mimes(attachments: &Vec<Attachment>) -> (r: Result<(), String>)
    ensures
        match r {
            Ok(_) => all_mimes_accepted(attachment_views(attachments@)),
            Err(e) => !all_mimes_accepted(attachment_views(attachments@)) && e@ == "builder error"@,
        },
{
    let ghost views = attachment_views(attachments@);
    let mut index: usize = 0;
    while index < attachments.len()
        invariant
            views == attachment_views(attachments@),
            index <= attachments@.len(),
            forall|i: int| 0 <= i < index ==> mime_accepted(#[trigger] views[i].content_type),
        decreases attachments@.len() - index,
    {
        match check_mime(attachments[index].content_type.as_str()) {
            Ok(_) => {},
            Err(e) => {
                assert(!mime_accepted(views[index as int].content_type));
                return Err(e);
            },
        }
        index += 1;
    }
    Ok(())
}

/// The request that posts a message with attachments to a channel.
pub fn attachments_request(
    channel_id: u64,
    content: String,
    attachments: &Vec<Attachment>,
    token: &str,
) -> (r: Request)
    ensures
        r@ == attachments_of(channel_id, content@, attachment_views(attachments@), token@),
{
    let payload = make_attachments_payload(content, attachments);
    Request {
        method: "POST".to_owned(),
        url: channel_messages(channel_id),
        headers: authorize(token),
        body: Body::Form {
            payload_json: crate::json::to_text(&payload),
            files: make_form_files(attachments),
        },
        timeout: Some(Timeout::Answer(HTTP_TIMEOUT_SECONDS)),
    }
}

/// The request that answers an interaction with a message.
pub fn reply_request(
    interaction_id: u64,
    interaction_token: &str,
    content: String,
    ephemeral: bool,
    token: &str,
) -> (r: Request)
    ensures
        r@ == reply_of(interaction_id, interaction_token@, content@, ephemeral, token@),
{
    proof {
        lemma_keys_differ();
    }
    let body = make_object2(
        "type",
        crate::json::natural(4),
        "data",
        make_reply_data(content, ephemeral),
    );
    make_json_request("POST", callback(interaction_id, interaction_token), token, &body)
}

/// The text of an optional string.
pub open spec fn optional_text(s: Option<String>) -> Option<Seq<char>> {
    match s {
        Some(s) => Some(s@),
        None => None,
    }
}

/// The headers of a request that a plugin words itself: the bot identifies
/// itself to Discord and to nobody else.
pub open spec fn plugin_headers(url: Seq<char>, body: Seq<u8>, token: Option<Seq<char>>) -> Seq<
    (Seq<char>, Seq<char>),
> {
    let identified = match token {
        Some(t) => bot_headers(t),
        None => Seq::empty(),
    };
    if !is_discord_api(url) {
        Seq::empty()
    } else if body.len() > 0 {
        identified.push(("Content-Type"@, "application/json"@))
    } else {
        identified
    }
}

fn make_plugin_headers(url: &str, body: &Vec<u8>, token: Option<String>) -> (r: Vec<
    (String, String),
>)
    ensures
        header_texts(r@) == plugin_headers(url@, body@, optional_text(token)),
{
    let mut headers: Vec<(String, String)> = Vec::new();
    assert(header_texts(headers@) == Seq::<(Seq<char>, Seq<char>)>::empty());
    if is_discord_api_url(url) {
        match token {
            Some(t) => {
                headers = authorize(t.as_str());
            },
            None => {},
        }
        if body.len() > 0 {
            push_header(&mut headers, "Content-Type", "application/json".to_owned());
        }
    }
    headers
}

/// Why no request can be made to an address with a token, if none can.
pub open spec fn refusal(url: Seq<char>, token: Option<Seq<char>>) -> Option<Seq<char>> {
    match address_refusal(url) {
        Some(reason) => Some(reason),
        None => match token {
            Some(t) => if is_header_value(bot_authorization(t)) {
                None
            } else {
                Some("builder error"@)
            },
            None => None,
        },
    }
}

/// Checks that a request can be made to an address with a token.
pub(crate) fn check_request(client: &reqwest::Client, url: &str, token: Option<&str>) -> (r: Result<
    (),
    String,
>)
    ensures
        refusal(
            url@,
            match token {
                Some(t) => Some(t@),
                None => None,
            },
        ) == (match r {
            Ok(_) => None::<Seq<char>>,
            Err(e) => Some(e@),
        }),
{
    match check_address(client, url) {
        Ok(_) => {},
        Err(e) => return Err(e),
    }
    match token {
        Some(t) => check_authorization(client, url, joined("Bot ", t).as_str()),
        None => Ok(()),
    }
}

/// A request in a plugin's own words.
pub open spec fn plugin_request_of(
    method: Seq<char>,
    url: Seq<char>,
    body: Seq<u8>,
    token: Option<Seq<char>>,
) -> RequestView {
    RequestView {
        method,
        url,
        headers: plugin_headers(url, body, token),
        body: BodyView::Bytes(body),
        timeout: Some(Timeout::Answer(HTTP_TIMEOUT_SECONDS)),
    }
}

/// A request in a plugin's own words.
pub fn plugin_request(method: String, url: String, body: Vec<u8>, token: Option<String>) -> (r:
    Request)
    ensures
        r@ == plugin_request_of(method@, url@, body@, optional_text(token)),
{
    let headers = make_plugin_headers(url.as_str(), &body, token);
    Request {
        method,
        url,
        headers,
        body: Body::Bytes(body),
        timeout: Some(Timeout::Answer(HTTP_TIMEOUT_SECONDS)),
    }
}

/// The token of the bot goes to Discord only: a request to any other address,
/// whatever else it holds, has no header that the host set.
pub proof fn law_token_goes_to_discord_only(
    url: Seq<char>,
    body: Seq<u8>,
    token: Option<Seq<char>>,
)
    requires
        !is_discord_api(url),
    ensures
        plugin_headers(url, body, token).len() == 0,
{
}

/// Every request that the host words itself goes to Discord.
pub proof fn law_worded_requests_go_to_discord(
    channel_id: u64,
    interaction_id: u64,
    application_id: u64,
    interaction_token: Seq<char>,
)
    ensures
        is_discord_api(channel_messages_url(channel_id)),
        is_discord_api(callback_url(interaction_id, interaction_token)),
        is_discord_api(original_message_url(application_id, interaction_token)),
{
    reveal_strlit("https://discord.com/api/");
    reveal_strlit("https://discord.com/api/v10/channels/");
    reveal_strlit("https://discord.com/api/v10/interactions/");
    reveal_strlit("https://discord.com/api/v10/webhooks/");
    let base = "https://discord.com/api/"@;
    let a = channel_messages_url(channel_id);
    let b = callback_url(interaction_id, interaction_token);
    let c = original_message_url(application_id, interaction_token);
    assert(a.subrange(0, base.len() as int) =~= base);
    assert(b.subrange(0, base.len() as int) =~= base);
    assert(c.subrange(0, base.len() as int) =~= base);
}

} // verus!
