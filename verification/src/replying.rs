//! Reply messages and the request that sends one.

use vstd::prelude::*;

verus! {

/// A copy of a string.
fn copy_string(s: &String) -> (res: String)
    ensures
        res@ == s@,
{
    s.clone()
}

/// A copy of an optional string.
fn copy_opt_string(s: &Option<String>) -> (res: Option<String>)
    ensures
        res.deep_view() == s.deep_view(),
{
    match s {
        Some(t) => Some(t.clone()),
        None => None,
    }
}

/// A copy of a list of strings.
fn copy_strings(v: &Vec<String>) -> (res: Vec<String>)
    ensures
        res.deep_view() == v.deep_view(),
{
    let mut out: Vec<String> = Vec::new();
    let mut i: usize = 0;
    while i < v.len()
        invariant
            i <= v@.len(),
            out@.len() == i,
            out.deep_view() == v.deep_view().take(i as int),
        decreases v@.len() - i,
    {
        let ghost prev = out@;
        let c = v[i].clone();
        assert(c.deep_view() == v@[i as int].deep_view());
        out.push(c);
        assert(out@ == prev.push(c));
        assert(out@[i as int] == c);
        i = i + 1;
        assert(out.deep_view() =~= v.deep_view().take(i as int));
    }
    assert(v.deep_view().take(v@.len() as int) =~= v.deep_view());
    out
}

/// One template parameter of a markdown message.
#[derive(Debug)]
pub struct ReplyingMarkdownParam {
    pub key: String,
    pub values: Vec<String>,
}

impl DeepView for ReplyingMarkdownParam {
    type V = (Seq<char>, Seq<Seq<char>>);

    open spec fn deep_view(&self) -> Self::V {
        (self.key@, self.values.deep_view())
    }
}

impl ReplyingMarkdownParam {
    /// A copy of the parameter.
    pub fn copy(&self) -> (res: Self)
        ensures
            res.deep_view() == self.deep_view(),
    {
        ReplyingMarkdownParam { key: copy_string(&self.key), values: copy_strings(&self.values) }
    }
}

/// The button keyboard sent with a markdown message: a configured keyboard
/// template by its id, or keyboard content given as JSON text.
#[derive(Debug)]
pub struct ReplyingKeyboard {
    pub id: Option<String>,
    pub content: Option<String>,
}

impl DeepView for ReplyingKeyboard {
    type V = (Option<Seq<char>>, Option<Seq<char>>);

    open spec fn deep_view(&self) -> Self::V {
        (self.id.deep_view(), self.content.deep_view())
    }
}

impl ReplyingKeyboard {
    /// A copy of the keyboard.
    pub fn copy(&self) -> (res: Self)
        ensures
            res.deep_view() == self.deep_view(),
    {
        ReplyingKeyboard { id: copy_opt_string(&self.id), content: copy_opt_string(&self.content) }
    }
}

/// A copy of an optional keyboard.
fn copy_opt_keyboard(k: &Option<ReplyingKeyboard>) -> (res: Option<ReplyingKeyboard>)
    ensures
        res.deep_view() == k.deep_view(),
{
    match k {
        Some(k) => Some(k.copy()),
        None => None,
    }
}

/// A markdown message: inline content or a template with parameters, and an
/// optional keyboard.
#[derive(Debug)]
pub struct ReplyingMarkdown {
    pub content: Option<String>,
    pub custom_template_id: Option<String>,
    pub params: Option<Vec<ReplyingMarkdownParam>>,
    pub keyboard: Option<ReplyingKeyboard>,
}

impl DeepView for ReplyingMarkdown {
    type V = (
        Option<Seq<char>>,
        Option<Seq<char>>,
        Option<Seq<(Seq<char>, Seq<Seq<char>>)>>,
        Option<(Option<Seq<char>>, Option<Seq<char>>)>,
    );

    open spec fn deep_view(&self) -> Self::V {
        (
            self.content.deep_view(),
            self.custom_template_id.deep_view(),
            self.params.deep_view(),
            self.keyboard.deep_view(),
        )
    }
}

impl ReplyingMarkdown {
    /// A copy of the markdown message.
    pub fn copy(&self) -> (res: Self)
        ensures
            res.deep_view() == self.deep_view(),
    {
        let params = match &self.params {
            Some(ps) => {
                let mut out: Vec<ReplyingMarkdownParam> = Vec::new();
                let mut i: usize = 0;
                while i < ps.len()
                    invariant
                        i <= ps@.len(),
                        out@.len() == i,
                        out.deep_view() == ps.deep_view().take(i as int),
                    decreases ps@.len() - i,
                {
                    let ghost prev = out@;
                    let c = ps[i].copy();
                    out.push(c);
                    assert(out@ == prev.push(c));
                    assert(c.deep_view() == ps@[i as int].deep_view());
                    assert(out@[i as int] == c);
                    i = i + 1;
                    assert(out.deep_view() =~= ps.deep_view().take(i as int));
                }
                assert(ps.deep_view().take(ps@.len() as int) =~= ps.deep_view());
                Some(out)
            },
            None => None,
        };
        ReplyingMarkdown {
            content: copy_opt_string(&self.content),
            custom_template_id: copy_opt_string(&self.custom_template_id),
            params,
            keyboard: copy_opt_keyboard(&self.keyboard),
        }
    }
}

/// One key and value of an ark template.
#[derive(Debug)]
pub struct ReplyingArkKv {
    pub key: String,
    pub value: String,
}

impl DeepView for ReplyingArkKv {
    type V = (Seq<char>, Seq<char>);

    open spec fn deep_view(&self) -> Self::V {
        (self.key@, self.value@)
    }
}

/// An ark template message.
#[derive(Debug)]
pub struct ReplyingArk {
    pub template_id: u64,
    pub kv: Vec<ReplyingArkKv>,
}

impl DeepView for ReplyingArk {
    type V = (u64, Seq<(Seq<char>, Seq<char>)>);

    open spec fn deep_view(&self) -> Self::V {
        (self.template_id, self.kv.deep_view())
    }
}

impl ReplyingArk {
    /// A copy of the ark message.
    pub fn copy(&self) -> (res: Self)
        ensures
            res.deep_view() == self.deep_view(),
    {
        let mut out: Vec<ReplyingArkKv> = Vec::new();
        let mut i: usize = 0;
        while i < self.kv.len()
            invariant
                i <= self.kv@.len(),
                out@.len() == i,
                out.deep_view() == self.kv.deep_view().take(i as int),
            decreases self.kv@.len() - i,
        {
            let kv = &self.kv[i];
            let ghost prev = out@;
            let c = ReplyingArkKv { key: copy_string(&kv.key), value: copy_string(&kv.value) };
            out.push(c);
            assert(out@ == prev.push(c));
            assert(c.deep_view() == self.kv@[i as int].deep_view());
            assert(out@[i as int] == c);
            i = i + 1;
            assert(out.deep_view() =~= self.kv.deep_view().take(i as int));
        }
        assert(self.kv.deep_view().take(self.kv@.len() as int) =~= self.kv.deep_view());
        ReplyingArk { template_id: self.template_id, kv: out }
    }
}

/// The thumbnail of an embed message.
#[derive(Debug)]
pub struct ReplyingEmbedThumbnail {
    pub url: Option<String>,
}

/// One field of an embed message.
#[derive(Debug)]
pub struct ReplyingEmbedField {
    pub name: Option<String>,
    pub value: Option<String>,
}

impl DeepView for ReplyingEmbedField {
    type V = (Option<Seq<char>>, Option<Seq<char>>);

    open spec fn deep_view(&self) -> Self::V {
        (self.name.deep_view(), self.value.deep_view())
    }
}

/// An embed message.
#[derive(Debug)]
pub struct ReplyingEmbed {
    pub title: Option<String>,
    pub prompt: Option<String>,
    pub thumbnail: Option<ReplyingEmbedThumbnail>,
    pub fields: Option<Vec<ReplyingEmbedField>>,
}

impl DeepView for ReplyingEmbed {
    type V = (
        Option<Seq<char>>,
        Option<Seq<char>>,
        Option<Option<Seq<char>>>,
        Option<Seq<(Option<Seq<char>>, Option<Seq<char>>)>>,
    );

    open spec fn deep_view(&self) -> Self::V {
        (
            self.title.deep_view(),
            self.prompt.deep_view(),
            match &self.thumbnail {
                Some(t) => Some(t.url.deep_view()),
                None => None,
            },
            self.fields.deep_view(),
        )
    }
}

impl ReplyingEmbed {
    /// A copy of the embed message.
    pub fn copy(&self) -> (res: Self)
        ensures
            res.deep_view() == self.deep_view(),
    {
        let thumbnail = match &self.thumbnail {
            Some(t) => Some(ReplyingEmbedThumbnail { url: copy_opt_string(&t.url) }),
            None => None,
        };
        let fields = match &self.fields {
            Some(fs) => {
                let mut out: Vec<ReplyingEmbedField> = Vec::new();
                let mut i: usize = 0;
                while i < fs.len()
                    invariant
                        i <= fs@.len(),
                        out@.len() == i,
                        out.deep_view() == fs.deep_view().take(i as int),
                    decreases fs@.len() - i,
                {
                    let f = &fs[i];
                    let ghost prev = out@;
                    let c = ReplyingEmbedField {
                        name: copy_opt_string(&f.name),
                        value: copy_opt_string(&f.value),
                    };
                    out.push(c);
                    assert(out@ == prev.push(c));
                    assert(c.deep_view() == fs@[i as int].deep_view());
                    assert(out@[i as int] == c);
                    i = i + 1;
                    assert(out.deep_view() =~= fs.deep_view().take(i as int));
                }
                assert(fs.deep_view().take(fs@.len() as int) =~= fs.deep_view());
                Some(out)
            },
            None => None,
        };
        ReplyingEmbed {
            title: copy_opt_string(&self.title),
            prompt: copy_opt_string(&self.prompt),
            thumbnail,
            fields,
        }
    }
}

/// A media message that refers to an uploaded file.
#[derive(Debug)]
pub struct ReplyingMedia {
    pub file_type: u8,
    pub url: String,
    pub srv_send_msg: bool,
    pub file_data: Option<String>,
}

impl DeepView for ReplyingMedia {
    type V = (u8, Seq<char>, bool, Option<Seq<char>>);

    open spec fn deep_view(&self) -> Self::V {
        (self.file_type, self.url@, self.srv_send_msg, self.file_data.deep_view())
    }
}

impl ReplyingMedia {
    /// A copy of the media message.
    pub fn copy(&self) -> (res: Self)
        ensures
            res.deep_view() == self.deep_view(),
    {
        ReplyingMedia {
            file_type: self.file_type,
            url: copy_string(&self.url),
            srv_send_msg: self.srv_send_msg,
            file_data: copy_opt_string(&self.file_data),
        }
    }
}

/// The kind of conversation a reply goes to.
#[derive(Debug, Clone, Copy, PartialEq, Eq)]
pub enum ReplyingType {
    /// A one-to-one chat.
    C2c,
    /// A group chat.
    Group,
}

/// A reply of a command.
#[derive(Debug)]
pub enum ReplyingMessage {
    Text(String),
    Markdown(ReplyingMarkdown),
    Ark(ReplyingArk),
    Embed(ReplyingEmbed),
    Media(ReplyingMedia),
}

/// The `msg_type` code of each kind of reply: text 0, markdown 2, ark 3,
/// embed 4, media 7.
pub open spec fn spec_msg_type(m: ReplyingMessage) -> u8 {
    match m {
        ReplyingMessage::Text(_) => 0,
        ReplyingMessage::Markdown(_) => 2,
        ReplyingMessage::Ark(_) => 3,
        ReplyingMessage::Embed(_) => 4,
        ReplyingMessage::Media(_) => 7,
    }
}

/// The body of a request that sends a message.
#[derive(Debug)]
pub struct SendMessageRequest {
    pub msg_type: u8,
    pub content: Option<String>,
    pub markdown: Option<ReplyingMarkdown>,
    pub ark: Option<ReplyingArk>,
    pub embed: Option<ReplyingEmbed>,
    pub media: Option<ReplyingMedia>,
    pub keyboard: Option<ReplyingKeyboard>,
    pub msg_id: Option<String>,
    pub msg_seq: Option<u64>,
}

/// The request that sends `m` as a reply to the message `msg_id`, numbered
/// `msg_seq`: the `msg_type` of the reply, and its content in the one field
/// that matches its kind, all other content fields empty; a markdown reply
/// also carries its keyboard.
pub open spec fn spec_request_matches(
    r: SendMessageRequest,
    m: ReplyingMessage,
    msg_id: Option<Seq<char>>,
    msg_seq: Option<u64>,
) -> bool {
    &&& r.msg_type == spec_msg_type(m)
    &&& r.msg_id.deep_view() == msg_id
    &&& r.msg_seq == msg_seq
    &&& match m {
        ReplyingMessage::Text(t) => r.content.deep_view() == Some(t@),
        _ => r.content is None,
    }
    &&& match m {
        ReplyingMessage::Markdown(x) => r.markdown is Some && r.markdown->Some_0.deep_view()
            == x.deep_view(),
        _ => r.markdown is None,
    }
    &&& match m {
        ReplyingMessage::Ark(x) => r.ark is Some && r.ark->Some_0.deep_view() == x.deep_view(),
        _ => r.ark is None,
    }
    &&& match m {
        ReplyingMessage::Embed(x) => r.embed is Some && r.embed->Some_0.deep_view()
            == x.deep_view(),
        _ => r.embed is None,
    }
    &&& match m {
        ReplyingMessage::Media(x) => r.media is Some && r.media->Some_0.deep_view()
            == x.deep_view(),
        _ => r.media is None,
    }
    &&& match m {
        ReplyingMessage::Markdown(x) => r.keyboard.deep_view() == x.keyboard.deep_view(),
        _ => r.keyboard is None,
    }
}

impl ReplyingMessage {
    /// The `msg_type` code of the reply.
    pub fn to_msg_type(&self) -> (res: u8)
        ensures
            res == spec_msg_type(*self),
    {
        match self {
            ReplyingMessage::Text(_) => 0,
            ReplyingMessage::Markdown(_) => 2,
            ReplyingMessage::Ark(_) => 3,
            ReplyingMessage::Embed(_) => 4,
            ReplyingMessage::Media(_) => 7,
        }
    }

    /// The request that sends this reply.
    pub fn to_request(&self, msg_id: Option<String>, msg_seq: Option<u64>) -> (res:
        SendMessageRequest)
        ensures
            spec_request_matches(res, *self, msg_id.deep_view(), msg_seq),
    {
        let msg_type = self.to_msg_type();
        match self {
            ReplyingMessage::Text(text) => SendMessageRequest {
                msg_type,
                content: Some(copy_string(text)),
                markdown: None,
                ark: None,
                embed: None,
                media: None,
                keyboard: None,
                msg_id,
                msg_seq,
            },
            ReplyingMessage::Markdown(markdown) => SendMessageRequest {
                msg_type,
                content: None,
                markdown: Some(markdown.copy()),
                ark: None,
                embed: None,
                media: None,
                keyboard: copy_opt_keyboard(&markdown.keyboard),
                msg_id,
                msg_seq,
            },
            ReplyingMessage::Ark(ark) => SendMessageRequest {
                msg_type,
                content: None,
                markdown: None,
                ark: Some(ark.copy()),
                embed: None,
                media: None,
                keyboard: None,
                msg_id,
                msg_seq,
            },
            ReplyingMessage::Embed(embed) => SendMessageRequest {
                msg_type,
                content: None,
                markdown: None,
                ark: None,
                embed: Some(embed.copy()),
                media: None,
                keyboard: None,
                msg_id,
                msg_seq,
            },
            ReplyingMessage::Media(media) => SendMessageRequest {
                msg_type,
                content: None,
                markdown: None,
                ark: None,
                embed: None,
                media: Some(media.copy()),
                keyboard: None,
                msg_id,
                msg_seq,
            },
        }
    }
}

/// The kind of a reply, numbered in the order the variants are listed.
pub open spec fn reply_kind(m: ReplyingMessage) -> int {
    match m {
        ReplyingMessage::Text(_) => 0,
        ReplyingMessage::Markdown(_) => 1,
        ReplyingMessage::Ark(_) => 2,
        ReplyingMessage::Embed(_) => 3,
        ReplyingMessage::Media(_) => 4,
    }
}

/// The platform's `msg_type` codes: text 0, markdown 2, ark 3, embed 4 and
/// media 7, whatever the reply holds; two replies of different kinds never
/// share a code, so the code tells the platform which field to read.
pub proof fn law_msg_type_codes(m1: ReplyingMessage, m2: ReplyingMessage)
    ensures
        m1 is Text ==> spec_msg_type(m1) == 0,
        m1 is Markdown ==> spec_msg_type(m1) == 2,
        m1 is Ark ==> spec_msg_type(m1) == 3,
        m1 is Embed ==> spec_msg_type(m1) == 4,
        m1 is Media ==> spec_msg_type(m1) == 7,
        spec_msg_type(m1) == spec_msg_type(m2) ==> reply_kind(m1) == reply_kind(m2),
{
}

} // verus!
