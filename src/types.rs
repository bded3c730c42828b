//! The request data: recipients, senders and the options of each operation,
//! with the JSON payload each of them puts on the wire.

use crate::attachment::Attachment;
use crate::config::opt_view;
use crate::json::{json_data, no_entries, object_keys};
use crate::wire::{
    entry_if, keys_of, lemma_payload_entries_concat, opt_data, payload_entries, opt_text, opt_texts, record_view, records_view, text_entry_if, Payload,
    WireValue, WireView,
};
use std::collections::HashMap;
use vstd::prelude::*;
use vstd::string::*;

verus! {

/// An email recipient.
#[derive(Debug, Clone, PartialEq)]
pub struct Recipient {
    /// Email address.
    pub address: String,
    /// Display name.
    pub name: Option<String>,
}

impl Recipient {
    /// A recipient with an address and no name.
    pub fn new(address: &str) -> (r: Recipient)
        ensures
            r.address@ == address@,
            r.name is None,
    {
        Recipient { address: String::from_str(address), name: None }
    }

    /// The same recipient with a display name.
    pub fn with_name(self, name: &str) -> (r: Recipient)
        ensures
            r.address == self.address,
            opt_view(r.name) == Some(name@),
    {
        Recipient { address: self.address, name: Some(String::from_str(name)) }
    }

    /// The wire fields of the recipient, in order; an absent name is left out.
    pub open spec fn record_spec(&self) -> Seq<(Seq<char>, Seq<char>)> {
        seq![("address"@, self.address@)] + text_entry_if("name"@, self.name)
    }

    /// The wire fields, as `record_spec` gives them.
    pub fn record(&self) -> (r: Vec<(String, String)>)
        ensures
            record_view(r@) == self.record_spec(),
    {
        let mut r: Vec<(String, String)> = Vec::new();
        r.push((String::from_str("address"), self.address.clone()));
        match &self.name {
            Some(n) => r.push((String::from_str("name"), n.clone())),
            None => {},
        }
        assert(record_view(r@) =~= self.record_spec());
        r
    }
}

/// The sender of an email.
#[derive(Debug, Clone, PartialEq)]
pub struct Sender {
    /// Email address.
    pub address: String,
    /// Display name.
    pub name: Option<String>,
    /// Reply-to address.
    pub reply_to: Option<String>,
}

impl Sender {
    /// A sender with an address only.
    pub fn new(address: &str) -> (r: Sender)
        ensures
            r.address@ == address@,
            r.name is None,
            r.reply_to is None,
    {
        Sender { address: String::from_str(address), name: None, reply_to: None }
    }

    /// The same sender with a display name.
    pub fn with_name(self, name: &str) -> (r: Sender)
        ensures
            r.address == self.address,
            opt_view(r.name) == Some(name@),
            r.reply_to == self.reply_to,
    {
        Sender { address: self.address, name: Some(String::from_str(name)), reply_to: self.reply_to }
    }

    /// The same sender with a reply-to address.
    pub fn with_reply_to(self, reply_to: &str) -> (r: Sender)
        ensures
            r.address == self.address,
            r.name == self.name,
            opt_view(r.reply_to) == Some(reply_to@),
    {
        Sender {
            address: self.address,
            name: self.name,
            reply_to: Some(String::from_str(reply_to)),
        }
    }

    /// The wire fields of the sender, in order; absent fields are left out.
    pub open spec fn record_spec(&self) -> Seq<(Seq<char>, Seq<char>)> {
        seq![("address"@, self.address@)] + text_entry_if("name"@, self.name) + text_entry_if(
            "reply_to"@,
            self.reply_to,
        )
    }

    /// The wire fields, as `record_spec` gives them.
    pub fn record(&self) -> (r: Vec<(String, String)>)
        ensures
            record_view(r@) == self.record_spec(),
    {
        let mut r: Vec<(String, String)> = Vec::new();
        r.push((String::from_str("address"), self.address.clone()));
        match &self.name {
            Some(n) => r.push((String::from_str("name"), n.clone())),
            None => {},
        }
        match &self.reply_to {
            Some(n) => r.push((String::from_str("reply_to"), n.clone())),
            None => {},
        }
        assert(record_view(r@) =~= self.record_spec());
        r
    }
}

/// The wire records of a list of recipients, in order.
pub open spec fn recipient_records(v: Seq<Recipient>) -> Seq<Seq<(Seq<char>, Seq<char>)>> {
    v.map_values(|x: Recipient| x.record_spec())
}

/// The wire records of a list of attachments, in order.
pub open spec fn attachment_records(v: Seq<Attachment>) -> Seq<Seq<(Seq<char>, Seq<char>)>> {
    v.map_values(|x: Attachment| x.record_spec())
}

/// The wire value of an optional sender.
pub open spec fn opt_sender(v: Option<Sender>) -> Option<WireView> {
    match v {
        Some(s) => Some(WireView::Record(s.record_spec())),
        None => None,
    }
}

/// The wire value of an optional recipient list.
pub open spec fn opt_recipients(v: Option<Vec<Recipient>>) -> Option<WireView> {
    match v {
        Some(l) => Some(WireView::Records(recipient_records(l@))),
        None => None,
    }
}

/// The wire value of an optional attachment list.
pub open spec fn opt_attachments(v: Option<Vec<Attachment>>) -> Option<WireView> {
    match v {
        Some(l) => Some(WireView::Records(attachment_records(l@))),
        None => None,
    }
}

/// The wire value of optional headers.
pub open spec fn opt_headers(v: Option<HashMap<String, String>>) -> Option<WireView> {
    match v {
        Some(h) => Some(WireView::Headers(h@)),
        None => None,
    }
}

fn recipients_value(v: &Vec<Recipient>) -> (r: WireValue)
    ensures
        r@ == WireView::Records(recipient_records(v@)),
{
    let mut out: Vec<Vec<(String, String)>> = Vec::new();
    for i in 0..v.len()
        invariant
            records_view(out@) == recipient_records(v@.take(i as int)),
    {
        let rec = v[i].record();
        let ghost before = out@;
        out.push(rec);
        assert(v@.take(i + 1) =~= v@.take(i as int).push(v@[i as int]));
        assert(out@ =~= before.push(rec));
        assert(records_view(out@) =~= records_view(before).push(record_view(rec@)));
        assert(records_view(out@) =~= recipient_records(v@.take(i + 1)));
    }
    assert(v@.take(v@.len() as int) =~= v@);
    WireValue::Records(out)
}

fn attachments_value(v: &Vec<Attachment>) -> (r: WireValue)
    ensures
        r@ == WireView::Records(attachment_records(v@)),
{
    let mut out: Vec<Vec<(String, String)>> = Vec::new();
    for i in 0..v.len()
        invariant
            records_view(out@) == attachment_records(v@.take(i as int)),
    {
        let rec = v[i].record();
        let ghost before = out@;
        out.push(rec);
        assert(v@.take(i + 1) =~= v@.take(i as int).push(v@[i as int]));
        assert(out@ =~= before.push(rec));
        assert(records_view(out@) =~= records_view(before).push(record_view(rec@)));
        assert(records_view(out@) =~= attachment_records(v@.take(i + 1)));
    }
    assert(v@.take(v@.len() as int) =~= v@);
    WireValue::Records(out)
}

/// The options of an email to send.
#[derive(Debug, Clone, PartialEq)]
pub struct EmailOptions {
    /// Template id.
    pub email_id: String,
    /// Main recipient.
    pub recipient: Recipient,
    /// Template variables; sent as `email_data`.
    pub data: Option<HashMap<String, serde_json::Value>>,
    /// Sender.
    pub sender: Option<Sender>,
    /// Carbon-copy recipients.
    pub cc: Option<Vec<Recipient>>,
    /// Blind carbon-copy recipients.
    pub bcc: Option<Vec<Recipient>>,
    /// Attached files.
    pub files: Option<Vec<Attachment>>,
    /// Email service provider account to send through.
    pub esp_account: Option<String>,
    /// Template version to use.
    pub version_name: Option<String>,
    /// Extra email headers.
    pub headers: Option<HashMap<String, String>>,
    /// Tags.
    pub tags: Option<Vec<String>>,
    /// Locale of the template.
    pub locale: Option<String>,
}

impl EmailOptions {
    /// Options with a template id and a recipient, and nothing else set.
    pub fn new(email_id: &str, recipient: Recipient) -> (r: EmailOptions)
        ensures
            r.email_id@ == email_id@,
            r.recipient == recipient,
            r.data is None,
            r.sender is None,
            r.cc is None,
            r.bcc is None,
            r.files is None,
            r.esp_account is None,
            r.version_name is None,
            r.headers is None,
            r.tags is None,
            r.locale is None,
    {
        EmailOptions {
            email_id: String::from_str(email_id),
            recipient,
            data: None,
            sender: None,
            cc: None,
            bcc: None,
            files: None,
            esp_account: None,
            version_name: None,
            headers: None,
            tags: None,
            locale: None,
        }
    }

    /// Sets the template variables.
    pub fn with_data(self, data: HashMap<String, serde_json::Value>) -> (r: EmailOptions)
        ensures
            r == (EmailOptions { data: Some(data), ..self }),
    {
        EmailOptions { data: Some(data), ..self }
    }

    /// Sets the sender.
    pub fn with_sender(self, sender: Sender) -> (r: EmailOptions)
        ensures
            r == (EmailOptions { sender: Some(sender), ..self }),
    {
        EmailOptions { sender: Some(sender), ..self }
    }

    /// Sets the carbon-copy recipients.
    pub fn with_cc(self, cc: Vec<Recipient>) -> (r: EmailOptions)
        ensures
            r == (EmailOptions { cc: Some(cc), ..self }),
    {
        EmailOptions { cc: Some(cc), ..self }
    }

    /// Sets the blind carbon-copy recipients.
    pub fn with_bcc(self, bcc: Vec<Recipient>) -> (r: EmailOptions)
        ensures
            r == (EmailOptions { bcc: Some(bcc), ..self }),
    {
        EmailOptions { bcc: Some(bcc), ..self }
    }

    /// Sets the attached files.
    pub fn with_files(self, files: Vec<Attachment>) -> (r: EmailOptions)
        ensures
            r == (EmailOptions { files: Some(files), ..self }),
    {
        EmailOptions { files: Some(files), ..self }
    }

    /// Sets the email service provider account.
    pub fn with_esp_account(self, esp_account: &str) -> (r: EmailOptions)
        ensures
            opt_view(r.esp_account) == Some(esp_account@),
            r == (EmailOptions { esp_account: r.esp_account, ..self }),
    {
        EmailOptions { esp_account: Some(String::from_str(esp_account)), ..self }
    }

    /// Sets the template version.
    pub fn with_version_name(self, version_name: &str) -> (r: EmailOptions)
        ensures
            opt_view(r.version_name) == Some(version_name@),
            r == (EmailOptions { version_name: r.version_name, ..self }),
    {
        EmailOptions { version_name: Some(String::from_str(version_name)), ..self }
    }

    /// Sets extra email headers.
    pub fn with_headers(self, headers: HashMap<String, String>) -> (r: EmailOptions)
        ensures
            r == (EmailOptions { headers: Some(headers), ..self }),
    {
        EmailOptions { headers: Some(headers), ..self }
    }

    /// Sets the tags.
    pub fn with_tags(self, tags: Vec<String>) -> (r: EmailOptions)
        ensures
            r == (EmailOptions { tags: Some(tags), ..self }),
    {
        EmailOptions { tags: Some(tags), ..self }
    }

    /// Sets the locale.
    pub fn with_locale(self, locale: &str) -> (r: EmailOptions)
        ensures
            opt_view(r.locale) == Some(locale@),
            r == (EmailOptions { locale: r.locale, ..self }),
    {
        EmailOptions { locale: Some(String::from_str(locale)), ..self }
    }

    /// The fields sent for these options, in order: the template id and the
    /// recipient, then each optional field that is set.
    pub open spec fn payload_spec(&self) -> Seq<(Seq<char>, WireView)> {
        seq![
            ("email_id"@, WireView::Text(self.email_id@)),
            ("recipient"@, WireView::Record(self.recipient.record_spec())),
        ] + entry_if("email_data"@, opt_data(self.data)) + entry_if("sender"@, opt_sender(self.sender))
            + entry_if("cc"@, opt_recipients(self.cc)) + entry_if("bcc"@, opt_recipients(self.bcc))
            + entry_if("files"@, opt_attachments(self.files)) + entry_if(
            "esp_account"@,
            opt_text(self.esp_account),
        ) + entry_if("version_name"@, opt_text(self.version_name)) + entry_if(
            "headers"@,
            opt_headers(self.headers),
        ) + entry_if("tags"@, opt_texts(self.tags)) + entry_if("locale"@, opt_text(self.locale))
    }

    /// The payload that sends these options.
    pub fn payload(&self) -> (r: Payload)
        ensures
            r@ == self.payload_spec(),
    {
        let mut p = Payload::new();
        p.push("email_id", WireValue::Text(self.email_id.clone()));
        p.push("recipient", WireValue::Record(self.recipient.record()));
        assert(p@ =~= seq![
            ("email_id"@, WireView::Text(self.email_id@)),
            ("recipient"@, WireView::Record(self.recipient.record_spec())),
        ]);
        p.push_data_if("email_data", &self.data);
        let ghost g = p@;
        match &self.sender {
            Some(s) => p.push("sender", WireValue::Record(s.record())),
            None => {},
        }
        assert(p@ =~= g + entry_if("sender"@, opt_sender(self.sender)));
        let ghost g = p@;
        match &self.cc {
            Some(l) => p.push("cc", recipients_value(l)),
            None => {},
        }
        assert(p@ =~= g + entry_if("cc"@, opt_recipients(self.cc)));
        let ghost g = p@;
        match &self.bcc {
            Some(l) => p.push("bcc", recipients_value(l)),
            None => {},
        }
        assert(p@ =~= g + entry_if("bcc"@, opt_recipients(self.bcc)));
        let ghost g = p@;
        match &self.files {
            Some(l) => p.push("files", attachments_value(l)),
            None => {},
        }
        assert(p@ =~= g + entry_if("files"@, opt_attachments(self.files)));
        p.push_text_if("esp_account", &self.esp_account);
        p.push_text_if("version_name", &self.version_name);
        let ghost g = p@;
        match &self.headers {
            Some(h) => p.push("headers", WireValue::Headers(h.clone())),
            None => {},
        }
        assert(p@ =~= g + entry_if("headers"@, opt_headers(self.headers)));
        p.push_texts_if("tags", &self.tags);
        p.push_text_if("locale", &self.locale);
        p
    }
}

/// The content of a template or of a template version.
#[derive(Debug, Clone, PartialEq)]
pub struct TemplateOptions {
    /// Template name.
    pub name: String,
    /// Email subject.
    pub subject: String,
    /// HTML content.
    pub html: String,
    /// Plain-text content.
    pub text: String,
    /// Preheader text.
    pub preheader: Option<String>,
    /// AMP HTML content.
    pub amp_html: Option<String>,
}

impl TemplateOptions {
    /// The fields sent for these options, in order; absent ones are left out.
    pub open spec fn payload_spec(&self) -> Seq<(Seq<char>, WireView)> {
        seq![
            ("name"@, WireView::Text(self.name@)),
            ("subject"@, WireView::Text(self.subject@)),
            ("html"@, WireView::Text(self.html@)),
            ("text"@, WireView::Text(self.text@)),
        ] + entry_if("preheader"@, opt_text(self.preheader)) + entry_if(
            "amp_html"@,
            opt_text(self.amp_html),
        )
    }

    /// The payload that sends these options.
    pub fn payload(&self) -> (r: Payload)
        ensures
            r@ == self.payload_spec(),
    {
        let mut p = Payload::new();
        p.push("name", WireValue::Text(self.name.clone()));
        p.push("subject", WireValue::Text(self.subject.clone()));
        p.push("html", WireValue::Text(self.html.clone()));
        p.push("text", WireValue::Text(self.text.clone()));
        p.push_text_if("preheader", &self.preheader);
        p.push_text_if("amp_html", &self.amp_html);
        assert(p@ =~= self.payload_spec());
        p
    }
}

/// The options of putting a recipient on a drip campaign.
#[derive(Debug, Clone, PartialEq)]
pub struct DripCampaignOptions {
    /// Recipient's email address.
    pub recipient_address: String,
    /// Template variables for the campaign's emails.
    pub email_data: Option<HashMap<String, serde_json::Value>>,
    /// Tags.
    pub tags: Option<Vec<String>>,
    /// Locale.
    pub locale: Option<String>,
}

impl DripCampaignOptions {
    /// The fields sent for these options, in order; absent ones are left out.
    pub open spec fn payload_spec(&self) -> Seq<(Seq<char>, WireView)> {
        seq![("recipient_address"@, WireView::Text(self.recipient_address@))] + entry_if(
            "email_data"@,
            opt_data(self.email_data),
        ) + entry_if("tags"@, opt_texts(self.tags)) + entry_if("locale"@, opt_text(self.locale))
    }

    /// The payload that sends these options.
    pub fn payload(&self) -> (r: Payload)
        ensures
            r@ == self.payload_spec(),
    {
        let mut p = Payload::new();
        p.push("recipient_address", WireValue::Text(self.recipient_address.clone()));
        p.push_data_if("email_data", &self.email_data);
        p.push_texts_if("tags", &self.tags);
        p.push_text_if("locale", &self.locale);
        assert(p@ =~= self.payload_spec());
        p
    }
}

/// The options of creating or updating a customer.
#[derive(Debug, Clone, PartialEq)]
pub struct CustomerOptions {
    /// Customer's email address.
    pub email: String,
    /// Customer data.
    pub data: Option<HashMap<String, serde_json::Value>>,
    /// Locale.
    pub locale: Option<String>,
}

impl CustomerOptions {
    /// The fields sent for these options, in order; absent ones are left out.
    pub open spec fn payload_spec(&self) -> Seq<(Seq<char>, WireView)> {
        seq![("email"@, WireView::Text(self.email@))] + entry_if("data"@, opt_data(self.data))
            + entry_if("locale"@, opt_text(self.locale))
    }

    /// The payload that sends these options.
    pub fn payload(&self) -> (r: Payload)
        ensures
            r@ == self.payload_spec(),
    {
        let mut p = Payload::new();
        p.push("email", WireValue::Text(self.email.clone()));
        p.push_data_if("data", &self.data);
        p.push_text_if("locale", &self.locale);
        assert(p@ =~= self.payload_spec());
        p
    }
}

/// The options of rendering a template.
#[derive(Debug, Clone, PartialEq)]
pub struct RenderOptions {
    /// Template id.
    pub template: String,
    /// Template version id.
    pub version_id: Option<String>,
    /// Template variables (possibly empty).
    pub template_data: HashMap<String, serde_json::Value>,
    /// Whether rendering fails on missing variables.
    pub strict: bool,
    /// Locale.
    pub locale: Option<String>,
}

impl RenderOptions {
    /// The fields sent for these options, in order; absent ones are left out.
    pub open spec fn payload_spec(&self) -> Seq<(Seq<char>, WireView)> {
        seq![("template"@, WireView::Text(self.template@))] + entry_if(
            "version_id"@,
            opt_text(self.version_id),
        ) + seq![
            ("template_data"@, WireView::Data(self.template_data@)),
            ("strict"@, WireView::Flag(self.strict)),
        ] + entry_if("locale"@, opt_text(self.locale))
    }

    /// The payload that sends these options.
    pub fn payload(&self) -> (r: Payload)
        ensures
            r@ == self.payload_spec(),
    {
        let mut p = Payload::new();
        p.push("template", WireValue::Text(self.template.clone()));
        p.push_text_if("version_id", &self.version_id);
        p.push("template_data", WireValue::Data(self.template_data.clone()));
        p.push("strict", WireValue::Flag(self.strict));
        p.push_text_if("locale", &self.locale);
        assert(p@ =~= self.payload_spec());
        p
    }
}

} // verus!

verus! {

/// A key occurs in the keys of two joined field lists exactly when it occurs
/// in the keys of one of them.
pub broadcast proof fn lemma_keys_concat(
    a: Seq<(Seq<char>, WireView)>,
    b: Seq<(Seq<char>, WireView)>,
    key: Seq<char>,
)
    ensures
        #[trigger] keys_of(a + b).contains(key) <==> (keys_of(a).contains(key) || keys_of(
            b,
        ).contains(key)),
{
    let ka = keys_of(a);
    let kb = keys_of(b);
    assert(keys_of(a + b) =~= ka + kb);
    if ka.contains(key) {
        let i = choose|i: int| 0 <= i < ka.len() && ka[i] == key;
        assert((ka + kb)[i] == key);
    }
    if kb.contains(key) {
        let i = choose|i: int| 0 <= i < kb.len() && kb[i] == key;
        assert((ka + kb)[ka.len() + i] == key);
    }
    if (ka + kb).contains(key) {
        let i = choose|i: int| 0 <= i < (ka + kb).len() && (ka + kb)[i] == key;
        if i < ka.len() {
            assert(ka[i] == key);
        } else {
            assert(kb[i - ka.len()] == key);
        }
    }
}

/// The JSON object sent for email options holds the template id and the
/// recipient; it holds no other key when no optional field is set, and each
/// optional field that is set appears under its key.
pub proof fn lemma_email_payload_keys(o: EmailOptions, m: serde_json::Map<String, serde_json::Value>)
    requires
        object_keys(m) == keys_of(o.payload_spec()).to_set(),
    ensures
        object_keys(m).contains("email_id"@),
        object_keys(m).contains("recipient"@),
        o.data is None && o.sender is None && o.cc is None && o.bcc is None && o.files is None
            && o.esp_account is None && o.version_name is None && o.headers is None && o.tags is None
            && o.locale is None ==> object_keys(m) == set!["email_id"@, "recipient"@],
        o.data is Some ==> object_keys(m).contains("email_data"@),
        o.sender is Some ==> object_keys(m).contains("sender"@),
        o.cc is Some ==> object_keys(m).contains("cc"@),
        o.bcc is Some ==> object_keys(m).contains("bcc"@),
        o.files is Some ==> object_keys(m).contains("files"@),
        o.esp_account is Some ==> object_keys(m).contains("esp_account"@),
        o.version_name is Some ==> object_keys(m).contains("version_name"@),
        o.headers is Some ==> object_keys(m).contains("headers"@),
        o.tags is Some ==> object_keys(m).contains("tags"@),
        o.locale is Some ==> object_keys(m).contains("locale"@),
{
    broadcast use lemma_keys_concat;

    let p = o.payload_spec();
    let k = keys_of(p);
    let head = seq![
        ("email_id"@, WireView::Text(o.email_id@)),
        ("recipient"@, WireView::Record(o.recipient.record_spec())),
    ];
    assert(keys_of(head) =~= seq!["email_id"@, "recipient"@]);
    assert(keys_of(head).contains("email_id"@) && keys_of(head)[0] == "email_id"@);
    assert(keys_of(head)[1] == "recipient"@);
    assert(k.contains("email_id"@));
    assert(k.contains("recipient"@));
    if o.data is None && o.sender is None && o.cc is None && o.bcc is None && o.files is None
        && o.esp_account is None && o.version_name is None && o.headers is None && o.tags is None
        && o.locale is None {
        assert(p =~= head);
        assert(k =~= seq!["email_id"@, "recipient"@]);
        assert(k.to_set() =~= set!["email_id"@, "recipient"@]);
    }
    assert(forall|key: Seq<char>| k.contains(key) ==> k.to_set().contains(key));
    assert(forall|key: Seq<char>, x: WireView| #[trigger]
        keys_of(seq![(key, x)]) == seq![key] && seq![key][0] == key);
}

/// The fields sent for email options before their template variables.
pub open spec fn email_head(o: EmailOptions) -> Seq<(Seq<char>, WireView)> {
    seq![
        ("email_id"@, WireView::Text(o.email_id@)),
        ("recipient"@, WireView::Record(o.recipient.record_spec())),
    ]
}

/// The fields sent for email options after their template variables.
pub open spec fn email_tail(o: EmailOptions) -> Seq<(Seq<char>, WireView)> {
    entry_if("sender"@, opt_sender(o.sender)) + entry_if("cc"@, opt_recipients(o.cc)) + entry_if(
        "bcc"@,
        opt_recipients(o.bcc),
    ) + entry_if("files"@, opt_attachments(o.files)) + entry_if(
        "esp_account"@,
        opt_text(o.esp_account),
    ) + entry_if("version_name"@, opt_text(o.version_name)) + entry_if(
        "headers"@,
        opt_headers(o.headers),
    ) + entry_if("tags"@, opt_texts(o.tags)) + entry_if("locale"@, opt_text(o.locale))
}

proof fn lemma_add_assoc(
    a: Seq<(Seq<char>, WireView)>,
    b: Seq<(Seq<char>, WireView)>,
    c: Seq<(Seq<char>, WireView)>,
)
    ensures
        a + b + c == a + (b + c),
{
    assert(a + b + c =~= a + (b + c));
}

proof fn lemma_email_payload_split(o: EmailOptions)
    ensures
        o.payload_spec() == email_head(o) + entry_if("email_data"@, opt_data(o.data)) + email_tail(
            o,
        ),
{
    let x = email_head(o) + entry_if("email_data"@, opt_data(o.data));
    let s = entry_if("sender"@, opt_sender(o.sender));
    let c = entry_if("cc"@, opt_recipients(o.cc));
    let b = entry_if("bcc"@, opt_recipients(o.bcc));
    let f = entry_if("files"@, opt_attachments(o.files));
    let e = entry_if("esp_account"@, opt_text(o.esp_account));
    let v = entry_if("version_name"@, opt_text(o.version_name));
    let hd = entry_if("headers"@, opt_headers(o.headers));
    let tg = entry_if("tags"@, opt_texts(o.tags));
    let l = entry_if("locale"@, opt_text(o.locale));
    lemma_add_assoc(x, s, c);
    lemma_add_assoc(x, s + c, b);
    lemma_add_assoc(x, s + c + b, f);
    lemma_add_assoc(x, s + c + b + f, e);
    lemma_add_assoc(x, s + c + b + f + e, v);
    lemma_add_assoc(x, s + c + b + f + e + v, hd);
    lemma_add_assoc(x, s + c + b + f + e + v + hd, tg);
    lemma_add_assoc(x, s + c + b + f + e + v + hd + tg, l);
}

proof fn lemma_entries_keys(q: Seq<(Seq<char>, WireView)>)
    ensures
        forall|k: Seq<char>| #[trigger]
            payload_entries(q).contains_key(k) ==> keys_of(q).contains(k),
    decreases q.len(),
{
    if q.len() > 0 {
        lemma_entries_keys(q.drop_last());
        assert forall|k: Seq<char>| #[trigger]
            payload_entries(q).contains_key(k) implies keys_of(q).contains(k) by {
            if k == q.last().0 {
                assert(keys_of(q)[q.len() - 1] == k);
            } else {
                assert(payload_entries(q.drop_last()).contains_key(k));
                let kd = keys_of(q.drop_last());
                assert(kd.contains(k));
                let i = choose|i: int| 0 <= i < kd.len() && kd[i] == k;
                assert(q.drop_last()[i] == q[i]);
                assert(keys_of(q)[i] == k);
            }
        }
    }
}

proof fn lemma_entry_if_key(key: Seq<char>, x: Option<WireView>, k: Seq<char>)
    ensures
        #[trigger] keys_of(entry_if(key, x)).contains(k) ==> k == key,
{
    if x is Some {
        assert(keys_of(entry_if(key, x)) =~= seq![key]);
    } else {
        assert(keys_of(entry_if(key, x)) =~= Seq::<Seq<char>>::empty());
    }
}

/// Setting the template variables of email options changes only the
/// `email_data` entry of the JSON object sent: it is present afterwards, and
/// every other key is present, with the same value, exactly when it was before.
pub proof fn lemma_with_data_changes_only_email_data(
    o: EmailOptions,
    d: HashMap<String, serde_json::Value>,
)
    ensures
        ({
            let before = payload_entries(o.payload_spec());
            let after = payload_entries((EmailOptions { data: Some(d), ..o }).payload_spec());
            &&& after.contains_key("email_data"@)
            &&& after["email_data"@] == json_data(d@)
            &&& forall|k: Seq<char>|
                k != "email_data"@ ==> (#[trigger] after.contains_key(k) <==> before.contains_key(
                    k,
                )) && (after.contains_key(k) ==> after[k] == before[k])
        }),
{
    let o2 = EmailOptions { data: Some(d), ..o };
    let h = email_head(o);
    let t = email_tail(o);
    let e1 = entry_if("email_data"@, opt_data(o.data));
    let e2 = entry_if("email_data"@, opt_data(o2.data));
    assert(email_tail(o2) == t);
    lemma_email_payload_split(o);
    lemma_email_payload_split(o2);
    lemma_payload_entries_concat(h + e1, t);
    lemma_payload_entries_concat(h + e2, t);
    lemma_payload_entries_concat(h, e1);
    lemma_payload_entries_concat(h, e2);
    let ph = payload_entries(h);
    let pe1 = payload_entries(e1);
    let pe2 = payload_entries(e2);
    let pt = payload_entries(t);
    assert(e2 =~= seq![("email_data"@, WireView::Data(d@))]);
    assert(e2.drop_last() =~= Seq::<(Seq<char>, WireView)>::empty());
    assert(payload_entries(e2.drop_last()) == no_entries());
    assert(e2.last() == ("email_data"@, WireView::Data(d@)));
    assert(pe2 == no_entries().insert("email_data"@, json_data(d@)));
    if o.data is Some {
        assert(e1.drop_last() =~= Seq::<(Seq<char>, WireView)>::empty());
        assert(payload_entries(e1.drop_last()) == no_entries());
    } else {
        assert(e1 =~= Seq::<(Seq<char>, WireView)>::empty());
    }
    assert(forall|k: Seq<char>| k != "email_data"@ ==> !pe1.contains_key(k));
    reveal_strlit("email_data");
    reveal_strlit("sender");
    reveal_strlit("cc");
    reveal_strlit("bcc");
    reveal_strlit("files");
    reveal_strlit("esp_account");
    reveal_strlit("version_name");
    reveal_strlit("headers");
    reveal_strlit("tags");
    reveal_strlit("locale");
    lemma_entries_keys(t);
    lemma_entry_if_key("sender"@, opt_sender(o.sender), "email_data"@);
    lemma_entry_if_key("cc"@, opt_recipients(o.cc), "email_data"@);
    lemma_entry_if_key("bcc"@, opt_recipients(o.bcc), "email_data"@);
    lemma_entry_if_key("files"@, opt_attachments(o.files), "email_data"@);
    lemma_entry_if_key("esp_account"@, opt_text(o.esp_account), "email_data"@);
    lemma_entry_if_key("version_name"@, opt_text(o.version_name), "email_data"@);
    lemma_entry_if_key("headers"@, opt_headers(o.headers), "email_data"@);
    lemma_entry_if_key("tags"@, opt_texts(o.tags), "email_data"@);
    lemma_entry_if_key("locale"@, opt_text(o.locale), "email_data"@);
    let k = "email_data"@;
    assert(k.len() == 10);
    assert("sender"@.len() == 6 && "cc"@.len() == 2 && "bcc"@.len() == 3 && "files"@.len() == 5
        && "esp_account"@.len() == 11 && "version_name"@.len() == 12 && "headers"@.len() == 7
        && "tags"@.len() == 4 && "locale"@.len() == 6);
    assert(k != "sender"@ && k != "cc"@ && k != "bcc"@ && k != "files"@ && k != "esp_account"@
        && k != "version_name"@ && k != "headers"@ && k != "tags"@ && k != "locale"@);
    let ps = entry_if("sender"@, opt_sender(o.sender));
    let pc = entry_if("cc"@, opt_recipients(o.cc));
    let pb = entry_if("bcc"@, opt_recipients(o.bcc));
    let pf = entry_if("files"@, opt_attachments(o.files));
    let pa = entry_if("esp_account"@, opt_text(o.esp_account));
    let pv = entry_if("version_name"@, opt_text(o.version_name));
    let phd = entry_if("headers"@, opt_headers(o.headers));
    let ptg = entry_if("tags"@, opt_texts(o.tags));
    let pl = entry_if("locale"@, opt_text(o.locale));
    lemma_keys_concat(ps, pc, k);
    lemma_keys_concat(ps + pc, pb, k);
    lemma_keys_concat(ps + pc + pb, pf, k);
    lemma_keys_concat(ps + pc + pb + pf, pa, k);
    lemma_keys_concat(ps + pc + pb + pf + pa, pv, k);
    lemma_keys_concat(ps + pc + pb + pf + pa + pv, phd, k);
    lemma_keys_concat(ps + pc + pb + pf + pa + pv + phd, ptg, k);
    lemma_keys_concat(ps + pc + pb + pf + pa + pv + phd + ptg, pl, k);
    assert(!keys_of(t).contains("email_data"@));
    assert(!pt.contains_key("email_data"@));
    assert(forall|k: Seq<char>| k != "email_data"@ ==> !pe2.contains_key(k));
}

} // verus!
