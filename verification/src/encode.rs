//! Request body encoding.
//!
//! Each request type has a spec function giving the exact JSON text it is
//! sent as — an object with one member per field, in declaration order,
//! where an absent optional field is rendered as `null` — and an executable
//! encoder proved to produce that text.

use vstd::prelude::*;

use crate::json::jarr;
use crate::json::jbool;
use crate::json::jnull;
use crate::json::jobj;
use crate::json::jstr;
use crate::json::append_jbool;
use crate::json::append_jnull;
use crate::json::append_jstr;
use crate::json::ArrWriter;
use crate::json::ObjWriter;
use crate::models::Attachment;
use crate::models::BatchEmailRequest;
use crate::models::BatchTemplateEmailRequest;
use crate::models::EmailAddress;
use crate::models::EmailRequest;
use crate::models::InlineImage;
use crate::models::MimeHeaders;
use crate::models::Recipient;
use crate::models::TemplateEmailRequest;

verus! {

/// An optional string: its text, or null when absent.
pub open spec fn opt_jstr(o: Option<String>) -> Seq<char> {
    match o {
        Option::None => jnull(),
        Option::Some(s) => jstr(s@),
    }
}

/// An optional boolean: its text, or null when absent.
pub open spec fn opt_jbool(o: Option<bool>) -> Seq<char> {
    match o {
        Option::None => jnull(),
        Option::Some(b) => jbool(b),
    }
}

/// A key/value list as the members of a JSON object, in list order.
pub open spec fn pairs_members(ps: Seq<(String, String)>) -> Seq<(Seq<char>, Seq<char>)> {
    ps.map_values(|p: (String, String)| (p.0@, jstr(p.1@)))
}

/// A key/value list as a JSON object.
pub open spec fn jpairs(ps: Seq<(String, String)>) -> Seq<char> {
    jobj(pairs_members(ps))
}

/// An optional key/value list: an object, or null when absent.
pub open spec fn opt_jpairs(o: Option<Vec<(String, String)>>) -> Seq<char> {
    match o {
        Option::None => jnull(),
        Option::Some(ps) => jpairs(ps@),
    }
}

/// The JSON text of an email address.
pub open spec fn email_address_json(a: EmailAddress) -> Seq<char> {
    jobj(seq![
        ("address"@, jstr(a.address@)),
        ("name"@, opt_jstr(a.name)),
    ])
}

/// The JSON text of a list of addresses.
pub open spec fn addr_list_json(s: Seq<EmailAddress>) -> Seq<char> {
    jarr(s.map_values(|a: EmailAddress| email_address_json(a)))
}

/// An optional list of addresses: an array, or null when absent.
pub open spec fn opt_addr_list_json(o: Option<Vec<EmailAddress>>) -> Seq<char> {
    match o {
        Option::None => jnull(),
        Option::Some(v) => addr_list_json(v@),
    }
}

/// The JSON text of a recipient.
pub open spec fn recipient_json(r: Recipient) -> Seq<char> {
    jobj(seq![
        ("email_address"@, email_address_json(r.email_address)),
        ("merge_info"@, opt_jpairs(r.merge_info)),
    ])
}

/// The JSON text of a list of recipients.
pub open spec fn recipient_list_json(s: Seq<Recipient>) -> Seq<char> {
    jarr(s.map_values(|r: Recipient| recipient_json(r)))
}

/// An optional list of recipients: an array, or null when absent.
pub open spec fn opt_recipient_list_json(o: Option<Vec<Recipient>>) -> Seq<char> {
    match o {
        Option::None => jnull(),
        Option::Some(v) => recipient_list_json(v@),
    }
}

/// The JSON text of an attachment.
pub open spec fn attachment_json(a: Attachment) -> Seq<char> {
    jobj(seq![
        ("name"@, jstr(a.name@)),
        ("content"@, opt_jstr(a.content)),
        ("mime_type"@, opt_jstr(a.mime_type)),
        ("file_cache_key"@, opt_jstr(a.file_cache_key)),
    ])
}

/// An optional list of attachments: an array, or null when absent.
pub open spec fn opt_attachment_list_json(o: Option<Vec<Attachment>>) -> Seq<char> {
    match o {
        Option::None => jnull(),
        Option::Some(v) => jarr(v@.map_values(|a: Attachment| attachment_json(a))),
    }
}

/// The JSON text of an inline image.
pub open spec fn inline_image_json(im: InlineImage) -> Seq<char> {
    jobj(seq![
        ("mime_type"@, jstr(im.mime_type@)),
        ("content"@, jstr(im.content@)),
        ("content_id"@, jstr(im.content_id@)),
    ])
}

/// An optional list of inline images: an array, or null when absent.
pub open spec fn opt_inline_image_list_json(o: Option<Vec<InlineImage>>) -> Seq<char> {
    match o {
        Option::None => jnull(),
        Option::Some(v) => jarr(v@.map_values(|im: InlineImage| inline_image_json(im))),
    }
}

/// The JSON text of the custom header block.
pub open spec fn mime_headers_json(m: MimeHeaders) -> Seq<char> {
    jobj(seq![("headers"@, jpairs(m.headers@))])
}

/// The optional custom header block: an object, or null when absent.
pub open spec fn opt_mime_headers_json(o: Option<MimeHeaders>) -> Seq<char> {
    match o {
        Option::None => jnull(),
        Option::Some(m) => mime_headers_json(m),
    }
}

/// The wire members of a single email request, in declaration order.
pub open spec fn email_request_members(r: EmailRequest) -> Seq<(Seq<char>, Seq<char>)> {
    seq![
        ("bounce_address"@, opt_jstr(r.bounce_address)),
        ("sender"@, email_address_json(r.sender)),
        ("recipients"@, recipient_list_json(r.recipients@)),
        ("reply_to"@, opt_addr_list_json(r.reply_to)),
        ("subject"@, jstr(r.subject@)),
        ("htmlbody"@, opt_jstr(r.htmlbody)),
        ("textbody"@, opt_jstr(r.textbody)),
        ("carbon_copy"@, opt_recipient_list_json(r.carbon_copy)),
        ("blind_carbon_copy"@, opt_recipient_list_json(r.blind_carbon_copy)),
        ("track_clicks"@, opt_jbool(r.track_clicks)),
        ("track_opens"@, opt_jbool(r.track_opens)),
        ("client_reference"@, opt_jstr(r.client_reference)),
        ("mime_headers"@, opt_mime_headers_json(r.mime_headers)),
        ("attachments"@, opt_attachment_list_json(r.attachments)),
        ("inline_images"@, opt_inline_image_list_json(r.inline_images)),
    ]
}

/// The JSON body POSTed for a single email request.
pub open spec fn email_request_json(r: EmailRequest) -> Seq<char> {
    jobj(email_request_members(r))
}

/// The wire members of a batch email request, in declaration order.
pub open spec fn batch_email_request_members(r: BatchEmailRequest) -> Seq<(Seq<char>, Seq<char>)> {
    seq![
        ("sender"@, email_address_json(r.sender)),
        ("recipients"@, recipient_list_json(r.recipients@)),
        ("subject"@, jstr(r.subject@)),
        ("htmlbody"@, opt_jstr(r.htmlbody)),
        ("textbody"@, opt_jstr(r.textbody)),
        ("carbon_copy"@, opt_recipient_list_json(r.carbon_copy)),
        ("blind_carbon_copy"@, opt_recipient_list_json(r.blind_carbon_copy)),
        ("track_clicks"@, opt_jbool(r.track_clicks)),
        ("track_opens"@, opt_jbool(r.track_opens)),
        ("client_reference"@, opt_jstr(r.client_reference)),
        ("mime_headers"@, opt_mime_headers_json(r.mime_headers)),
        ("attachments"@, opt_attachment_list_json(r.attachments)),
        ("inline_images"@, opt_inline_image_list_json(r.inline_images)),
    ]
}

/// The JSON body POSTed for a batch email request.
pub open spec fn batch_email_request_json(r: BatchEmailRequest) -> Seq<char> {
    jobj(batch_email_request_members(r))
}

/// The wire members of a templated email request, in declaration order.
pub open spec fn template_email_request_members(r: TemplateEmailRequest) -> Seq<
    (Seq<char>, Seq<char>),
> {
    seq![
        ("template_key"@, jstr(r.template_key@)),
        ("bounce_address"@, opt_jstr(r.bounce_address)),
        ("sender"@, email_address_json(r.sender)),
        ("recipients"@, recipient_list_json(r.recipients@)),
        ("reply_to"@, opt_addr_list_json(r.reply_to)),
        ("track_clicks"@, opt_jbool(r.track_clicks)),
        ("track_opens"@, opt_jbool(r.track_opens)),
        ("client_reference"@, opt_jstr(r.client_reference)),
        ("mime_headers"@, opt_mime_headers_json(r.mime_headers)),
        ("attachments"@, opt_attachment_list_json(r.attachments)),
        ("merge_info"@, opt_jpairs(r.merge_info)),
    ]
}

/// The JSON body POSTed for a templated email request.
pub open spec fn template_email_request_json(r: TemplateEmailRequest) -> Seq<char> {
    jobj(template_email_request_members(r))
}

/// The wire members of a batch templated email request, in declaration order.
pub open spec fn batch_template_email_request_members(r: BatchTemplateEmailRequest) -> Seq<
    (Seq<char>, Seq<char>),
> {
    seq![
        ("template_key"@, jstr(r.template_key@)),
        ("bounce_address"@, opt_jstr(r.bounce_address)),
        ("sender"@, email_address_json(r.sender)),
        ("recipients"@, recipient_list_json(r.recipients@)),
        ("reply_to"@, opt_addr_list_json(r.reply_to)),
        ("track_clicks"@, opt_jbool(r.track_clicks)),
        ("track_opens"@, opt_jbool(r.track_opens)),
        ("client_reference"@, opt_jstr(r.client_reference)),
        ("mime_headers"@, opt_mime_headers_json(r.mime_headers)),
        ("attachments"@, opt_attachment_list_json(r.attachments)),
    ]
}

/// The JSON body POSTed for a batch templated email request.
pub open spec fn batch_template_email_request_json(r: BatchTemplateEmailRequest) -> Seq<char> {
    jobj(batch_template_email_request_members(r))
}

/// Renders an optional string value.
fn val_opt_str(o: &Option<String>) -> (r: String)
    ensures
        r@ == opt_jstr(*o),
{
    let mut out = String::new();
    match o {
        Option::None => append_jnull(&mut out),
        Option::Some(s) => append_jstr(&mut out, s.as_str()),
    }
    assert(out@ =~= opt_jstr(*o));
    out
}

/// Renders an optional boolean value.
fn val_opt_bool(o: &Option<bool>) -> (r: String)
    ensures
        r@ == opt_jbool(*o),
{
    let mut out = String::new();
    match o {
        Option::None => append_jnull(&mut out),
        Option::Some(b) => append_jbool(&mut out, *b),
    }
    assert(out@ =~= opt_jbool(*o));
    out
}

/// Renders a key/value list as an object.
fn val_pairs(ps: &Vec<(String, String)>) -> (r: String)
    ensures
        r@ == jpairs(ps@),
{
    let mut w = ObjWriter::new();
    let n = ps.len();
    let mut i: usize = 0;
    while i < n
        invariant
            n == ps@.len(),
            i <= n,
            w.wf(),
            w.members() == pairs_members(ps@.subrange(0, i as int)),
        decreases n - i,
    {
        let p = &ps[i];
        w.member_str(p.0.as_str(), p.1.as_str());
        proof {
            assert(ps@.subrange(0, i + 1) =~= ps@.subrange(0, i as int).push(ps@[i as int]));
            assert(pairs_members(ps@.subrange(0, i + 1)) =~= pairs_members(
                ps@.subrange(0, i as int),
            ).push((ps@[i as int].0@, jstr(ps@[i as int].1@))));
        }
        i = i + 1;
    }
    proof {
        assert(ps@.subrange(0, n as int) =~= ps@);
    }
    w.finish()
}

/// Renders an email address.
pub fn encode_email_address(a: &EmailAddress) -> (r: String)
    ensures
        r@ == email_address_json(*a),
{
    let mut w = ObjWriter::new();
    w.member_str("address", a.address.as_str());
    let name = val_opt_str(&a.name);
    w.member_raw("name", name.as_str());
    proof {
        assert(w.members() =~= seq![("address"@, jstr(a.address@)), ("name"@, opt_jstr(a.name))]);
    }
    w.finish()
}

/// Renders a recipient.
pub fn encode_recipient(r: &Recipient) -> (out: String)
    ensures
        out@ == recipient_json(*r),
{
    let mut w = ObjWriter::new();
    let addr = encode_email_address(&r.email_address);
    w.member_raw("email_address", addr.as_str());
    let mi = match &r.merge_info {
        Option::None => {
            let mut v = String::new();
            append_jnull(&mut v);
            assert(v@ =~= opt_jpairs(r.merge_info));
            v
        },
        Option::Some(ps) => {
            let v = val_pairs(ps);
            assert(v@ =~= opt_jpairs(r.merge_info));
            v
        },
    };
    w.member_raw("merge_info", mi.as_str());
    proof {
        assert(w.members() =~= seq![
            ("email_address"@, email_address_json(r.email_address)),
            ("merge_info"@, opt_jpairs(r.merge_info)),
        ]);
    }
    w.finish()
}

/// Renders an attachment.
pub fn encode_attachment(a: &Attachment) -> (r: String)
    ensures
        r@ == attachment_json(*a),
{
    let mut w = ObjWriter::new();
    w.member_str("name", a.name.as_str());
    let content = val_opt_str(&a.content);
    w.member_raw("content", content.as_str());
    let mime_type = val_opt_str(&a.mime_type);
    w.member_raw("mime_type", mime_type.as_str());
    let key = val_opt_str(&a.file_cache_key);
    w.member_raw("file_cache_key", key.as_str());
    proof {
        assert(w.members() =~= seq![
            ("name"@, jstr(a.name@)),
            ("content"@, opt_jstr(a.content)),
            ("mime_type"@, opt_jstr(a.mime_type)),
            ("file_cache_key"@, opt_jstr(a.file_cache_key)),
        ]);
    }
    w.finish()
}

/// Renders an inline image.
pub fn encode_inline_image(im: &InlineImage) -> (r: String)
    ensures
        r@ == inline_image_json(*im),
{
    let mut w = ObjWriter::new();
    w.member_str("mime_type", im.mime_type.as_str());
    w.member_str("content", im.content.as_str());
    w.member_str("content_id", im.content_id.as_str());
    proof {
        assert(w.members() =~= seq![
            ("mime_type"@, jstr(im.mime_type@)),
            ("content"@, jstr(im.content@)),
            ("content_id"@, jstr(im.content_id@)),
        ]);
    }
    w.finish()
}

/// Renders the custom header block.
pub fn encode_mime_headers(m: &MimeHeaders) -> (r: String)
    ensures
        r@ == mime_headers_json(*m),
{
    let mut w = ObjWriter::new();
    let hs = val_pairs(&m.headers);
    w.member_raw("headers", hs.as_str());
    proof {
        assert(w.members() =~= seq![("headers"@, jpairs(m.headers@))]);
    }
    w.finish()
}

/// Renders a list of recipients.
fn val_recipient_list(v: &Vec<Recipient>) -> (r: String)
    ensures
        r@ == recipient_list_json(v@),
{
    let mut w = ArrWriter::new();
    let n = v.len();
    let mut i: usize = 0;
    while i < n
        invariant
            n == v@.len(),
            i <= n,
            w.wf(),
            w.elems() == v@.subrange(0, i as int).map_values(|r: Recipient| recipient_json(r)),
        decreases n - i,
    {
        let t = encode_recipient(&v[i]);
        w.elem_raw(t.as_str());
        proof {
            assert(v@.subrange(0, i + 1) =~= v@.subrange(0, i as int).push(v@[i as int]));
            assert(v@.subrange(0, i + 1).map_values(|r: Recipient| recipient_json(r)) =~= v@
                .subrange(0, i as int)
                .map_values(|r: Recipient| recipient_json(r))
                .push(recipient_json(v@[i as int])));
        }
        i = i + 1;
    }
    proof {
        assert(v@.subrange(0, n as int) =~= v@);
    }
    w.finish()
}

/// Renders an optional list of recipients.
fn val_opt_recipient_list(o: &Option<Vec<Recipient>>) -> (r: String)
    ensures
        r@ == opt_recipient_list_json(*o),
{
    match o {
        Option::None => {
            let mut out = String::new();
            append_jnull(&mut out);
            assert(out@ =~= opt_recipient_list_json(*o));
            out
        },
        Option::Some(v) => val_recipient_list(v),
    }
}

/// Renders an optional list of addresses.
fn val_opt_addr_list(o: &Option<Vec<EmailAddress>>) -> (r: String)
    ensures
        r@ == opt_addr_list_json(*o),
{
    match o {
        Option::None => {
            let mut out = String::new();
            append_jnull(&mut out);
            assert(out@ =~= opt_addr_list_json(*o));
            out
        },
        Option::Some(v) => {
            let mut w = ArrWriter::new();
            let n = v.len();
            let mut i: usize = 0;
            while i < n
                invariant
                    n == v@.len(),
                    i <= n,
                    w.wf(),
                    w.elems() == v@.subrange(0, i as int).map_values(
                        |a: EmailAddress| email_address_json(a),
                    ),
                decreases n - i,
            {
                let t = encode_email_address(&v[i]);
                w.elem_raw(t.as_str());
                proof {
                    assert(v@.subrange(0, i + 1) =~= v@.subrange(0, i as int).push(v@[i as int]));
                    assert(v@.subrange(0, i + 1).map_values(
                        |a: EmailAddress| email_address_json(a),
                    ) =~= v@.subrange(0, i as int).map_values(
                        |a: EmailAddress| email_address_json(a),
                    ).push(email_address_json(v@[i as int])));
                }
                i = i + 1;
            }
            proof {
                assert(v@.subrange(0, n as int) =~= v@);
            }
            w.finish()
        },
    }
}

/// Renders an optional list of attachments.
fn val_opt_attachment_list(o: &Option<Vec<Attachment>>) -> (r: String)
    ensures
        r@ == opt_attachment_list_json(*o),
{
    match o {
        Option::None => {
            let mut out = String::new();
            append_jnull(&mut out);
            assert(out@ =~= opt_attachment_list_json(*o));
            out
        },
        Option::Some(v) => {
            let mut w = ArrWriter::new();
            let n = v.len();
            let mut i: usize = 0;
            while i < n
                invariant
                    n == v@.len(),
                    i <= n,
                    w.wf(),
                    w.elems() == v@.subrange(0, i as int).map_values(
                        |a: Attachment| attachment_json(a),
                    ),
                decreases n - i,
            {
                let t = encode_attachment(&v[i]);
                w.elem_raw(t.as_str());
                proof {
                    assert(v@.subrange(0, i + 1) =~= v@.subrange(0, i as int).push(v@[i as int]));
                    assert(v@.subrange(0, i + 1).map_values(|a: Attachment| attachment_json(a))
                        =~= v@.subrange(0, i as int).map_values(
                        |a: Attachment| attachment_json(a),
                    ).push(attachment_json(v@[i as int])));
                }
                i = i + 1;
            }
            proof {
                assert(v@.subrange(0, n as int) =~= v@);
            }
            w.finish()
        },
    }
}

/// Renders an optional list of inline images.
fn val_opt_inline_image_list(o: &Option<Vec<InlineImage>>) -> (r: String)
    ensures
        r@ == opt_inline_image_list_json(*o),
{
    match o {
        Option::None => {
            let mut out = String::new();
            append_jnull(&mut out);
            assert(out@ =~= opt_inline_image_list_json(*o));
            out
        },
        Option::Some(v) => {
            let mut w = ArrWriter::new();
            let n = v.len();
            let mut i: usize = 0;
            while i < n
                invariant
                    n == v@.len(),
                    i <= n,
                    w.wf(),
                    w.elems() == v@.subrange(0, i as int).map_values(
                        |im: InlineImage| inline_image_json(im),
                    ),
                decreases n - i,
            {
                let t = encode_inline_image(&v[i]);
                w.elem_raw(t.as_str());
                proof {
                    assert(v@.subrange(0, i + 1) =~= v@.subrange(0, i as int).push(v@[i as int]));
                    assert(v@.subrange(0, i + 1).map_values(
                        |im: InlineImage| inline_image_json(im),
                    ) =~= v@.subrange(0, i as int).map_values(
                        |im: InlineImage| inline_image_json(im),
                    ).push(inline_image_json(v@[i as int])));
                }
                i = i + 1;
            }
            proof {
                assert(v@.subrange(0, n as int) =~= v@);
            }
            w.finish()
        },
    }
}

/// Renders the optional custom header block.
fn val_opt_mime_headers(o: &Option<MimeHeaders>) -> (r: String)
    ensures
        r@ == opt_mime_headers_json(*o),
{
    match o {
        Option::None => {
            let mut out = String::new();
            append_jnull(&mut out);
            assert(out@ =~= opt_mime_headers_json(*o));
            out
        },
        Option::Some(m) => encode_mime_headers(m),
    }
}

/// Builds the JSON body for the send-email operation.
pub fn encode_email_request(r: &EmailRequest) -> (out: String)
    ensures
        out@ == email_request_json(*r),
{
    let mut w = ObjWriter::new();
    let bounce = val_opt_str(&r.bounce_address);
    w.member_raw("bounce_address", bounce.as_str());
    let sender = encode_email_address(&r.sender);
    w.member_raw("sender", sender.as_str());
    let recips = val_recipient_list(&r.recipients);
    w.member_raw("recipients", recips.as_str());
    let reply_to = val_opt_addr_list(&r.reply_to);
    w.member_raw("reply_to", reply_to.as_str());
    w.member_str("subject", r.subject.as_str());
    let htmlbody = val_opt_str(&r.htmlbody);
    w.member_raw("htmlbody", htmlbody.as_str());
    let textbody = val_opt_str(&r.textbody);
    w.member_raw("textbody", textbody.as_str());
    let cc = val_opt_recipient_list(&r.carbon_copy);
    w.member_raw("carbon_copy", cc.as_str());
    let bcc = val_opt_recipient_list(&r.blind_carbon_copy);
    w.member_raw("blind_carbon_copy", bcc.as_str());
    let clicks = val_opt_bool(&r.track_clicks);
    w.member_raw("track_clicks", clicks.as_str());
    let opens = val_opt_bool(&r.track_opens);
    w.member_raw("track_opens", opens.as_str());
    let cref = val_opt_str(&r.client_reference);
    w.member_raw("client_reference", cref.as_str());
    let mh = val_opt_mime_headers(&r.mime_headers);
    w.member_raw("mime_headers", mh.as_str());
    let atts = val_opt_attachment_list(&r.attachments);
    w.member_raw("attachments", atts.as_str());
    let imgs = val_opt_inline_image_list(&r.inline_images);
    w.member_raw("inline_images", imgs.as_str());
    proof {
        assert(w.members() =~= email_request_members(*r));
    }
    w.finish()
}

/// Builds the JSON body for the send-batch-email operation.
pub fn encode_batch_email_request(r: &BatchEmailRequest) -> (out: String)
    ensures
        out@ == batch_email_request_json(*r),
{
    let mut w = ObjWriter::new();
    let sender = encode_email_address(&r.sender);
    w.member_raw("sender", sender.as_str());
    let recips = val_recipient_list(&r.recipients);
    w.member_raw("recipients", recips.as_str());
    w.member_str("subject", r.subject.as_str());
    let htmlbody = val_opt_str(&r.htmlbody);
    w.member_raw("htmlbody", htmlbody.as_str());
    let textbody = val_opt_str(&r.textbody);
    w.member_raw("textbody", textbody.as_str());
    let cc = val_opt_recipient_list(&r.carbon_copy);
    w.member_raw("carbon_copy", cc.as_str());
    let bcc = val_opt_recipient_list(&r.blind_carbon_copy);
    w.member_raw("blind_carbon_copy", bcc.as_str());
    let clicks = val_opt_bool(&r.track_clicks);
    w.member_raw("track_clicks", clicks.as_str());
    let opens = val_opt_bool(&r.track_opens);
    w.member_raw("track_opens", opens.as_str());
    let cref = val_opt_str(&r.client_reference);
    w.member_raw("client_reference", cref.as_str());
    let mh = val_opt_mime_headers(&r.mime_headers);
    w.member_raw("mime_headers", mh.as_str());
    let atts = val_opt_attachment_list(&r.attachments);
    w.member_raw("attachments", atts.as_str());
    let imgs = val_opt_inline_image_list(&r.inline_images);
    w.member_raw("inline_images", imgs.as_str());
    proof {
        assert(w.members() =~= batch_email_request_members(*r));
    }
    w.finish()
}

/// Builds the JSON body for the send-templated-email operation.
pub fn encode_template_email_request(r: &TemplateEmailRequest) -> (out: String)
    ensures
        out@ == template_email_request_json(*r),
{
    let mut w = ObjWriter::new();
    w.member_str("template_key", r.template_key.as_str());
    let bounce = val_opt_str(&r.bounce_address);
    w.member_raw("bounce_address", bounce.as_str());
    let sender = encode_email_address(&r.sender);
    w.member_raw("sender", sender.as_str());
    let recips = val_recipient_list(&r.recipients);
    w.member_raw("recipients", recips.as_str());
    let reply_to = val_opt_addr_list(&r.reply_to);
    w.member_raw("reply_to", reply_to.as_str());
    let clicks = val_opt_bool(&r.track_clicks);
    w.member_raw("track_clicks", clicks.as_str());
    let opens = val_opt_bool(&r.track_opens);
    w.member_raw("track_opens", opens.as_str());
    let cref = val_opt_str(&r.client_reference);
    w.member_raw("client_reference", cref.as_str());
    let mh = val_opt_mime_headers(&r.mime_headers);
    w.member_raw("mime_headers", mh.as_str());
    let atts = val_opt_attachment_list(&r.attachments);
    w.member_raw("attachments", atts.as_str());
    let mi = match &r.merge_info {
        Option::None => {
            let mut v = String::new();
            append_jnull(&mut v);
            assert(v@ =~= opt_jpairs(r.merge_info));
            v
        },
        Option::Some(ps) => {
            let v = val_pairs(ps);
            assert(v@ =~= opt_jpairs(r.merge_info));
            v
        },
    };
    w.member_raw("merge_info", mi.as_str());
    proof {
        assert(w.members() =~= template_email_request_members(*r));
    }
    w.finish()
}

/// Builds the JSON body for the send-batch-templated-email operation.
pub fn encode_batch_template_email_request(r: &BatchTemplateEmailRequest) -> (out: String)
    ensures
        out@ == batch_template_email_request_json(*r),
{
    let mut w = ObjWriter::new();
    w.member_str("template_key", r.template_key.as_str());
    let bounce = val_opt_str(&r.bounce_address);
    w.member_raw("bounce_address", bounce.as_str());
    let sender = encode_email_address(&r.sender);
    w.member_raw("sender", sender.as_str());
    let recips = val_recipient_list(&r.recipients);
    w.member_raw("recipients", recips.as_str());
    let reply_to = val_opt_addr_list(&r.reply_to);
    w.member_raw("reply_to", reply_to.as_str());
    let clicks = val_opt_bool(&r.track_clicks);
    w.member_raw("track_clicks", clicks.as_str());
    let opens = val_opt_bool(&r.track_opens);
    w.member_raw("track_opens", opens.as_str());
    let cref = val_opt_str(&r.client_reference);
    w.member_raw("client_reference", cref.as_str());
    let mh = val_opt_mime_headers(&r.mime_headers);
    w.member_raw("mime_headers", mh.as_str());
    let atts = val_opt_attachment_list(&r.attachments);
    w.member_raw("attachments", atts.as_str());
    proof {
        assert(w.members() =~= batch_template_email_request_members(*r));
    }
    w.finish()
}

} // verus!
