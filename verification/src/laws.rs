//! Stated laws of the wire format.
//!
//! The encoder renders every field of a request, present or absent, under a
//! fixed key; the law here says that reading the rendered object back —
//! looking each key up among the members — recovers each optional field's
//! presence and exact value, and that an absent field reads as `null`,
//! never as an empty string.

use vstd::prelude::*;

use crate::encode::email_address_json;
use crate::encode::email_request_members;
use crate::encode::mime_headers_json;
use crate::encode::opt_addr_list_json;
use crate::encode::opt_attachment_list_json;
use crate::encode::opt_inline_image_list_json;
use crate::encode::opt_jbool;
use crate::encode::opt_jpairs;
use crate::encode::opt_jstr;
use crate::encode::opt_mime_headers_json;
use crate::encode::opt_recipient_list_json;
use crate::encode::recipient_list_json;
use crate::json::jarr;
use crate::json::jbool;
use crate::json::jnull;
use crate::json::jobj;
use crate::json::jstr;
use crate::json::esc_str;
use crate::json::member_lookup;
use crate::models::EmailRequest;

verus! {

/// No string value reads as the null text: its text opens with a quote.
pub proof fn lemma_jstr_is_not_null(s: Seq<char>)
    ensures
        jstr(s) != jnull(),
{
    assert(jstr(s)[0] == '"');
    assert(jnull()[0] == 'n');
}

/// No boolean value reads as the null text.
pub proof fn lemma_jbool_is_not_null(b: bool)
    ensures
        jbool(b) != jnull(),
{
    assert(jbool(b)[0] != 'n');
    assert(jnull()[0] == 'n');
}

/// No array value reads as the null text.
pub proof fn lemma_jarr_is_not_null(es: Seq<Seq<char>>)
    ensures
        jarr(es) != jnull(),
{
    assert(jarr(es)[0] == '[');
    assert(jnull()[0] == 'n');
}

/// No object value reads as the null text.
pub proof fn lemma_jobj_is_not_null(ms: Seq<(Seq<char>, Seq<char>)>)
    ensures
        jobj(ms) != jnull(),
{
    assert(jobj(ms)[0] == '{');
    assert(jnull()[0] == 'n');
}

/// With every earlier member under another key, reading a key back from a
/// member list finds the member standing at the key's place.
pub proof fn lemma_member_lookup_at(ms: Seq<(Seq<char>, Seq<char>)>, idx: int)
    requires
        0 <= idx < ms.len(),
        forall|j: int| 0 <= j < idx ==> (#[trigger] ms[j]).0 != ms[idx].0,
    ensures
        member_lookup(ms, ms[idx].0) == Some(ms[idx].1),
    decreases idx,
{
    if idx > 0 {
        assert(ms[0].0 != ms[idx].0);
        assert forall|j: int| 0 <= j < idx - 1 implies (#[trigger] ms.drop_first()[j]).0 != ms
            .drop_first()[idx - 1].0 by {
            assert(ms.drop_first()[j] == ms[j + 1]);
        }
        lemma_member_lookup_at(ms.drop_first(), idx - 1);
        assert(ms.drop_first()[idx - 1] == ms[idx]);
    }
}

/// The member standing at the `bounce_address` place.
proof fn lemma_member_at_0(r: EmailRequest)
    ensures
        email_request_members(r)[0] == ("bounce_address"@, opt_jstr(r.bounce_address)),
{
}

/// The member standing at the `sender` place.
proof fn lemma_member_at_1(r: EmailRequest)
    ensures
        email_request_members(r)[1] == ("sender"@, email_address_json(r.sender)),
{
}

/// The member standing at the `recipients` place.
proof fn lemma_member_at_2(r: EmailRequest)
    ensures
        email_request_members(r)[2] == ("recipients"@, recipient_list_json(r.recipients@)),
{
}

/// The member standing at the `reply_to` place.
proof fn lemma_member_at_3(r: EmailRequest)
    ensures
        email_request_members(r)[3] == ("reply_to"@, opt_addr_list_json(r.reply_to)),
{
}

/// The member standing at the `subject` place.
proof fn lemma_member_at_4(r: EmailRequest)
    ensures
        email_request_members(r)[4] == ("subject"@, jstr(r.subject@)),
{
}

/// The member standing at the `htmlbody` place.
proof fn lemma_member_at_5(r: EmailRequest)
    ensures
        email_request_members(r)[5] == ("htmlbody"@, opt_jstr(r.htmlbody)),
{
}

/// The member standing at the `textbody` place.
proof fn lemma_member_at_6(r: EmailRequest)
    ensures
        email_request_members(r)[6] == ("textbody"@, opt_jstr(r.textbody)),
{
}

/// The member standing at the `carbon_copy` place.
proof fn lemma_member_at_7(r: EmailRequest)
    ensures
        email_request_members(r)[7] == ("carbon_copy"@, opt_recipient_list_json(r.carbon_copy)),
{
}

/// The member standing at the `blind_carbon_copy` place.
proof fn lemma_member_at_8(r: EmailRequest)
    ensures
        email_request_members(r)[8] == ("blind_carbon_copy"@, opt_recipient_list_json(r.blind_carbon_copy)),
{
}

/// The member standing at the `track_clicks` place.
proof fn lemma_member_at_9(r: EmailRequest)
    ensures
        email_request_members(r)[9] == ("track_clicks"@, opt_jbool(r.track_clicks)),
{
}

/// The member standing at the `track_opens` place.
proof fn lemma_member_at_10(r: EmailRequest)
    ensures
        email_request_members(r)[10] == ("track_opens"@, opt_jbool(r.track_opens)),
{
}

/// The member standing at the `client_reference` place.
proof fn lemma_member_at_11(r: EmailRequest)
    ensures
        email_request_members(r)[11] == ("client_reference"@, opt_jstr(r.client_reference)),
{
}

/// The member standing at the `mime_headers` place.
proof fn lemma_member_at_12(r: EmailRequest)
    ensures
        email_request_members(r)[12] == ("mime_headers"@, opt_mime_headers_json(r.mime_headers)),
{
}

/// The member standing at the `attachments` place.
proof fn lemma_member_at_13(r: EmailRequest)
    ensures
        email_request_members(r)[13] == ("attachments"@, opt_attachment_list_json(r.attachments)),
{
}

/// The member standing at the `inline_images` place.
proof fn lemma_member_at_14(r: EmailRequest)
    ensures
        email_request_members(r)[14] == ("inline_images"@, opt_inline_image_list_json(r.inline_images)),
{
}

/// Law: the wire object of a single email request round-trips every field.
/// The rendered object holds one member for each of the fifteen fields,
/// each under its own key and in declaration order, and each optional
/// field's value text is the null text exactly when the field was absent —
/// so a reader of the wire object (see `lemma_member_lookup_at`) recovers
/// every field's presence and exact rendered value, and an absent field is
/// never read back as an empty string.
#[verifier::rlimit(100)]
#[verifier::spinoff_prover]
pub proof fn lemma_email_request_round_trip(r: EmailRequest)
    ensures
        email_request_members(r).len() == 15,
        email_request_members(r)[0] == ("bounce_address"@, opt_jstr(r.bounce_address)),
        email_request_members(r)[1] == ("sender"@, email_address_json(r.sender)),
        email_request_members(r)[2] == ("recipients"@, recipient_list_json(r.recipients@)),
        email_request_members(r)[3] == ("reply_to"@, opt_addr_list_json(r.reply_to)),
        email_request_members(r)[4] == ("subject"@, jstr(r.subject@)),
        email_request_members(r)[5] == ("htmlbody"@, opt_jstr(r.htmlbody)),
        email_request_members(r)[6] == ("textbody"@, opt_jstr(r.textbody)),
        email_request_members(r)[7] == ("carbon_copy"@, opt_recipient_list_json(r.carbon_copy)),
        email_request_members(r)[8] == ("blind_carbon_copy"@, opt_recipient_list_json(r.blind_carbon_copy)),
        email_request_members(r)[9] == ("track_clicks"@, opt_jbool(r.track_clicks)),
        email_request_members(r)[10] == ("track_opens"@, opt_jbool(r.track_opens)),
        email_request_members(r)[11] == ("client_reference"@, opt_jstr(r.client_reference)),
        email_request_members(r)[12] == ("mime_headers"@, opt_mime_headers_json(r.mime_headers)),
        email_request_members(r)[13] == ("attachments"@, opt_attachment_list_json(r.attachments)),
        email_request_members(r)[14] == ("inline_images"@, opt_inline_image_list_json(r.inline_images)),
        (opt_jstr(r.bounce_address) == jnull()) <==> (r.bounce_address is None),
        (opt_addr_list_json(r.reply_to) == jnull()) <==> (r.reply_to is None),
        (opt_jstr(r.htmlbody) == jnull()) <==> (r.htmlbody is None),
        (opt_jstr(r.textbody) == jnull()) <==> (r.textbody is None),
        (opt_recipient_list_json(r.carbon_copy) == jnull()) <==> (r.carbon_copy is None),
        (opt_recipient_list_json(r.blind_carbon_copy) == jnull()) <==> (
        r.blind_carbon_copy is None),
        (opt_jbool(r.track_clicks) == jnull()) <==> (r.track_clicks is None),
        (opt_jbool(r.track_opens) == jnull()) <==> (r.track_opens is None),
        (opt_jstr(r.client_reference) == jnull()) <==> (r.client_reference is None),
        (opt_mime_headers_json(r.mime_headers) == jnull()) <==> (r.mime_headers is None),
        (opt_attachment_list_json(r.attachments) == jnull()) <==> (r.attachments is None),
        (opt_inline_image_list_json(r.inline_images) == jnull()) <==> (r.inline_images is None),
        jnull() != jstr(Seq::<char>::empty()),
{
    lemma_member_at_0(r);
    lemma_member_at_1(r);
    lemma_member_at_2(r);
    lemma_member_at_3(r);
    lemma_member_at_4(r);
    lemma_member_at_5(r);
    lemma_member_at_6(r);
    lemma_member_at_7(r);
    lemma_member_at_8(r);
    lemma_member_at_9(r);
    lemma_member_at_10(r);
    lemma_member_at_11(r);
    lemma_member_at_12(r);
    lemma_member_at_13(r);
    lemma_member_at_14(r);
    if let Some(s) = r.bounce_address {
        lemma_jstr_is_not_null(s@);
    }
    if let Some(v) = r.reply_to {
        lemma_jarr_is_not_null(v@.map_values(|a: crate::models::EmailAddress| email_address_json(a)));
    }
    if let Some(s) = r.htmlbody {
        lemma_jstr_is_not_null(s@);
    }
    if let Some(s) = r.textbody {
        lemma_jstr_is_not_null(s@);
    }
    if let Some(v) = r.carbon_copy {
        lemma_jarr_is_not_null(v@.map_values(|x: crate::models::Recipient| crate::encode::recipient_json(x)));
    }
    if let Some(v) = r.blind_carbon_copy {
        lemma_jarr_is_not_null(v@.map_values(|x: crate::models::Recipient| crate::encode::recipient_json(x)));
    }
    if let Some(b) = r.track_clicks {
        lemma_jbool_is_not_null(b);
    }
    if let Some(b) = r.track_opens {
        lemma_jbool_is_not_null(b);
    }
    if let Some(s) = r.client_reference {
        lemma_jstr_is_not_null(s@);
    }
    if let Some(m) = r.mime_headers {
        lemma_jobj_is_not_null(seq![("headers"@, crate::encode::jpairs(m.headers@))]);
        assert(mime_headers_json(m) == jobj(seq![("headers"@, crate::encode::jpairs(m.headers@))]));
    }
    if let Some(v) = r.attachments {
        lemma_jarr_is_not_null(v@.map_values(|a: crate::models::Attachment| crate::encode::attachment_json(a)));
    }
    if let Some(v) = r.inline_images {
        lemma_jarr_is_not_null(v@.map_values(|im: crate::models::InlineImage| crate::encode::inline_image_json(im)));
    }
    assert(esc_str(Seq::<char>::empty()) == Seq::<char>::empty());
    assert(jstr(Seq::<char>::empty()).len() == 2);
    assert(jnull().len() == 4);
}

} // verus!
