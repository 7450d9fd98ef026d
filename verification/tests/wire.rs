use zeptomail::encode_batch_email_request;
use zeptomail::encode_batch_template_email_request;
use zeptomail::encode_email_request;
use zeptomail::encode_template_email_request;
use zeptomail::Attachment;
use zeptomail::BatchEmailRequest;
use zeptomail::BatchTemplateEmailRequest;
use zeptomail::EmailAddress;
use zeptomail::EmailRequest;
use zeptomail::InlineImage;
use zeptomail::MimeHeaders;
use zeptomail::Recipient;
use zeptomail::TemplateEmailRequest;

fn simple_request() -> EmailRequest {
    EmailRequest {
        bounce_address: None,
        sender: EmailAddress { address: "a@x.com".to_string(), name: None },
        recipients: vec![Recipient {
            email_address: EmailAddress { address: "b@x.com".to_string(), name: None },
            merge_info: None,
        }],
        reply_to: None,
        subject: "Hi".to_string(),
        htmlbody: Some("<b>hi</b>".to_string()),
        textbody: None,
        carbon_copy: None,
        blind_carbon_copy: None,
        track_clicks: None,
        track_opens: None,
        client_reference: None,
        mime_headers: None,
        attachments: None,
        inline_images: None,
    }
}

#[test]
fn email_request_exact_text() {
    let body = encode_email_request(&simple_request());
    assert_eq!(
        body,
        "{\"bounce_address\":null,\"sender\":{\"address\":\"a@x.com\",\"name\":null},\"recipients\":[{\"email_address\":{\"address\":\"b@x.com\",\"name\":null},\"merge_info\":null}],\"reply_to\":null,\"subject\":\"Hi\",\"htmlbody\":\"<b>hi</b>\",\"textbody\":null,\"carbon_copy\":null,\"blind_carbon_copy\":null,\"track_clicks\":null,\"track_opens\":null,\"client_reference\":null,\"mime_headers\":null,\"attachments\":null,\"inline_images\":null}"
    );
}

#[test]
fn email_request_none_is_null_not_empty_string() {
    let body = encode_email_request(&simple_request());
    let v: serde_json::Value = serde_json::from_str(&body).unwrap();
    assert!(v.get("textbody").unwrap().is_null());
    assert!(v.get("bounce_address").unwrap().is_null());
    assert_ne!(v.get("textbody").unwrap(), &serde_json::Value::String(String::new()));
    assert_eq!(v.get("subject").unwrap().as_str(), Some("Hi"));
    assert_eq!(v.get("htmlbody").unwrap().as_str(), Some("<b>hi</b>"));
}

#[test]
fn email_request_round_trips_through_a_json_reader() {
    let mut r = simple_request();
    r.bounce_address = Some("bounce@x.com".to_string());
    r.track_clicks = Some(true);
    r.track_opens = Some(false);
    r.sender.name = Some("Paula".to_string());
    let body = encode_email_request(&r);
    let v: serde_json::Value = serde_json::from_str(&body).unwrap();
    assert_eq!(v.get("bounce_address").unwrap().as_str(), Some("bounce@x.com"));
    assert_eq!(v.get("track_clicks").unwrap().as_bool(), Some(true));
    assert_eq!(v.get("track_opens").unwrap().as_bool(), Some(false));
    let sender = v.get("sender").unwrap();
    assert_eq!(sender.get("address").unwrap().as_str(), Some("a@x.com"));
    assert_eq!(sender.get("name").unwrap().as_str(), Some("Paula"));
    let recipients = v.get("recipients").unwrap().as_array().unwrap();
    assert_eq!(recipients.len(), 1);
    assert_eq!(
        recipients[0]
            .get("email_address")
            .unwrap()
            .get("address")
            .unwrap()
            .as_str(),
        Some("b@x.com")
    );
}

#[test]
fn string_escaping_matches_json() {
    let mut r = simple_request();
    r.subject = "a\"b\\c\nd\te\r\u{8}\u{c}\u{1}f".to_string();
    let body = encode_email_request(&r);
    let v: serde_json::Value = serde_json::from_str(&body).unwrap();
    assert_eq!(
        v.get("subject").unwrap().as_str(),
        Some("a\"b\\c\nd\te\r\u{8}\u{c}\u{1}f")
    );
    assert!(body.contains("\\u0001"));
    assert!(body.contains("\\n"));
    assert!(body.contains("\\\""));
}

#[test]
fn non_ascii_content_is_kept() {
    let mut r = simple_request();
    r.subject = "héllo wörld ✓".to_string();
    let body = encode_email_request(&r);
    let v: serde_json::Value = serde_json::from_str(&body).unwrap();
    assert_eq!(v.get("subject").unwrap().as_str(), Some("héllo wörld ✓"));
}

#[test]
fn attachments_and_images_are_rendered() {
    let mut r = simple_request();
    r.attachments = Some(vec![
        Attachment {
            name: "a.txt".to_string(),
            content: Some("aGk=".to_string()),
            mime_type: Some("text/plain".to_string()),
            file_cache_key: None,
        },
        Attachment {
            name: "b.png".to_string(),
            content: None,
            mime_type: None,
            file_cache_key: Some("cache-key-1".to_string()),
        },
    ]);
    r.inline_images = Some(vec![InlineImage {
        mime_type: "image/png".to_string(),
        content: "Zm9v".to_string(),
        content_id: "img1".to_string(),
    }]);
    let body = encode_email_request(&r);
    let v: serde_json::Value = serde_json::from_str(&body).unwrap();
    let atts = v.get("attachments").unwrap().as_array().unwrap();
    assert_eq!(atts.len(), 2);
    assert_eq!(atts[0].get("name").unwrap().as_str(), Some("a.txt"));
    assert_eq!(atts[0].get("content").unwrap().as_str(), Some("aGk="));
    assert!(atts[0].get("file_cache_key").unwrap().is_null());
    assert_eq!(atts[1].get("file_cache_key").unwrap().as_str(), Some("cache-key-1"));
    assert!(atts[1].get("content").unwrap().is_null());
    let imgs = v.get("inline_images").unwrap().as_array().unwrap();
    assert_eq!(imgs[0].get("content_id").unwrap().as_str(), Some("img1"));
}

#[test]
fn mime_headers_and_merge_info_keep_order() {
    let mut r = simple_request();
    r.mime_headers = Some(MimeHeaders {
        headers: vec![
            ("X-First".to_string(), "1".to_string()),
            ("X-Second".to_string(), "2".to_string()),
        ],
    });
    r.recipients[0].merge_info = Some(vec![
        ("name".to_string(), "Rudra".to_string()),
        ("city".to_string(), "Pune".to_string()),
    ]);
    let body = encode_email_request(&r);
    let v: serde_json::Value = serde_json::from_str(&body).unwrap();
    let headers = v.get("mime_headers").unwrap().get("headers").unwrap();
    assert_eq!(headers.get("X-First").unwrap().as_str(), Some("1"));
    assert_eq!(headers.get("X-Second").unwrap().as_str(), Some("2"));
    let first = body.find("X-First").unwrap();
    let second = body.find("X-Second").unwrap();
    assert!(first < second);
    let mi = v.get("recipients").unwrap().as_array().unwrap()[0]
        .get("merge_info")
        .unwrap();
    assert_eq!(mi.get("name").unwrap().as_str(), Some("Rudra"));
    assert_eq!(mi.get("city").unwrap().as_str(), Some("Pune"));
}

#[test]
fn batch_email_request_has_no_bounce_address_member() {
    let r = BatchEmailRequest {
        sender: EmailAddress { address: "a@x.com".to_string(), name: None },
        recipients: vec![],
        subject: "s".to_string(),
        htmlbody: None,
        textbody: None,
        carbon_copy: None,
        blind_carbon_copy: None,
        track_clicks: None,
        track_opens: None,
        client_reference: None,
        mime_headers: None,
        attachments: None,
        inline_images: None,
    };
    let body = encode_batch_email_request(&r);
    let v: serde_json::Value = serde_json::from_str(&body).unwrap();
    assert!(v.get("bounce_address").is_none());
    assert_eq!(v.get("recipients").unwrap().as_array().unwrap().len(), 0);
}

#[test]
fn template_email_request_carries_template_key_and_merge_info() {
    let r = TemplateEmailRequest {
        template_key: "tk-1".to_string(),
        bounce_address: None,
        sender: EmailAddress { address: "a@x.com".to_string(), name: None },
        recipients: vec![Recipient {
            email_address: EmailAddress { address: "b@x.com".to_string(), name: None },
            merge_info: None,
        }],
        reply_to: Some(vec![EmailAddress {
            address: "reply@x.com".to_string(),
            name: None,
        }]),
        track_clicks: None,
        track_opens: None,
        client_reference: None,
        mime_headers: None,
        attachments: None,
        merge_info: Some(vec![("k".to_string(), "v".to_string())]),
    };
    let body = encode_template_email_request(&r);
    let v: serde_json::Value = serde_json::from_str(&body).unwrap();
    assert_eq!(v.get("template_key").unwrap().as_str(), Some("tk-1"));
    assert_eq!(v.get("merge_info").unwrap().get("k").unwrap().as_str(), Some("v"));
    let reply = v.get("reply_to").unwrap().as_array().unwrap();
    assert_eq!(reply[0].get("address").unwrap().as_str(), Some("reply@x.com"));
    assert!(v.get("subject").is_none());
}

#[test]
fn batch_template_email_request_has_no_merge_info_member() {
    let r = BatchTemplateEmailRequest {
        template_key: "tk-2".to_string(),
        bounce_address: Some("bounce@x.com".to_string()),
        sender: EmailAddress { address: "a@x.com".to_string(), name: None },
        recipients: vec![],
        reply_to: None,
        track_clicks: Some(true),
        track_opens: None,
        client_reference: Some("ref".to_string()),
        mime_headers: None,
        attachments: None,
    };
    let body = encode_batch_template_email_request(&r);
    let v: serde_json::Value = serde_json::from_str(&body).unwrap();
    assert_eq!(v.get("template_key").unwrap().as_str(), Some("tk-2"));
    assert!(v.get("merge_info").is_none());
    assert_eq!(v.get("client_reference").unwrap().as_str(), Some("ref"));
}
