use chocoapi::erro::AppError;
use chocoapi::ids::ResourceId;
use chocoapi::register::{PartAction, RawPart, Registration};

fn text_part(name: &str, value: &str) -> RawPart {
    RawPart {
        name: Some(name.to_string()),
        content_type: None,
        bytes: value.as_bytes().to_vec(),
    }
}

fn feed_text(reg: &mut Registration, name: &str, value: &str) {
    let action = reg
        .process_part(text_part(name, value))
        .ok()
        .expect("a well-formed text part must be accepted");
    assert!(matches!(action, PartAction::Handled));
}

#[test]
fn valid_form_yields_the_user_to_persist() {
    let mut reg = Registration::new();
    feed_text(&mut reg, "username", "johndoe");
    feed_text(&mut reg, "password", "12345");
    feed_text(&mut reg, "full_name", "John Doe");

    let action = reg
        .process_part(text_part("email", "john@doe.com"))
        .ok()
        .expect("the email part must be accepted");
    match action {
        PartAction::CreateEmail(address) => {
            assert_eq!(address, "john@doe.com");
            reg.apply_email_id(ResourceId { bits: 42 });
        }
        _ => panic!("the email part must request the email collaborator"),
    }

    let user = reg.finish().ok().expect("all required fields were sent");
    assert_eq!(user.username(), "johndoe");
    assert_eq!(user.full_name(), Some("John Doe".to_string()));
    assert_eq!(user.passwd_hash(), "12345");
    assert_eq!(user.email_id(), ResourceId { bits: 42 });
    assert_eq!(user.profile_pic_id(), None);
}

#[test]
fn missing_username_and_email_fail_with_both_fields_reported() {
    let mut reg = Registration::new();
    feed_text(&mut reg, "password", "12345");
    feed_text(&mut reg, "full_name", "John Doe");

    let err = reg.finish().err().expect("username and email are missing");
    assert_eq!(err.status_code(), 422);
    match err {
        AppError::UnprocessableEntity(em) => {
            assert_eq!(em.len(), 2);
            assert_eq!(em.get("username"), Some(&vec!["Missing field".to_string()]));
            assert_eq!(em.get("email"), Some(&vec!["Missing field".to_string()]));
        }
        _ => panic!("a validation failure must be an unprocessable-entity error"),
    }
}

#[test]
fn unrecognized_field_is_recorded_and_the_stream_goes_on() {
    let mut reg = Registration::new();
    feed_text(&mut reg, "nickname", "jd");
    feed_text(&mut reg, "password", "12345");

    let err = reg.finish().err().expect("username and email are missing");
    match err {
        AppError::UnprocessableEntity(em) => {
            assert_eq!(em.len(), 3);
            assert_eq!(em.entry_at(0).0, "nickname");
            assert_eq!(em.get("nickname"), Some(&vec!["Invalid field".to_string()]));
            assert_eq!(em.get("username"), Some(&vec!["Missing field".to_string()]));
            assert_eq!(em.get("email"), Some(&vec!["Missing field".to_string()]));
        }
        _ => panic!("a validation failure must be an unprocessable-entity error"),
    }
}

#[test]
fn unrecognized_field_does_not_block_an_otherwise_valid_form() {
    let mut reg = Registration::new();
    feed_text(&mut reg, "nickname", "jd");
    feed_text(&mut reg, "username", "johndoe");
    feed_text(&mut reg, "password", "12345");
    let action = reg.process_part(text_part("email", "john@doe.com")).unwrap();
    assert!(matches!(action, PartAction::CreateEmail(_)));
    reg.apply_email_id(ResourceId { bits: 5 });

    assert!(reg.finish().is_ok());
}

#[test]
fn undecodable_username_aborts_the_request() {
    let mut reg = Registration::new();
    let err = reg
        .process_part(RawPart {
            name: Some("username".to_string()),
            content_type: None,
            bytes: vec![0xff, 0xfe, 0x80],
        })
        .err()
        .expect("invalid UTF-8 must abort the request");
    match err {
        AppError::Eyre(msg) => assert_eq!(msg, "failed to parse form username"),
        _ => panic!("an undecodable text part is an internal failure"),
    }
}

#[test]
fn profile_pic_without_content_type_aborts_the_request() {
    let mut reg = Registration::new();
    let err = reg
        .process_part(RawPart {
            name: Some("profile_pic".to_string()),
            content_type: None,
            bytes: vec![1, 2, 3],
        })
        .err()
        .expect("a picture without a content type must abort the request");
    match err {
        AppError::Eyre(msg) => assert_eq!(msg, "failed to fetch image content type"),
        _ => panic!("a missing content type is an internal failure"),
    }
}

#[test]
fn profile_pic_requests_the_image_collaborator() {
    let mut reg = Registration::new();
    feed_text(&mut reg, "username", "johndoe");
    feed_text(&mut reg, "password", "12345");

    let action = reg
        .process_part(RawPart {
            name: Some("profile_pic".to_string()),
            content_type: Some("image/png".to_string()),
            bytes: vec![9, 9, 9],
        })
        .unwrap();
    match action {
        PartAction::CreateImage { mime, bytes } => {
            assert_eq!(mime, "image/png");
            assert_eq!(bytes, vec![9, 9, 9]);
            reg.apply_profile_pic_id(ResourceId { bits: 77 });
        }
        _ => panic!("the picture part must request the image collaborator"),
    }

    let action = reg.process_part(text_part("email", "a@b.c")).unwrap();
    assert!(matches!(action, PartAction::CreateEmail(_)));
    reg.apply_email_id(ResourceId { bits: 6 });

    let user = reg.finish().unwrap();
    assert_eq!(user.profile_pic_id(), Some(ResourceId { bits: 77 }));
}

#[test]
fn nameless_part_is_skipped() {
    let mut reg = Registration::new();
    let action = reg
        .process_part(RawPart { name: None, content_type: None, bytes: vec![1, 2] })
        .unwrap();
    assert!(matches!(action, PartAction::Handled));

    let err = reg.finish().err().expect("nothing was set");
    match err {
        AppError::UnprocessableEntity(em) => assert_eq!(em.len(), 3),
        _ => panic!("a validation failure must be an unprocessable-entity error"),
    }
}

#[test]
fn later_part_for_the_same_field_wins() {
    let mut reg = Registration::new();
    feed_text(&mut reg, "username", "first");
    feed_text(&mut reg, "username", "second");
    feed_text(&mut reg, "password", "12345");
    let action = reg.process_part(text_part("email", "a@b.c")).unwrap();
    assert!(matches!(action, PartAction::CreateEmail(_)));
    reg.apply_email_id(ResourceId { bits: 1 });

    let user = reg.finish().unwrap();
    assert_eq!(user.username(), "second");
}

#[test]
fn resubmitting_the_same_form_is_never_deduplicated() {
    // The library decides each request on its own: the same valid form,
    // sent twice, yields a user to persist both times. Distinct rows (or
    // a uniqueness-constraint failure) are the storage layer's concern.
    for _ in 0..2 {
        let mut reg = Registration::new();
        feed_text(&mut reg, "username", "johndoe");
        feed_text(&mut reg, "password", "12345");
        let action = reg.process_part(text_part("email", "john@doe.com")).unwrap();
        assert!(matches!(action, PartAction::CreateEmail(_)));
        reg.apply_email_id(ResourceId { bits: 8 });
        assert!(reg.finish().is_ok());
    }
}
