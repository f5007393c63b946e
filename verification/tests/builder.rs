use chocoapi::ids::ResourceId;
use chocoapi::models::InsertableUserBuilder;

#[test]
fn build_reports_every_missing_required_field() {
    let result = InsertableUserBuilder::new().build();
    let errors = result.err().expect("build must fail with no field set");

    assert_eq!(errors.len(), 3);
    assert_eq!(errors.entry_at(0).0, "username");
    assert_eq!(errors.entry_at(1).0, "password");
    assert_eq!(errors.entry_at(2).0, "email");
    assert_eq!(errors.get("username"), Some(&vec!["Missing field".to_string()]));
    assert_eq!(errors.get("password"), Some(&vec!["Missing field".to_string()]));
    assert_eq!(errors.get("email"), Some(&vec!["Missing field".to_string()]));
}

#[test]
fn build_succeeds_when_required_fields_are_present() {
    let user = InsertableUserBuilder::new()
        .with_username("johndoe".to_string())
        .with_password("12345".to_string())
        .with_email_id(ResourceId { bits: 7 })
        .with_full_name("John Doe".to_string())
        .build()
        .ok()
        .expect("build must succeed with all required fields set");

    assert_eq!(user.username(), "johndoe");
    assert_eq!(user.full_name(), Some("John Doe".to_string()));
    assert_eq!(user.passwd_hash(), "12345");
    assert_eq!(user.email_id(), ResourceId { bits: 7 });
    assert_eq!(user.profile_pic_id(), None);
}

#[test]
fn optional_fields_may_stay_unset() {
    let user = InsertableUserBuilder::new()
        .with_username("johndoe".to_string())
        .with_password("12345".to_string())
        .with_email_id(ResourceId { bits: 9 })
        .build()
        .ok()
        .expect("optional fields are not required");

    assert_eq!(user.full_name(), None);
    assert_eq!(user.profile_pic_id(), None);
    assert_eq!(user.username(), "johndoe");
}

#[test]
fn later_setter_calls_overwrite_earlier_ones() {
    let user = InsertableUserBuilder::new()
        .with_username("first".to_string())
        .with_username("second".to_string())
        .with_password("pw".to_string())
        .with_email_id(ResourceId { bits: 1 })
        .with_profile_pic_id(ResourceId { bits: 2 })
        .with_profile_pic_id(ResourceId { bits: 3 })
        .build()
        .ok()
        .expect("build must succeed");

    assert_eq!(user.username(), "second");
    assert_eq!(user.profile_pic_id(), Some(ResourceId { bits: 3 }));
}

#[test]
fn build_reports_only_the_missing_fields() {
    let errors = InsertableUserBuilder::new()
        .with_username("johndoe".to_string())
        .build()
        .err()
        .expect("password and email are still missing");

    assert_eq!(errors.len(), 2);
    assert_eq!(errors.entry_at(0).0, "password");
    assert_eq!(errors.entry_at(1).0, "email");
    assert!(errors.get("username").is_none());
}

#[test]
fn default_builder_builds_nothing() {
    let errors = InsertableUserBuilder::default().build().err().expect("no field is set");
    assert_eq!(errors.len(), 3);
}
