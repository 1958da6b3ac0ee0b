use libgit::error::FError;
use libgit::identity::{InterfaceAdmin, Patch};

const AUTHOR: &str = "Tester";
const AUTHOR_EMAIL: &str = "tester@foo.com";

#[test]
fn patch_with_bad_email_is_refused() {
    match Patch::new("m".into(), AUTHOR.into(), "bad-email".into(), "diff".into()) {
        Err(FError::NotAnEmail(e)) => assert_eq!(e, "bad-email"),
        other => panic!("unexpected {:?}", other),
    }
}

#[test]
fn patch_with_good_email_keeps_its_fields() {
    let p = Patch::new("msg".into(), AUTHOR.into(), AUTHOR_EMAIL.into(), "diff".into()).unwrap();
    assert_eq!(p.message, "msg");
    assert_eq!(p.author_name, AUTHOR);
    assert_eq!(p.author_email, AUTHOR_EMAIL);
    assert_eq!(p.patch, "diff");
}

#[test]
fn admin_email_is_validated() {
    assert!(matches!(
        InterfaceAdmin::new("".into(), AUTHOR.into()),
        Err(FError::NotAnEmail(_))
    ));
    assert!(matches!(
        InterfaceAdmin::new("a@b@".into(), AUTHOR.into()),
        Err(FError::NotAnEmail(_))
    ));
    let a = InterfaceAdmin::new(AUTHOR_EMAIL.into(), AUTHOR.into()).unwrap();
    assert_eq!(a.email, AUTHOR_EMAIL);
    assert_eq!(a.name, AUTHOR);
}
