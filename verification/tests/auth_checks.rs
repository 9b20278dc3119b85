use code_judge::auth::{authenticate, check_from, check_user, Check, Decision};
use code_judge::model::User;

const HASH_OF_PASSWORD: &str = "$2a$04$UuTkLRZZ6QofpDOlMz32MuuxEHA43WOemOYHPz6.SjsVsyO1tDU96";
const HASH_OF_STAPLER: &str = "$2b$04$EGdrhbKUv8Oc9vGiXX0HQOxSg445d458Muh7DAHskb6QbtCvdxcie";

fn user(name: &str, hash: &str) -> User {
    User { name: name.to_string(), password_hash: hash.to_string() }
}

fn users() -> Vec<User> {
    vec![
        user("ann", HASH_OF_PASSWORD),
        user("bob", HASH_OF_STAPLER),
        user("cat", "not a hash"),
        user("bob", HASH_OF_PASSWORD),
    ]
}

fn s(t: &str) -> String {
    t.to_string()
}

#[test]
fn check_from_each_case() {
    assert_eq!(check_from(false, None), Check::Mismatch);
    assert_eq!(check_from(false, Some(true)), Check::Mismatch);
    assert_eq!(check_from(false, Some(false)), Check::Mismatch);
    assert_eq!(check_from(true, Some(true)), Check::Match);
    assert_eq!(check_from(true, Some(false)), Check::Mismatch);
    assert_eq!(check_from(true, None), Check::BadHash);
}

#[test]
fn check_user_reads_the_hash() {
    let ann = user("ann", HASH_OF_PASSWORD);
    assert_eq!(check_user(&ann, &s("ann"), &s("password")), Check::Match);
    assert_eq!(check_user(&ann, &s("ann"), &s("Password")), Check::Mismatch);
    assert_eq!(check_user(&ann, &s("bob"), &s("password")), Check::Mismatch);
    let cat = user("cat", "not a hash");
    assert_eq!(check_user(&cat, &s("cat"), &s("password")), Check::BadHash);
    assert_eq!(check_user(&cat, &s("ann"), &s("password")), Check::Mismatch);
}

#[test]
fn authenticate_accepts_the_right_password() {
    assert_eq!(authenticate(&users(), &s("ann"), &s("password")), Decision::Accepted(0));
    assert_eq!(
        authenticate(&users(), &s("bob"), &s("correctbatteryhorsestapler")),
        Decision::Accepted(1)
    );
    assert_eq!(authenticate(&users(), &s("bob"), &s("password")), Decision::Accepted(3));
}

#[test]
fn authenticate_rejects_the_wrong_password_or_name() {
    assert_eq!(authenticate(&users(), &s("ann"), &s("wrong")), Decision::Rejected);
    assert_eq!(authenticate(&users(), &s("dan"), &s("password")), Decision::Rejected);
    assert_eq!(authenticate(&users(), &s("ann"), &s("")), Decision::Rejected);
    assert_eq!(authenticate(&Vec::new(), &s("ann"), &s("password")), Decision::Rejected);
}

#[test]
fn authenticate_reports_a_malformed_hash() {
    assert_eq!(authenticate(&users(), &s("cat"), &s("password")), Decision::BadHash(2));
}
