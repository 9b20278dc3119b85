use code_judge::artifact::{artifact_contents, artifact_file_name, artifact_with_token, materialize, TOKEN_LEN};
use code_judge::model::{
    default_answers, default_port, default_practices_path, default_user_code_path,
    default_user_id, default_users_path, Case, Practice,
};

fn sum_two() -> Practice {
    Practice {
        id: "sum-two".to_string(),
        title: "Sum of two".to_string(),
        description: "Add two numbers".to_string(),
        header: "def solve(a,b): return a+b".to_string(),
        footer: "".to_string(),
        timeout_ms: 500,
        testcases: vec![Case {
            note: "small".to_string(),
            input: "3 4".to_string(),
            output: "7".to_string(),
        }],
        answers: default_answers(),
    }
}

#[test]
fn defaults_have_their_values() {
    assert!(default_answers().is_empty());
    assert_eq!(default_practices_path(), "/etc/practices.json");
    assert_eq!(default_users_path(), "/etc/users.json");
    assert_eq!(default_port(), 8080);
    assert_eq!(default_user_id(), "#1000");
    assert_eq!(default_user_code_path(), "/tmp");
}

#[test]
fn file_name_joins_id_token_and_extension() {
    assert_eq!(
        artifact_file_name("sum-two", "01D39ZY06FGSCTVN4T2V9PKHFZ"),
        "sum-two_01D39ZY06FGSCTVN4T2V9PKHFZ.py"
    );
    assert_eq!(artifact_file_name("", ""), "_.py");
}

#[test]
fn contents_wrap_the_code_verbatim() {
    assert_eq!(
        artifact_contents("import sys", "print(1)", "sys.exit(0)"),
        "import sys\nprint(1)\nsys.exit(0)\n"
    );
    assert_eq!(artifact_contents("", "", ""), "\n\n\n");
    assert_eq!(artifact_contents("h", "a\n\tb  ", "f"), "h\na\n\tb  \nf\n");
}

#[test]
fn artifact_with_given_token() {
    let p = sum_two();
    let a = artifact_with_token(&p, "print(solve(*map(int,input().split())))", "TOKEN");
    assert_eq!(a.file_name, "sum-two_TOKEN.py");
    assert_eq!(
        a.contents,
        "def solve(a,b): return a+b\nprint(solve(*map(int,input().split())))\n\n"
    );
}

#[test]
fn materialize_uses_a_fresh_token() {
    let p = sum_two();
    let a = materialize(&p, "print(1)");
    let b = materialize(&p, "print(1)");
    assert_eq!(TOKEN_LEN, 26);
    assert!(a.file_name.starts_with("sum-two_"));
    assert!(a.file_name.ends_with(".py"));
    assert_eq!(a.file_name.len(), "sum-two".len() + 1 + 26 + 3);
    let token = &a.file_name["sum-two_".len()..a.file_name.len() - 3];
    assert_eq!(token.chars().count(), 26);
    assert!(token.chars().all(|c| c.is_ascii_digit() || c.is_ascii_uppercase()));
    assert_ne!(a.file_name, b.file_name);
    assert_eq!(a.contents, "def solve(a,b): return a+b\nprint(1)\n\n");
    assert_eq!(a.contents, b.contents);
}
