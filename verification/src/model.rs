//! The catalog of exercises, the configuration and the request and result
//! values that the judge works on.
use vstd::prelude::*;
use vstd::string::StringExecFns;

verus! {

/// One exercise: fixed scaffolding around the submitted code, a timeout for
/// each run and the ordered test cases.
#[derive(Clone, Debug)]
pub struct Practice {
    pub id: String,
    pub title: String,
    pub description: String,
    pub header: String,
    pub footer: String,
    pub timeout_ms: u64,
    pub testcases: Vec<Case>,
    pub answers: Vec<Answer>,
}

/// The embedded static assets of the front end.
#[derive(Clone, Copy, Debug)]
pub struct Assets;

/// A reference answer, shown to the learner and never run.
#[derive(Clone, Debug)]
pub struct Answer {
    pub code: String,
    pub note: String,
}

/// What the process is configured with at start.
#[derive(Clone, Debug)]
pub struct Environments {
    pub practices: String,
    pub users: String,
    pub userid: String,
    pub user_code_path: String,
    pub port: u16,
}

/// One test case: the text fed to the program and the text it must print.
#[derive(Clone, Debug)]
pub struct Case {
    pub note: String,
    pub input: String,
    pub output: String,
}

/// The body of a response that carries nothing.
#[derive(Clone, Copy, Debug)]
pub struct Empty {}

/// A submission: the exercise it is for and the code to grade.
#[derive(Clone, Debug)]
pub struct JudgeRequest {
    pub code: String,
    pub id: String,
}

/// A known user and the bcrypt hash of the password.
#[derive(Clone, Debug)]
pub struct User {
    pub name: String,
    pub password_hash: String,
}

/// How one test case ended.
#[derive(Clone, Copy, Debug, PartialEq, Eq, Structural)]
pub enum JudgeResult {
    Okay,
    Timeout,
    Invalid,
    SystemError,
    IllegalProcessExit,
}

/// The answers of an exercise that lists none.
pub fn default_answers() -> (r: Vec<Answer>)
    ensures
        r@.len() == 0,
{
    Vec::new()
}

/// Where the catalog is read from unless configured otherwise.
pub fn default_practices_path() -> (r: String)
    ensures
        r@ == "/etc/practices.json"@,
{
    String::from_str("/etc/practices.json")
}

/// Where the users are read from unless configured otherwise.
pub fn default_users_path() -> (r: String)
    ensures
        r@ == "/etc/users.json"@,
{
    String::from_str("/etc/users.json")
}

/// The port served unless configured otherwise.
pub fn default_port() -> (r: u16)
    ensures
        r == 8080,
{
    8080
}

/// The restricted identity that runs submitted code unless configured
/// otherwise.
pub fn default_user_id() -> (r: String)
    ensures
        r@ == "#1000"@,
{
    String::from_str("#1000")
}

/// The directory artifacts are written to unless configured otherwise.
pub fn default_user_code_path() -> (r: String)
    ensures
        r@ == "/tmp"@,
{
    String::from_str("/tmp")
}

} // verus!
