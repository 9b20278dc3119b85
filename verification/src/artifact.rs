//! The artifact of a submission: the program text that is run and the name
//! of the file that holds it.
use vstd::prelude::*;
use vstd::string::StringExecFns;
use crate::model::Practice;

verus! {

/// The number of characters of a token.
pub const TOKEN_LEN: usize = 26;

/// What is written for one submission: the file's name inside the artifact
/// directory and the text of the file.
#[derive(Clone, Debug)]
pub struct Artifact {
    pub file_name: String,
    pub contents: String,
}

/// A character that a token is made of: a digit or an upper-case letter.
pub open spec fn is_token_char(c: char) -> bool {
    ('0' <= c && c <= '9') || ('A' <= c && c <= 'Z')
}

/// A token: `TOKEN_LEN` characters, digits and upper-case letters only.
pub open spec fn is_token(t: Seq<char>) -> bool {
    &&& t.len() == TOKEN_LEN
    &&& forall|i: int| 0 <= i < t.len() ==> is_token_char(#[trigger] t[i])
}

/// The artifact's file name: the exercise id, an underscore, the token and
/// the extension of a Python source file.
pub open spec fn file_name_of(id: Seq<char>, token: Seq<char>) -> Seq<char> {
    id + seq!['_'] + token + seq!['.', 'p', 'y']
}

/// The artifact's text: header, submitted code and footer, each closed by a
/// line feed. The code stands between them exactly as it was submitted.
pub open spec fn contents_of(header: Seq<char>, code: Seq<char>, footer: Seq<char>) -> Seq<char> {
    header + seq!['\n'] + code + seq!['\n'] + footer + seq!['\n']
}

/// Calls `ulid::Ulid::generate` and the `to_string` method of the value it gives.
/// The identifier depends on the clock and on a random source, so nothing is
/// claimed about which one it is: only that its text is 26 characters of the
/// Crockford alphabet, all of them digits or upper-case letters.
#[verifier::external_body]
fn fresh_token() -> (r: String)
    ensures
        is_token(r@),
{
    ulid::Ulid::generate().to_string()
}

/// The file name of the artifact of exercise `id` under `token`.
pub fn artifact_file_name(id: &str, token: &str) -> (r: String)
    ensures
        r@ == file_name_of(id@, token@),
{
    proof {
        reveal_strlit("_");
        reveal_strlit(".py");
    }
    let mut name = String::from_str(id);
    name.append("_");
    name.append(token);
    name.append(".py");
    assert(name@ =~= file_name_of(id@, token@));
    name
}

/// The text of the artifact of `code` inside the scaffolding of an exercise.
pub fn artifact_contents(header: &str, code: &str, footer: &str) -> (r: String)
    ensures
        r@ == contents_of(header@, code@, footer@),
{
    proof {
        reveal_strlit("\n");
    }
    let mut text = String::from_str(header);
    text.append("\n");
    text.append(code);
    text.append("\n");
    text.append(footer);
    text.append("\n");
    assert(text@ =~= contents_of(header@, code@, footer@));
    text
}

/// The artifact of `code` for `practice` under a token that the caller got.
pub fn artifact_with_token(practice: &Practice, code: &str, token: &str) -> (r: Artifact)
    ensures
        r.file_name@ == file_name_of(practice.id@, token@),
        r.contents@ == contents_of(practice.header@, code@, practice.footer@),
{
    Artifact {
        file_name: artifact_file_name(practice.id.as_str(), token),
        contents: artifact_contents(practice.header.as_str(), code, practice.footer.as_str()),
    }
}

/// The artifact of `code` for `practice` under a fresh token. Which token it
/// is cannot be said; the name is built from one, and the text is fixed by
/// the arguments.
pub fn materialize(practice: &Practice, code: &str) -> (r: Artifact)
    ensures
        exists|token: Seq<char>|
            is_token(token) && r.file_name@ == #[trigger] file_name_of(practice.id@, token),
        r.contents@ == contents_of(practice.header@, code@, practice.footer@),
{
    let token = fresh_token();
    artifact_with_token(practice, code, token.as_str())
}

/// Two artifacts share a file name only if they are of the same exercise
/// under the same token: submissions under different tokens never write to
/// the same file, whatever their exercises.
pub proof fn lemma_file_names_differ(id_a: Seq<char>, token_a: Seq<char>, id_b: Seq<char>, token_b: Seq<char>)
    requires
        is_token(token_a),
        is_token(token_b),
        file_name_of(id_a, token_a) == file_name_of(id_b, token_b),
    ensures
        id_a == id_b,
        token_a == token_b,
{
    let a = file_name_of(id_a, token_a);
    let b = file_name_of(id_b, token_b);
    assert(a.len() == id_a.len() + 30);
    assert(b.len() == id_b.len() + 30);
    assert(id_a.len() == id_b.len());
    assert forall|i: int| 0 <= i < id_a.len() implies id_a[i] == id_b[i] by {
        assert(a[i] == id_a[i]);
        assert(b[i] == id_b[i]);
    }
    assert(id_a =~= id_b);
    assert forall|i: int| 0 <= i < token_a.len() implies token_a[i] == token_b[i] by {
        assert(a[id_a.len() + 1 + i] == token_a[i]);
        assert(b[id_b.len() + 1 + i] == token_b[i]);
    }
    assert(token_a =~= token_b);
}

/// The text of an artifact holds the submitted code unchanged, right behind
/// the header and its line feed.
pub proof fn lemma_code_is_embedded(header: Seq<char>, code: Seq<char>, footer: Seq<char>)
    ensures
        contents_of(header, code, footer).len() == header.len() + code.len() + footer.len() + 3,
        contents_of(header, code, footer).subrange(
            header.len() as int + 1,
            header.len() as int + 1 + code.len() as int,
        ) == code,
        contents_of(header, code, footer).subrange(0, header.len() as int) == header,
{
    let text = contents_of(header, code, footer);
    assert(text.subrange(header.len() as int + 1, header.len() as int + 1 + code.len() as int) =~= code);
    assert(text.subrange(0, header.len() as int) =~= header);
}

} // verus!
