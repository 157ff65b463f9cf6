use vstd::prelude::*;

verus! {

#[verifier::external_type_specification]
#[verifier::external_body]
pub struct ExJsonValue(serde_json::Value);

/// The lower-case form of a string, as `str::to_lowercase` gives it.
pub uninterp spec fn lower_of(s: Seq<char>) -> Seq<char>;

/// The SHA-256 digest of a string's UTF-8 bytes, in lower-case hex, as
/// `sha256::digest` gives it.
pub uninterp spec fn sha256_hex_of(s: Seq<char>) -> Seq<char>;

/// Relies on `str::to_lowercase`: the result depends on the characters alone.
#[verifier::external_body]
fn lowercase(s: &String) -> (r: String)
    ensures
        r@ == lower_of(s@),
{
    s.as_str().to_lowercase()
}

/// Relies on `sha256::digest` (for `&String`): the hex encoding of the
/// 32-byte digest of the string's bytes, so 64 characters.
#[verifier::external_body]
fn hash_password(p: &String) -> (r: String)
    ensures
        r@ == sha256_hex_of(p@),
        r@.len() == 64,
{
    sha256::digest(p)
}

/// Relies on `serde_json::Value::String`: builds the JSON string `""`.
#[verifier::external_body]
fn empty_json_string() -> (r: serde_json::Value) {
    serde_json::Value::String(String::new())
}

/// A user as stored: the password field holds a hash, never the password.
#[derive(Debug)]
pub struct User {
    pub id: i32,
    pub display_name: String,
    pub email: String,
    pub password: String,
    pub avatar: Vec<u8>,
    pub saved_books: serde_json::Value,
}

/// The fields of a user row to insert; the store picks the id.
#[derive(Debug)]
pub struct NewUser {
    pub display_name: String,
    pub email: String,
    pub password: String,
    pub avatar: Vec<u8>,
    pub saved_books: serde_json::Value,
}

/// Why a user update cannot be prepared.
#[derive(Clone, Copy, Debug, PartialEq, Eq, Structural)]
pub enum UserError {
    /// No user is stored under the id.
    NotFound,
}

/// The row to insert for a new user: the email in lower case and the
/// password replaced by its hash; the other fields as given.
pub fn new_user_record(input: User) -> (r: NewUser)
    ensures
        r.display_name == input.display_name,
        r.email@ == lower_of(input.email@),
        r.password@ == sha256_hex_of(input.password@),
        r.avatar == input.avatar,
        r.saved_books == input.saved_books,
{
    let email = lowercase(&input.email);
    let password = hash_password(&input.password);
    NewUser {
        display_name: input.display_name,
        email,
        password,
        avatar: input.avatar,
        saved_books: input.saved_books,
    }
}

/// The row that replaces user `id`, given the stored row, if any. An empty
/// password keeps the stored hash; any other is hashed anew. The email is
/// stored in lower case.
pub fn updated_user_record(id: i32, stored: Option<User>, input: User) -> (r: Result<
    User,
    UserError,
>)
    ensures
        stored is None <==> r == Err::<User, UserError>(UserError::NotFound),
        stored is Some ==> (r matches Ok(u) && u.id == id && u.display_name == input.display_name
            && u.email@ == lower_of(input.email@) && u.avatar == input.avatar && u.saved_books
            == input.saved_books && (if input.password@.len() == 0 {
            u.password == stored->Some_0.password
        } else {
            u.password@ == sha256_hex_of(input.password@)
        })),
{
    match stored {
        None => Err(UserError::NotFound),
        Some(old_user) => {
            let password = if input.password.as_str().is_empty() {
                old_user.password
            } else {
                hash_password(&input.password)
            };
            let email = lowercase(&input.email);
            Ok(
                User {
                    id,
                    display_name: input.display_name,
                    email,
                    password,
                    avatar: input.avatar,
                    saved_books: input.saved_books,
                },
            )
        },
    }
}

/// A lookup answers with the user found, or else with a placeholder user:
/// id -1 and every field empty.
pub fn user_or_placeholder(found: Option<User>) -> (r: User)
    ensures
        found is Some ==> r == found->Some_0,
        found is None ==> r.id == -1 && r.display_name@.len() == 0 && r.email@.len() == 0
            && r.password@.len() == 0 && r.avatar@.len() == 0,
{
    match found {
        Some(u) => u,
        None => User {
            id: -1,
            display_name: String::new(),
            email: String::new(),
            password: String::new(),
            avatar: Vec::new(),
            saved_books: empty_json_string(),
        },
    }
}

} // verus!
