use vstd::prelude::*;
use vstd::string::StringExecFns;

use crate::error::CliError;
use crate::text::{is_space, lemma_trimmed, trim, trimmed};

verus! {

/// A candidate secret, trimmed; nothing when it is absent or blank.
pub open spec fn usable_secret(candidate: Option<Seq<char>>) -> Option<Seq<char>> {
    match candidate {
        Some(s) => if trimmed(s).len() > 0 {
            Some(trimmed(s))
        } else {
            None
        },
        None => None,
    }
}

/// The secret taken: from the environment when usable there, else from the secrets file.
pub open spec fn chosen_secret(env_value: Option<Seq<char>>, file_value: Option<Seq<char>>) -> Option<
    Seq<char>,
> {
    match usable_secret(env_value) {
        Some(s) => Some(s),
        None => usable_secret(file_value),
    }
}

/// The file a secret named `name` is read from when the environment lacks it.
pub fn secret_path(name: &str) -> (r: String)
    ensures
        r@ == "/run/secrets/"@ + name@,
{
    let mut r = "/run/secrets/".to_owned();
    r.append(name);
    r
}

fn usable(candidate: Option<&str>) -> (r: Option<String>)
    ensures
        r.deep_view() == usable_secret(candidate.deep_view()),
{
    match candidate {
        Some(s) => {
            let t = trim(s);
            if t.as_str().is_empty() {
                None
            } else {
                Some(t)
            }
        },
        None => None,
    }
}

/// The secret named `name`, from the value of the environment variable of that name or
/// else the contents of its secrets file (each `None` when it could not be read).
pub fn read_secret(name: &str, env_value: Option<&str>, file_value: Option<&str>) -> (r: Result<
    String,
    CliError,
>)
    ensures
        r matches Ok(s) ==> chosen_secret(env_value.deep_view(), file_value.deep_view()) == Some(
            s@,
        ),
        r is Err <==> chosen_secret(env_value.deep_view(), file_value.deep_view()) is None,
        r matches Err(e) ==> e matches CliError::MissingSecret { name: n } && n@ == name@,
{
    match usable(env_value) {
        Some(s) => Ok(s),
        None => match usable(file_value) {
            Some(s) => Ok(s),
            None => Err(CliError::MissingSecret { name: name.to_owned() }),
        },
    }
}

/// Law: a secret that is taken is never blank and carries no white space at either end.
pub proof fn lemma_secret_is_trimmed(env_value: Option<Seq<char>>, file_value: Option<Seq<char>>)
    ensures
        chosen_secret(env_value, file_value) matches Some(s) ==> s.len() > 0 && !is_space(s[0])
            && !is_space(s.last()),
{
    if let Some(e) = env_value {
        lemma_trimmed(e);
    }
    if let Some(f) = file_value {
        lemma_trimmed(f);
    }
}

} // verus!
