//! The output path resolver: where the body of a response is written.

use crate::extension::{resolve_extension, type_to_extension};
use vstd::prelude::*;
use vstd::string::StringExecFns;

verus! {

/// The destination of a transfer. A path that the user gave is taken as it
/// is. Without one the file is `output.` and the extension of the declared
/// content type, or `output.txt` when no content type was declared.
pub open spec fn output_path(user_path: Option<Seq<char>>, content_type: Option<Seq<char>>) -> Seq<
    char,
> {
    match user_path {
        Some(path) => path,
        None => match content_type {
            Some(declared) => "output."@ + resolve_extension(declared),
            None => "output.txt"@,
        },
    }
}

/// Decides the destination path from the user's choice and the response's
/// content type. `content_type` is `None` where the response has no such
/// header or its value is not text. The file system is not touched.
pub fn resolve_output_path(user_path: Option<String>, content_type: Option<&str>) -> (path: String)
    ensures
        path@ == output_path(
            match user_path {
                Some(p) => Some(p@),
                None => None,
            },
            match content_type {
                Some(t) => Some(t@),
                None => None,
            },
        ),
{
    match user_path {
        Some(path) => path,
        None => match content_type {
            Some(declared) => {
                let mut path = String::from_str("output.");
                path.append(type_to_extension(declared));
                path
            },
            None => String::from_str("output.txt"),
        },
    }
}

/// A path that the user gave wins over every content type.
pub proof fn lemma_user_path_wins(path: Seq<char>, content_type: Option<Seq<char>>)
    ensures
        output_path(Some(path), content_type) == path,
{
}

/// A content type that the table does not list gives the same destination as
/// no content type at all.
pub proof fn lemma_unlisted_type_is_text(declared: Seq<char>)
    requires
        !crate::extension::extension_table().contains_key(declared),
    ensures
        output_path(None, Some(declared)) == output_path(None, None),
{
    reveal_strlit("output.");
    reveal_strlit("txt");
    reveal_strlit("output.txt");
    assert("output."@ + "txt"@ =~= "output.txt"@);
}

} // verus!
