//! What is fixed about languages: the file extension of each, and the canned answers
//! that stand in for a language server.
use vstd::prelude::*;

verus! {

/// The file extension that belongs to a language tag; `txt` for a tag that is not known.
pub open spec fn extension_of(language: Seq<char>) -> Seq<char> {
    if language == "python"@ {
        "py"@
    } else if language == "javascript"@ {
        "js"@
    } else if language == "rust"@ {
        "rs"@
    } else if language == "go"@ {
        "go"@
    } else if language == "java"@ {
        "java"@
    } else if language == "cpp"@ {
        "cpp"@
    } else if language == "c"@ {
        "c"@
    } else {
        "txt"@
    }
}

/// Returns the file extension for `language`.
pub fn get_file_extension(language: &str) -> (ext: &'static str)
    ensures
        ext@ == extension_of(language@),
{
    let tag = language.to_owned();
    if tag == "python".to_owned() {
        "py"
    } else if tag == "javascript".to_owned() {
        "js"
    } else if tag == "rust".to_owned() {
        "rs"
    } else if tag == "go".to_owned() {
        "go"
    } else if tag == "java".to_owned() {
        "java"
    } else if tag == "cpp".to_owned() {
        "cpp"
    } else if tag == "c".to_owned() {
        "c"
    } else {
        "txt"
    }
}

/// The canned answer to a request of the language-server protocol: capabilities for
/// `initialize`, an empty list for a completion or a hover, and an empty object for
/// any other method.
pub open spec fn canned_response(method: Seq<char>) -> Seq<char> {
    if method == "initialize"@ {
        "{\"capabilities\": {\"completionProvider\": true, \"hoverProvider\": true}}"@
    } else if method == "textDocument/completion"@ {
        "{\"items\": []}"@
    } else if method == "textDocument/hover"@ {
        "{\"contents\": []}"@
    } else {
        "{}"@
    }
}

/// Returns the canned answer to the request `method`.
pub fn lsp_response(method: &str) -> (response: &'static str)
    ensures
        response@ == canned_response(method@),
{
    let name = method.to_owned();
    if name == "initialize".to_owned() {
        "{\"capabilities\": {\"completionProvider\": true, \"hoverProvider\": true}}"
    } else if name == "textDocument/completion".to_owned() {
        "{\"items\": []}"
    } else if name == "textDocument/hover".to_owned() {
        "{\"contents\": []}"
    } else {
        "{}"
    }
}

} // verus!
