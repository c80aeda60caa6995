//! The text of the one output row.

use vstd::prelude::*;
use vstd::string::*;
use crate::cstr::nul_free;

verus! {

/// How every row begins: the greeting of the bound parameter.
pub open spec fn salutation(name: Seq<char>) -> Seq<char> {
    "Hello "@ + name + "! "@
}

/// The value of the row for a parameter and a version text.
pub open spec fn greeting(name: Seq<char>, version: Seq<char>) -> Seq<char> {
    "Hello "@ + name + "! Interpreter Version: "@ + version
}

/// Builds the value of the row.
pub fn compose(name: &str, version: &str) -> (r: String)
    ensures
        r@ == greeting(name@, version@),
{
    let mut text = String::from_str("Hello ");
    text.append(name);
    text.append("! Interpreter Version: ");
    text.append(version);
    text
}

/// Every row begins with the greeting of its parameter, whatever the version
/// text is.
pub proof fn lemma_greeting_begins_with_salutation(name: Seq<char>, version: Seq<char>)
    ensures
        salutation(name).is_prefix_of(greeting(name, version)),
{
    reveal_strlit("Hello ");
    reveal_strlit("! ");
    reveal_strlit("! Interpreter Version: ");
}

/// Every row ends with its version text.
pub proof fn lemma_greeting_ends_with_version(name: Seq<char>, version: Seq<char>)
    ensures
        version.is_suffix_of(greeting(name, version)),
{
}

/// The fixed parts of a row hold no NUL, so a row can be handed to the host
/// exactly if its parameter and its version text can.
pub proof fn lemma_greeting_nul_free(name: Seq<char>, version: Seq<char>)
    ensures
        nul_free(greeting(name, version)) <==> nul_free(name) && nul_free(version),
{
    reveal_strlit("Hello ");
    reveal_strlit("! Interpreter Version: ");
    let hello = "Hello "@;
    let middle = "! Interpreter Version: "@;
    let text = greeting(name, version);
    assert(!hello.contains('\0'));
    assert(!middle.contains('\0'));
    if text.contains('\0') {
        let i = choose|i: int| 0 <= i < text.len() && text[i] == '\0';
        if i < hello.len() {
            assert(hello[i] == '\0');
        } else if i < hello.len() + name.len() {
            assert(name[i - hello.len()] == '\0');
        } else if i < hello.len() + name.len() + middle.len() {
            assert(middle[i - hello.len() - name.len()] == '\0');
        } else {
            assert(version[i - hello.len() - name.len() - middle.len()] == '\0');
        }
    }
    if name.contains('\0') {
        let i = choose|i: int| 0 <= i < name.len() && name[i] == '\0';
        assert(text[hello.len() + i] == '\0');
    }
    if version.contains('\0') {
        let i = choose|i: int| 0 <= i < version.len() && version[i] == '\0';
        assert(text[hello.len() + name.len() + middle.len() + i] == '\0');
    }
}

} // verus!
