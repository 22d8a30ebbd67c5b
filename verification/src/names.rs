//! Class names as the runtime reports them and as the observer shows them.
//!
//! The runtime hands out a class as an internal descriptor, `Lcom/example/Foo;`.
//! Everything past the hook layer speaks of the dotted form, `com.example.Foo`.

use vstd::prelude::*;
use vstd::std_specs::iter::IteratorSpec;
use crate::text::push_char;

verus! {

broadcast use vstd::string::group_string_axioms;

/// A descriptor names a class when it starts with `L` and ends with `;`.
pub open spec fn is_class_descriptor(signature: Seq<char>) -> bool {
    &&& signature.len() >= 2
    &&& signature[0] == 'L'
    &&& signature[signature.len() - 1] == ';'
}

/// One character of a dotted name: the package separator `/` becomes `.`.
pub open spec fn dotted_char(c: char) -> char {
    if c == '/' {
        '.'
    } else {
        c
    }
}

/// The text with every `/` turned into `.`.
pub open spec fn dotted(text: Seq<char>) -> Seq<char> {
    text.map_values(|c: char| dotted_char(c))
}

/// The dotted name of the class a descriptor stands for, if it stands for one.
pub open spec fn qualified_name(signature: Seq<char>) -> Option<Seq<char>> {
    if is_class_descriptor(signature) {
        Some(dotted(signature.subrange(1, signature.len() - 1)))
    } else {
        None
    }
}

/// The dotted name of a class descriptor is the descriptor without its two
/// sigils, character for character, with `.` wherever the descriptor has
/// `/`. So it holds no `/`.
pub proof fn lemma_qualified_name_is_dotted(signature: Seq<char>)
    requires
        is_class_descriptor(signature),
    ensures
        qualified_name(signature) matches Some(name) && {
            &&& name.len() == signature.len() - 2
            &&& !name.contains('/')
            &&& forall|i: int| 0 <= i < name.len() ==> name[i] == dotted_char(signature[i + 1])
        },
{
}

/// A name that is dotted already stays as it is.
pub proof fn lemma_dotted_is_idempotent(text: Seq<char>)
    ensures
        dotted(dotted(text)) == dotted(text),
{
    assert(dotted(dotted(text)) =~= dotted(text));
}

/// Turns a class descriptor into its dotted name.
///
/// Returns `None` for anything that is not a class descriptor: an array or
/// primitive descriptor, or text that was cut short.
pub fn normalize_class_name(signature: &str) -> (name: Option<String>)
    ensures
        name.deep_view() == qualified_name(signature@),
{
    let len = signature.unicode_len();
    if len < 2 {
        return None;
    }
    if signature.get_char(0) != 'L' || signature.get_char(len - 1) != ';' {
        return None;
    }
    let inner = signature.substring_char(1, len - 1);
    let mut name = String::new();
    let mut chars = inner.chars();
    loop
        invariant_except_break
            chars.obeys_prophetic_iter_laws(),
            name@.len() <= inner@.len(),
            chars.remaining() == inner@.skip(name@.len() as int),
            name@ == dotted(inner@.take(name@.len() as int)),
        ensures
            name@ == dotted(inner@),
        decreases inner@.len() - name@.len(),
    {
        match chars.next() {
            Some(c) => {
                let d = if c == '/' { '.' } else { c };
                push_char(&mut name, d);
            },
            None => {
                break;
            },
        }
    }
    Some(name)
}

} // verus!
