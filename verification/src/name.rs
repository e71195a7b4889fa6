//! File names: what their extension is, which of them name a model file, and
//! how a model file is referenced.

use vstd::prelude::*;

verus! {

/// The extension that marks a model file, without the dot.
pub open spec fn model_extension() -> Seq<char> {
    "gguf"@
}

/// What every reference starts with.
pub open spec fn reference_prefix() -> Seq<char> {
    "models/"@
}

/// Position `i` holds the last dot of `name`.
pub open spec fn is_last_dot(name: Seq<char>, i: int) -> bool {
    &&& 0 <= i < name.len()
    &&& name[i] == '.'
    &&& forall|j: int| i < j < name.len() ==> name[j] != '.'
}

/// The extension of a file name: what follows its last dot. A name without a
/// dot has none, nor has one whose only dot stands in front (`.hidden`),
/// nor has the name `..`.
pub open spec fn extension(name: Seq<char>) -> Option<Seq<char>> {
    if name == seq!['.', '.'] {
        None
    } else if exists|i: int| i > 0 && is_last_dot(name, i) {
        let i = choose|i: int| i > 0 && is_last_dot(name, i);
        Some(name.skip(i + 1))
    } else {
        None
    }
}

/// The name is that of a model file: its extension is exactly `gguf`, in
/// lower case.
pub open spec fn has_model_extension(name: Seq<char>) -> bool {
    extension(name) == Some(model_extension())
}

/// The reference to the model file of the given name.
pub open spec fn reference_to(name: Seq<char>) -> Seq<char> {
    reference_prefix() + name
}

/// A name has the model extension exactly when it ends in `.gguf` and at
/// least one character stands before that ending.
pub proof fn lemma_model_extension_is_ending(name: Seq<char>)
    ensures
        has_model_extension(name) <==> name.len() >= 6 && name.skip(name.len() - 5) == ".gguf"@,
{
    reveal_strlit("gguf");
    reveal_strlit(".gguf");
    let n = name.len() as int;
    if has_model_extension(name) {
        let i = choose|i: int| i > 0 && is_last_dot(name, i);
        assert(name.skip(i + 1).len() == 4);
        assert forall|j: int| 0 <= j < 5 implies name.skip(n - 5)[j] == ".gguf"@[j] by {
            if j > 0 {
                assert(name.skip(i + 1)[j - 1] == "gguf"@[j - 1]);
            }
        }
        assert(name.skip(n - 5) =~= ".gguf"@);
    }
    if n >= 6 && name.skip(n - 5) == ".gguf"@ {
        let i = n - 5;
        assert forall|j: int| i <= j < n implies name[j] == ".gguf"@[j - i] by {}
        assert(is_last_dot(name, i));
        assert(name.skip(i + 1) =~= "gguf"@);
    }
}

/// Whether a file name is that of a model file.
pub fn is_model_file_name(name: &str) -> (r: bool)
    ensures
        r == has_model_extension(name@),
{
    proof {
        lemma_model_extension_is_ending(name@);
        reveal_strlit(".gguf");
    }
    let n: usize = name.unicode_len();
    if n < 6 {
        return false;
    }
    let r = name.get_char(n - 5) == '.' && name.get_char(n - 4) == 'g' && name.get_char(n - 3)
        == 'g' && name.get_char(n - 2) == 'u' && name.get_char(n - 1) == 'f';
    proof {
        let tail = name@.skip(n - 5);
        assert(tail[0] == name@[n - 5]);
        assert(tail[1] == name@[n - 4]);
        assert(tail[2] == name@[n - 3]);
        assert(tail[3] == name@[n - 2]);
        assert(tail[4] == name@[n - 1]);
        if r {
            assert(tail =~= ".gguf"@);
        }
    }
    r
}

/// Builds the reference to the model file of the given name.
pub fn model_reference(name: &str) -> (r: String)
    ensures
        r@ == reference_to(name@),
{
    let mut r = String::from_str("models/");
    r.append(name);
    r
}

} // verus!
