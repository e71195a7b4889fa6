//! Listing the model folder: of the entries found in it, the model files, as
//! references in ascending order.

use vstd::prelude::*;
use crate::error::{Failure, ModelError};
use crate::name::{
    has_model_extension, is_model_file_name, model_reference, reference_prefix, reference_to,
};
use crate::order::{
    ascending, lemma_ascending_is_unique, lemma_text_le_total, lemma_text_le_transitive, precedes,
    text_le, text_order,
};

verus! {

/// One entry met while enumerating a folder.
#[derive(Debug, Clone, PartialEq, Eq)]
pub enum FolderEntry {
    /// The entry could not be read, or its name is not text. It is passed over.
    Unreadable,
    /// An entry with its file name: the last segment of its path.
    Named(String),
}

impl View for FolderEntry {
    type V = Option<Seq<char>>;

    open spec fn view(&self) -> Option<Seq<char>> {
        match self {
            FolderEntry::Unreadable => None,
            FolderEntry::Named(name) => Some(name@),
        }
    }
}

/// What the caller found when it looked at the model folder.
#[derive(Debug, Clone, PartialEq, Eq)]
pub enum FolderRead {
    /// There is no such folder.
    Missing,
    /// The folder exists but could not be read; holds the cause.
    Failed(String),
    /// The folder's direct children, in the order they were enumerated.
    Listed(Vec<FolderEntry>),
}

/// The texts of a list of strings.
pub open spec fn texts(list: Seq<String>) -> Seq<Seq<char>> {
    list.map_values(|s: String| s@)
}

/// The names of a list of entries, `None` for an entry that is passed over.
pub open spec fn names(entries: Seq<FolderEntry>) -> Seq<Option<Seq<char>>> {
    entries.map_values(|e: FolderEntry| e@)
}

/// The references to the model files among the given entries, in the order of
/// the entries. An entry counts when it has a name and the name has the model
/// extension.
pub open spec fn references_of(names: Seq<Option<Seq<char>>>) -> Seq<Seq<char>>
    decreases names.len(),
{
    if names.len() == 0 {
        Seq::empty()
    } else {
        let before = references_of(names.drop_last());
        match names.last() {
            Some(name) if has_model_extension(name) => before.push(reference_to(name)),
            _ => before,
        }
    }
}

/// The listing of a folder with the given entries: the references to its
/// model files in ascending order.
pub open spec fn listing_of(names: Seq<Option<Seq<char>>>) -> Seq<Seq<char>> {
    references_of(names).sort_by(text_order())
}

/// `text` is the reference to the model file that `entry` names.
pub open spec fn refers_to(entry: Option<Seq<char>>, text: Seq<char>) -> bool {
    entry matches Some(name) && has_model_extension(name) && text == reference_to(name)
}

proof fn lemma_references_members(names: Seq<Option<Seq<char>>>, text: Seq<char>)
    ensures
        references_of(names).contains(text) <==> exists|i: int|
            0 <= i < names.len() && refers_to(#[trigger] names[i], text),
    decreases names.len(),
{
    if names.len() > 0 {
        let front = names.drop_last();
        let before = references_of(front);
        lemma_references_members(front, text);
        if references_of(names).contains(text) {
            let k = choose|k: int|
                0 <= k < references_of(names).len() && references_of(names)[k] == text;
            if k < before.len() {
                assert(before.contains(text));
            }
        }
        if exists|i: int| 0 <= i < names.len() && refers_to(#[trigger] names[i], text) {
            let i = choose|i: int| 0 <= i < names.len() && refers_to(#[trigger] names[i], text);
            if i < front.len() {
                assert(refers_to(front[i], text));
                let k = choose|k: int| 0 <= k < before.len() && before[k] == text;
                assert(references_of(names)[k] == text);
            } else {
                assert(references_of(names)[before.len() as int] == text);
            }
        }
    }
}

/// The listing of a folder holds the references to the model files among its
/// entries and nothing else, each as often as entries name it, in ascending
/// order. An entry whose extension is not exactly the model extension, be it
/// only for the case of a letter, is not listed.
pub proof fn lemma_listing(names: Seq<Option<Seq<char>>>)
    ensures
        ascending(listing_of(names)),
        listing_of(names).to_multiset() == references_of(names).to_multiset(),
        forall|text: Seq<char>| #[trigger]
            listing_of(names).contains(text) <==> exists|i: int|
                0 <= i < names.len() && refers_to(#[trigger] names[i], text),
{
    let found = references_of(names);
    crate::order::lemma_text_order_is_total();
    found.lemma_sort_by_ensures(text_order());
    crate::order::lemma_ascending_is_sorted(listing_of(names));
    assert forall|text: Seq<char>| #[trigger]
        listing_of(names).contains(text) <==> exists|i: int|
            0 <= i < names.len() && refers_to(#[trigger] names[i], text) by {
        lemma_references_members(names, text);
        vstd::seq_lib::to_multiset_contains(found, text);
        vstd::seq_lib::to_multiset_contains(listing_of(names), text);
    }
}

proof fn lemma_reference_count(names: Seq<Option<Seq<char>>>, name: Seq<char>)
    ensures
        references_of(names).to_multiset().count(reference_to(name)) == if has_model_extension(
            name,
        ) {
            names.to_multiset().count(Some(name))
        } else {
            0
        },
    decreases names.len(),
{
    broadcast use vstd::multiset::group_multiset_axioms;

    if names.len() == 0 {
        vstd::seq_lib::to_multiset_len(names);
        vstd::seq_lib::to_multiset_len(references_of(names));
        vstd::multiset::lemma_multiset_empty_len(names.to_multiset());
        vstd::multiset::lemma_multiset_empty_len(references_of(names).to_multiset());
    } else {
        let front = names.drop_last();
        lemma_reference_count(front, name);
        assert(names =~= front.push(names.last()));
        vstd::seq_lib::to_multiset_build(front, names.last());
        if let Some(last) = names.last() {
            if has_model_extension(last) {
                vstd::seq_lib::to_multiset_build(references_of(front), reference_to(last));
                if reference_to(last) == reference_to(name) {
                    assert(last =~= reference_to(last).skip(reference_prefix().len() as int));
                    assert(name =~= reference_to(name).skip(reference_prefix().len() as int));
                }
            }
        }
    }
}

/// The listing does not depend on the order in which the folder's entries
/// were enumerated: two enumerations of the same entries give the same
/// listing.
pub proof fn lemma_listing_ignores_enumeration_order(
    a: Seq<Option<Seq<char>>>,
    b: Seq<Option<Seq<char>>>,
)
    requires
        a.to_multiset() == b.to_multiset(),
    ensures
        listing_of(a) == listing_of(b),
{
    broadcast use vstd::multiset::group_multiset_axioms;

    let found_a = references_of(a).to_multiset();
    let found_b = references_of(b).to_multiset();
    assert forall|text: Seq<char>| found_a.count(text) == found_b.count(text) by {
        if exists|name: Seq<char>| text == reference_to(name) {
            let name = choose|name: Seq<char>| text == reference_to(name);
            lemma_reference_count(a, name);
            lemma_reference_count(b, name);
        } else {
            lemma_references_members(a, text);
            lemma_references_members(b, text);
            vstd::seq_lib::to_multiset_contains(references_of(a), text);
            vstd::seq_lib::to_multiset_contains(references_of(b), text);
        }
    }
    assert(found_a =~= found_b);
    lemma_listing(a);
    lemma_listing(b);
    lemma_ascending_is_unique(listing_of(a), listing_of(b));
}

/// Puts `text` into an ascending list at the place that keeps it ascending.
fn insert_in_order(list: &mut Vec<String>, text: String)
    requires
        ascending(texts(old(list)@)),
    ensures
        ascending(texts(final(list)@)),
        texts(final(list)@).to_multiset() == texts(old(list)@).to_multiset().insert(text@),
{
    let mut at: usize = 0;
    while at < list.len() && precedes(list[at].as_str(), text.as_str())
        invariant
            at <= list.len(),
            forall|j: int| 0 <= j < at ==> text_le(#[trigger] list@[j]@, text@),
        decreases list.len() - at,
    {
        at += 1;
    }
    proof {
        let before = texts(list@);
        let after = before.insert(at as int, text@);
        assert(texts(list@.insert(at as int, text)) =~= after);
        vstd::seq_lib::to_multiset_insert(before, at as int, text@);
        assert forall|i: int, j: int| 0 <= i < j < after.len() implies text_le(
            after[i],
            after[j],
        ) by {
            if i == at {
                lemma_text_le_total(before[at as int], text@);
                if j - 1 > at {
                    lemma_text_le_transitive(text@, before[at as int], before[j - 1]);
                }
            }
        }
    }
    list.insert(at, text);
}

/// Sorts references into ascending order.
pub fn sort_references(list: Vec<String>) -> (sorted: Vec<String>)
    ensures
        ascending(texts(sorted@)),
        texts(sorted@).to_multiset() == texts(list@).to_multiset(),
        texts(sorted@) == texts(list@).sort_by(text_order()),
{
    let mut rest = list;
    let mut sorted: Vec<String> = Vec::new();
    proof {
        broadcast use vstd::multiset::group_multiset_axioms;

        vstd::seq_lib::to_multiset_len(texts(sorted@));
        vstd::multiset::lemma_multiset_empty_len(texts(sorted@).to_multiset());
    }
    loop
        invariant
            ascending(texts(sorted@)),
            texts(rest@).to_multiset().add(texts(sorted@).to_multiset()) == texts(
                list@,
            ).to_multiset(),
        ensures
            rest@.len() == 0,
        decreases rest@.len(),
    {
        let ghost before = rest@;
        match rest.pop() {
            None => {
                break ;
            },
            Some(text) => {
                proof {
                    assert(texts(before) =~= texts(rest@).push(text@));
                    vstd::seq_lib::to_multiset_build(texts(rest@), text@);
                }
                insert_in_order(&mut sorted, text);
            },
        }
    }
    proof {
        broadcast use vstd::multiset::group_multiset_axioms;

        vstd::seq_lib::to_multiset_len(texts(rest@));
        vstd::multiset::lemma_multiset_empty_len(texts(rest@).to_multiset());
        assert(texts(sorted@).to_multiset() =~= texts(list@).to_multiset());
        crate::order::lemma_text_order_is_total();
        texts(list@).lemma_sort_by_ensures(text_order());
        crate::order::lemma_ascending_is_sorted(texts(list@).sort_by(text_order()));
        lemma_ascending_is_unique(texts(sorted@), texts(list@).sort_by(text_order()));
    }
    sorted
}

/// Lists the model files among the entries of a folder: one reference for
/// each entry whose name has the model extension, in ascending order.
pub fn scan_directory(entries: &Vec<FolderEntry>) -> (found: Vec<String>)
    ensures
        ascending(texts(found@)),
        texts(found@).to_multiset() == references_of(names(entries@)).to_multiset(),
        texts(found@) == listing_of(names(entries@)),
{
    let mut found: Vec<String> = Vec::new();
    let mut at: usize = 0;
    while at < entries.len()
        invariant
            at <= entries.len(),
            texts(found@) == references_of(names(entries@).take(at as int)),
        decreases entries.len() - at,
    {
        proof {
            let upto = names(entries@).take(at + 1);
            assert(upto.drop_last() =~= names(entries@).take(at as int));
        }
        match &entries[at] {
            FolderEntry::Named(name) => {
                if is_model_file_name(name.as_str()) {
                    found.push(model_reference(name.as_str()));
                }
            },
            FolderEntry::Unreadable => {},
        }
        at += 1;
    }
    proof {
        assert(names(entries@).take(at as int) =~= names(entries@));
    }
    sort_references(found)
}

/// Lists the model folder from what the caller found there. A missing folder
/// is no failure: it holds no models yet.
pub fn scan_models_folder(read: FolderRead) -> (r: Result<Vec<String>, ModelError>)
    ensures
        match read {
            FolderRead::Missing => r matches Ok(found) && found@.len() == 0,
            FolderRead::Failed(cause) => r matches Err(e) && e@ == Failure::DirectoryRead(cause@),
            FolderRead::Listed(entries) => r matches Ok(found) && texts(found@) == listing_of(
                names(entries@),
            ),
        },
{
    match read {
        FolderRead::Missing => Ok(Vec::new()),
        FolderRead::Failed(cause) => Err(ModelError::DirectoryRead(cause)),
        FolderRead::Listed(entries) => Ok(scan_directory(&entries)),
    }
}

} // verus!
