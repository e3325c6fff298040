//! Loading the dictionary: decoding JSON text into the entry list.
//!
//! The text must be a JSON array of objects whose fields are all
//! string-valued. Each object yields one entry; each of the seven known
//! field names is read from the object, defaulting to empty text where the
//! object lacks it, and any other field is ignored.

use vstd::prelude::*;
use crate::entry::{Entry, EntryModel};

verus! {

/// Why a dictionary failed to load.
#[derive(Clone, Copy, Debug, PartialEq, Eq, Structural)]
pub enum LoadError {
    /// The data file was missing or unreadable.
    NotFound,
    /// The text was not a JSON array of string-valued objects.
    Malformed,
}

/// The decoding that `serde_json` performs on dictionary text: `Some` holds
/// one field list per record of the document — the record's fields as
/// name/value pairs in ascending name order — exactly when the text is a
/// JSON array of string-valued objects, and `None` stands for any other
/// text. The decoding is a function of the text alone.
pub uninterp spec fn json_records(text: Seq<char>) -> Option<Seq<Seq<(Seq<char>, Seq<char>)>>>;

/// Relies on `serde_json::from_str`, decoding into a list of string-to-string
/// maps: it succeeds exactly on a JSON array of objects with string-valued
/// fields, and yields each object's fields in ascending name order.
#[verifier::external_body]
fn parse_records(text: &str) -> (r: Option<Vec<Vec<(String, String)>>>)
    ensures
        r.deep_view() == json_records(text@),
{
    let parsed: Result<Vec<std::collections::BTreeMap<String, String>>, serde_json::Error> =
        serde_json::from_str(text);
    match parsed {
        Ok(records) => Some(records.into_iter().map(|m| m.into_iter().collect()).collect()),
        Err(_) => None,
    }
}

/// The value of the first field with the given name, or empty text where no
/// field carries that name.
pub open spec fn field_value(fields: Seq<(Seq<char>, Seq<char>)>, name: Seq<char>) -> Seq<char>
    decreases fields.len(),
{
    if fields.len() == 0 {
        Seq::empty()
    } else if fields[0].0 == name {
        fields[0].1
    } else {
        field_value(fields.drop_first(), name)
    }
}

/// The entry one record denotes: each of the seven attributes comes from
/// the field of the matching name, defaulting to empty text where the
/// record lacks it.
pub open spec fn entry_of_fields(fields: Seq<(Seq<char>, Seq<char>)>) -> EntryModel {
    EntryModel {
        simplified: field_value(fields, "word"@),
        traditional: field_value(fields, "oldword"@),
        strokes: field_value(fields, "strokes"@),
        pinyin: field_value(fields, "pinyin"@),
        radical: field_value(fields, "radicals"@),
        explanation: field_value(fields, "explanation"@),
        extra: field_value(fields, "more"@),
    }
}

/// The entries a well-formed document denotes: one per record, in document
/// order.
pub open spec fn entries_of_records(records: Seq<Seq<(Seq<char>, Seq<char>)>>) -> Seq<EntryModel> {
    records.map_values(|fields: Seq<(Seq<char>, Seq<char>)>| entry_of_fields(fields))
}

/// What loading a text yields: the denoted entries when the text is a
/// well-formed dictionary document, and a malformed-data error otherwise.
pub open spec fn load_result(text: Seq<char>) -> Result<Seq<EntryModel>, LoadError> {
    match json_records(text) {
        Some(records) => Ok(entries_of_records(records)),
        None => Err(LoadError::Malformed),
    }
}

/// Find the value of the named field in one record's field list, or empty
/// text where the record lacks it.
fn lookup_field(fields: &Vec<(String, String)>, name: &String) -> (r: String)
    ensures
        r@ == field_value(fields.deep_view(), name@),
{
    let ghost all: Seq<(Seq<char>, Seq<char>)> = fields.deep_view();
    proof {
        assert(all.skip(0) =~= all);
    }
    let mut i: usize = 0;
    while i < fields.len()
        invariant
            i <= fields.len(),
            all == fields.deep_view(),
            field_value(all, name@) == field_value(all.skip(i as int), name@),
        decreases fields.len() - i,
    {
        if fields[i].0 == *name {
            assert(all.skip(i as int)[0] == all[i as int]);
            return fields[i].1.clone();
        }
        proof {
            assert(all.skip(i as int)[0] == all[i as int]);
            assert(all.skip(i as int).drop_first() =~= all.skip(i as int + 1));
        }
        i += 1;
    }
    assert(all.skip(i as int).len() == 0);
    String::new()
}

/// Build the entry one record denotes, defaulting every absent field to
/// empty text.
fn entry_of_record(fields: &Vec<(String, String)>) -> (e: Entry)
    ensures
        e@ == entry_of_fields(fields.deep_view()),
{
    Entry {
        simplified: lookup_field(fields, &"word".to_owned()),
        traditional: lookup_field(fields, &"oldword".to_owned()),
        strokes: lookup_field(fields, &"strokes".to_owned()),
        pinyin: lookup_field(fields, &"pinyin".to_owned()),
        radical: lookup_field(fields, &"radicals".to_owned()),
        explanation: lookup_field(fields, &"explanation".to_owned()),
        extra: lookup_field(fields, &"more".to_owned()),
    }
}

/// Decode dictionary text into the entry list it denotes, in document
/// order; fail with `Malformed` exactly when the text is not a JSON array
/// of string-valued objects.
pub fn load_entries(text: &str) -> (r: Result<Vec<Entry>, LoadError>)
    ensures
        match r {
            Ok(entries) => load_result(text@) == Ok::<Seq<EntryModel>, LoadError>(
                entries.deep_view(),
            ),
            Err(e) => load_result(text@) == Err::<Seq<EntryModel>, LoadError>(e),
        },
{
    match parse_records(text) {
        None => Err(LoadError::Malformed),
        Some(records) => {
            let ghost recs: Seq<Seq<(Seq<char>, Seq<char>)>> = records.deep_view();
            let mut entries: Vec<Entry> = Vec::new();
            let mut i: usize = 0;
            while i < records.len()
                invariant
                    i <= records.len(),
                    recs == records.deep_view(),
                    entries.len() == i,
                    forall|j: int|
                        0 <= j < i ==> entries.deep_view()[j] == entry_of_fields(recs[j]),
                decreases records.len() - i,
            {
                let ghost prev = entries.deep_view();
                let e = entry_of_record(&records[i]);
                entries.push(e);
                proof {
                    assert(entries.deep_view() =~= prev.push(e@));
                }
                i += 1;
            }
            proof {
                assert(entries.deep_view() =~= entries_of_records(recs));
            }
            Ok(entries)
        },
    }
}

/// Law: loading is deterministic. Two loads of the same text yield the
/// same outcome, and in particular two successful loads yield equal entry
/// sequences in the same order.
pub proof fn lemma_load_deterministic(
    text: Seq<char>,
    r1: Result<Seq<EntryModel>, LoadError>,
    r2: Result<Seq<EntryModel>, LoadError>,
)
    requires
        r1 == load_result(text),
        r2 == load_result(text),
    ensures
        r1 == r2,
{
}

/// Law: a record that carries no field of the given name denotes an entry
/// whose attribute of that name is empty text.
pub proof fn lemma_absent_field_is_empty(fields: Seq<(Seq<char>, Seq<char>)>, name: Seq<char>)
    requires
        forall|j: int| 0 <= j < fields.len() ==> fields[j].0 != name,
    ensures
        field_value(fields, name) == Seq::<char>::empty(),
    decreases fields.len(),
{
    if fields.len() > 0 {
        lemma_absent_field_is_empty(fields.drop_first(), name);
    }
}

} // verus!
