//! One dictionary record: seven text attributes of a Chinese character.

use vstd::prelude::*;

verus! {

/// One dictionary entry. Every field is plain text; any of them may be
/// empty, and a record loads whether or not a field was present in the
/// source document. Entries are never changed after they are built.
pub struct Entry {
    /// The simplified-script headword, also the label shown in the list.
    pub simplified: String,
    /// The traditional-script variant.
    pub traditional: String,
    /// The stroke count, kept as text since the data may carry annotations.
    pub strokes: String,
    /// The romanized pronunciation.
    pub pinyin: String,
    /// The semantic or structural radical component.
    pub radical: String,
    /// The primary gloss or definition.
    pub explanation: String,
    /// Supplementary notes.
    pub extra: String,
}

/// The mathematical value of an entry: its seven fields as character
/// sequences.
pub struct EntryModel {
    pub simplified: Seq<char>,
    pub traditional: Seq<char>,
    pub strokes: Seq<char>,
    pub pinyin: Seq<char>,
    pub radical: Seq<char>,
    pub explanation: Seq<char>,
    pub extra: Seq<char>,
}

impl EntryModel {
    /// The model of a record none of whose fields was present: all empty.
    pub open spec fn empty() -> EntryModel {
        EntryModel {
            simplified: Seq::empty(),
            traditional: Seq::empty(),
            strokes: Seq::empty(),
            pinyin: Seq::empty(),
            radical: Seq::empty(),
            explanation: Seq::empty(),
            extra: Seq::empty(),
        }
    }
}

impl View for Entry {
    type V = EntryModel;

    open spec fn view(&self) -> EntryModel {
        EntryModel {
            simplified: self.simplified@,
            traditional: self.traditional@,
            strokes: self.strokes@,
            pinyin: self.pinyin@,
            radical: self.radical@,
            explanation: self.explanation@,
            extra: self.extra@,
        }
    }
}

impl DeepView for Entry {
    type V = EntryModel;

    open spec fn deep_view(&self) -> EntryModel {
        self.view()
    }
}

impl Entry {
    /// An entry all of whose fields are empty, the placeholder shown when
    /// nothing is selected.
    pub fn empty() -> (r: Entry)
        ensures
            r@ == EntryModel::empty(),
    {
        Entry {
            simplified: String::new(),
            traditional: String::new(),
            strokes: String::new(),
            pinyin: String::new(),
            radical: String::new(),
            explanation: String::new(),
            extra: String::new(),
        }
    }
}

impl Clone for Entry {
    fn clone(&self) -> (r: Entry)
        ensures
            r@ == self@,
    {
        Entry {
            simplified: self.simplified.clone(),
            traditional: self.traditional.clone(),
            strokes: self.strokes.clone(),
            pinyin: self.pinyin.clone(),
            radical: self.radical.clone(),
            explanation: self.explanation.clone(),
            extra: self.extra.clone(),
        }
    }
}

impl PartialEq for Entry {
    fn eq(&self, other: &Entry) -> (r: bool) {
        self.simplified == other.simplified && self.traditional == other.traditional
            && self.strokes == other.strokes && self.pinyin == other.pinyin
            && self.radical == other.radical && self.explanation == other.explanation
            && self.extra == other.extra
    }
}

impl vstd::std_specs::cmp::PartialEqSpecImpl for Entry {
    open spec fn obeys_eq_spec() -> bool {
        true
    }

    open spec fn eq_spec(&self, other: &Entry) -> bool {
        self@ == other@
    }
}

} // verus!
