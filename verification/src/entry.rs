//! Notes, sections and the entries made of them.

use vstd::prelude::*;
use crate::clock::Timestamp;

verus! {

/// Represents a single note with timestamp.
#[derive(Debug, Clone, PartialEq, Eq)]
pub struct Note {
    /// The time the note was started.
    pub timestamp: Timestamp,
    /// The contents of the note.
    pub text: String,
}

/// Represents a section with a title but no timestamp.
#[derive(Debug, Clone, PartialEq, Eq)]
pub struct Section {
    /// The section title.
    pub title: String,
}

/// A single entry which may be a note or a section.
#[derive(Debug, Clone, PartialEq, Eq)]
pub enum Entry {
    /// A timestamped note.
    Note(Note),
    /// A section title.
    Section(Section),
}

/// A note as contracts see it.
pub struct NoteView {
    pub timestamp: Timestamp,
    pub text: Seq<char>,
}

/// A section as contracts see it.
pub struct SectionView {
    pub title: Seq<char>,
}

/// An entry as contracts see it.
pub enum EntryView {
    Note(NoteView),
    Section(SectionView),
}

impl View for Note {
    type V = NoteView;

    open spec fn view(&self) -> NoteView {
        NoteView { timestamp: self.timestamp, text: self.text@ }
    }
}

impl View for Section {
    type V = SectionView;

    open spec fn view(&self) -> SectionView {
        SectionView { title: self.title@ }
    }
}

impl View for Entry {
    type V = EntryView;

    open spec fn view(&self) -> EntryView {
        match self {
            Entry::Note(n) => EntryView::Note(n@),
            Entry::Section(s) => EntryView::Section(s@),
        }
    }
}

/// The views of a list of entries.
pub open spec fn entry_views(entries: Seq<Entry>) -> Seq<EntryView> {
    Seq::new(entries.len(), |i: int| entries[i]@)
}

/// The views of a list of notes.
pub open spec fn note_views(notes: Seq<Note>) -> Seq<NoteView> {
    Seq::new(notes.len(), |i: int| notes[i]@)
}

impl Note {
    /// A note with the same timestamp and text.
    pub fn duplicate(&self) -> (n: Note)
        ensures
            n@ == self@,
    {
        Note { timestamp: self.timestamp, text: self.text.clone() }
    }
}

impl EntryView {
    /// The text that an entry shows: a note's text, a section's title.
    pub open spec fn text(self) -> Seq<char> {
        match self {
            EntryView::Note(n) => n.text,
            EntryView::Section(s) => s.title,
        }
    }

    /// Whether two entries are of the same kind with the same text and, for
    /// notes, the same instant: the zone in which a note's time is shown is
    /// left aside.
    pub open spec fn agrees_with(self, other: EntryView) -> bool {
        match (self, other) {
            (EntryView::Note(a), EntryView::Note(b)) => a.agrees_with(b),
            (EntryView::Section(a), EntryView::Section(b)) => a.title == b.title,
            _ => false,
        }
    }
}

impl NoteView {
    /// Whether two notes have the same text and the same instant.
    pub open spec fn agrees_with(self, other: NoteView) -> bool {
        self.text == other.text && self.timestamp.same_instant(other.timestamp)
    }
}

/// Whether two lists of entries agree entry by entry.
pub open spec fn entries_agree(a: Seq<EntryView>, b: Seq<EntryView>) -> bool {
    a.len() == b.len() && forall|i: int| 0 <= i < a.len() ==> (#[trigger] a[i]).agrees_with(b[i])
}

/// Whether two lists of notes agree note by note.
pub open spec fn notes_agree(a: Seq<NoteView>, b: Seq<NoteView>) -> bool {
    a.len() == b.len() && forall|i: int| 0 <= i < a.len() ==> (#[trigger] a[i]).agrees_with(b[i])
}

} // verus!
