//! Output notes and their redaction.
//!
//! Execution produces each note in full, in part, or as a bare header.
//! Redaction strips every payload: it keeps the count and the order of the
//! notes, turns every note into its header, and leaves a header as it is.

use crate::ledger::{header_of_note, note_header, partial_note_header};
use miden_objects::note::{Note, NoteHeader, PartialNote};
use vstd::prelude::*;

verus! {

/// A note that a transaction produced.
#[derive(Debug, PartialEq, Eq)]
pub enum OutputNote {
    /// The whole note: assets, script and recipient data.
    Full(Note),
    /// The note without the details of its recipient.
    Partial(PartialNote),
    /// The note's identifier and metadata only.
    Header(NoteHeader),
}

impl OutputNote {
    /// The header of the note: its identifier and metadata.
    pub open spec fn header(self) -> NoteHeader {
        match self {
            OutputNote::Full(full) => note_header(full),
            OutputNote::Partial(partial) => partial_note_header(partial),
            OutputNote::Header(header) => header,
        }
    }

    /// The note after redaction: its header, and nothing else.
    pub open spec fn redacted(self) -> OutputNote {
        OutputNote::Header(self.header())
    }

    /// The note holds more than its header: assets, and for a full note its
    /// script and recipient data.
    pub open spec fn carries_payload(self) -> bool {
        !(self is Header)
    }

    /// Strips the note's payload: what is left is the note in header form.
    pub fn shrink(&self) -> (out: OutputNote)
        ensures
            out == self.redacted(),
            !out.carries_payload(),
    {
        OutputNote::Header(header_of_note(self))
    }
}

/// A list of notes after redaction: each note redacted, in place.
pub open spec fn redacted_notes(notes: Seq<OutputNote>) -> Seq<OutputNote> {
    Seq::new(notes.len(), |i: int| notes[i].redacted())
}

/// Redacts every note of a list.
pub fn redact(notes: &Vec<OutputNote>) -> (out: Vec<OutputNote>)
    ensures
        out@ == redacted_notes(notes@),
{
    let mut out: Vec<OutputNote> = Vec::new();
    let mut i: usize = 0;
    while i < notes.len()
        invariant
            i <= notes.len(),
            out@ == redacted_notes(notes@.take(i as int)),
        decreases notes.len() - i,
    {
        out.push(notes[i].shrink());
        assert(out@ =~= redacted_notes(notes@.take(i + 1)));
        i += 1;
    }
    assert(notes@.take(notes.len() as int) =~= notes@);
    out
}

/// Redaction keeps the number of notes and their order: the note at each
/// position of the result is the redacted form of the note at that position.
pub proof fn redaction_keeps_count_and_order(notes: Seq<OutputNote>)
    ensures
        redacted_notes(notes).len() == notes.len(),
        forall|i: int| 0 <= i < notes.len() ==> redacted_notes(notes)[i] == notes[i].redacted(),
{
}

/// Redacting a redacted note changes nothing, and so for a whole list.
pub proof fn redaction_is_idempotent(note: OutputNote, notes: Seq<OutputNote>)
    ensures
        note.redacted().redacted() == note.redacted(),
        redacted_notes(redacted_notes(notes)) == redacted_notes(notes),
{
    assert forall|n: OutputNote| n.redacted().redacted() == n.redacted() by {}
    assert(redacted_notes(redacted_notes(notes)) =~= redacted_notes(notes));
}

/// Every redacted note is a header and carries no payload; it is the header
/// of the note it was made of. A header is left as it is.
pub proof fn redaction_strips_every_payload(note: OutputNote, notes: Seq<OutputNote>)
    ensures
        note.redacted() is Header,
        !note.redacted().carries_payload(),
        note.redacted().header() == note.header(),
        !note.carries_payload() ==> note.redacted() == note,
        forall|i: int|
            0 <= i < notes.len() ==> !(#[trigger] redacted_notes(notes)[i]).carries_payload(),
{
}

} // verus!
