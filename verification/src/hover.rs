//! What to say about the piece under the pointer.

use vstd::prelude::*;
use crate::world::{Piece, World};

verus! {

/// Shown while the pointer rests on nothing that has an annotation.
pub const DEFAULT_PROMPT: &'static str =
    "Hover over a metal block for more info (they're also harder to destroy)!";

/// The annotation of piece `hit`, if there is such a piece, it stands, and it
/// has one.
pub open spec fn note_of(pieces: Seq<Piece>, hit: usize) -> Option<&'static str> {
    if hit < pieces.len() && pieces[hit as int].alive {
        pieces[hit as int].placement.annotation
    } else {
        None
    }
}

/// The first annotation among the pieces `hits[from..]`, in the order given.
pub open spec fn first_note(pieces: Seq<Piece>, hits: Seq<usize>, from: int) -> Option<&'static str>
    decreases hits.len() - from,
{
    if from < 0 || from >= hits.len() {
        None
    } else if note_of(pieces, hits[from]) is Some {
        note_of(pieces, hits[from])
    } else {
        first_note(pieces, hits, from + 1)
    }
}

/// The line to show for the pieces under the pointer.
pub open spec fn hover_text_of(pieces: Seq<Piece>, hits: Seq<usize>) -> &'static str {
    match first_note(pieces, hits, 0) {
        Some(text) => text,
        None => DEFAULT_PROMPT,
    }
}

/// The line shown is the annotation of the first annotated piece under the
/// pointer, and the prompt where no piece under it has one.
pub proof fn lemma_hover_text(pieces: Seq<Piece>, hits: Seq<usize>, from: int)
    requires
        0 <= from <= hits.len(),
    ensures
        first_note(pieces, hits, from) is None <==> forall|k: int|
            from <= k < hits.len() ==> note_of(pieces, #[trigger] hits[k]) is None,
        first_note(pieces, hits, from) is Some ==> exists|k: int|
            from <= k < hits.len() && note_of(pieces, #[trigger] hits[k]) == first_note(
                pieces,
                hits,
                from,
            ) && forall|j: int| from <= j < k ==> note_of(pieces, #[trigger] hits[j]) is None,
    decreases hits.len() - from,
{
    if from < hits.len() {
        if note_of(pieces, hits[from]) is None {
            lemma_hover_text(pieces, hits, from + 1);
        }
    }
}

impl World {
    /// The line to show while the pointer rests on the pieces `hits`, given in
    /// the order in which the physics engine found them: the annotation of
    /// the first standing piece among them that has one, else
    /// [`DEFAULT_PROMPT`]. Nothing is changed.
    pub fn hover_text(&self, hits: &Vec<usize>) -> (text: &'static str)
        ensures
            text == hover_text_of(self@.pieces, hits@),
    {
        let mut k: usize = 0;
        while k < hits.len()
            invariant
                k <= hits.len(),
                first_note(self@.pieces, hits@, 0) == first_note(self@.pieces, hits@, k as int),
            decreases hits.len() - k,
        {
            let hit = hits[k];
            if hit < self.pieces.len() && self.pieces[hit].alive {
                match self.pieces[hit].placement.annotation {
                    Some(text) => {
                        return text;
                    },
                    None => {},
                }
            }
            k += 1;
        }
        DEFAULT_PROMPT
    }
}

} // verus!
