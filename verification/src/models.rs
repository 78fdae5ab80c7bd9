//! The catalog's record type and its equality semantics.

use crate::text::dec_rep_signed;
use crate::text::i32_to_string;
use vstd::prelude::*;
use vstd::std_specs::cmp::PartialEqSpec;
use vstd::string::StringExecFns;

verus! {

/// One catalog entry: the metadata of a single audio recording.
///
/// `file_size` is the byte length of the backing asset as recorded at
/// creation or update time; the catalog does not re-check it against the
/// file afterwards.
pub struct Piece {
    pub id: i32,
    pub title: String,
    pub artist: String,
    pub file_path: String,
    pub file_size: u32,
}

/// A record's one-line description: `{id}: {title} by {artist} at {path}`.
pub open spec fn spec_describe(p: Piece) -> Seq<char> {
    dec_rep_signed(p.id as int) + ": "@ + p.title@ + " by "@ + p.artist@ + " at "@ + p.file_path@
}

impl Piece {
    /// Two records describe the same recording exactly when their ids agree.
    pub open spec fn same_id(&self, other: &Piece) -> bool {
        self.id == other.id
    }

    /// Renders the record's one-line description.
    pub fn describe(&self) -> (r: String)
        ensures
            r@ == spec_describe(*self),
    {
        let mut r = i32_to_string(self.id);
        r.append(": ");
        r.append(self.title.as_str());
        r.append(" by ");
        r.append(self.artist.as_str());
        r.append(" at ");
        r.append(self.file_path.as_str());
        r
    }
}

impl Clone for Piece {
    fn clone(&self) -> (res: Self)
        ensures
            res == *self,
    {
        Piece {
            id: self.id,
            title: self.title.clone(),
            artist: self.artist.clone(),
            file_path: self.file_path.clone(),
            file_size: self.file_size,
        }
    }
}

impl PartialEq for Piece {
    /// Equality is decided by `id` alone: two records with the same id are
    /// the same recording, whatever their other fields say.
    fn eq(&self, other: &Self) -> (r: bool)
        ensures
            r == self.same_id(other),
    {
        self.id == other.id
    }
}

impl vstd::std_specs::cmp::PartialEqSpecImpl for Piece {
    open spec fn obeys_eq_spec() -> bool {
        true
    }

    open spec fn eq_spec(&self, other: &Self) -> bool {
        self.same_id(other)
    }
}

/// Two records with equal `id` compare equal whatever their other fields
/// hold; records with different `id` never compare equal.
pub proof fn lemma_piece_equality_by_id(a: Piece, b: Piece)
    ensures
        a.eq_spec(&b) <==> a.id == b.id,
{
}

/// A well-formed catalog: no two records share an id.  The store assigns
/// ids uniquely, so every catalog handed to this crate satisfies this.
pub open spec fn unique_ids(s: Seq<Piece>) -> bool {
    forall|i: int, j: int|
        0 <= i < s.len() && 0 <= j < s.len() && i != j ==> s[i].id != s[j].id
}

/// A new record, as handed to the catalog store when an entry is created.
pub struct NewPiece<'a> {
    pub title: &'a str,
    pub artist: &'a str,
    pub file_path: &'a str,
    pub file_size: u32,
}

} // verus!
