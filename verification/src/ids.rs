//! Opaque entity identifiers.
//!
//! Every long-lived entity (module, crew member, sub-sector, mission) carries
//! a globally unique id assigned at construction. Ids are compared
//! structurally and never interpreted; freshness comes from a
//! collision-resistant generator.

use vstd::prelude::*;

verus! {

/// An opaque entity id: a generated URL-safe identifier.
#[derive(Debug)]
pub struct Id {
    text: String,
}

impl View for Id {
    type V = Seq<char>;

    closed spec fn view(&self) -> Seq<char> {
        self.text@
    }
}

/// Relies on `nanoid::format` with the crate's default URL-safe 64-symbol
/// alphabet and entropy source: it returns a fresh identifier of exactly the
/// requested number of symbols (here 21). The result is random; nothing
/// further is assumed of it.
#[verifier::external_body]
fn fresh_id_text() -> (r: String)
    ensures
        r@.len() == 21,
{
    nanoid::format(nanoid::rngs::default, &nanoid::alphabet::SAFE, 21)
}

impl Id {
    /// The id's text at the specification level.
    pub closed spec fn text_of(&self) -> String {
        self.text
    }

    /// Rebuilding an id from its text yields the same id.
    pub proof fn lemma_text_roundtrip(a: Id)
        ensures
            Id::spec_from_text(a.text_of()) == a,
            a.text_of()@ == a@,
    {
    }

    /// The id a given text produces.
    pub closed spec fn spec_from_text(text: String) -> Id {
        Id { text }
    }

    /// Draw a fresh id from the generator.
    pub fn fresh() -> (r: Id)
        ensures
            r@.len() == 21,
    {
        Id { text: fresh_id_text() }
    }

    /// Build an id from its text (used when rehydrating a snapshot).
    pub fn from_text(text: String) -> (r: Id)
        ensures
            r@ == text@,
            r == Id::spec_from_text(text),
    {
        Id { text }
    }

    /// The text of the id (used when taking a snapshot).
    pub fn as_text(&self) -> (r: &String)
        ensures
            r@ == self@,
            *r == self.text_of(),
    {
        &self.text
    }

    /// Structural comparison of two ids.
    pub fn eq_id(&self, other: &Id) -> (r: bool)
        ensures
            r == (self@ == other@),
    {
        self.text == other.text
    }
}

impl Clone for Id {
    fn clone(&self) -> (r: Self)
        ensures
            r == *self,
            r@ == self@,
    {
        Id { text: self.text.clone() }
    }
}

} // verus!
