//! The entity model: the two listable record kinds and the capability they
//! expose to the presentation layer.

use vstd::prelude::*;
use vstd::string::StringExecFns;

verus! {

/// A live broadcast: identified by its channel name; game and viewer count
/// are cosmetic.
#[derive(Debug, PartialEq)]
pub struct Stream {
    pub game: String,
    pub viewers: u64,
    pub channel: String,
}

/// A game category: identified by `id`; `name` is the user-facing query key.
#[derive(Debug, PartialEq)]
pub struct Game {
    pub name: String,
    pub id: String,
}

/// The capability an entity needs to take part in selection and rendering:
/// a primary display name and an ordered row of `(value, label)` cells.
///
/// Every value of one implementing kind produces the same number of cells in
/// the same order, so one batch always renders a homogeneous table.
pub trait Listable: Sized {
    /// The primary display name.
    spec fn spec_name(&self) -> Seq<char>;

    /// The `(value, label)` cells of this entity's table row.
    spec fn spec_fields(&self) -> Seq<(Seq<char>, Seq<char>)>;

    /// The number of cells every row of this kind has.
    spec fn field_count() -> nat;

    /// Every value's row has exactly [`Listable::field_count`] cells.
    proof fn lemma_field_count(&self)
        ensures
            self.spec_fields().len() == Self::field_count(),
    ;

    /// The primary display name.
    fn name(&self) -> (r: String)
        ensures
            r@ == self.spec_name(),
    ;

    /// The `(value, label)` cells of this entity's table row.
    fn fields(&self) -> (r: Vec<(String, String)>)
        ensures
            r.deep_view() == self.spec_fields(),
    ;
}

impl Listable for Game {
    open spec fn spec_name(&self) -> Seq<char> {
        self.name@
    }

    open spec fn spec_fields(&self) -> Seq<(Seq<char>, Seq<char>)> {
        seq![(self.name@, "Name"@)]
    }

    open spec fn field_count() -> nat {
        1
    }

    proof fn lemma_field_count(&self) {
    }

    fn name(&self) -> (r: String) {
        self.name.clone()
    }

    fn fields(&self) -> (r: Vec<(String, String)>) {
        let mut v: Vec<(String, String)> = Vec::new();
        v.push((self.name(), String::from_str("Name")));
        proof {
            assert(v.deep_view() =~= self.spec_fields());
        }
        v
    }
}

impl Listable for Stream {
    open spec fn spec_name(&self) -> Seq<char> {
        self.channel@
    }

    open spec fn spec_fields(&self) -> Seq<(Seq<char>, Seq<char>)> {
        seq![
            (self.channel@, "Name"@),
            (self.game@, "Game"@),
            (crate::digits::dec_chars(self.viewers as nat), "Viewers"@),
        ]
    }

    open spec fn field_count() -> nat {
        3
    }

    proof fn lemma_field_count(&self) {
    }

    fn name(&self) -> (r: String) {
        self.channel.clone()
    }

    fn fields(&self) -> (r: Vec<(String, String)>) {
        let mut v: Vec<(String, String)> = Vec::new();
        v.push((self.name(), String::from_str("Name")));
        v.push((self.game.clone(), String::from_str("Game")));
        v.push((crate::digits::u64_to_string(self.viewers), String::from_str("Viewers")));
        proof {
            assert(v.deep_view() =~= self.spec_fields());
        }
        v
    }
}

} // verus!
