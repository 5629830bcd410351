//! A map from geometry kinds to ordered lists.

use vstd::prelude::*;
use crate::types::GeometryType;

verus! {

/// For each geometry kind, either nothing or an ordered list of items.
///
/// The kinds form a closed set, so the map keeps one slot per kind. Its view is
/// the mathematical map from the kinds that have a list to that list.
#[derive(Clone, Debug, PartialEq)]
pub struct GeometryMap<T> {
    quadrilateral: Option<Vec<T>>,
}

impl<T> GeometryMap<T> {
    pub closed spec fn view(&self) -> Map<GeometryType, Seq<T>> {
        match self.quadrilateral {
            Some(list) => Map::empty().insert(GeometryType::Quadrilateral, list@),
            None => Map::empty(),
        }
    }

    /// A map in which no kind has a list.
    pub fn new() -> (m: Self)
        ensures
            m@ == Map::<GeometryType, Seq<T>>::empty(),
    {
        GeometryMap { quadrilateral: None }
    }

    /// Whether no kind has a list.
    pub fn is_empty(&self) -> (b: bool)
        ensures
            b <==> self@ == Map::<GeometryType, Seq<T>>::empty(),
    {
        proof {
            if self.quadrilateral is Some {
                assert(self@.contains_key(GeometryType::Quadrilateral));
            }
        }
        self.quadrilateral.is_none()
    }

    /// The list of `kind`, if it has one.
    pub fn get(&self, kind: GeometryType) -> (list: Option<&Vec<T>>)
        ensures
            list is Some <==> self@.contains_key(kind),
            list matches Some(l) ==> l@ == self@[kind],
    {
        match kind {
            GeometryType::Quadrilateral => self.quadrilateral.as_ref(),
        }
    }

    /// Makes `list` the list of `kind`, in place of any list it had.
    pub fn insert(&mut self, kind: GeometryType, list: Vec<T>)
        ensures
            final(self)@ == old(self)@.insert(kind, list@),
    {
        match kind {
            GeometryType::Quadrilateral => {
                self.quadrilateral = Some(list);
            },
        }
        proof {
            assert(self@ =~= old(self)@.insert(kind, list@));
        }
    }

    /// Appends `item` to the list of `kind`, starting a list if it had none.
    pub fn push(&mut self, kind: GeometryType, item: T)
        ensures
            final(self)@ == old(self)@.insert(kind, entries_of(old(self)@, kind).push(item)),
    {
        match kind {
            GeometryType::Quadrilateral => {
                match &mut self.quadrilateral {
                    Some(list) => {
                        list.push(item);
                    },
                    None => {
                        let mut list: Vec<T> = Vec::new();
                        list.push(item);
                        self.quadrilateral = Some(list);
                    },
                }
            },
        }
        proof {
            assert(self@ =~= old(self)@.insert(kind, entries_of(old(self)@, kind).push(item)));
        }
    }
}

/// The list of `kind` in `m`, empty where it has none.
pub open spec fn entries_of<T>(m: Map<GeometryType, Seq<T>>, kind: GeometryType) -> Seq<T> {
    if m.contains_key(kind) {
        m[kind]
    } else {
        Seq::empty()
    }
}

} // verus!
