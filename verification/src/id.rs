//! Identifiers of accounts, tokens and hashes.

use vstd::prelude::*;
use crate::text::lowercase_of;

verus! {

/// What an identifier names.
#[derive(Debug, Clone, Copy, PartialEq, Eq, Structural)]
pub enum IdKind {
    /// An account or a token, by its address.
    Account,
    /// A block, a transaction or a section, by its hash.
    Hash,
}

/// An identifier: the address of an account or of a token, or a hash.
///
/// An identifier holds its text in the canonical form, which is the lower
/// case of the text it was made from. Two identifiers are the same where
/// they are of the same kind and their canonical texts are the same.
#[derive(Debug, PartialEq, Eq)]
pub struct Id {
    kind: IdKind,
    text: String,
}

/// The mathematical value of an [`Id`]: its kind and the characters of its
/// canonical text.
pub enum IdView {
    Account(Seq<char>),
    Hash(Seq<char>),
}

impl IdView {
    /// The characters of the identifier.
    pub open spec fn text(self) -> Seq<char> {
        match self {
            IdView::Account(t) => t,
            IdView::Hash(t) => t,
        }
    }

    /// The kind of the identifier.
    pub open spec fn kind(self) -> IdKind {
        match self {
            IdView::Account(_) => IdKind::Account,
            IdView::Hash(_) => IdKind::Hash,
        }
    }
}

impl View for Id {
    type V = IdView;

    closed spec fn view(&self) -> IdView {
        match self.kind {
            IdKind::Account => IdView::Account(self.text@),
            IdKind::Hash => IdView::Hash(self.text@),
        }
    }
}

/// The values of a list of identifiers.
pub open spec fn ids_view(ids: Seq<Id>) -> Seq<IdView> {
    ids.map_values(|id: Id| id@)
}

impl Clone for Id {
    fn clone(&self) -> (r: Self)
        ensures
            r == *self,
    {
        Id { kind: self.kind, text: self.text.clone() }
    }
}

impl Default for Id {
    /// The hash with the empty text.
    fn default() -> (r: Self)
        ensures
            r@ == IdView::Hash(Seq::<char>::empty()),
    {
        Id { kind: IdKind::Hash, text: String::new() }
    }
}

impl Id {
    /// The identifier of the account, or of the token, with the address
    /// `address`.
    pub fn account(address: &str) -> (r: Self)
        ensures
            r@ == IdView::Account(lowercase_of(address@)),
    {
        Id { kind: IdKind::Account, text: address.to_lowercase() }
    }

    /// The identifier of what has the hash `digest`.
    pub fn hash(digest: &str) -> (r: Self)
        ensures
            r@ == IdView::Hash(lowercase_of(digest@)),
    {
        Id { kind: IdKind::Hash, text: digest.to_lowercase() }
    }

    /// What the identifier names.
    pub fn kind(&self) -> (r: IdKind)
        ensures
            r == self@.kind(),
    {
        self.kind
    }

    /// Are the two identifiers the same: of the same kind, with the same
    /// canonical text?
    pub fn same(&self, other: &Id) -> (r: bool)
        ensures
            r == (self@ == other@),
    {
        self.kind == other.kind && self.text == other.text
    }

    /// The canonical text of the identifier.
    pub fn to_string(&self) -> (r: String)
        ensures
            r@ == self@.text(),
    {
        self.text.clone()
    }
}

} // verus!
