//! The table that tells which kind of transaction a code hash stands for.

use vstd::prelude::*;

verus! {

/// One line of the table: the name of a transaction code and the hash of
/// that code.
#[derive(Debug, PartialEq, Eq)]
pub struct ChecksumEntry {
    pub name: String,
    pub hash: String,
}

impl Clone for ChecksumEntry {
    fn clone(&self) -> (r: Self)
        ensures
            r == *self,
    {
        ChecksumEntry { name: self.name.clone(), hash: self.hash.clone() }
    }
}

/// The table of code names and code hashes. No name and no hash stands in it
/// twice, so it can be read in both directions.
#[derive(Debug, PartialEq, Eq)]
pub struct Checksums {
    entries: Vec<ChecksumEntry>,
}

/// The lines of a table as pairs of texts, name first.
pub open spec fn entries_view(entries: Seq<ChecksumEntry>) -> Seq<(Seq<char>, Seq<char>)> {
    entries.map_values(|e: ChecksumEntry| (e.name@, e.hash@))
}

/// The name that the first line with the hash `hash` gives, if there is one.
pub open spec fn name_by_hash(table: Seq<(Seq<char>, Seq<char>)>, hash: Seq<char>) -> Option<
    Seq<char>,
>
    decreases table.len(),
{
    if table.len() == 0 {
        None
    } else if table[0].1 == hash {
        Some(table[0].0)
    } else {
        name_by_hash(table.drop_first(), hash)
    }
}

/// The hash that the first line with the name `name` gives, if there is one.
pub open spec fn hash_by_name(table: Seq<(Seq<char>, Seq<char>)>, name: Seq<char>) -> Option<
    Seq<char>,
>
    decreases table.len(),
{
    if table.len() == 0 {
        None
    } else if table[0].0 == name {
        Some(table[0].1)
    } else {
        hash_by_name(table.drop_first(), name)
    }
}

/// The table without the lines that hold the name `name` or the hash `hash`.
pub open spec fn without(table: Seq<(Seq<char>, Seq<char>)>, name: Seq<char>, hash: Seq<char>) -> Seq<
    (Seq<char>, Seq<char>),
>
    decreases table.len(),
{
    if table.len() == 0 {
        table
    } else if table.last().0 == name || table.last().1 == hash {
        without(table.drop_last(), name, hash)
    } else {
        without(table.drop_last(), name, hash).push(table.last())
    }
}

/// Does no name and no hash stand in the table twice?
pub open spec fn one_to_one(table: Seq<(Seq<char>, Seq<char>)>) -> bool {
    forall|i: int, j: int|
        0 <= i < j < table.len() ==> (#[trigger] table[i]).0 != (#[trigger] table[j]).0
            && table[i].1 != table[j].1
}

/// Every line of `without(table, ..)` is a line of `table` that holds neither
/// the name nor the hash.
pub proof fn lemma_without_lines(table: Seq<(Seq<char>, Seq<char>)>, name: Seq<char>, hash: Seq<char>)
    ensures
        forall|i: int|
            0 <= i < without(table, name, hash).len() ==> {
                let line = #[trigger] without(table, name, hash)[i];
                line.0 != name && line.1 != hash && table.contains(line)
            },
        forall|i: int|
            0 <= i < table.len() && table[i].0 != name && table[i].1 != hash ==> without(
                table,
                name,
                hash,
            ).contains(#[trigger] table[i]),
    decreases table.len(),
{
    if table.len() > 0 {
        let rest = table.drop_last();
        lemma_without_lines(rest, name, hash);
        let w = without(table, name, hash);
        let wr = without(rest, name, hash);
        assert forall|i: int| 0 <= i < w.len() implies {
            let line = #[trigger] w[i];
            line.0 != name && line.1 != hash && table.contains(line)
        } by {
            if i < wr.len() {
                assert(w[i] == wr[i]);
                let k = choose|k: int| 0 <= k < rest.len() && rest[k] == wr[i];
                assert(table[k] == rest[k]);
            } else {
                assert(w[i] == table.last());
                assert(table[table.len() - 1] == table.last());
            }
        }
        assert forall|i: int|
            0 <= i < table.len() && table[i].0 != name && table[i].1 != hash implies w.contains(
            #[trigger] table[i],
        ) by {
            if i < rest.len() {
                assert(rest[i] == table[i]);
                assert(wr.contains(rest[i]));
                let k = choose|k: int| 0 <= k < wr.len() && wr[k] == rest[i];
                assert(w[k] == wr[k]);
            } else {
                assert(w[w.len() - 1] == table[i]);
            }
        }
    }
}

/// Taking lines out of a one-to-one table leaves it one-to-one.
pub proof fn lemma_without_one_to_one(
    table: Seq<(Seq<char>, Seq<char>)>,
    name: Seq<char>,
    hash: Seq<char>,
)
    requires
        one_to_one(table),
    ensures
        one_to_one(without(table, name, hash)),
        one_to_one(without(table, name, hash).push((name, hash))),
    decreases table.len(),
{
    let w = without(table, name, hash);
    if table.len() > 0 {
        let rest = table.drop_last();
        assert forall|i: int, j: int| 0 <= i < j < rest.len() implies (#[trigger] rest[i]).0 != (
        #[trigger] rest[j]).0 && rest[i].1 != rest[j].1 by {
            assert(rest[i] == table[i]);
            assert(rest[j] == table[j]);
        }
        lemma_without_one_to_one(rest, name, hash);
        lemma_without_lines(rest, name, hash);
        let wr = without(rest, name, hash);
        assert forall|i: int, j: int| 0 <= i < j < w.len() implies (#[trigger] w[i]).0 != (
        #[trigger] w[j]).0 && w[i].1 != w[j].1 by {
            if j < wr.len() {
                assert(w[i] == wr[i]);
                assert(w[j] == wr[j]);
            } else {
                assert(w[i] == wr[i]);
                assert(rest.contains(wr[i]));
                let k = choose|k: int| 0 <= k < rest.len() && rest[k] == wr[i];
                assert(table[k] == rest[k]);
                assert(w[j] == table[table.len() - 1]);
            }
        }
    }
    lemma_without_lines(table, name, hash);
    let p = w.push((name, hash));
    assert forall|i: int, j: int| 0 <= i < j < p.len() implies (#[trigger] p[i]).0 != (
    #[trigger] p[j]).0 && p[i].1 != p[j].1 by {
        assert(p[i] == w[i]);
        if j < w.len() {
            assert(p[j] == w[j]);
        }
    }
}

impl View for Checksums {
    type V = Seq<(Seq<char>, Seq<char>)>;

    closed spec fn view(&self) -> Seq<(Seq<char>, Seq<char>)> {
        entries_view(self.entries@)
    }
}

impl Clone for Checksums {
    fn clone(&self) -> (r: Self)
        ensures
            r@ == self@,
    {
        proof {
            use_type_invariant(self);
        }
        let entries = self.entries.clone();
        assert(entries@ =~= self.entries@);
        Checksums { entries }
    }
}

impl Default for Checksums {
    /// The empty table.
    fn default() -> (r: Self)
        ensures
            r@ == Seq::<(Seq<char>, Seq<char>)>::empty(),
    {
        Checksums::new()
    }
}

impl Checksums {
    /// The type's invariant: the table is one-to-one.
    #[verifier::type_invariant]
    pub closed spec fn well_formed(&self) -> bool {
        one_to_one(entries_view(self.entries@))
    }

    /// The empty table.
    pub fn new() -> (r: Self)
        ensures
            r@ == Seq::<(Seq<char>, Seq<char>)>::empty(),
    {
        Checksums { entries: Vec::new() }
    }

    /// How many lines the table has.
    pub fn len(&self) -> (r: usize)
        ensures
            r == self@.len(),
    {
        self.entries.len()
    }

    /// Adds the line of `name` and `hash`; a line that held this name or this
    /// hash before is taken out, and the other lines keep their order.
    pub fn add(&mut self, name: String, hash: String)
        ensures
            final(self)@ == without(old(self)@, name@, hash@).push((name@, hash@)),
            one_to_one(final(self)@),
    {
        proof {
            use_type_invariant(&*self);
        }
        let mut kept: Vec<ChecksumEntry> = Vec::new();
        let mut i: usize = 0;
        while i < self.entries.len()
            invariant
                i <= self.entries.len(),
                self.entries == old(self).entries,
                entries_view(kept@) == without(
                    entries_view(self.entries@).take(i as int),
                    name@,
                    hash@,
                ),
            decreases self.entries.len() - i,
        {
            let entry = &self.entries[i];
            let ghost before = entries_view(self.entries@).take(i as int);
            let ghost now = entries_view(self.entries@).take(i + 1);
            proof {
                assert(now.drop_last() =~= before);
                assert(now.last() == (entry.name@, entry.hash@));
            }
            if !(entry.name == name || entry.hash == hash) {
                kept.push(ChecksumEntry { name: entry.name.clone(), hash: entry.hash.clone() });
                proof {
                    assert(entries_view(kept@) =~= without(before, name@, hash@).push(
                        (entry.name@, entry.hash@),
                    ));
                }
            }
            i = i + 1;
        }
        proof {
            assert(entries_view(self.entries@).take(i as int) =~= entries_view(self.entries@));
            lemma_without_one_to_one(entries_view(self.entries@), name@, hash@);
        }
        let ghost line = (name@, hash@);
        let ghost before = entries_view(kept@);
        kept.push(ChecksumEntry { name, hash });
        proof {
            assert(entries_view(kept@) =~= before.push(line));
        }
        self.entries = kept;
    }

    /// The name of the code with the hash `hash`, if the table holds it.
    pub fn get_name_by_id(&self, hash: &str) -> (r: Option<String>)
        ensures
            crate::text::optional_text(r) == name_by_hash(self@, hash@),
    {
        let wanted = hash.to_owned();
        let mut i: usize = 0;
        assert(entries_view(self.entries@).skip(0) =~= entries_view(self.entries@));
        while i < self.entries.len()
            invariant
                i <= self.entries.len(),
                wanted@ == hash@,
                name_by_hash(entries_view(self.entries@), hash@) == name_by_hash(
                    entries_view(self.entries@).skip(i as int),
                    hash@,
                ),
            decreases self.entries.len() - i,
        {
            let ghost rest = entries_view(self.entries@).skip(i as int);
            proof {
                assert(rest[0] == (self.entries@[i as int].name@, self.entries@[i as int].hash@));
                assert(rest.drop_first() =~= entries_view(self.entries@).skip(i + 1));
            }
            if self.entries[i].hash == wanted {
                return Some(self.entries[i].name.clone());
            }
            i = i + 1;
        }
        None
    }

    /// The hash of the code with the name `name`, if the table holds it.
    pub fn get_id_by_name(&self, name: &str) -> (r: Option<String>)
        ensures
            crate::text::optional_text(r) == hash_by_name(self@, name@),
    {
        let wanted = name.to_owned();
        let mut i: usize = 0;
        assert(entries_view(self.entries@).skip(0) =~= entries_view(self.entries@));
        while i < self.entries.len()
            invariant
                i <= self.entries.len(),
                wanted@ == name@,
                hash_by_name(entries_view(self.entries@), name@) == hash_by_name(
                    entries_view(self.entries@).skip(i as int),
                    name@,
                ),
            decreases self.entries.len() - i,
        {
            let ghost rest = entries_view(self.entries@).skip(i as int);
            proof {
                assert(rest[0] == (self.entries@[i as int].name@, self.entries@[i as int].hash@));
                assert(rest.drop_first() =~= entries_view(self.entries@).skip(i + 1));
            }
            if self.entries[i].name == wanted {
                return Some(self.entries[i].hash.clone());
            }
            i = i + 1;
        }
        None
    }
}

} // verus!
