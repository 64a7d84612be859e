//! The table of a palette: from the name of a colour to its value.
use crate::colour::PaletteColour;
use crate::text::same_chars;
use crate::text::to_chars;
use vstd::prelude::*;

verus! {

/// The name under which a palette holds the default foreground colour.
pub const FOREGROUND_COLOUR_KEY: &'static str = "foreground";

/// The name under which a palette holds the default background colour.
pub const BACKGROUND_COLOUR_KEY: &'static str = "background";

/// One colour of a palette under its name.
#[derive(Debug)]
pub struct PaletteEntry {
    pub key: Vec<char>,
    pub colour: PaletteColour,
}

/// A palette as a table: the colours under their names, each name once.
///
/// The 256 indexed colours stand under their index in decimal. The default
/// foreground and background stand under names of their own.
#[derive(Debug)]
pub struct PaletteHashMap {
    pub entries: Vec<PaletteEntry>,
}

/// The table that a sequence of entries stands for. A later entry would
/// override an earlier one of the same name.
pub open spec fn table_of(entries: Seq<PaletteEntry>) -> Map<Seq<char>, PaletteColour>
    decreases entries.len(),
{
    if entries.len() == 0 {
        Map::empty()
    } else {
        table_of(entries.drop_last()).insert(entries.last().key@, entries.last().colour)
    }
}

/// No name stands twice among the entries.
pub open spec fn distinct_keys(entries: Seq<PaletteEntry>) -> bool {
    forall|i: int, j: int|
        0 <= i < j < entries.len() ==> (#[trigger] entries[i]).key@ != (#[trigger] entries[j]).key@
}

impl View for PaletteHashMap {
    type V = Map<Seq<char>, PaletteColour>;

    open spec fn view(&self) -> Map<Seq<char>, PaletteColour> {
        table_of(self.entries@)
    }
}

/// A name is in the table exactly if an entry has it.
pub proof fn lemma_table_keys(entries: Seq<PaletteEntry>, key: Seq<char>)
    ensures
        table_of(entries).contains_key(key) <==> exists|i: int|
            0 <= i < entries.len() && (#[trigger] entries[i]).key@ == key,
    decreases entries.len(),
{
    if entries.len() > 0 {
        let front = entries.drop_last();
        lemma_table_keys(front, key);
        if exists|i: int| 0 <= i < entries.len() && (#[trigger] entries[i]).key@ == key {
            let i = choose|i: int| 0 <= i < entries.len() && (#[trigger] entries[i]).key@ == key;
            if i < entries.len() - 1 {
                assert(front[i].key@ == key);
            }
        }
    }
}

/// Among distinct names, the table holds under the name of an entry the
/// colour of that entry.
pub proof fn lemma_table_value(entries: Seq<PaletteEntry>, at: int)
    requires
        distinct_keys(entries),
        0 <= at < entries.len(),
    ensures
        table_of(entries).contains_key(entries[at].key@),
        table_of(entries)[entries[at].key@] == entries[at].colour,
    decreases entries.len(),
{
    let front = entries.drop_last();
    if at < entries.len() - 1 {
        assert(distinct_keys(front)) by {
            assert forall|i: int, j: int| 0 <= i < j < front.len() implies (#[trigger] front[i]).key@
                != (#[trigger] front[j]).key@ by {}
        }
        lemma_table_value(front, at);
    }
}

/// Among distinct names, the table has as many names as there are entries.
pub proof fn lemma_table_size(entries: Seq<PaletteEntry>)
    requires
        distinct_keys(entries),
    ensures
        table_of(entries).dom().finite(),
        table_of(entries).dom().len() == entries.len(),
    decreases entries.len(),
{
    if entries.len() > 0 {
        let front = entries.drop_last();
        lemma_table_size(front);
        lemma_table_keys(front, entries.last().key@);
    }
}

/// Among distinct names, a new colour for the name of an entry is the table
/// with that name set anew.
pub proof fn lemma_table_update(entries: Seq<PaletteEntry>, at: int, entry: PaletteEntry)
    requires
        distinct_keys(entries),
        0 <= at < entries.len(),
        entry.key@ == entries[at].key@,
    ensures
        distinct_keys(entries.update(at, entry)),
        table_of(entries.update(at, entry)) == table_of(entries).insert(entry.key@, entry.colour),
    decreases entries.len(),
{
    let updated = entries.update(at, entry);
    let front = entries.drop_last();
    if at == entries.len() - 1 {
        assert(updated.drop_last() =~= front);
    } else {
        lemma_table_update(front, at, entry);
        assert(updated.drop_last() =~= front.update(at, entry));
    }
}

impl PaletteHashMap {
    /// No name stands twice.
    pub open spec fn wf(&self) -> bool {
        distinct_keys(self.entries@)
    }

    /// A table without colours.
    pub fn new() -> (table: PaletteHashMap)
        ensures
            table.wf(),
            table@ == Map::<Seq<char>, PaletteColour>::empty(),
            table.entries.len() == 0,
    {
        PaletteHashMap { entries: Vec::new() }
    }

    /// How many names the table has.
    pub fn len(&self) -> (count: usize)
        requires
            self.wf(),
        ensures
            count == self@.dom().len(),
            self@.dom().finite(),
    {
        proof {
            lemma_table_size(self.entries@);
        }
        self.entries.len()
    }

    fn position(&self, key: &[char]) -> (found: Option<usize>)
        ensures
            found is None <==> !self@.contains_key(key@),
            found matches Some(at) ==> at < self.entries.len() && self.entries[at as int].key@ == key@,
    {
        let mut index: usize = 0;
        while index < self.entries.len()
            invariant
                index <= self.entries.len(),
                forall|k: int| 0 <= k < index ==> (#[trigger] self.entries[k]).key@ != key@,
            decreases self.entries.len() - index,
        {
            if same_chars(self.entries[index].key.as_slice(), key) {
                proof {
                    lemma_table_keys(self.entries@, key@);
                }
                return Some(index);
            }
            index = index + 1;
        }
        proof {
            lemma_table_keys(self.entries@, key@);
        }
        None
    }

    /// The colour under a name, given as characters.
    pub fn get_chars(&self, key: &[char]) -> (found: Option<PaletteColour>)
        requires
            self.wf(),
        ensures
            found == (if self@.contains_key(key@) {
                Some(self@[key@])
            } else {
                None
            }),
    {
        match self.position(key) {
            None => None,
            Some(at) => {
                proof {
                    lemma_table_value(self.entries@, at as int);
                }
                Some(self.entries[at].colour)
            },
        }
    }

    /// The colour under a name.
    pub fn get(&self, key: &str) -> (found: Option<PaletteColour>)
        requires
            self.wf(),
        ensures
            found == (if self@.contains_key(key@) {
                Some(self@[key@])
            } else {
                None
            }),
    {
        let characters = to_chars(key);
        self.get_chars(characters.as_slice())
    }

    /// Puts a colour under a name, in place of the colour that the name had.
    pub fn insert(&mut self, key: Vec<char>, colour: PaletteColour)
        requires
            old(self).wf(),
        ensures
            final(self).wf(),
            final(self)@ == old(self)@.insert(key@, colour),
    {
        match self.position(key.as_slice()) {
            Some(at) => {
                proof {
                    lemma_table_update(self.entries@, at as int, PaletteEntry { key, colour });
                }
                self.entries[at] = PaletteEntry { key, colour };
            },
            None => {
                proof {
                    lemma_table_keys(self.entries@, key@);
                    let entry = PaletteEntry { key, colour };
                    let extended = self.entries@.push(entry);
                    assert(extended.drop_last() =~= self.entries@);
                }
                self.entries.push(PaletteEntry { key, colour });
            },
        }
    }
}

} // verus!
