//! Texts as sequences of characters: searching and splitting.
use vstd::prelude::*;
use vstd::std_specs::iter::IteratorSpec;

verus! {

/// Whether `pattern` stands in `text` at position `at`.
pub open spec fn matches_at(text: Seq<char>, pattern: Seq<char>, at: int) -> bool {
    &&& 0 <= at
    &&& at + pattern.len() <= text.len()
    &&& text.subrange(at, at + pattern.len()) == pattern
}

/// Where `pattern` first stands in `text` at or after `from`.
pub open spec fn find_from(text: Seq<char>, pattern: Seq<char>, from: int) -> Option<int>
    decreases text.len() - from,
{
    if from < 0 || from + pattern.len() > text.len() {
        None
    } else if matches_at(text, pattern, from) {
        Some(from)
    } else if from >= text.len() {
        None
    } else {
        find_from(text, pattern, from + 1)
    }
}

/// The pieces of `text` between the places where `pattern` stands, from left
/// to right. A place that overlaps the one before it does not count. There
/// is always at least one piece, and a piece may be empty.
pub open spec fn split(text: Seq<char>, pattern: Seq<char>) -> Seq<Seq<char>>
    recommends
        pattern.len() > 0,
    decreases text.len(),
{
    if pattern.len() == 0 {
        seq![text]
    } else {
        match find_from(text, pattern, 0) {
            None => seq![text],
            Some(at) => if 0 <= at && at + pattern.len() <= text.len() {
                seq![text.take(at)] + split(text.skip(at + pattern.len()), pattern)
            } else {
                seq![text]
            },
        }
    }
}

/// Whether `text` begins with `prefix`.
pub open spec fn starts_with(text: Seq<char>, prefix: Seq<char>) -> bool {
    matches_at(text, prefix, 0)
}

/// The first `count` characters of a text, or all of it where it has fewer.
pub open spec fn first_chars(text: Seq<char>, count: nat) -> Seq<char> {
    if count >= text.len() {
        text
    } else {
        text.take(count as int)
    }
}

/// The last `count` characters of a text, or all of it where it has fewer.
pub open spec fn last_chars(text: Seq<char>, count: nat) -> Seq<char> {
    if count >= text.len() {
        text
    } else {
        text.skip(text.len() - count)
    }
}

/// The characters of the pieces.
pub open spec fn pieces_view(pieces: Seq<Vec<char>>) -> Seq<Seq<char>> {
    pieces.map_values(|piece: Vec<char>| piece@)
}

/// The characters of a text.
pub fn to_chars(text: &str) -> (characters: Vec<char>)
    ensures
        characters@ == text@,
{
    let mut characters: Vec<char> = Vec::new();
    let mut chars = text.chars();
    loop
        invariant
            characters.len() <= text@.len(),
            characters@ == text@.take(characters.len() as int),
            chars.remaining() == text@.skip(characters.len() as int),
        decreases text@.len() - characters.len(),
    {
        match chars.next() {
            None => {
                return characters;
            },
            Some(character) => {
                characters.push(character);
            },
        }
    }
}

/// The text of a sequence of characters.
pub fn from_chars(characters: &[char]) -> (text: String)
    ensures
        text@ == characters@,
{
    let mut text = String::new();
    let mut index: usize = 0;
    while index < characters.len()
        invariant
            index <= characters.len(),
            text@ == characters@.take(index as int),
        decreases characters.len() - index,
    {
        text.push(characters[index]);
        index = index + 1;
    }
    text
}

/// A copy of the characters from `from` up to `to`.
pub fn copy_range(text: &[char], from: usize, to: usize) -> (piece: Vec<char>)
    requires
        from <= to <= text.len(),
    ensures
        piece@ == text@.subrange(from as int, to as int),
{
    let mut piece: Vec<char> = Vec::new();
    let mut index: usize = from;
    while index < to
        invariant
            from <= index <= to,
            to <= text.len(),
            piece@ == text@.subrange(from as int, index as int),
        decreases to - index,
    {
        piece.push(text[index]);
        index = index + 1;
    }
    piece
}

/// Decides `matches_at`.
pub fn is_match_at(text: &[char], pattern: &[char], at: usize) -> (found: bool)
    ensures
        found == matches_at(text@, pattern@, at as int),
{
    if pattern.len() > text.len() || at > text.len() - pattern.len() {
        return false;
    }
    let mut index: usize = 0;
    while index < pattern.len()
        invariant
            index <= pattern.len(),
            at + pattern.len() <= text.len(),
            forall|k: int| 0 <= k < index ==> text@[at + k] == pattern@[k],
        decreases pattern.len() - index,
    {
        if text[at + index] != pattern[index] {
            return false;
        }
        index = index + 1;
    }
    proof {
        assert(text@.subrange(at as int, at + pattern.len()) =~= pattern@);
    }
    true
}

/// Finds where `pattern` first stands in `text` at or after `from`.
pub fn find(text: &[char], pattern: &[char], from: usize) -> (found: Option<usize>)
    ensures
        found is None <==> find_from(text@, pattern@, from as int) is None,
        found matches Some(at) ==> find_from(text@, pattern@, from as int) == Some(at as int)
            && from <= at && at + pattern.len() <= text.len(),
{
    if pattern.len() > text.len() {
        return None;
    }
    let last: usize = text.len() - pattern.len();
    let mut at: usize = from;
    while at <= last
        invariant
            from <= at,
            last == text.len() - pattern.len(),
            find_from(text@, pattern@, from as int) == find_from(text@, pattern@, at as int),
        decreases last - at,
    {
        if is_match_at(text, pattern, at) {
            return Some(at);
        }
        if at == last {
            proof {
                assert(find_from(text@, pattern@, at + 1) is None);
            }
            return None;
        }
        at = at + 1;
    }
    None
}

/// Decides `starts_with`.
pub fn has_prefix(text: &[char], prefix: &[char]) -> (found: bool)
    ensures
        found == starts_with(text@, prefix@),
{
    is_match_at(text, prefix, 0)
}

/// Splits a text at every place where `pattern` stands.
pub fn split_at_each(text: &[char], pattern: &[char]) -> (pieces: Vec<Vec<char>>)
    requires
        pattern.len() > 0,
    ensures
        pieces_view(pieces@) == split(text@, pattern@),
        pieces.len() >= 1,
{
    let mut pieces: Vec<Vec<char>> = Vec::new();
    let mut start: usize = 0;
    proof {
        assert(text@.skip(0) =~= text@);
    }
    loop
        invariant
            pattern.len() > 0,
            start <= text.len(),
            split(text@, pattern@) == pieces_view(pieces@) + split(
                text@.skip(start as int),
                pattern@,
            ),
        decreases text.len() - start,
    {
        let ghost rest = text@.skip(start as int);
        match find(text, pattern, start) {
            None => {
                proof {
                    lemma_find_in_rest(text@, pattern@, start as int, start as int);
                }
                pieces.push(copy_range(text, start, text.len()));
                return pieces;
            },
            Some(at) => {
                proof {
                    lemma_find_in_rest(text@, pattern@, start as int, start as int);
                    assert(rest.take(at - start) =~= text@.subrange(start as int, at as int));
                    assert(rest.skip(at - start + pattern.len()) =~= text@.skip(
                        at + pattern.len(),
                    ));
                }
                pieces.push(copy_range(text, start, at));
                start = at + pattern.len();
            },
        }
    }
}

/// Searching a text from `from` on finds what searching the rest of the
/// text after `start` finds, `start` places further.
pub proof fn lemma_find_in_rest(text: Seq<char>, pattern: Seq<char>, start: int, from: int)
    requires
        0 <= start <= from,
        start <= text.len(),
    ensures
        find_from(text, pattern, from) == match find_from(text.skip(start), pattern, from - start) {
            None => None::<int>,
            Some(at) => Some(at + start),
        },
    decreases text.len() - from,
{
    let rest = text.skip(start);
    if from + pattern.len() <= text.len() {
        assert(rest.subrange(from - start, from - start + pattern.len()) =~= text.subrange(
            from,
            from + pattern.len(),
        ));
        if !matches_at(text, pattern, from) && from < text.len() {
            lemma_find_in_rest(text, pattern, start, from + 1);
        }
    }
}

/// The pieces put together again, with `separator` between each two.
pub open spec fn join(pieces: Seq<Seq<char>>, separator: Seq<char>) -> Seq<char>
    decreases pieces.len(),
{
    if pieces.len() == 0 {
        Seq::empty()
    } else if pieces.len() == 1 {
        pieces[0]
    } else {
        join(pieces.drop_last(), separator) + separator + pieces.last()
    }
}

/// A text in which `replacement` stands wherever `pattern` stood, from left
/// to right.
pub open spec fn replaced(text: Seq<char>, pattern: Seq<char>, replacement: Seq<char>) -> Seq<char> {
    join(split(text, pattern), replacement)
}

/// Puts `replacement` wherever `pattern` stands in `text`.
pub fn replace_all(text: &[char], pattern: &[char], replacement: &[char]) -> (result: Vec<char>)
    requires
        pattern.len() > 0,
    ensures
        result@ == replaced(text@, pattern@, replacement@),
{
    let pieces = split_at_each(text, pattern);
    let ghost all = pieces_view(pieces@);
    let mut result: Vec<char> = Vec::new();
    let mut index: usize = 0;
    while index < pieces.len()
        invariant
            index <= pieces.len(),
            all == pieces_view(pieces@),
            result@ == join(all.take(index as int), replacement@),
        decreases pieces.len() - index,
    {
        if index > 0 {
            let mut between = copy_range(replacement, 0, replacement.len());
            result.append(&mut between);
        }
        let mut piece = copy_range(pieces[index].as_slice(), 0, pieces[index].len());
        result.append(&mut piece);
        proof {
            let next = all.take(index + 1);
            assert(next.drop_last() =~= all.take(index as int));
        }
        index = index + 1;
    }
    proof {
        assert(all.take(index as int) =~= all);
    }
    result
}

/// Whether two sequences of characters are the same.
pub fn same_chars(left: &[char], right: &[char]) -> (same: bool)
    ensures
        same == (left@ == right@),
{
    if left.len() != right.len() {
        return false;
    }
    let mut index: usize = 0;
    while index < left.len()
        invariant
            left.len() == right.len(),
            index <= left.len(),
            forall|k: int| 0 <= k < index ==> left@[k] == right@[k],
        decreases left.len() - index,
    {
        if left[index] != right[index] {
            return false;
        }
        index = index + 1;
    }
    proof {
        assert(left@ =~= right@);
    }
    true
}

/// Whether two texts are the same.
pub fn same_text(left: &str, right: &str) -> (same: bool)
    ensures
        same == (left@ == right@),
{
    let left_chars = to_chars(left);
    let right_chars = to_chars(right);
    same_chars(left_chars.as_slice(), right_chars.as_slice())
}

/// Whether one text comes before another in the dictionary, character by character.
pub open spec fn comes_before(left: Seq<char>, right: Seq<char>) -> bool
    decreases left.len(),
{
    if right.len() == 0 {
        false
    } else if left.len() == 0 {
        true
    } else if left[0] != right[0] {
        left[0] < right[0]
    } else {
        comes_before(left.drop_first(), right.drop_first())
    }
}

/// Decides `comes_before`.
pub fn is_before(left: &[char], right: &[char]) -> (before: bool)
    ensures
        before == comes_before(left@, right@),
{
    let mut index: usize = 0;
    proof {
        assert(left@.skip(0) =~= left@);
        assert(right@.skip(0) =~= right@);
    }
    loop
        invariant
            index <= left.len(),
            index <= right.len(),
            comes_before(left@, right@) == comes_before(
                left@.skip(index as int),
                right@.skip(index as int),
            ),
        decreases left.len() - index,
    {
        if index >= right.len() {
            return false;
        }
        if index >= left.len() {
            return true;
        }
        if left[index] != right[index] {
            return left[index] < right[index];
        }
        proof {
            assert(left@.skip(index as int).drop_first() =~= left@.skip(index + 1));
            assert(right@.skip(index as int).drop_first() =~= right@.skip(index + 1));
        }
        index = index + 1;
    }
}

/// No text comes before itself.
pub proof fn lemma_not_before_itself(text: Seq<char>)
    ensures
        !comes_before(text, text),
    decreases text.len(),
{
    if text.len() > 0 {
        lemma_not_before_itself(text.drop_first());
    }
}

/// What comes before a text comes before everything that the text comes before.
pub proof fn lemma_before_is_transitive(first: Seq<char>, second: Seq<char>, third: Seq<char>)
    requires
        comes_before(first, second),
        comes_before(second, third),
    ensures
        comes_before(first, third),
    decreases first.len(),
{
    if first.len() > 0 && second.len() > 0 && third.len() > 0 {
        if first[0] == second[0] && second[0] == third[0] {
            lemma_before_is_transitive(first.drop_first(), second.drop_first(), third.drop_first());
        }
    }
}

/// Of two texts that differ, one comes before the other.
pub proof fn lemma_before_is_total(left: Seq<char>, right: Seq<char>)
    requires
        left != right,
    ensures
        comes_before(left, right) || comes_before(right, left),
    decreases left.len(),
{
    if left.len() > 0 && right.len() > 0 && left[0] == right[0] {
        if left.drop_first() == right.drop_first() {
            assert(left =~= seq![left[0]] + left.drop_first());
            assert(right =~= seq![right[0]] + right.drop_first());
        }
        lemma_before_is_total(left.drop_first(), right.drop_first());
    } else if left.len() == 0 && right.len() == 0 {
        assert(left =~= right);
    }
}

} // verus!
