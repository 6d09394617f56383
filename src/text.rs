use vstd::prelude::*;
use vstd::string::StringExecFns;

verus! {

/// The text nodes of one element, joined with a single ASCII space between
/// consecutive nodes.
pub open spec fn joined(parts: Seq<Seq<char>>) -> Seq<char>
    decreases parts.len(),
{
    if parts.len() == 0 {
        Seq::<char>::empty()
    } else if parts.len() == 1 {
        parts[0]
    } else {
        joined(parts.drop_last()) + seq![' '] + parts.last()
    }
}

/// The plain text of a selection: the joined text of each selected element,
/// one element after the other, with nothing between elements.
pub open spec fn flattened(blocks: Seq<Seq<Seq<char>>>) -> Seq<char>
    decreases blocks.len(),
{
    if blocks.len() == 0 {
        Seq::<char>::empty()
    } else {
        flattened(blocks.drop_last()) + joined(blocks.last())
    }
}

/// Total number of characters over all parts.
pub open spec fn total_len(parts: Seq<Seq<char>>) -> nat
    decreases parts.len(),
{
    if parts.len() == 0 {
        0
    } else {
        total_len(parts.drop_last()) + parts.last().len()
    }
}

/// The model of a list of strings.
pub open spec fn strings_view(v: Seq<String>) -> Seq<Seq<char>> {
    v.map_values(|s: String| s@)
}

/// The model of a list of string lists.
pub open spec fn blocks_view(v: Seq<Vec<String>>) -> Seq<Seq<Seq<char>>> {
    v.map_values(|b: Vec<String>| strings_view(b@))
}

/// Joining puts exactly one separator between consecutive segments and none
/// before the first or after the last: the joined text of `n >= 1` segments is
/// as long as the segments together plus `n - 1` spaces.
pub proof fn lemma_joined_len(parts: Seq<Seq<char>>)
    requires
        parts.len() >= 1,
    ensures
        joined(parts).len() == total_len(parts) + parts.len() - 1,
    decreases parts.len(),
{
    if parts.len() > 1 {
        lemma_joined_len(parts.drop_last());
    } else {
        assert(total_len(parts.drop_last()) == 0);
        assert(parts.last() == parts[0]);
    }
}

/// Appending a segment to a non-empty list appends one space and that segment
/// to the joined text; a single segment is joined to itself.
pub proof fn lemma_joined_push(parts: Seq<Seq<char>>, p: Seq<char>)
    ensures
        parts.len() == 0 ==> joined(parts.push(p)) == p,
        parts.len() > 0 ==> joined(parts.push(p)) == joined(parts) + seq![' '] + p,
{
    assert(parts.push(p).drop_last() =~= parts);
}

/// Joins text nodes with exactly one space between consecutive nodes.
pub fn join_text(parts: &Vec<String>) -> (r: String)
    ensures
        r@ == joined(strings_view(parts@)),
{
    let mut r = String::new();
    let mut i: usize = 0;
    while i < parts.len()
        invariant
            i <= parts.len(),
            r@ == joined(strings_view(parts@.take(i as int))),
        decreases parts.len() - i,
    {
        let ghost before = strings_view(parts@.take(i as int));
        let ghost after = strings_view(parts@.take(i as int + 1));
        assert(after.drop_last() =~= before);
        assert(after.last() == parts@[i as int]@);
        if i > 0 {
            proof {
                reveal_strlit(" ");
            }
            r.append(" ");
        }
        r.append(parts[i].as_str());
        i = i + 1;
    }
    assert(parts@.take(parts.len() as int) =~= parts@);
    r
}

/// Concatenates the joined text of each element, in order.
pub fn flatten_text(blocks: &Vec<Vec<String>>) -> (r: String)
    ensures
        r@ == flattened(blocks_view(blocks@)),
{
    let mut r = String::new();
    let mut i: usize = 0;
    while i < blocks.len()
        invariant
            i <= blocks.len(),
            r@ == flattened(blocks_view(blocks@.take(i as int))),
        decreases blocks.len() - i,
    {
        let ghost before = blocks_view(blocks@.take(i as int));
        let ghost after = blocks_view(blocks@.take(i as int + 1));
        assert(after.drop_last() =~= before);
        let piece = join_text(&blocks[i]);
        r.append(piece.as_str());
        i = i + 1;
    }
    assert(blocks@.take(blocks.len() as int) =~= blocks@);
    r
}

} // verus!
