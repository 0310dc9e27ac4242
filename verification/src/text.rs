//! Small verified operations on strings, stated over their character sequences.

use vstd::prelude::*;

verus! {

/// A list of strings as a list of character sequences.
pub open spec fn views(list: Seq<String>) -> Seq<Seq<char>> {
    list.map_values(|text: String| text@)
}

/// The parts in order, with `separator` between each two neighbours.
pub open spec fn joined(parts: Seq<Seq<char>>, separator: Seq<char>) -> Seq<char>
    decreases parts.len(),
{
    if parts.len() == 0 {
        Seq::empty()
    } else if parts.len() == 1 {
        parts[0]
    } else {
        joined(parts.drop_last(), separator) + separator + parts.last()
    }
}

/// The parts in order, one after the other with nothing between them.
pub open spec fn concatenated(parts: Seq<Seq<char>>) -> Seq<char> {
    joined(parts, Seq::empty())
}

/// Concatenating puts each further part directly behind what came before.
pub proof fn concatenated_appends(parts: Seq<Seq<char>>, part: Seq<char>)
    ensures
        concatenated(parts.push(part)) == concatenated(parts) + part,
        concatenated(Seq::empty()) == Seq::<char>::empty(),
{
    assert(parts.push(part).drop_last() =~= parts);
    assert(concatenated(parts.push(part)) =~= concatenated(parts) + part);
}

/// A text takes at most four bytes for each of its characters.
pub proof fn bytes_are_bounded_by_chars(text: Seq<char>)
    ensures
        vstd::utf8::encode_utf8(text).len() <= 4 * text.len(),
    decreases text.len(),
{
    if text.len() > 0 {
        bytes_are_bounded_by_chars(text.drop_first());
    }
}

/// The length of a text in bytes, as UTF-8.
pub fn byte_length(text: &str) -> (length: usize)
    ensures
        length == vstd::utf8::encode_utf8(text@).len(),
{
    text.as_bytes().len()
}

/// Whether `text` begins with `prefix`, character by character.
pub fn starts_with(text: &str, prefix: &str) -> (found: bool)
    ensures
        found == prefix@.is_prefix_of(text@),
{
    let wanted: usize = prefix.unicode_len();
    let given: usize = text.unicode_len();
    if given < wanted {
        return false;
    }
    let mut at: usize = 0;
    while at < wanted
        invariant
            at <= wanted <= given,
            wanted == prefix@.len(),
            given == text@.len(),
            forall|k: int| 0 <= k < at ==> prefix@[k] == text@[k],
        decreases wanted - at,
    {
        if prefix.get_char(at) != text.get_char(at) {
            return false;
        }
        at += 1;
    }
    true
}

/// A copy of a list of strings.
pub fn copy_texts(list: &Vec<String>) -> (copy: Vec<String>)
    ensures
        views(copy@) == views(list@),
{
    let mut copy: Vec<String> = Vec::new();
    let mut at: usize = 0;
    while at < list.len()
        invariant
            at <= list.len(),
            copy.len() == at,
            forall|k: int| 0 <= k < at ==> copy@[k]@ == list@[k]@,
        decreases list.len() - at,
    {
        copy.push(list[at].clone());
        at += 1;
    }
    copy
}

/// Joins the parts with `separator` between each two neighbours.
pub fn join(parts: &Vec<String>, separator: &str) -> (whole: String)
    ensures
        whole@ == joined(views(parts@), separator@),
{
    let mut whole = String::new();
    let mut at: usize = 0;
    while at < parts.len()
        invariant
            at <= parts.len(),
            whole@ == joined(views(parts@).take(at as int), separator@),
        decreases parts.len() - at,
    {
        assert(views(parts@).take(at + 1).drop_last() =~= views(parts@).take(at as int));
        if at > 0 {
            whole.append(separator);
        }
        whole.append(list_item(parts, at));
        at += 1;
    }
    assert(views(parts@).take(parts.len() as int) =~= views(parts@));
    whole
}

/// Puts the parts one after the other, with nothing between them.
pub fn concatenate(parts: &Vec<String>) -> (whole: String)
    ensures
        whole@ == concatenated(views(parts@)),
{
    proof {
        reveal_strlit("");
        assert(""@ =~= Seq::<char>::empty());
    }
    join(parts, "")
}

/// One string of a list, borrowed.
fn list_item(list: &Vec<String>, at: usize) -> (item: &str)
    requires
        at < list.len(),
    ensures
        item@ == list@[at as int]@,
{
    list[at].as_str()
}

} // verus!
