use vstd::prelude::*;

verus! {

/// `name` with an underscore standing before the character at `cursor_pos`, or after the
/// last character when `cursor_pos` is at or past the end.
pub open spec fn with_cursor(name: Seq<char>, cursor_pos: nat) -> Seq<char> {
    let c = if cursor_pos < name.len() { cursor_pos as int } else { name.len() as int };
    name.take(c) + seq!['_'] + name.skip(c)
}

pub fn format_name_with_cursor(name: &str, cursor_pos: usize) -> (r: String)
    ensures
        r@ == with_cursor(name@, cursor_pos as nat),
{
    let n = name.unicode_len();
    let cursor = if cursor_pos < n { cursor_pos } else { n };
    proof {
        reveal_strlit("_");
    }
    let mut r = name.substring_char(0, cursor).to_owned();
    r.append("_");
    r.append(name.substring_char(cursor, n));
    assert(name@.subrange(0, cursor as int) =~= name@.take(cursor as int));
    assert(name@.subrange(cursor as int, n as int) =~= name@.skip(cursor as int));
    r
}

} // verus!
