//! Laws of the editor core, stated over the same models that the editor's
//! contracts use and proved once for all inputs.
use vstd::prelude::*;
use crate::editor::{deleted, inserted, stepped, utf8_len_seq, EditCommand};

verus! {

/// The buffer and cursor after typing the codepoints of `cs` in order into
/// an empty buffer whose cursor starts at the beginning.
pub open spec fn typed(cs: Seq<char>) -> (Seq<char>, int)
    decreases cs.len(),
{
    if cs.len() == 0 {
        (Seq::<char>::empty(), 0int)
    } else {
        let prev = typed(cs.drop_last());
        inserted(prev.0, prev.1, cs.last())
    }
}

/// Round trip: typing the codepoints `c1, c2, ..., cn` in order into an
/// empty buffer yields exactly the text `c1 c2 ... cn`, with the cursor
/// standing after the last codepoint.
pub proof fn lemma_typed_round_trip(cs: Seq<char>)
    ensures
        typed(cs).0 =~= cs,
        typed(cs).1 == cs.len(),
    decreases cs.len(),
{
    if cs.len() > 0 {
        lemma_typed_round_trip(cs.drop_last());
        assert(typed(cs).0 =~= cs);
    }
}

/// Inserting a codepoint and deleting backward immediately after restores
/// the buffer and the cursor exactly. The model is a sequence of whole
/// codepoints, so this holds for multi-byte codepoints just as for ASCII:
/// no partial character can remain.
pub proof fn lemma_insert_then_delete(input: Seq<char>, cursor: int, c: char)
    requires
        0 <= cursor <= input.len(),
    ensures
        ({
            let ins = inserted(input, cursor, c);
            deleted(ins.0, ins.1).0 =~= input && deleted(ins.0, ins.1).1 == cursor
        }),
{
    let ins = inserted(input, cursor, c);
    assert(deleted(ins.0, ins.1).0 =~= input);
}

/// Splitting the buffer at a codepoint index splits its UTF-8 encoding
/// exactly: the encoded lengths of the prefix and of the suffix add up to
/// the encoded length of the whole text. Every split the editor makes is
/// taken at such an index, so none can cut through an encoded codepoint.
pub proof fn lemma_split_at_codepoint_boundary(s: Seq<char>, i: int)
    requires
        0 <= i <= s.len(),
    ensures
        utf8_len_seq(s.take(i)) + utf8_len_seq(s.skip(i)) == utf8_len_seq(s),
    decreases s.len(),
{
    if i == s.len() {
        assert(s.take(i) =~= s);
        assert(s.skip(i) =~= Seq::<char>::empty());
    } else {
        lemma_split_at_codepoint_boundary(s.drop_last(), i);
        assert(s.drop_last().take(i) =~= s.take(i));
        assert(s.skip(i).drop_last() =~= s.drop_last().skip(i));
        assert(s.skip(i).last() == s.last());
    }
}

/// The state after a whole run of commands, first command first.
pub open spec fn stepped_all(input: Seq<char>, cursor: int, cmds: Seq<EditCommand>) -> (
    Seq<char>,
    int,
)
    decreases cmds.len(),
{
    if cmds.len() == 0 {
        (input, cursor)
    } else {
        let mid = stepped(input, cursor, cmds.first());
        stepped_all(mid.0, mid.1, cmds.drop_first())
    }
}

/// A single command keeps the cursor inside `[0, codepoint_count(input)]`.
pub proof fn lemma_stepped_in_range(input: Seq<char>, cursor: int, cmd: EditCommand)
    requires
        0 <= cursor <= input.len(),
    ensures
        ({
            let st = stepped(input, cursor, cmd);
            0 <= st.1 <= st.0.len()
        }),
{
}

/// The cursor bound is an invariant of every run of commands: starting
/// from any state whose cursor is in range, after any sequence of insert,
/// delete, move and commit commands the cursor is still in range.
pub proof fn lemma_cursor_always_in_range(input: Seq<char>, cursor: int, cmds: Seq<EditCommand>)
    requires
        0 <= cursor <= input.len(),
    ensures
        ({
            let fin = stepped_all(input, cursor, cmds);
            0 <= fin.1 <= fin.0.len()
        }),
    decreases cmds.len(),
{
    if cmds.len() > 0 {
        let mid = stepped(input, cursor, cmds.first());
        lemma_stepped_in_range(input, cursor, cmds.first());
        lemma_cursor_always_in_range(mid.0, mid.1, cmds.drop_first());
    }
}

} // verus!
