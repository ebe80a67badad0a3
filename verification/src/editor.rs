//! The editor core: a line buffer of Unicode codepoints with a cursor, a
//! derived transliterated output that is recomputed after every buffer
//! mutation, and the commit action that empties the buffer and hands the
//! finished output to the configured clipboard backend.
use vstd::prelude::*;
use crate::transliteration::{transliterate_chars, transliterate_spec};

verus! {

/// One concrete mechanism for placing text on the system clipboard. The
/// choice is made once at startup and never changes during a session.
#[derive(Clone, Copy, Debug, PartialEq, Eq, Structural)]
pub enum ClipboardBackend {
    /// The in-process clipboard library.
    Arboard,
    /// The external `xclip` utility, fed over its standard input.
    Xclip,
    /// The external `wl-copy` utility, fed over its standard input.
    WlClipboard,
}

/// An edit command recognized by the editor core. Ending the session is a
/// pure control transition outside the editor and has no command here.
#[derive(Clone, Copy, Debug)]
pub enum EditCommand {
    /// Insert one codepoint at the cursor.
    InsertChar(char),
    /// Delete the codepoint immediately before the cursor, if any.
    DeleteBackward,
    /// Move the cursor one codepoint to the left, saturating at the start.
    MoveLeft,
    /// Move the cursor one codepoint to the right, saturating at the end.
    MoveRight,
    /// Send the output to the clipboard backend and reset the buffer.
    Commit,
}

/// What a commit asks of the surrounding program: place `text` on the
/// system clipboard through `backend`.
#[derive(Debug)]
pub struct ClipboardRequest {
    pub backend: ClipboardBackend,
    pub text: String,
}

/// A position bounded into `[0, len]`.
pub open spec fn clamped(pos: int, len: int) -> int {
    if pos <= len {
        pos
    } else {
        len
    }
}

/// The editor model of one insertion: the codepoint goes in immediately
/// before the cursor and the cursor advances past it.
pub open spec fn inserted(input: Seq<char>, cursor: int, c: char) -> (Seq<char>, int) {
    (input.insert(cursor, c), cursor + 1)
}

/// The editor model of one backward deletion: at the left edge the buffer
/// and the cursor stay as they are; otherwise the codepoint before the
/// cursor goes away and the cursor moves onto its place.
pub open spec fn deleted(input: Seq<char>, cursor: int) -> (Seq<char>, int) {
    if cursor == 0 {
        (input, 0int)
    } else {
        (input.remove(cursor - 1), cursor - 1)
    }
}

/// The editor model of one command: what a single step does to the buffer
/// and the cursor. A commit empties the buffer and resets the cursor.
pub open spec fn stepped(input: Seq<char>, cursor: int, cmd: EditCommand) -> (Seq<char>, int) {
    match cmd {
        EditCommand::InsertChar(c) => inserted(input, cursor, c),
        EditCommand::DeleteBackward => deleted(input, cursor),
        EditCommand::MoveLeft => (
            input,
            clamped(
                if cursor > 0 {
                    cursor - 1
                } else {
                    0int
                },
                input.len() as int,
            ),
        ),
        EditCommand::MoveRight => (input, clamped(cursor + 1, input.len() as int)),
        EditCommand::Commit => (Seq::<char>::empty(), 0int),
    }
}

/// The number of bytes UTF-8 uses to encode the codepoint `c`.
pub open spec fn utf8_len(c: char) -> int {
    if (c as u32) < 0x80 {
        1
    } else if (c as u32) < 0x800 {
        2
    } else if (c as u32) < 0x10000 {
        3
    } else {
        4
    }
}

/// The number of bytes UTF-8 uses to encode the codepoints of `s`.
pub open spec fn utf8_len_seq(s: Seq<char>) -> int
    decreases s.len(),
{
    if s.len() == 0 {
        0
    } else {
        utf8_len_seq(s.drop_last()) + utf8_len(s.last())
    }
}

/// How many bytes UTF-8 uses for one codepoint, read off the scalar value.
pub fn char_utf8_len(c: char) -> (r: usize)
    ensures
        r as int == utf8_len(c),
{
    let u = c as u32;
    if u < 0x80 {
        1
    } else if u < 0x800 {
        2
    } else if u < 0x10000 {
        3
    } else {
        4
    }
}

/// The editor state: the raw input text, the cursor position counted in
/// codepoints, the derived transliterated output, and the clipboard backend
/// chosen at startup.
pub struct EditorState {
    input: Vec<char>,
    output: String,
    cursor: usize,
    backend: ClipboardBackend,
}

impl EditorState {
    /// The buffer as a sequence of codepoints.
    pub closed spec fn input_view(self) -> Seq<char> {
        self.input@
    }

    /// The derived output as a sequence of codepoints.
    pub closed spec fn output_view(self) -> Seq<char> {
        self.output@
    }

    /// The cursor position, counted in codepoints from the start.
    pub closed spec fn cursor_at(self) -> int {
        self.cursor as int
    }

    /// The clipboard backend chosen at startup.
    pub closed spec fn backend_sel(self) -> ClipboardBackend {
        self.backend
    }

    /// The cursor never leaves `[0, codepoint_count(input)]`.
    pub open spec fn cursor_in_range(self) -> bool {
        0 <= self.cursor_at() <= self.input_view().len()
    }

    /// The output is exactly the transliteration of the current input.
    pub open spec fn output_synced(self) -> bool {
        self.output_view() == transliterate_spec(self.input_view())
    }

    /// Both editor invariants at once.
    pub open spec fn well_formed(self) -> bool {
        self.cursor_in_range() && self.output_synced()
    }

    /// A fresh session: empty buffer, cursor at the start, output already
    /// the transliteration of the empty text, backend as configured.
    pub fn new(backend: ClipboardBackend) -> (s: EditorState)
        ensures
            s.well_formed(),
            s.input_view() == Seq::<char>::empty(),
            s.cursor_at() == 0,
            s.output_view() == Seq::<char>::empty(),
            s.backend_sel() == backend,
    {
        let input: Vec<char> = Vec::new();
        let output = transliterate_chars(&input);
        proof {
            assert(output@ =~= Seq::<char>::empty());
            assert(input@ =~= Seq::<char>::empty());
        }
        EditorState { input, output, cursor: 0, backend }
    }

    /// Bound a prospective cursor position into the current buffer,
    /// re-deriving the upper end from the present length of the input.
    pub fn clamp_cursor(&self, pos: usize) -> (r: usize)
        ensures
            r as int == clamped(pos as int, self.input_view().len() as int),
    {
        let n = self.input.len();
        if pos > n {
            n
        } else {
            pos
        }
    }

    /// Move the cursor one codepoint left, saturating at the start.
    /// The buffer and the output are untouched.
    pub fn move_left(&mut self)
        ensures
            final(self).input_view() == old(self).input_view(),
            final(self).output_view() == old(self).output_view(),
            final(self).backend_sel() == old(self).backend_sel(),
            final(self).cursor_at() == clamped(
                if old(self).cursor_at() > 0 {
                    old(self).cursor_at() - 1
                } else {
                    0int
                },
                final(self).input_view().len() as int,
            ),
            old(self).well_formed() ==> final(self).well_formed(),
    {
        let moved: usize = if self.cursor > 0 {
            self.cursor - 1
        } else {
            0
        };
        self.cursor = self.clamp_cursor(moved);
    }

    /// Move the cursor one codepoint right, saturating at the end of the
    /// buffer. The buffer and the output are untouched.
    pub fn move_right(&mut self)
        ensures
            final(self).input_view() == old(self).input_view(),
            final(self).output_view() == old(self).output_view(),
            final(self).backend_sel() == old(self).backend_sel(),
            final(self).cursor_at() == clamped(
                old(self).cursor_at() + 1,
                final(self).input_view().len() as int,
            ),
            old(self).well_formed() ==> final(self).well_formed(),
    {
        let n = self.input.len();
        let moved: usize = if self.cursor < n {
            self.cursor + 1
        } else {
            self.cursor
        };
        self.cursor = self.clamp_cursor(moved);
    }

    /// Put the cursor back at the start of the buffer.
    pub fn reset_cursor(&mut self)
        ensures
            final(self).input_view() == old(self).input_view(),
            final(self).output_view() == old(self).output_view(),
            final(self).backend_sel() == old(self).backend_sel(),
            final(self).cursor_at() == 0,
    {
        self.cursor = 0;
    }

    /// Recompute the derived output from the current input by handing the
    /// whole text to the external transliterator.
    pub fn recompute_output(&mut self)
        ensures
            final(self).input_view() == old(self).input_view(),
            final(self).cursor_at() == old(self).cursor_at(),
            final(self).backend_sel() == old(self).backend_sel(),
            final(self).output_synced(),
            final(self).input_view().len() == 0 ==> final(self).output_view().len() == 0,
    {
        self.output = transliterate_chars(&self.input);
    }

    /// Insert `c` immediately before the codepoint at the cursor (at the
    /// end when the cursor sits past the last one), advance the cursor past
    /// it, and recompute the output from the new buffer.
    pub fn insert(&mut self, c: char)
        requires
            old(self).cursor_in_range(),
            old(self).input_view().len() < usize::MAX,
        ensures
            final(self).well_formed(),
            final(self).input_view() == old(self).input_view().insert(old(self).cursor_at(), c),
            final(self).cursor_at() == old(self).cursor_at() + 1,
            final(self).backend_sel() == old(self).backend_sel(),
    {
        self.input.insert(self.cursor, c);
        self.move_right();
        self.recompute_output();
    }

    /// Delete the single codepoint immediately before the cursor and move
    /// the cursor onto its place. At the left edge the buffer and the
    /// cursor stay exactly as they are, but the output is refreshed either
    /// way.
    pub fn delete_before_cursor(&mut self)
        requires
            old(self).cursor_in_range(),
        ensures
            final(self).well_formed(),
            ({
                let st = deleted(old(self).input_view(), old(self).cursor_at());
                final(self).input_view() == st.0 && final(self).cursor_at() == st.1
            }),
            old(self).cursor_at() == 0 ==> final(self).input_view() == old(self).input_view()
                && final(self).cursor_at() == 0,
            final(self).backend_sel() == old(self).backend_sel(),
    {
        if self.cursor != 0 {
            self.input.remove(self.cursor - 1);
            self.move_left();
        }
        self.recompute_output();
    }

    /// Commit: hand back the output as it stood before the reset, clear
    /// the buffer, put the cursor at the start, and recompute the now
    /// empty output. The request names the backend chosen at startup.
    pub fn commit(&mut self) -> (req: ClipboardRequest)
        ensures
            req.backend == old(self).backend_sel(),
            req.text@ == old(self).output_view(),
            final(self).well_formed(),
            final(self).input_view() == Seq::<char>::empty(),
            final(self).cursor_at() == 0,
            final(self).output_view() == transliterate_spec(Seq::<char>::empty()),
            final(self).output_view() == Seq::<char>::empty(),
            final(self).backend_sel() == old(self).backend_sel(),
    {
        let text = self.output.clone();
        self.input.clear();
        self.reset_cursor();
        self.recompute_output();
        proof {
            assert(self.output@ =~= Seq::<char>::empty());
        }
        ClipboardRequest { backend: self.backend, text }
    }

    /// One step of the session's state machine: apply one command; for a
    /// commit, hand back the clipboard request the surrounding program must
    /// perform. Cursor moves leave the output untouched; every other
    /// command leaves it freshly recomputed.
    pub fn apply(&mut self, cmd: EditCommand) -> (req: Option<ClipboardRequest>)
        requires
            old(self).cursor_in_range(),
            old(self).input_view().len() < usize::MAX,
        ensures
            ({
                let st = stepped(old(self).input_view(), old(self).cursor_at(), cmd);
                final(self).input_view() == st.0 && final(self).cursor_at() == st.1
            }),
            final(self).cursor_in_range(),
            final(self).backend_sel() == old(self).backend_sel(),
            old(self).output_synced() ==> final(self).well_formed(),
            !(cmd is MoveLeft || cmd is MoveRight) ==> final(self).output_synced(),
            cmd is MoveLeft || cmd is MoveRight ==> final(self).output_view() == old(
                self,
            ).output_view(),
            cmd is Commit ==> (req matches Some(r) && r.backend == old(self).backend_sel()
                && r.text@ == old(self).output_view()),
            !(cmd is Commit) ==> req is None,
    {
        match cmd {
            EditCommand::InsertChar(c) => {
                self.insert(c);
                None
            },
            EditCommand::DeleteBackward => {
                self.delete_before_cursor();
                None
            },
            EditCommand::MoveLeft => {
                self.move_left();
                None
            },
            EditCommand::MoveRight => {
                self.move_right();
                None
            },
            EditCommand::Commit => {
                Some(self.commit())
            },
        }
    }

    /// The byte offset in the UTF-8 encoding of the buffer at which the
    /// codepoint at the cursor would start: the summed encoded lengths of
    /// the codepoints before the cursor. Because it is a sum of whole
    /// codepoint lengths, the offset always lies on a codepoint boundary
    /// of the encoded text.
    pub fn byte_index(&self) -> (r: usize)
        requires
            self.cursor_in_range(),
            4 * self.input_view().len() <= usize::MAX,
        ensures
            r as int == utf8_len_seq(self.input_view().take(self.cursor_at())),
    {
        let mut total: usize = 0;
        let mut i: usize = 0;
        while i < self.cursor
            invariant
                self.cursor_in_range(),
                4 * self.input_view().len() <= usize::MAX,
                i <= self.cursor,
                total as int == utf8_len_seq(self.input_view().take(i as int)),
                total <= 4 * i,
            decreases self.cursor - i,
        {
            proof {
                let s = self.input_view();
                assert(s.take(i as int + 1).drop_last() =~= s.take(i as int));
                assert(s.take(i as int + 1).last() == s[i as int]);
            }
            total = total + char_utf8_len(self.input[i]);
            i = i + 1;
        }
        total
    }

    /// The current buffer, one element per codepoint.
    pub fn input(&self) -> (r: &Vec<char>)
        ensures
            r@ == self.input_view(),
    {
        &self.input
    }

    /// The current derived output.
    pub fn output(&self) -> (r: &String)
        ensures
            r@ == self.output_view(),
    {
        &self.output
    }

    /// The current cursor position in codepoints.
    pub fn cursor(&self) -> (r: usize)
        ensures
            r as int == self.cursor_at(),
    {
        self.cursor
    }

    /// The clipboard backend this session was configured with.
    pub fn backend(&self) -> (r: ClipboardBackend)
        ensures
            r == self.backend_sel(),
    {
        self.backend
    }
}

} // verus!
