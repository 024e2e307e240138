//! The message session: owns the message-type descriptor and the committed
//! value (held as its wire bytes), mediates re-parse attempts from the edit
//! buffer, and renders the four synchronized views.
//!
//! The committed value changes only by wholesale replacement when a
//! re-parse succeeds; a failed re-parse leaves it untouched, is swallowed,
//! and never ends the session.

use crate::b64::{any_b64, decode_any_base64};
use crate::codec::{
    decodes, editable_projects, json_pretty, message_of, parse_commits, reencoded_len, reencodes,
    top_message_names, w_editable_json, w_json_pretty, w_message_by_name, w_parse_editable,
    w_reencode, w_text_format, MAX_EDIT_DEPTH,
};
use crate::dump::{ascii_dump, ascii_text, hex_dump, hex_text, lemma_dump_line_counts_equal};
use crate::edit_buffer::{edit_step, joined_text, EditBuffer, InputEvent};
use crate::error::{DecodeError, InspectError, SchemaError};
use crate::line_wrap::{wrap_line_count, wrapped_text};
use crate::schema::single_msg_name;
use crate::strutil::{
    copy_lines, json_depth, json_text_depth, split_lines, split_lines_spec, trim_end_spaces,
    trimmed_end,
};
use vstd::pervasive::unreached;
use vstd::prelude::*;

verus! {

/// One terminal input, as the inspector loop dispatches it: the designated
/// interrupt chord ends the session, anything else is an edit.
#[derive(Debug, Clone, Copy, PartialEq, Eq, Structural)]
pub enum TerminalEvent {
    Interrupt,
    Input(InputEvent),
}

/// The four synchronized views of one render: three derived from the
/// committed value, one from the live edit buffer.
pub struct Views {
    /// Pretty text-format dump of the committed value.
    pub structured: String,
    /// The committed value's wire bytes, as reserialized for this render.
    pub wire: Vec<u8>,
    /// Hex dump of those wire bytes, wrapped.
    pub hex: String,
    pub hex_lines: usize,
    /// Printable-character dump of the same bytes, wrapped.
    pub ascii: String,
    pub ascii_lines: usize,
    /// The edit buffer's lines, exactly as typed.
    pub editable: Vec<String>,
}

/// How one re-parse attempt of `text` against `md` relates the committed
/// bytes before (`old_bytes`) and after (`new_bytes`): a commit replaces
/// them with a parse result that decodes and reserializes; text too deeply
/// nested or failing to parse never commits; anything short of a commit
/// leaves them untouched.
pub open spec fn commit_step(
    md: protobuf::reflect::MessageDescriptor,
    old_bytes: Seq<u8>,
    new_bytes: Seq<u8>,
    text: Seq<char>,
    committed: bool,
) -> bool {
    &&& committed ==> json_depth(text) <= MAX_EDIT_DEPTH && parse_commits(md, text) && decodes(
        md,
        new_bytes,
    ) && reencodes(md, new_bytes)
    &&& !committed ==> new_bytes == old_bytes
    &&& json_depth(text) > MAX_EDIT_DEPTH ==> !committed
    &&& !parse_commits(md, text) ==> !committed
}

/// Law: an edit whose buffer text is too deeply nested or fails to
/// re-parse commits nothing — the committed value before and after the
/// attempt is the same value.
pub proof fn lemma_invalid_edit_keeps_committed(
    md: protobuf::reflect::MessageDescriptor,
    old_bytes: Seq<u8>,
    new_bytes: Seq<u8>,
    text: Seq<char>,
    committed: bool,
)
    requires
        json_depth(text) > MAX_EDIT_DEPTH || !parse_commits(md, text),
        commit_step(md, old_bytes, new_bytes, text, committed),
    ensures
        new_bytes == old_bytes,
        !committed,
{
}

pub struct Session {
    descriptor: protobuf::reflect::MessageDescriptor,
    committed: Vec<u8>,
    buffer: EditBuffer,
    wrap_width: usize,
    should_exit: bool,
}

impl Session {
    pub closed spec fn descriptor_of(self) -> protobuf::reflect::MessageDescriptor {
        self.descriptor
    }

    pub closed spec fn committed_view(self) -> Seq<u8> {
        self.committed@
    }

    pub closed spec fn buffer_view(self) -> Seq<Seq<char>> {
        self.buffer.view_lines()
    }

    pub closed spec fn buffer_row(self) -> int {
        self.buffer.row as int
    }

    pub closed spec fn buffer_col(self) -> int {
        self.buffer.col as int
    }

    pub closed spec fn width_of(self) -> usize {
        self.wrap_width
    }

    pub closed spec fn exited(self) -> bool {
        self.should_exit
    }

    /// The committed value always decodes under the descriptor and
    /// reserializes, the buffer is well formed, and the wrap width is a
    /// positive number small enough for the hex dump's tripled width.
    pub closed spec fn wf(self) -> bool {
        &&& self.buffer.wf()
        &&& 1 <= self.wrap_width
        &&& self.wrap_width <= usize::MAX / 3
        &&& decodes(self.descriptor, self.committed@)
        &&& reencodes(self.descriptor, self.committed@)
    }

    /// Starts a session from a descriptor and the payload's wire bytes:
    /// the payload becomes the committed value and its editable (JSON)
    /// projection, pretty-printed, seeds the buffer. Fails exactly when
    /// the payload does not decode and reserialize under the descriptor,
    /// or when its editable projection cannot be produced (a projectable
    /// payload fails only if its projected text will not reformat, which
    /// the canonical reformatter does not do to the printer's output).
    pub fn seed(
        descriptor: protobuf::reflect::MessageDescriptor,
        payload: Vec<u8>,
        wrap_width: usize,
    ) -> (r: Result<Session, DecodeError>)
        requires
            1 <= wrap_width <= usize::MAX / 3,
        ensures
            match r {
                Ok(s) => ({
                    &&& reencodes(descriptor, payload@)
                    &&& editable_projects(descriptor, payload@)
                    &&& s.wf()
                    &&& s.descriptor_of() == descriptor
                    &&& s.committed_view() == payload@
                    &&& s.width_of() == wrap_width
                    &&& !s.exited()
                    &&& exists|j: Seq<char>|
                        #[trigger] json_pretty(j) is Some && s.buffer_view() == split_lines_spec(
                            json_pretty(j).unwrap(),
                        )
                    &&& s.buffer_row() == 0 && s.buffer_col() == 0
                }),
                Err(e) => match e {
                    DecodeError::WireMismatch => !reencodes(descriptor, payload@),
                    DecodeError::ProjectionFailed => reencodes(descriptor, payload@),
                    DecodeError::NoBase64Variant => false,
                },
            },
            r is Err && reencodes(descriptor, payload@) && !editable_projects(descriptor, payload@)
                ==> r == Err::<Session, DecodeError>(DecodeError::ProjectionFailed),
    {
        if w_reencode(&descriptor, payload.as_slice()).is_none() {
            return Err(DecodeError::WireMismatch);
        }
        let json = match w_editable_json(&descriptor, payload.as_slice()) {
            Some(json) => json,
            None => {
                return Err(DecodeError::ProjectionFailed);
            },
        };
        let pretty = match w_json_pretty(json.as_str()) {
            Some(pretty) => pretty,
            None => {
                return Err(DecodeError::ProjectionFailed);
            },
        };
        let lines = split_lines(pretty.as_str());
        let buffer = EditBuffer::from_lines(lines);
        proof {
            assert(json_pretty(json@) is Some);
        }
        Ok(Session { descriptor, committed: payload, buffer, wrap_width, should_exit: false })
    }

    /// Applies one edit to the buffer, then attempts to re-parse the
    /// buffer's text against the descriptor: on success the committed
    /// value is replaced wholesale and `true` returned; on failure the
    /// committed value is untouched, the failure is swallowed, and the
    /// session does not end.
    pub fn on_edit(&mut self, ev: InputEvent) -> (committed: bool)
        requires
            old(self).wf(),
        ensures
            final(self).wf(),
            final(self).descriptor_of() == old(self).descriptor_of(),
            final(self).width_of() == old(self).width_of(),
            final(self).exited() == old(self).exited(),
            (final(self).buffer_view(), final(self).buffer_row(), final(self).buffer_col())
                == edit_step(
                old(self).buffer_view(),
                old(self).buffer_row(),
                old(self).buffer_col(),
                ev,
            ),
            commit_step(
                old(self).descriptor_of(),
                old(self).committed_view(),
                final(self).committed_view(),
                joined_text(final(self).buffer_view()),
                committed,
            ),
    {
        self.buffer.apply(ev);
        let text = self.buffer.text();
        if json_text_depth(text.as_str()) > MAX_EDIT_DEPTH {
            // too deep for the recursive editable-text parser: treated as
            // a failed parse, the committed value untouched
            return false;
        }
        match w_parse_editable(&self.descriptor, text.as_str()) {
            Some(bytes) => {
                match w_reencode(&self.descriptor, bytes.as_slice()) {
                    Some(_) => {
                        self.committed = bytes;
                        true
                    },
                    None => false,
                }
            },
            None => false,
        }
    }

    /// Dispatches one terminal event: the interrupt chord ends the
    /// session and touches nothing else; any other input is an edit.
    pub fn handle_event(&mut self, ev: TerminalEvent) -> (committed: bool)
        requires
            old(self).wf(),
        ensures
            final(self).wf(),
            final(self).descriptor_of() == old(self).descriptor_of(),
            final(self).width_of() == old(self).width_of(),
            match ev {
                TerminalEvent::Interrupt => ({
                    &&& final(self).exited()
                    &&& !committed
                    &&& final(self).committed_view() == old(self).committed_view()
                    &&& final(self).buffer_view() == old(self).buffer_view()
                    &&& final(self).buffer_row() == old(self).buffer_row()
                    &&& final(self).buffer_col() == old(self).buffer_col()
                }),
                TerminalEvent::Input(ie) => ({
                    &&& final(self).exited() == old(self).exited()
                    &&& (
                    final(self).buffer_view(),
                    final(self).buffer_row(),
                    final(self).buffer_col(),
                    ) == edit_step(
                        old(self).buffer_view(),
                        old(self).buffer_row(),
                        old(self).buffer_col(),
                        ie,
                    )
                    &&& commit_step(
                        old(self).descriptor_of(),
                        old(self).committed_view(),
                        final(self).committed_view(),
                        joined_text(final(self).buffer_view()),
                        committed,
                    )
                }),
            },
    {
        match ev {
            TerminalEvent::Interrupt => {
                self.should_exit = true;
                false
            },
            TerminalEvent::Input(ie) => self.on_edit(ie),
        }
    }

    /// Renders the four views: structured text, hex and printable dumps
    /// from the committed value (its wire bytes recomputed now, never
    /// cached), and the editable view from the buffer as typed. The hex
    /// and printable dumps are exactly the returned wire bytes' dumps and
    /// always hold the same number of lines. `None` only when the wire
    /// bytes are too long for a hex dump to fit in memory, which real
    /// payloads cannot reach.
    pub fn render(&self) -> (r: Option<Views>)
        requires
            self.wf(),
        ensures
            match r {
                Some(v) => ({
                    &&& v.wire@.len() == reencoded_len(self.descriptor_of(), self.committed_view())
                    &&& v.hex@ == wrapped_text(hex_text(v.wire@), (self.width_of() * 3) as nat)
                    &&& v.hex_lines as nat == wrap_line_count(
                        hex_text(v.wire@).len(),
                        (self.width_of() * 3) as nat,
                    )
                    &&& v.ascii@ == wrapped_text(ascii_text(v.wire@), self.width_of() as nat)
                    &&& v.ascii_lines as nat == wrap_line_count(
                        ascii_text(v.wire@).len(),
                        self.width_of() as nat,
                    )
                    &&& v.hex_lines == v.ascii_lines
                    &&& v.editable.deep_view() == self.buffer_view()
                }),
                None => reencoded_len(self.descriptor_of(), self.committed_view()) >= usize::MAX
                    / 3,
            },
    {
        let wire = match w_reencode(&self.descriptor, self.committed.as_slice()) {
            Some(wire) => wire,
            // the invariant says the committed value reserializes
            None => unreached(),
        };
        if wire.len() >= usize::MAX / 3 {
            return None;
        }
        let structured = match w_text_format(&self.descriptor, self.committed.as_slice()) {
            Some(s) => s,
            // the invariant says the committed value decodes
            None => unreached(),
        };
        proof {
            vstd::arithmetic::div_mod::lemma_fundamental_div_mod(usize::MAX as int, 3);
        }
        let (hex, hex_lines) = hex_dump(wire.as_slice(), self.wrap_width);
        let (ascii, ascii_lines) = ascii_dump(wire.as_slice(), self.wrap_width);
        proof {
            lemma_dump_line_counts_equal(wire@, self.wrap_width as nat);
        }
        let editable = copy_lines(self.buffer.lines_ref());
        Some(Views { structured, wire, hex, hex_lines, ascii, ascii_lines, editable })
    }

    /// The committed value's wire bytes as last committed.
    pub fn committed_bytes(&self) -> (r: &Vec<u8>)
        ensures
            r@ == self.committed_view(),
    {
        &self.committed
    }

    /// The buffer's lines, exactly as typed.
    pub fn buffer_lines(&self) -> (r: &Vec<String>)
        ensures
            r.deep_view() == self.buffer_view(),
    {
        self.buffer.lines_ref()
    }

    pub fn should_exit(&self) -> (r: bool)
        ensures
            r == self.exited(),
    {
        self.should_exit
    }

    pub fn wrap_width(&self) -> (r: usize)
        ensures
            r == self.width_of(),
    {
        self.wrap_width
    }

    /// Widens the wrap width by one, clamped so the hex dump's tripled
    /// width still fits the machine.
    pub fn widen(&mut self)
        requires
            old(self).wf(),
        ensures
            final(self).wf(),
            final(self).descriptor_of() == old(self).descriptor_of(),
            final(self).committed_view() == old(self).committed_view(),
            final(self).buffer_view() == old(self).buffer_view(),
            final(self).buffer_row() == old(self).buffer_row(),
            final(self).buffer_col() == old(self).buffer_col(),
            final(self).exited() == old(self).exited(),
            final(self).width_of() == if old(self).width_of() < usize::MAX / 3 {
                (old(self).width_of() + 1) as usize
            } else {
                old(self).width_of()
            },
    {
        if self.wrap_width < usize::MAX / 3 {
            self.wrap_width = self.wrap_width + 1;
        }
    }

    /// Narrows the wrap width by one, clamped at the lower bound of one
    /// rather than ever reaching zero.
    pub fn narrow(&mut self)
        requires
            old(self).wf(),
        ensures
            final(self).wf(),
            final(self).descriptor_of() == old(self).descriptor_of(),
            final(self).committed_view() == old(self).committed_view(),
            final(self).buffer_view() == old(self).buffer_view(),
            final(self).buffer_row() == old(self).buffer_row(),
            final(self).buffer_col() == old(self).buffer_col(),
            final(self).exited() == old(self).exited(),
            final(self).width_of() == if old(self).width_of() > 1 {
                (old(self).width_of() - 1) as usize
            } else {
                1usize
            },
    {
        if self.wrap_width > 1 {
            self.wrap_width = self.wrap_width - 1;
        }
    }
}

/// The whole pre-UI inspection pipeline on plain values: checks that the
/// schema has exactly one top-level message, decodes the payload text by
/// the first base64 variant that accepts it, and seeds a session from the
/// decoded bytes.
pub fn prepare_session(
    fd: &protobuf::reflect::FileDescriptor,
    file_text: &str,
    wrap_width: usize,
) -> (r: Result<Session, InspectError>)
    requires
        1 <= wrap_width <= usize::MAX / 3,
    ensures
        match r {
            Ok(s) => ({
                let text = trimmed_end(file_text@);
                &&& top_message_names(*fd).len() == 1
                &&& s.descriptor_of() == message_of(*fd, top_message_names(*fd)[0])
                &&& any_b64(text) is Some
                &&& s.wf()
                &&& !s.exited()
                &&& s.width_of() == wrap_width
                &&& s.committed_view() == any_b64(text).unwrap()
                &&& s.buffer_row() == 0 && s.buffer_col() == 0
            }),
            Err(InspectError::Schema(e)) => match e {
                SchemaError::NoTopLevelMessages => top_message_names(*fd).len() == 0,
                SchemaError::MultipleTopLevelMessages { count } => top_message_names(*fd).len()
                    == count && count >= 2,
            },
            Err(InspectError::Decode(e)) => ({
                let text = trimmed_end(file_text@);
                &&& top_message_names(*fd).len() == 1
                &&& match e {
                    DecodeError::NoBase64Variant => any_b64(text) is None,
                    DecodeError::WireMismatch => any_b64(text) is Some && !reencodes(
                        message_of(*fd, top_message_names(*fd)[0]),
                        any_b64(text).unwrap(),
                    ),
                    DecodeError::ProjectionFailed => any_b64(text) is Some && reencodes(
                        message_of(*fd, top_message_names(*fd)[0]),
                        any_b64(text).unwrap(),
                    ),
                }
            }),
        },
{
    let name = match single_msg_name(fd) {
        Ok(name) => name,
        Err(e) => {
            return Err(InspectError::Schema(e));
        },
    };
    proof {
        assert(top_message_names(*fd)[0] == name@);
        assert(top_message_names(*fd).contains(name@));
    }
    let md = match w_message_by_name(fd, name.as_str()) {
        Some(md) => md,
        // the lookup finds every top-level message under its own name
        None => unreached(),
    };
    let trimmed = trim_end_spaces(file_text);
    let payload = match decode_any_base64(trimmed.as_str()) {
        Ok(payload) => payload,
        Err(e) => {
            return Err(InspectError::Decode(e));
        },
    };
    match Session::seed(md, payload, wrap_width) {
        Ok(s) => Ok(s),
        Err(e) => Err(InspectError::Decode(e)),
    }
}

} // verus!
