//! The controller that keeps the derived buffer in step with the editable
//! buffer and the key, one event at a time.
use vstd::prelude::*;
use crate::cipher::{encoded, decoded, vigenere_encode, vigenere_decode};
use crate::key::{normalized, normalize_key};
use crate::mode::{Mode, Buffer};

verus! {

/// An edit that the controller reacts to.
pub enum Event {
    /// The user changed the editable buffer; it now holds this text.
    EditableChanged(String),
    /// The user changed the raw key input; it now holds this text.
    KeyChanged(String),
    /// The user switched between encoding and decoding.
    ModeToggled,
}

/// A write into one buffer, which the caller applies to its display without
/// treating it as an edit.
pub struct Update {
    pub target: Buffer,
    pub content: String,
}

/// The state of a transcoding session: the mode, the current canonical key,
/// and the contents of both buffers.
pub struct Session {
    pub mode: Mode,
    pub key: String,
    pub plaintext: String,
    pub ciphertext: String,
}

/// The buffer whose edit raised `event`, in `mode`; key edits and mode
/// toggles come from no buffer.
pub open spec fn source_buffer(event: Event, mode: Mode) -> Option<Buffer> {
    match event {
        Event::EditableChanged(_) => Some(mode.spec_editable()),
        _ => None,
    }
}

/// The content of the derived buffer that `source` calls for, in `mode`.
pub open spec fn transform(mode: Mode, source: Seq<char>, key: Seq<char>) -> Seq<char> {
    match mode {
        Mode::Encode => encoded(source, key),
        Mode::Decode => decoded(source, key),
    }
}

impl Session {
    /// The content of `buffer`.
    pub open spec fn content(&self, buffer: Buffer) -> Seq<char> {
        match buffer {
            Buffer::Plaintext => self.plaintext@,
            Buffer::Ciphertext => self.ciphertext@,
        }
    }

    /// The derived buffer holds the transform of the editable one under the
    /// current key.
    pub open spec fn synced(&self) -> bool {
        self.content(self.mode.spec_derived()) == transform(
            self.mode,
            self.content(self.mode.spec_editable()),
            self.key@,
        )
    }

    /// A new session: encoding, empty key, both buffers empty.
    pub fn new() -> (r: Session)
        ensures
            r.mode == Mode::Encode,
            r.key@ == Seq::<char>::empty(),
            r.plaintext@ == Seq::<char>::empty(),
            r.ciphertext@ == Seq::<char>::empty(),
            r.synced(),
    {
        let r = Session {
            mode: Mode::Encode,
            key: String::new(),
            plaintext: String::new(),
            ciphertext: String::new(),
        };
        assert(encoded(Seq::<char>::empty(), Seq::<char>::empty()) =~= Seq::<char>::empty());
        r
    }

    /// The content of `buffer`.
    pub fn content_of(&self, buffer: Buffer) -> (r: &String)
        ensures
            r@ == self.content(buffer),
    {
        match buffer {
            Buffer::Plaintext => &self.plaintext,
            Buffer::Ciphertext => &self.ciphertext,
        }
    }

    /// Recomputes the derived buffer from the editable one and the key, and
    /// says what was written.
    fn refresh(&mut self) -> (u: Update)
        ensures
            final(self).mode == old(self).mode,
            final(self).key@ == old(self).key@,
            final(self).content(old(self).mode.spec_editable()) == old(self).content(
                old(self).mode.spec_editable(),
            ),
            final(self).synced(),
            u.target == old(self).mode.spec_derived(),
            u.content@ == final(self).content(u.target),
    {
        match self.mode {
            Mode::Encode => {
                let out = vigenere_encode(self.plaintext.as_str(), self.key.as_str());
                self.ciphertext = out.clone();
                Update { target: Buffer::Ciphertext, content: out }
            },
            Mode::Decode => {
                let out = vigenere_decode(self.ciphertext.as_str(), self.key.as_str());
                self.plaintext = out.clone();
                Update { target: Buffer::Plaintext, content: out }
            },
        }
    }

    /// Handles one event.
    ///
    /// - An edit of the editable buffer stores its new text and rewrites the
    ///   derived buffer from it.
    /// - A key edit stores the normalized key and rewrites the derived buffer
    ///   from the editable buffer's current text; the editable buffer is not
    ///   touched.
    /// - A mode toggle swaps the roles of the buffers and writes nothing.
    ///
    /// At most one buffer is written, and it is the derived one: never the
    /// buffer that the event came from.
    pub fn handle(&mut self, event: Event) -> (u: Option<Update>)
        ensures
            match event {
                Event::EditableChanged(text) => {
                    &&& final(self).mode == old(self).mode
                    &&& final(self).key@ == old(self).key@
                    &&& final(self).content(old(self).mode.spec_editable()) == text@
                    &&& final(self).content(old(self).mode.spec_derived()) == transform(
                        old(self).mode,
                        text@,
                        old(self).key@,
                    )
                    &&& u is Some
                },
                Event::KeyChanged(raw) => {
                    &&& final(self).mode == old(self).mode
                    &&& final(self).key@ == normalized(raw@)
                    &&& final(self).content(old(self).mode.spec_editable()) == old(self).content(
                        old(self).mode.spec_editable(),
                    )
                    &&& final(self).content(old(self).mode.spec_derived()) == transform(
                        old(self).mode,
                        old(self).content(old(self).mode.spec_editable()),
                        normalized(raw@),
                    )
                    &&& u is Some
                },
                Event::ModeToggled => {
                    &&& final(self).mode == old(self).mode.spec_toggled()
                    &&& final(self).key@ == old(self).key@
                    &&& final(self).plaintext@ == old(self).plaintext@
                    &&& final(self).ciphertext@ == old(self).ciphertext@
                    &&& u is None
                },
            },
            !(event is ModeToggled) ==> final(self).synced(),
            u matches Some(w) ==> {
                &&& w.target == old(self).mode.spec_derived()
                &&& w.target != old(self).mode.spec_editable()
                &&& source_buffer(event, old(self).mode) != Some(w.target)
                &&& w.content@ == final(self).content(w.target)
            },
    {
        match event {
            Event::EditableChanged(text) => {
                match self.mode {
                    Mode::Encode => self.plaintext = text,
                    Mode::Decode => self.ciphertext = text,
                }
                Some(self.refresh())
            },
            Event::KeyChanged(raw) => {
                self.key = normalize_key(raw.as_str());
                Some(self.refresh())
            },
            Event::ModeToggled => {
                self.mode = self.mode.toggled();
                None
            },
        }
    }
}

} // verus!
