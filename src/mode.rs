//! The transcoding direction, and which buffer it makes editable.
use vstd::prelude::*;

verus! {

/// The direction of transcoding.
#[derive(PartialEq, Eq, Structural, Clone, Copy, Debug)]
pub enum Mode {
    /// The plaintext is edited and the ciphertext follows.
    Encode,
    /// The ciphertext is edited and the plaintext follows.
    Decode,
}

/// One of the two text buffers.
#[derive(PartialEq, Eq, Structural, Clone, Copy, Debug)]
pub enum Buffer {
    Plaintext,
    Ciphertext,
}

impl Buffer {
    /// The other buffer.
    pub open spec fn spec_other(self) -> Buffer {
        match self {
            Buffer::Plaintext => Buffer::Ciphertext,
            Buffer::Ciphertext => Buffer::Plaintext,
        }
    }

    /// The other buffer.
    #[verifier::when_used_as_spec(spec_other)]
    pub fn other(self) -> (r: Buffer)
        ensures
            r == self.spec_other(),
            r != self,
    {
        match self {
            Buffer::Plaintext => Buffer::Ciphertext,
            Buffer::Ciphertext => Buffer::Plaintext,
        }
    }
}

impl Mode {
    /// The buffer that the user writes in this mode.
    pub open spec fn spec_editable(self) -> Buffer {
        match self {
            Mode::Encode => Buffer::Plaintext,
            Mode::Decode => Buffer::Ciphertext,
        }
    }

    /// The buffer that the library writes in this mode.
    pub open spec fn spec_derived(self) -> Buffer {
        self.spec_editable().spec_other()
    }

    /// The mode with the roles of the buffers swapped.
    pub open spec fn spec_toggled(self) -> Mode {
        match self {
            Mode::Encode => Mode::Decode,
            Mode::Decode => Mode::Encode,
        }
    }

    /// The buffer that the user writes in this mode.
    #[verifier::when_used_as_spec(spec_editable)]
    pub fn editable(self) -> (r: Buffer)
        ensures
            r == self.spec_editable(),
    {
        match self {
            Mode::Encode => Buffer::Plaintext,
            Mode::Decode => Buffer::Ciphertext,
        }
    }

    /// The buffer that the library writes in this mode; never the editable one.
    #[verifier::when_used_as_spec(spec_derived)]
    pub fn derived(self) -> (r: Buffer)
        ensures
            r == self.spec_derived(),
            r != self.spec_editable(),
    {
        self.editable().other()
    }

    /// The mode with the roles of the buffers swapped.
    #[verifier::when_used_as_spec(spec_toggled)]
    pub fn toggled(self) -> (r: Mode)
        ensures
            r == self.spec_toggled(),
            r != self,
            r.spec_editable() == self.spec_derived(),
            r.spec_derived() == self.spec_editable(),
    {
        match self {
            Mode::Encode => Mode::Decode,
            Mode::Decode => Mode::Encode,
        }
    }

    /// The labels shown above the editable buffer and above the derived one.
    pub fn labels(self) -> (r: (&'static str, &'static str))
        ensures
            (r.0@, r.1@) == self.labels_spec(),
    {
        match self {
            Mode::Encode => ("Text to Encode:", "Encoded Output:"),
            Mode::Decode => ("Text to Decode:", "Decoded Output:"),
        }
    }

    /// The label shown above `buffer` in this mode.
    pub fn label_of(self, buffer: Buffer) -> (r: &'static str)
        ensures
            buffer == self.spec_editable() ==> r@ == self.labels_spec().0,
            buffer == self.spec_derived() ==> r@ == self.labels_spec().1,
    {
        let (editable, derived) = self.labels();
        if buffer == self.editable() {
            editable
        } else {
            derived
        }
    }

    /// The labels of the editable and of the derived buffer: "Text to
    /// Encode:" and "Encoded Output:" when encoding, "Text to Decode:" and
    /// "Decoded Output:" when decoding.
    pub open spec fn labels_spec(self) -> (Seq<char>, Seq<char>) {
        match self {
            Mode::Encode => ("Text to Encode:"@, "Encoded Output:"@),
            Mode::Decode => ("Text to Decode:"@, "Decoded Output:"@),
        }
    }
}

} // verus!
