//! The scroll buffer: the text on display, how much of it is valid, and
//! which character comes next.

use vstd::prelude::*;
use crate::error::ErrorCode;
use crate::render::{blank_frame, display, frame_for, render, Picture};

verus! {

/// The text to display with its effective length and scroll position.
pub struct ScrollBuffer {
    text: Vec<u8>,
    position: usize,
    len: usize,
}

/// The mathematical content of a [`ScrollBuffer`].
pub ghost struct ScrollView {
    /// The bytes of the buffer; its length is the capacity.
    pub text: Seq<u8>,
    /// Index of the next character to render.
    pub position: nat,
    /// Number of valid bytes.
    pub len: nat,
}

/// What one step of the scroll produced.
pub struct Step {
    /// The frame to show, if one was rendered.
    pub frame: Option<Vec<bool>>,
    /// Whether there is content left to scroll, so that the timer is to be
    /// armed again.
    pub more: bool,
}

impl ScrollView {
    /// The position never passes the effective length, which never passes
    /// the capacity.
    pub open spec fn wf(self) -> bool {
        self.position <= self.len <= self.text.len()
    }

    /// The index that the next step renders: the position, wrapped to the
    /// start when it has reached the effective length.
    pub open spec fn cursor(self) -> nat {
        if self.position >= self.len {
            0
        } else {
            self.position
        }
    }

    /// The buffer after one step: the position wraps where it is due and
    /// then moves past the character rendered, if there is one.
    pub open spec fn advanced(self) -> ScrollView {
        ScrollView {
            position: if self.len == 0 {
                0
            } else {
                self.cursor() + 1
            },
            ..self
        }
    }

    /// The frame that one step renders: none while the buffer is empty,
    /// else that of the character under the cursor.
    pub open spec fn next_frame(self, enabled: bool) -> Option<Seq<bool>> {
        if self.len == 0 {
            None
        } else {
            Some(frame_for(self.text[self.cursor() as int], enabled))
        }
    }

    /// Whether a write of `count` bytes taken from `available` bytes fits.
    pub open spec fn fits(self, available: nat, count: nat) -> bool {
        count <= available && count <= self.text.len()
    }

    /// The buffer after the first `count` of `bytes` were written: they
    /// replace the start of the text, the effective length grows to `count`
    /// where it was smaller, and the position stays.
    pub open spec fn written(self, bytes: Seq<u8>, count: nat) -> ScrollView {
        ScrollView {
            text: Seq::new(
                self.text.len(),
                |i: int|
                    if i < count {
                        bytes[i]
                    } else {
                        self.text[i]
                    },
            ),
            len: if count > self.len {
                count
            } else {
                self.len
            },
            ..self
        }
    }

    /// The buffer after a clear: empty, at the start. The bytes stay where
    /// they are, beyond the effective length.
    pub open spec fn cleared(self) -> ScrollView {
        ScrollView { position: 0, len: 0, ..self }
    }
}

impl View for ScrollBuffer {
    type V = ScrollView;

    closed spec fn view(&self) -> ScrollView {
        ScrollView { text: self.text@, position: self.position as nat, len: self.len as nat }
    }
}

impl ScrollBuffer {
    /// An empty scroll over `text`, whose length becomes the capacity.
    pub fn new(text: Vec<u8>) -> (scroll: ScrollBuffer)
        ensures
            scroll@ == (ScrollView { text: text@, position: 0, len: 0 }),
            scroll@.wf(),
    {
        ScrollBuffer { text, position: 0, len: 0 }
    }

    /// The number of bytes that fit.
    pub fn capacity(&self) -> (capacity: usize)
        ensures
            capacity == self@.text.len(),
    {
        self.text.len()
    }

    /// The number of valid bytes.
    pub fn len(&self) -> (len: usize)
        ensures
            len == self@.len,
    {
        self.len
    }

    /// The index of the next character to render.
    pub fn position(&self) -> (position: usize)
        ensures
            position == self@.position,
    {
        self.position
    }

    /// Copies the first `count` of `bytes` to the start of the text. A
    /// count beyond the capacity, or beyond what `bytes` holds, is refused
    /// and changes nothing.
    pub fn write(&mut self, bytes: &[u8], count: usize) -> (r: Result<(), ErrorCode>)
        requires
            old(self)@.wf(),
        ensures
            final(self)@.wf(),
            old(self)@.fits(bytes@.len(), count as nat) ==> r == Ok::<(), ErrorCode>(())
                && final(self)@ == old(self)@.written(bytes@, count as nat),
            !old(self)@.fits(bytes@.len(), count as nat) ==> r == Err::<(), ErrorCode>(
                ErrorCode::OversizeWrite,
            ) && *final(self) == *old(self),
    {
        if count > bytes.len() || count > self.text.len() {
            return Err(ErrorCode::OversizeWrite);
        }
        let mut index: usize = 0;
        while index < count
            invariant
                index <= count,
                count <= bytes@.len(),
                count <= self.text@.len(),
                self.text@.len() == old(self).text@.len(),
                self.position == old(self).position,
                self.len == old(self).len,
                forall|i: int| 0 <= i < index ==> self.text@[i] == bytes@[i],
                forall|i: int| index <= i < self.text@.len() ==> self.text@[i] == old(self).text@[i],
            decreases count - index,
        {
            self.text[index] = bytes[index];
            index += 1;
        }
        if count > self.len {
            self.len = count;
        }
        assert(self@.text =~= old(self)@.written(bytes@, count as nat).text);
        Ok(())
    }

    /// One step of the scroll. Wraps the position where it has reached the
    /// effective length; then, unless the buffer is empty, renders the
    /// character under the cursor (blank while the display is disabled) and
    /// moves past it.
    pub fn advance(&mut self, enabled: bool) -> (step: Step)
        requires
            old(self)@.wf(),
        ensures
            final(self)@.wf(),
            final(self)@ == old(self)@.advanced(),
            step.more == (old(self)@.len > 0),
            match step.frame {
                Some(frame) => old(self)@.next_frame(enabled) == Some(frame@),
                None => old(self)@.next_frame(enabled) is None,
            },
    {
        if self.position >= self.len {
            self.position = 0;
        }
        let mut frame: Option<Vec<bool>> = None;
        if self.position < self.len {
            let byte: u8 = self.text[self.position];
            let shown = display(byte as char, enabled);
            frame = Some(shown.0);
            self.position = self.position + 1;
        }
        Step { frame, more: self.len > 0 }
    }

    /// Empties the buffer, goes back to the start, and renders the blank
    /// frame.
    pub fn clear(&mut self) -> (frame: Vec<bool>)
        ensures
            final(self)@ == old(self)@.cleared(),
            final(self)@.wf(),
            frame@ == blank_frame(),
    {
        self.position = 0;
        self.len = 0;
        render(Picture::Blank)
    }
}

} // verus!
