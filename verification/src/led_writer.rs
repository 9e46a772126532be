//! The way out to the physical LED, and a stand-in for it that remembers what
//! it was told.

use vstd::prelude::*;
use crate::color::Rgb8;

verus! {

/// Why the LED did not take a colour.
#[derive(Debug, Clone, Copy, PartialEq, Eq, Structural)]
pub enum LedError {
    WriteFailed,
}

/// Something that can show a colour. Nothing is promised of an
/// implementation: a write may fail at any time, and callers are proved for
/// whatever it returns.
pub trait SmartLedWriter: Send {
    /// Shows `color`, or says that it could not.
    fn write(&mut self, color: Rgb8) -> Result<(), LedError>;
}

/// A writer without hardware. It records the last colour and counts the
/// writes that went well; it can be told to fail the next one.
pub struct MockLedWriter {
    /// The colour of the last write that went well.
    pub last_color: Option<Rgb8>,
    /// How many writes went well; it stops at the largest number.
    pub write_count: usize,
    /// Fail the next write, once.
    pub fail_next_write: bool,
}

impl MockLedWriter {
    /// The writer after a write of `color`.
    pub open spec fn after_write(self, color: Rgb8) -> MockLedWriter {
        if self.fail_next_write {
            MockLedWriter {
                last_color: self.last_color,
                write_count: self.write_count,
                fail_next_write: false,
            }
        } else {
            MockLedWriter {
                last_color: Some(color),
                write_count: if self.write_count < usize::MAX {
                    (self.write_count + 1) as usize
                } else {
                    self.write_count
                },
                fail_next_write: false,
            }
        }
    }

    /// What a write is answered with: failure exactly when one was ordered.
    pub open spec fn write_result(self) -> Result<(), LedError> {
        if self.fail_next_write {
            Err(LedError::WriteFailed)
        } else {
            Ok(())
        }
    }

    /// A writer that has written nothing and is not told to fail.
    pub fn new() -> (mock: MockLedWriter)
        ensures
            mock == (MockLedWriter { last_color: None, write_count: 0, fail_next_write: false }),
    {
        MockLedWriter { last_color: None, write_count: 0, fail_next_write: false }
    }
}

impl SmartLedWriter for MockLedWriter {
    /// Fails once if told to, and then changes nothing else; otherwise
    /// records the colour and counts the write.
    fn write(&mut self, color: Rgb8) -> (res: Result<(), LedError>)
        ensures
            *final(self) == old(self).after_write(color),
            res == old(self).write_result(),
    {
        if self.fail_next_write {
            self.fail_next_write = false;
            return Err(LedError::WriteFailed);
        }
        self.last_color = Some(color);
        if self.write_count < usize::MAX {
            self.write_count = self.write_count + 1;
        }
        Ok(())
    }
}

} // verus!
