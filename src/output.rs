use vstd::prelude::*;

verus! {

/// Something that can write text to a path.
pub trait Writing {
    /// Writes `text` to `path`.
    fn write(&self, text: String, path: String);
}

/// Something that can show text.
pub trait Printing {
    /// Shows `text`.
    fn print(&self, text: String);
}

} // verus!
