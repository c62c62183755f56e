use vstd::prelude::*;

verus! {

/// How a file is to be opened: independent flags, handed to the host as they
/// stand.
#[derive(Debug, Clone, Copy, PartialEq, Eq, Structural)]
pub struct OpenOptions {
    pub read: bool,
    pub write: bool,
    pub append: bool,
    pub truncate: bool,
    pub create: bool,
    pub create_new: bool,
}

impl OpenOptions {
    /// Opening with these flags may change what is stored.
    pub open spec fn spec_mutates(&self) -> bool {
        self.write || self.append || self.truncate || self.create || self.create_new
    }

    /// All flags cleared.
    pub fn new() -> (r: OpenOptions)
        ensures
            !r.read && !r.write && !r.append && !r.truncate && !r.create && !r.create_new,
    {
        OpenOptions {
            read: false,
            write: false,
            append: false,
            truncate: false,
            create: false,
            create_new: false,
        }
    }

    /// These options with `read` set to `value`.
    pub fn read(self, value: bool) -> (r: OpenOptions)
        ensures
            r == (OpenOptions { read: value, ..self }),
    {
        OpenOptions { read: value, ..self }
    }

    /// These options with `write` set to `value`.
    pub fn write(self, value: bool) -> (r: OpenOptions)
        ensures
            r == (OpenOptions { write: value, ..self }),
    {
        OpenOptions { write: value, ..self }
    }

    /// These options with `append` set to `value`.
    pub fn append(self, value: bool) -> (r: OpenOptions)
        ensures
            r == (OpenOptions { append: value, ..self }),
    {
        OpenOptions { append: value, ..self }
    }

    /// These options with `truncate` set to `value`.
    pub fn truncate(self, value: bool) -> (r: OpenOptions)
        ensures
            r == (OpenOptions { truncate: value, ..self }),
    {
        OpenOptions { truncate: value, ..self }
    }

    /// These options with `create` set to `value`.
    pub fn create(self, value: bool) -> (r: OpenOptions)
        ensures
            r == (OpenOptions { create: value, ..self }),
    {
        OpenOptions { create: value, ..self }
    }

    /// These options with `create_new` set to `value`.
    pub fn create_new(self, value: bool) -> (r: OpenOptions)
        ensures
            r == (OpenOptions { create_new: value, ..self }),
    {
        OpenOptions { create_new: value, ..self }
    }

    /// Whether opening with these flags may change what is stored, which a
    /// readonly filesystem refuses.
    pub fn mutates(&self) -> (r: bool)
        ensures
            r == self.spec_mutates(),
    {
        self.write || self.append || self.truncate || self.create || self.create_new
    }
}

} // verus!
