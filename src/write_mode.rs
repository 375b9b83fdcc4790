use vstd::prelude::*;

verus! {

/// The transport that is currently believed to work.
#[derive(Debug, Clone, Copy, PartialEq, Eq, Structural)]
pub enum WriteMode {
    Unknown,
    Grpc,
    Http,
}

impl WriteMode {
    pub fn is_unknown(&self) -> (r: bool)
        ensures
            r == (*self is Unknown),
    {
        match self {
            WriteMode::Unknown => true,
            _ => false,
        }
    }
}

/// The mode that a stored tag stands for; tags other than 1 and 2 read as
/// `Unknown`.
pub open spec fn mode_of_tag(tag: i64) -> WriteMode {
    if tag == 1 {
        WriteMode::Grpc
    } else if tag == 2 {
        WriteMode::Http
    } else {
        WriteMode::Unknown
    }
}

/// The mode register: a tagged cell holding the current `WriteMode`.
pub struct WriteModeKeeper {
    mode: i64,
}

impl View for WriteModeKeeper {
    type V = WriteMode;

    closed spec fn view(&self) -> WriteMode {
        mode_of_tag(self.mode)
    }
}

impl WriteModeKeeper {
    pub fn new() -> (r: Self)
        ensures
            r@ == WriteMode::Unknown,
    {
        Self { mode: 0 }
    }

    pub fn get_write_mode(&self) -> (r: WriteMode)
        ensures
            r == self@,
    {
        if self.mode == 1 {
            WriteMode::Grpc
        } else if self.mode == 2 {
            WriteMode::Http
        } else {
            WriteMode::Unknown
        }
    }

    pub fn set_write_mode(&mut self, mode: WriteMode)
        ensures
            final(self)@ == mode,
    {
        self.mode = match mode {
            WriteMode::Grpc => 1,
            WriteMode::Http => 2,
            WriteMode::Unknown => 0,
        };
    }
}

} // verus!
