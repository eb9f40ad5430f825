//! The console slot: at most one registered writer, and what printing
//! through it sends.
use vstd::prelude::*;
use vstd::string::StringSliceAdditionalSpecFns;
use crate::uart0::{data_stores, put_bytes, RegStore, Uart0};

verus! {

/// The bytes that end a printed line: a line feed, then a carriage return.
pub const LINE_END: [u8; 2] = [0x0A, 0x0D];

/// A byte-stream writer that the console can print through.
#[derive(Clone, Copy, Debug, PartialEq, Eq, Structural)]
pub enum Writer {
    Uart0(Uart0),
}

/// The stores that a writer makes to send `bytes`.
pub open spec fn writer_stores(w: Writer, bytes: Seq<u8>) -> Seq<RegStore> {
    match w {
        Writer::Uart0(_) => data_stores(bytes),
    }
}

/// The process-wide console: empty until a writer is registered.
#[derive(Clone, Copy, Debug, PartialEq, Eq, Structural)]
pub struct Console {
    writer: Option<Writer>,
}

impl Console {
    /// The writer registered, if any.
    pub closed spec fn writer_spec(&self) -> Option<Writer> {
        self.writer
    }

    /// The console with no writer.
    pub fn new() -> (r: Console)
        ensures
            r.writer_spec() is None,
    {
        Console { writer: None }
    }

    /// The writer registered, if any.
    pub fn writer(&self) -> (r: Option<Writer>)
        ensures
            r == self.writer_spec(),
    {
        self.writer
    }

    /// Registers `w`, in place of any writer registered before.
    pub fn register_writer(&mut self, w: Writer)
        ensures
            final(self).writer_spec() == Some(w),
    {
        self.writer = Some(w);
    }

    /// What printing `s` sends: the stores that the registered writer makes
    /// for its bytes, in order; nothing at all where no writer is
    /// registered.
    pub fn print(&self, s: &str) -> (r: Vec<RegStore>)
        ensures
            r@ == (match self.writer_spec() {
                Some(w) => writer_stores(w, s.spec_bytes()),
                None => Seq::<RegStore>::empty(),
            }),
    {
        match self.writer {
            Some(Writer::Uart0(u)) => u.puts(s),
            None => Vec::new(),
        }
    }

    /// What printing `s` as a line sends: as `print`, for the bytes of `s`
    /// followed by a line feed and a carriage return.
    pub fn println(&self, s: &str) -> (r: Vec<RegStore>)
        ensures
            r@ == (match self.writer_spec() {
                Some(w) => writer_stores(w, s.spec_bytes() + seq![0x0Au8, 0x0Du8]),
                None => Seq::<RegStore>::empty(),
            }),
    {
        match self.writer {
            Some(Writer::Uart0(u)) => {
                let mut r = u.puts(s);
                let end: [u8; 2] = LINE_END;
                let mut tail = put_bytes(&end);
                proof {
                    assert(end@ =~= seq![0x0Au8, 0x0Du8]);
                }
                r.append(&mut tail);
                assert(r@ =~= data_stores(s.spec_bytes() + seq![0x0Au8, 0x0Du8]));
                r
            },
            None => Vec::new(),
        }
    }
}

} // verus!
