//! One VM handle's side of loading a chunk.

use crate::error::{status_outcome, status_result, Error, Result};
use crate::reader::{lemma_failure_is_kept, run, Bridge, Fill, Reader};
use libc::c_int;
use vstd::prelude::*;
use vstd::slice::slice_to_vec;
use vstd::string::*;

verus! {

/// Whether `text` can be written as a C string: none of its bytes is NUL.
pub open spec fn is_c_text(text: Seq<u8>) -> bool {
    forall|i: int| 0 <= i < text.len() ==> text[i] != 0
}

/// The bytes of the C string that holds `text`: the text, then the NUL that
/// ends it.
pub open spec fn c_string(text: Seq<u8>) -> Seq<u8> {
    text.push(0u8)
}

/// The result of a load from what the reader saw and the status that
/// `lua_load` returned. A read failure wins over the status: the VM takes a
/// failed read for the end of the chunk, so its status says nothing of it.
pub open spec fn load_outcome(bridge: Bridge, status: c_int) -> Result<()> {
    if bridge.failed {
        Err(Error::IO)
    } else {
        status_outcome(status)
    }
}

/// The name under which a chunk is loaded that comes from a string in
/// memory, not from a source with a name of its own.
pub open spec fn string_chunk_name() -> Seq<u8> {
    "=(load)".spec_bytes()
}

/// A chunk that is loaded from a string in memory.
#[derive(Debug)]
pub struct Chunk<'a> {
    /// The chunk's name as a C string, for `lua_load`.
    pub name: Vec<u8>,
    /// The chunk's text, for the reader callback to stream.
    pub source: &'a [u8],
}

/// Whether a byte of `text` is NUL.
fn has_nul(text: &[u8]) -> (found: bool)
    ensures
        found == !is_c_text(text@),
{
    let mut i: usize = 0;
    while i < text.len()
        invariant
            i <= text@.len(),
            forall|j: int| 0 <= j < i ==> text@[j] != 0,
        decreases text@.len() - i,
    {
        if text[i] == 0 {
            return true;
        }
        i += 1;
    }
    false
}

/// Copies `text` and ends it with a NUL.
fn terminated(text: &[u8]) -> (name: Vec<u8>)
    ensures
        name@ == c_string(text@),
{
    let mut name = slice_to_vec(text);
    name.push(0);
    name
}

/// The handle's side of one VM: the reader of the load that is under way.
///
/// The host owns the `lua_State` itself. It starts a load with
/// [`State::load`] or [`State::load_string`], calls `lua_load` with the name
/// it got, serves the VM's pulls through [`State::reader`], and ends the load
/// with [`State::loaded`].
#[derive(Debug)]
pub struct State {
    reader: Reader,
}

impl View for State {
    type V = Bridge;

    closed spec fn view(&self) -> Bridge {
        self.reader@
    }
}

impl State {
    /// The handle's side of a VM that was just created.
    pub fn new() -> (state: State)
        ensures
            state@ == Bridge::fresh(),
    {
        State { reader: Reader::new() }
    }

    /// Starts the load of a chunk named `chunkname` and returns the name as
    /// a C string, which is what `lua_load` takes. The VM uses the name in
    /// its messages only.
    ///
    /// A name with a NUL byte in it cannot be written as a C string: the
    /// load fails with `Unknown`, and nothing is started.
    pub fn load(&mut self, chunkname: &str) -> (r: Result<Vec<u8>>)
        ensures
            is_c_text(chunkname.spec_bytes()) ==> (r matches Ok(name) && name@ == c_string(
                chunkname.spec_bytes(),
            )) && final(self)@ == Bridge::fresh(),
            !is_c_text(chunkname.spec_bytes()) ==> r == Err::<Vec<u8>, Error>(Error::Unknown)
                && final(self)@ == old(self)@,
    {
        let text = chunkname.as_bytes();
        if has_nul(text) {
            return Err(Error::Unknown);
        }
        self.reader = Reader::new();
        Ok(terminated(text))
    }

    /// Starts the load of the chunk whose text is `s`, as [`State::load`]
    /// does under the name `=(load)`, and returns that name with the text
    /// as the bytes to stream.
    pub fn load_string<'a>(&mut self, s: &'a str) -> (chunk: Chunk<'a>)
        ensures
            chunk.name@ == c_string(string_chunk_name()),
            chunk.source@ == s.spec_bytes(),
            final(self)@ == Bridge::fresh(),
    {
        self.reader = Reader::new();
        Chunk { name: terminated("=(load)".as_bytes()), source: s.as_bytes() }
    }

    /// The reader of the load that is under way, for the reader callback.
    pub fn reader(&mut self) -> (reader: &mut Reader)
        ensures
            reader@ == old(self)@,
            final(self)@ == final(reader)@,
    {
        &mut self.reader
    }

    /// Ends the load: takes the status that `lua_load` returned and gives
    /// the load's result. If the source failed at any pull, the result is
    /// `IO` whatever the status. The reader is not kept.
    pub fn loaded(&mut self, status: c_int) -> (r: Result<()>)
        ensures
            r == load_outcome(old(self)@, status),
            final(self)@ == Bridge::fresh(),
    {
        let failed = self.reader.failed();
        self.reader = Reader::new();
        if failed {
            Err(Error::IO)
        } else {
            status_result(status)
        }
    }
}

/// The C string of a text without a NUL ends at its only NUL, so C code
/// reads from it the text and no byte more.
pub proof fn lemma_c_string_ends_at_its_only_nul(text: Seq<u8>)
    requires
        is_c_text(text),
    ensures
        c_string(text).len() == text.len() + 1,
        c_string(text).subrange(0, text.len() as int) == text,
        forall|i: int| 0 <= i < c_string(text).len() ==> (c_string(text)[i] == 0 <==> i == text.len()),
{
}

/// A load whose source failed at any pull fails with `IO`, whatever status
/// the VM returned; a load whose source never failed has the result of the
/// status alone. So a load fails with `IO` exactly if a read failed.
pub proof fn lemma_read_failure_is_io(fills: Seq<Fill>, status: c_int)
    ensures
        (exists|i: int| 0 <= i < fills.len() && fills[i] is Failed) ==> load_outcome(
            run(fills),
            status,
        ) == Err::<(), Error>(Error::IO),
        !(exists|i: int| 0 <= i < fills.len() && fills[i] is Failed) ==> load_outcome(
            run(fills),
            status,
        ) == status_outcome(status),
        load_outcome(run(fills), status) == Err::<(), Error>(Error::IO) <==> exists|i: int|
            0 <= i < fills.len() && fills[i] is Failed,
{
    lemma_failure_is_kept(fills);
}

/// The name `=(load)` can be written as a C string, so a load under that name
/// always starts; and these are the bytes of its C string.
pub proof fn lemma_string_chunk_name()
    ensures
        is_c_text(string_chunk_name()),
        c_string(string_chunk_name()) == seq![61u8, 40u8, 108u8, 111u8, 97u8, 100u8, 41u8, 0u8],
{
    reveal_strlit("=(load)");
    let name = "=(load)";
    assert(is_ascii(name));
    is_ascii_spec_bytes(name);
    assert(c_string(string_chunk_name()) =~= seq![61u8, 40u8, 108u8, 111u8, 97u8, 100u8, 41u8, 0u8]);
}

} // verus!
