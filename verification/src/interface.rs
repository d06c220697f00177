//! Interface names as the kernel reads them: a fixed buffer of
//! `IFNAMSIZ` bytes, and the interface index that a lookup returns.
//!
//! The size of the buffer differs between targets (`libc` gives 16 on
//! Linux and macOS), so the caller hands it over: `libc::IFNAMSIZ` on
//! Linux, `libc::IF_NAMESIZE` on macOS.
use vstd::prelude::*;

use crate::error::PacketError;
use vstd::string::StringSliceAdditionalSpecFns;

verus! {

/// `bytes` followed by zeros up to `size` bytes.
pub open spec fn zero_padded(bytes: Seq<u8>, size: nat) -> Seq<u8> {
    bytes + Seq::new((size - bytes.len()) as nat, |i: int| 0u8)
}

/// The string that C code reads from `buf`: its bytes up to the first
/// zero, or all of them where there is none.
pub open spec fn c_string(buf: Seq<u8>) -> Seq<u8>
    decreases buf.len(),
{
    if buf.len() == 0 || buf[0] == 0 {
        Seq::empty()
    } else {
        seq![buf[0]] + c_string(buf.drop_first())
    }
}

/// Whether `bytes` holds a zero byte.
pub open spec fn has_zero(bytes: Seq<u8>) -> bool {
    exists|i: int| 0 <= i < bytes.len() && bytes[i] == 0
}

/// `name` copied to the front of a zeroed buffer of `size` bytes.
fn fill_name(name: &[u8], size: usize) -> (buf: Vec<u8>)
    requires
        name@.len() <= size,
    ensures
        buf@ == zero_padded(name@, size as nat),
        buf@.len() == size,
        forall|i: int| 0 <= i < name@.len() ==> #[trigger] buf@[i] == name@[i],
        forall|i: int| name@.len() <= i < size ==> #[trigger] buf@[i] == 0u8,
{
    let mut buf: Vec<u8> = Vec::new();
    let mut i: usize = 0;
    while i < size
        invariant
            name@.len() <= size,
            i <= size,
            buf@.len() == i,
            forall|j: int| 0 <= j < i ==> buf@[j] == zero_padded(name@, size as nat)[j],
        decreases size - i,
    {
        if i < name.len() {
            buf.push(name[i]);
        } else {
            buf.push(0u8);
        }
        i = i + 1;
    }
    assert(buf@ =~= zero_padded(name@, size as nat));
    proof {
        lemma_zero_padded_layout(name@, size as nat);
    }
    buf
}

/// The buffer that a lookup of the interface `name` is handed, for a
/// name buffer of `capacity` bytes: the name's bytes, then zeros up to
/// `capacity` bytes. A name longer than `capacity` bytes is refused with
/// `InvalidInput`. A name of exactly `capacity` bytes is accepted and
/// fills the buffer without a terminating zero.
pub fn interface_name_buffer(name: &str, capacity: usize) -> (r: Result<Vec<u8>, PacketError>)
    ensures
        name.spec_bytes().len() > capacity <==> r == Err::<Vec<u8>, PacketError>(
            PacketError::InvalidInput,
        ),
        r is Ok <==> name.spec_bytes().len() <= capacity,
        r matches Ok(buf) ==> buf@ == zero_padded(name.spec_bytes(), capacity as nat),
        r matches Ok(buf) ==> buf@.len() == capacity,
        r matches Ok(buf) ==> forall|i: int|
            0 <= i < name.spec_bytes().len() ==> #[trigger] buf@[i] == name.spec_bytes()[i],
        r matches Ok(buf) ==> forall|i: int|
            name.spec_bytes().len() <= i < capacity ==> #[trigger] buf@[i] == 0u8,
{
    let bytes = name.as_bytes();
    if bytes.len() > capacity {
        return Err(PacketError::InvalidInput);
    }
    Ok(fill_name(bytes, capacity))
}

/// The name field of a BPF device's interface request, for a name
/// buffer of `capacity` bytes: the name's bytes, then zeros up to
/// `capacity` bytes.
pub fn bpf_interface_name(name: &str, capacity: usize) -> (buf: Vec<u8>)
    requires
        name.spec_bytes().len() <= capacity,
    ensures
        buf@ == zero_padded(name.spec_bytes(), capacity as nat),
        buf@.len() == capacity,
        forall|i: int| 0 <= i < name.spec_bytes().len() ==> #[trigger] buf@[i] == name.spec_bytes()[i],
        forall|i: int| name.spec_bytes().len() <= i < capacity ==> #[trigger] buf@[i] == 0u8,
{
    fill_name(name.as_bytes(), capacity)
}

/// Interprets what `if_nametoindex` returned: zero means that no
/// interface has that name (the reason is in `errno`), anything else is
/// the interface's index, taken as a C `int`.
pub fn interface_index(returned: u32) -> (r: Result<i32, PacketError>)
    ensures
        returned == 0 <==> r == Err::<i32, PacketError>(PacketError::Os),
        returned != 0 <==> r == Ok::<i32, PacketError>(returned as i32),
{
    if returned == 0 {
        Err(PacketError::Os)
    } else {
        Ok(returned as i32)
    }
}

/// The lookup of an interface's index by its name, in its two steps: the
/// name buffer is built first, and a name that does not fit ends the
/// lookup there; then the index that `if_nametoindex` returned for that
/// buffer is interpreted.
pub struct InterfaceLookup {
    name: Vec<u8>,
}

impl InterfaceLookup {
    /// The buffer that `if_nametoindex` is handed.
    pub closed spec fn buffer(&self) -> Seq<u8> {
        self.name@
    }

    /// Starts the lookup of `name` with a name buffer of `capacity`
    /// bytes, or refuses a name longer than that with `InvalidInput`.
    pub fn new(name: &str, capacity: usize) -> (r: Result<InterfaceLookup, PacketError>)
        ensures
            name.spec_bytes().len() > capacity <==> r is Err,
            r matches Err(e) ==> e == PacketError::InvalidInput,
            r matches Ok(l) ==> l.buffer() == zero_padded(name.spec_bytes(), capacity as nat),
            r matches Ok(l) ==> l.buffer().len() == capacity,
            r matches Ok(l) ==> forall|i: int|
                0 <= i < name.spec_bytes().len() ==> #[trigger] l.buffer()[i] == name.spec_bytes()[i],
            r matches Ok(l) ==> forall|i: int|
                name.spec_bytes().len() <= i < capacity ==> #[trigger] l.buffer()[i] == 0u8,
    {
        match interface_name_buffer(name, capacity) {
            Ok(buf) => Ok(InterfaceLookup { name: buf }),
            Err(e) => Err(e),
        }
    }

    /// The buffer that `if_nametoindex` is handed.
    pub fn name_buffer(&self) -> (b: &[u8])
        ensures
            b@ == self.buffer(),
    {
        self.name.as_slice()
    }

    /// Ends the lookup with what `if_nametoindex` returned for the
    /// buffer: the index, or the failure that zero reports.
    pub fn finish(self, returned: u32) -> (r: Result<i32, PacketError>)
        ensures
            returned == 0 <==> r == Err::<i32, PacketError>(PacketError::Os),
            returned != 0 <==> r == Ok::<i32, PacketError>(returned as i32),
    {
        interface_index(returned)
    }
}

/// A name buffer is exactly `size` bytes long: the name's bytes at its
/// front, in order, and zeros in every later place.
pub proof fn lemma_zero_padded_layout(bytes: Seq<u8>, size: nat)
    requires
        bytes.len() <= size,
    ensures
        zero_padded(bytes, size).len() == size,
        forall|i: int| 0 <= i < bytes.len() ==> #[trigger] zero_padded(bytes, size)[i] == bytes[i],
        forall|i: int| bytes.len() <= i < size ==> #[trigger] zero_padded(bytes, size)[i] == 0u8,
{
}

/// What C code reads from a zero-padded buffer is the name that was put
/// in it, as long as the name holds no zero byte and leaves room for at
/// least one zero after it.
pub proof fn lemma_padded_name_reads_back(name: Seq<u8>, size: nat)
    requires
        name.len() < size,
        !has_zero(name),
    ensures
        c_string(zero_padded(name, size)) == name,
    decreases name.len(),
{
    let buf = zero_padded(name, size);
    if name.len() == 0 {
        assert(buf[0] == 0);
    } else {
        assert(buf[0] == name[0]);
        assert(!has_zero(name.drop_first())) by {
            if has_zero(name.drop_first()) {
                let i = choose|i: int| 0 <= i < name.drop_first().len() && name.drop_first()[i] == 0;
                assert(name[i + 1] == 0);
            }
        }
        lemma_padded_name_reads_back(name.drop_first(), (size - 1) as nat);
        assert(buf.drop_first() =~= zero_padded(name.drop_first(), (size - 1) as nat));
        assert(seq![name[0]] + name.drop_first() =~= name);
    }
}

} // verus!
