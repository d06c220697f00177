//! Classic BPF filter programs, as `SO_ATTACH_FILTER` takes them.
use vstd::prelude::*;

verus! {

/// One BPF instruction: operation code, jump offsets for true and for
/// false, and the generic field `k`.
pub type Filter = (u16, u8, u8, u32);

/// A BPF program: its instructions in order.
pub type FilterProgram = Vec<Filter>;

/// One BPF instruction laid out as the kernel's `struct sock_filter`.
#[allow(non_camel_case_types)]
#[derive(Debug, Clone, Copy, PartialEq, Eq, Structural)]
pub struct sock_filter {
    pub code: u16,
    pub jt: u8,
    pub jf: u8,
    pub k: u32,
}

/// The kernel's form of the instruction `f`: each field of the tuple in
/// the field of the same place.
pub open spec fn instruction(f: Filter) -> sock_filter {
    sock_filter { code: f.0, jt: f.1, jf: f.2, k: f.3 }
}

impl From<Filter> for sock_filter {
    fn from(f: Filter) -> (r: sock_filter) {
        sock_filter { code: f.0, jt: f.1, jf: f.2, k: f.3 }
    }
}

impl vstd::std_specs::convert::FromSpecImpl<Filter> for sock_filter {
    open spec fn obeys_from_spec() -> bool {
        true
    }

    open spec fn from_spec(f: Filter) -> sock_filter {
        instruction(f)
    }
}

impl sock_filter {
    /// The instruction as a tuple again.
    pub fn to_filter(&self) -> (f: Filter)
        ensures
            f == (self.code, self.jt, self.jf, self.k),
    {
        (self.code, self.jt, self.jf, self.k)
    }
}

/// A BPF program ready to be attached: the kernel's instructions, and the
/// length field of `struct sock_fprog`.
pub struct BpfProgram {
    filters: Vec<sock_filter>,
    len: u16,
}

impl BpfProgram {
    /// The instructions, in order.
    pub closed spec fn instructions(&self) -> Seq<sock_filter> {
        self.filters@
    }

    /// The length field that the kernel is handed.
    pub closed spec fn len_field(&self) -> u16 {
        self.len
    }

    /// Converts each instruction of `filter`, in order. The length field
    /// is the number of instructions taken as a `u16`: it wraps modulo
    /// 65536, as the conversion of a `usize` to `u16` does.
    pub fn compile(filter: FilterProgram) -> (p: BpfProgram)
        ensures
            p.instructions().len() == filter@.len(),
            forall|i: int|
                0 <= i < filter@.len() ==> #[trigger] p.instructions()[i] == instruction(filter@[i]),
            forall|i: int|
                0 <= i < filter@.len() ==> {
                    let s = #[trigger] p.instructions()[i];
                    &&& s.code == filter@[i].0
                    &&& s.jt == filter@[i].1
                    &&& s.jf == filter@[i].2
                    &&& s.k == filter@[i].3
                },
            p.len_field() as int == filter@.len() % 0x10000,
            filter@.len() < 0x10000 ==> p.len_field() == filter@.len(),
    {
        let mut filters: Vec<sock_filter> = Vec::new();
        let mut i: usize = 0;
        while i < filter.len()
            invariant
                i <= filter@.len(),
                filters@.len() == i,
                forall|j: int| 0 <= j < i ==> #[trigger] filters@[j] == instruction(filter@[j]),
            decreases filter@.len() - i,
        {
            filters.push(sock_filter::from(filter[i]));
            i = i + 1;
        }
        let n: usize = filters.len();
        let len: u16 = (n % 0x10000) as u16;
        BpfProgram { filters, len }
    }

    /// The instructions, in order.
    pub fn filters(&self) -> (r: &Vec<sock_filter>)
        ensures
            r@ == self.instructions(),
    {
        &self.filters
    }

    /// The length field of `struct sock_fprog`.
    pub fn len(&self) -> (r: u16)
        ensures
            r == self.len_field(),
    {
        self.len
    }
}

/// Converting an instruction to the kernel's layout and back gives the
/// same instruction.
pub proof fn lemma_instruction_round_trip(f: Filter)
    ensures
        ({
            let s = instruction(f);
            (s.code, s.jt, s.jf, s.k) == f
        }),
{
}

} // verus!
