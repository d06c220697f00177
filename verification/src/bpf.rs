//! BPF devices, the packet capture interface of macOS: which device to
//! open next, and what the device's requests are handed.
use vstd::prelude::*;

use crate::error::PacketError;
use crate::interface::{c_string, has_zero};

verus! {

/// How many BPF devices, `/dev/bpf0` on, a search tries before it gives
/// up.
pub open spec fn max_devices() -> nat {
    100
}

/// The ASCII decimal digits of `n`, most significant first, without
/// leading zeros.
pub open spec fn decimal(n: nat) -> Seq<u8>
    decreases n,
{
    if n < 10 {
        seq![(48 + n) as u8]
    } else {
        decimal(n / 10) + seq![(48 + n % 10) as u8]
    }
}

/// The number that a string of ASCII decimal digits stands for.
pub open spec fn parse_decimal(s: Seq<u8>) -> int
    decreases s.len(),
{
    if s.len() == 0 {
        0
    } else {
        parse_decimal(s.drop_last()) * 10 + (s.last() - 48)
    }
}

/// The bytes of `/dev/bpf`.
pub open spec fn device_prefix() -> Seq<u8> {
    seq![47u8, 100u8, 101u8, 118u8, 47u8, 98u8, 112u8, 102u8]
}

/// The path of BPF device number `n` as C code is handed it:
/// `/dev/bpf`, the number in decimal, and a terminating zero.
pub open spec fn device_path(n: nat) -> Seq<u8> {
    device_prefix() + decimal(n) + seq![0u8]
}

/// Appends the decimal digits of `n` to `out`.
fn push_decimal(out: &mut Vec<u8>, n: u32)
    ensures
        final(out)@ == old(out)@ + decimal(n as nat),
    decreases n,
{
    if n >= 10 {
        push_decimal(out, n / 10);
    }
    let digit: u8 = (n % 10) as u8;
    out.push(48u8 + digit);
    proof {
        if n >= 10 {
            assert(old(out)@ + decimal((n / 10) as nat) + seq![(48 + n % 10) as u8] =~= old(
                out,
            )@ + decimal(n as nat));
        } else {
            assert(old(out)@ + seq![(48 + n) as u8] =~= old(out)@ + decimal(n as nat));
        }
    }
}

/// The search for a free BPF device: it tries `/dev/bpf0`, `/dev/bpf1`
/// and so on, and gives up after the hundredth.
#[derive(Debug)]
pub struct BpfDeviceSearch {
    attempt: u32,
}

/// What a search does after an attempt to open a device.
#[derive(Debug)]
pub enum SearchStep {
    /// The device opened; the search is over, with this descriptor.
    Opened(i32),
    /// The device did not open; try the next one.
    Retry(BpfDeviceSearch),
    /// The hundredth device did not open either; the search failed,
    /// with the reason of that last attempt in `errno`.
    Exhausted,
}

impl BpfDeviceSearch {
    #[verifier::type_invariant]
    spec fn within_bound(self) -> bool {
        self.attempt < 100
    }

    /// The number of the device that the search tries now.
    pub closed spec fn attempt(&self) -> nat {
        self.attempt as nat
    }

    /// A search that starts at `/dev/bpf0`.
    pub fn new() -> (s: BpfDeviceSearch)
        ensures
            s.attempt() == 0,
    {
        BpfDeviceSearch { attempt: 0 }
    }

    /// The path of the device to open now.
    pub fn device_path(&self) -> (path: Vec<u8>)
        ensures
            path@ == device_path(self.attempt()),
            self.attempt() < max_devices(),
            path@.len() >= 10,
            path@.subrange(0, 8) == seq![47u8, 100u8, 101u8, 118u8, 47u8, 98u8, 112u8, 102u8],
            path@[path@.len() - 1] == 0u8,
            forall|i: int| 8 <= i < path@.len() - 1 ==> 48 <= #[trigger] path@[i] <= 57,
            parse_decimal(path@.subrange(8, path@.len() - 1)) == self.attempt(),
    {
        proof {
            use_type_invariant(self);
        }
        let mut path: Vec<u8> = Vec::new();
        path.push(47u8);
        path.push(100u8);
        path.push(101u8);
        path.push(118u8);
        path.push(47u8);
        path.push(98u8);
        path.push(112u8);
        path.push(102u8);
        assert(path@ =~= device_prefix());
        push_decimal(&mut path, self.attempt);
        path.push(0u8);
        proof {
            let d = decimal(self.attempt());
            lemma_decimal_digits(self.attempt());
            lemma_parse_decimal(self.attempt());
            assert(path@ =~= device_prefix() + d + seq![0u8]);
            assert(path@.subrange(8, path@.len() - 1) =~= d);
            assert(path@.subrange(0, 8) =~= device_prefix());
            assert forall|i: int| 8 <= i < path@.len() - 1 implies 48 <= #[trigger] path@[i] <= 57 by {
                assert(path@[i] == d[i - 8]);
            }
        }
        path
    }

    /// The next step after `open` returned `returned` for the current
    /// device: -1 means that it did not open.
    pub fn next(self, returned: i32) -> (step: SearchStep)
        ensures
            returned != -1 ==> step == SearchStep::Opened(returned),
            returned == -1 && self.attempt() + 1 < max_devices() ==> (step matches SearchStep::Retry(
                s,
            ) && s.attempt() == self.attempt() + 1),
            returned == -1 && self.attempt() + 1 >= max_devices() ==> step is Exhausted,
            step matches SearchStep::Retry(s) ==> s.attempt() < max_devices(),
    {
        proof {
            use_type_invariant(&self);
        }
        if returned != -1 {
            SearchStep::Opened(returned)
        } else if self.attempt + 1 < 100 {
            SearchStep::Retry(BpfDeviceSearch { attempt: self.attempt + 1 })
        } else {
            SearchStep::Exhausted
        }
    }
}

/// The value handed to the request that sets promiscuous mode: 1 to
/// switch it on, 0 to switch it off.
pub fn promisc_value(state: bool) -> (v: i32)
    ensures
        v == (if state {
            1i32
        } else {
            0i32
        }),
{
    if state {
        1
    } else {
        0
    }
}

/// The value handed to the request that sets immediate mode: on, so that
/// reads return as soon as a packet arrives.
pub const IMMEDIATE_MODE: i32 = 1;

/// The buffer length that the device reported, or the failure of the
/// request (status -1).
pub fn buffer_size(status: i32, length: u32) -> (r: Result<u32, PacketError>)
    ensures
        status == -1 <==> r == Err::<u32, PacketError>(PacketError::Os),
        status != -1 <==> r == Ok::<u32, PacketError>(length),
{
    if status == -1 {
        Err(PacketError::Os)
    } else {
        Ok(length)
    }
}

/// Every byte of a decimal numeral is an ASCII digit.
pub proof fn lemma_decimal_digits(n: nat)
    ensures
        forall|i: int| 0 <= i < decimal(n).len() ==> 48 <= #[trigger] decimal(n)[i] <= 57,
        decimal(n).len() >= 1,
    decreases n,
{
    if n >= 10 {
        lemma_decimal_digits(n / 10);
        let d = decimal(n);
        assert forall|i: int| 0 <= i < d.len() implies 48 <= #[trigger] d[i] <= 57 by {
            if i < decimal(n / 10).len() {
                assert(d[i] == decimal(n / 10)[i]);
            }
        }
    }
}

/// Reading a decimal numeral back gives the number it was made from.
pub proof fn lemma_parse_decimal(n: nat)
    ensures
        parse_decimal(decimal(n)) == n,
    decreases n,
{
    let d = decimal(n);
    if n < 10 {
        assert(d.drop_last() =~= Seq::<u8>::empty());
        assert(parse_decimal(d.drop_last()) == 0);
        assert(d.last() == 48 + n);
    } else {
        lemma_parse_decimal(n / 10);
        assert(d.drop_last() =~= decimal(n / 10));
        assert(d.last() == 48 + n % 10);
        assert((n / 10) * 10 + n % 10 == n);
        assert(parse_decimal(d) == parse_decimal(decimal(n / 10)) * 10 + (d.last() - 48));
    }
}

/// Distinct attempts of a search open distinct devices: the path names
/// the device number, and nothing else.
pub proof fn lemma_device_paths_distinct(m: nat, n: nat)
    requires
        m != n,
    ensures
        device_path(m) != device_path(n),
{
    lemma_parse_decimal(m);
    lemma_parse_decimal(n);
    lemma_decimal_digits(m);
    lemma_decimal_digits(n);
    let pm = device_path(m);
    let pn = device_path(n);
    if pm == pn {
        assert(decimal(m) =~= pm.subrange(8, pm.len() - 1));
        assert(decimal(n) =~= pn.subrange(8, pn.len() - 1));
    }
}

/// The path that `open` reads from a device path is `/dev/bpf` and the
/// device number: it ends at the terminating zero and not before.
pub proof fn lemma_device_path_reads_back(n: nat)
    ensures
        c_string(device_path(n)) == device_prefix() + decimal(n),
{
    lemma_decimal_digits(n);
    let name = device_prefix() + decimal(n);
    assert(!has_zero(name)) by {
        if has_zero(name) {
            let i = choose|i: int| 0 <= i < name.len() && name[i] == 0;
            if i >= 8 {
                assert(name[i] == decimal(n)[i - 8]);
            }
        }
    }
    crate::interface::lemma_padded_name_reads_back(name, name.len() + 1);
    assert(crate::interface::zero_padded(name, name.len() + 1) =~= device_path(n));
}

} // verus!
