use vstd::prelude::*;

verus! {

/// Why an operation on a packet socket failed.
#[derive(Debug, Clone, Copy, PartialEq, Eq, Structural)]
pub enum PacketError {
    /// The caller handed over an argument that can never succeed,
    /// such as an interface name longer than the kernel accepts.
    InvalidInput,
    /// The system call reported failure; the reason is in `errno`.
    Os,
}

/// Interprets the status that `bind`, `setsockopt` and `ioctl` return:
/// `-1` is failure, anything else success.
pub fn check_status(status: i32) -> (r: Result<(), PacketError>)
    ensures
        status == -1 <==> r == Err::<(), PacketError>(PacketError::Os),
        status != -1 <==> r is Ok,
{
    if status == -1 {
        Err(PacketError::Os)
    } else {
        Ok(())
    }
}

/// Interprets what `read`, `write` or `recv` returned: a negative value
/// is failure, any other value the number of bytes moved.
pub fn byte_count(returned: isize) -> (r: Result<usize, PacketError>)
    ensures
        returned < 0 <==> r == Err::<usize, PacketError>(PacketError::Os),
        returned >= 0 <==> r == Ok::<usize, PacketError>(returned as usize),
{
    if returned < 0 {
        Err(PacketError::Os)
    } else {
        Ok(returned as usize)
    }
}

} // verus!
