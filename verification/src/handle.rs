use vstd::prelude::*;
use vstd::string::StringSliceAdditionalSpecFns;

verus! {

/// Raw platform handle: a file descriptor on Unix.
pub type PlatformHandleType = i32;

/// A handle is valid when it is a non-negative descriptor.
#[verifier::allow_in_spec]
pub fn valid_handle(handle: PlatformHandleType) -> bool
    returns
        handle >= 0,
{
    handle >= 0
}

/// Stands in for RawFd: a plain wrapper around the raw handle value.
#[derive(Clone, Copy, Debug, PartialEq, Eq, Structural)]
pub struct PlatformHandle(pub PlatformHandleType);

impl PlatformHandle {
    pub fn new(raw: PlatformHandleType) -> (h: PlatformHandle)
        ensures
            h.0 == raw,
    {
        PlatformHandle(raw)
    }

    pub fn try_new(raw: PlatformHandleType) -> (h: Option<PlatformHandle>)
        ensures
            h is Some <==> valid_handle(raw),
            h matches Some(p) ==> p.0 == raw,
    {
        if !valid_handle(raw) {
            return None;
        }
        Some(PlatformHandle::new(raw))
    }

    pub fn as_raw(&self) -> (r: PlatformHandleType)
        ensures
            r == self.0,
    {
        self.0
    }
}

impl PlatformHandle {
    /// The value written on the wire for a handle: handles travel as 64-bit
    /// integers.
    #[verifier::allow_in_spec]
    pub fn to_wire(&self) -> i64
        returns
            self.0 as i64,
    {
        self.0 as i64
    }

    /// The handle read back from a wire value, narrowed to the platform's
    /// handle type as a cast narrows it.
    #[verifier::allow_in_spec]
    pub fn from_wire(value: i64) -> PlatformHandle
        returns
            PlatformHandle(value as PlatformHandleType),
    {
        PlatformHandle(value as PlatformHandleType)
    }
}

/// Reading back what was written gives the same handle.
pub proof fn lemma_wire_roundtrip(h: PlatformHandle)
    ensures
        PlatformHandle::from_wire(h.to_wire()) == h,
{
    let x = h.0;
    assert(((x as i64) as i32) == x) by (bit_vector);
}

/// The decimal digits of `n`, most significant first, as ASCII bytes.
pub open spec fn decimal(n: nat) -> Seq<u8>
    decreases n,
{
    if n < 10 {
        seq![(48 + n) as u8]
    } else {
        decimal(n / 10).push((48 + n % 10) as u8)
    }
}

/// Appends the decimal digits of `n` to `out`.
pub fn push_decimal(out: &mut Vec<u8>, n: u32)
    ensures
        final(out)@ == old(out)@ + decimal(n as nat),
    decreases n,
{
    if n >= 10 {
        push_decimal(out, n / 10);
    }
    let digit: u8 = (n % 10) as u8;
    out.push(48u8 + digit);
    proof {
        if n < 10 {
            assert(old(out)@ + decimal(n as nat) =~= old(out)@.push((48 + n) as u8));
        } else {
            assert(old(out)@ + decimal(n as nat) =~= (old(out)@ + decimal((n / 10) as nat)).push(
                (48 + n % 10) as u8,
            ));
        }
    }
}

/// The bytes of the text before the process id in a shared memory file name.
pub open spec fn shm_prefix() -> Seq<u8> {
    seq![99u8, 117u8, 98u8, 101u8, 98u8, 45u8, 115u8, 104u8, 109u8, 45u8]
}

/// The name of the shared memory file that process `pid` creates for `dir`:
/// `cubeb-shm-<pid>-<dir>`.
pub open spec fn spec_shm_file_name(pid: nat, dir: Seq<u8>) -> Seq<u8> {
    shm_prefix() + decimal(pid) + seq![45u8] + dir
}

/// The file name, within the temporary directory, of the shared memory file
/// that process `pid` creates for `dir`.
pub fn shm_file_name(pid: u32, dir: &str) -> (name: Vec<u8>)
    ensures
        name@ == spec_shm_file_name(pid as nat, dir.spec_bytes()),
{
    let mut name: Vec<u8> = Vec::new();
    name.push(99u8);
    name.push(117u8);
    name.push(98u8);
    name.push(101u8);
    name.push(98u8);
    name.push(45u8);
    name.push(115u8);
    name.push(104u8);
    name.push(109u8);
    name.push(45u8);
    assert(name@ =~= shm_prefix());
    push_decimal(&mut name, pid);
    name.push(45u8);
    let bytes = dir.as_bytes();
    let ghost before = name@;
    let mut i: usize = 0;
    while i < bytes.len()
        invariant
            i <= bytes@.len(),
            name@ == before + bytes@.subrange(0, i as int),
        decreases bytes@.len() - i,
    {
        name.push(bytes[i]);
        i = i + 1;
        assert(name@ =~= before + bytes@.subrange(0, i as int));
    }
    assert(bytes@.subrange(0, bytes@.len() as int) =~= bytes@);
    assert(name@ =~= spec_shm_file_name(pid as nat, dir.spec_bytes()));
    name
}

/// The handle that arrived with a message: the one descriptor received
/// with it, if there is one.  A message carries at most one descriptor.
pub fn received_handle(fds: &Vec<PlatformHandleType>) -> (h: Option<PlatformHandle>)
    requires
        fds@.len() <= 1,
    ensures
        fds@.len() == 0 ==> h is None,
        fds@.len() == 1 ==> h == Some(PlatformHandle(fds@[0])),
{
    if fds.len() == 0 {
        None
    } else {
        Some(PlatformHandle::new(fds[0]))
    }
}

} // verus!
