//! The crash context: a fixed-size byte image of a thread's state at the
//! moment a signal reached it, with typed access to the fields inside.
//!
//! The image is laid out as on x86-64 Linux: the saved registers, the saved
//! floating-point registers, the signal's metadata and the thread id, in that
//! order, every integer little-endian.

use vstd::prelude::*;
use crate::signal::Signal;
use crate::wire::{
    bits_of_i32, i32_bits_round_trip, i32_of_bits, load_u32, load_u64, read_after_write_u32,
    read_after_write_u64, read_u32, read_u64, store_u32, store_u64, write_u32, write_u64,
};

verus! {

/// Bytes taken by the saved registers.
pub const CONTEXT_SIZE: usize = 968;

/// Bytes taken by the saved floating-point registers.
pub const FLOAT_STATE_SIZE: usize = 512;

/// Bytes taken by the signal's metadata.
pub const SIGINFO_SIZE: usize = 128;

/// Where the saved floating-point registers start in the image.
pub const FLOAT_STATE_OFFSET: usize = 968;

/// Where the signal's metadata starts in the image.
pub const SIGINFO_OFFSET: usize = 1480;

/// Where the thread id starts in the image.
pub const TID_OFFSET: usize = 1608;

/// Bytes taken by a whole crash context.
pub const CRASH_CONTEXT_SIZE: usize = 1616;

/// Where the signal's number starts, counted from the metadata's start.
pub const SIGNO_AT: usize = 0;

/// Where the error number starts, counted from the metadata's start.
pub const ERRNO_AT: usize = 4;

/// Where the signal's code starts, counted from the metadata's start.
pub const CODE_AT: usize = 8;

/// Where the sender's process id starts, counted from the metadata's start.
pub const PID_AT: usize = 12;

/// Where the sender's user id starts, counted from the metadata's start.
pub const UID_AT: usize = 16;

/// Where the fault's address starts, counted from the metadata's start.
pub const ADDR_AT: usize = 72;

/// Reads `libc::SI_USER`, the code of a signal that a process sent. libc
/// defines it as 0 on Linux.
#[verifier::external_body]
fn si_user() -> (code: i32)
    ensures
        code == 0,
{
    libc::SI_USER
}

/// What is known of a signal: its number, its code, who sent it and the
/// address it is about.
#[derive(Clone, Copy, PartialEq, Eq, Structural, Debug)]
pub struct SigInfo {
    /// The signal's number.
    pub ssi_signo: u32,
    /// The error number that came with the signal.
    pub ssi_errno: i32,
    /// Why the signal was raised.
    pub ssi_code: i32,
    /// The process that sent the signal, where one did.
    pub ssi_pid: u32,
    /// The user that sent the signal, where one did.
    pub ssi_uid: u32,
    /// The address that the fault is about, where there is one.
    pub ssi_addr: u64,
}

/// The full context of a crash.
#[derive(Clone, Copy, Debug)]
pub struct CrashContext {
    image: [u8; CRASH_CONTEXT_SIZE],
}

/// The metadata held in `image`.
pub open spec fn image_siginfo(image: Seq<u8>) -> SigInfo {
    SigInfo {
        ssi_signo: read_u32(image, SIGINFO_OFFSET + SIGNO_AT),
        ssi_errno: i32_of_bits(read_u32(image, SIGINFO_OFFSET + ERRNO_AT)),
        ssi_code: i32_of_bits(read_u32(image, SIGINFO_OFFSET + CODE_AT)),
        ssi_pid: read_u32(image, SIGINFO_OFFSET + PID_AT),
        ssi_uid: read_u32(image, SIGINFO_OFFSET + UID_AT),
        ssi_addr: read_u64(image, SIGINFO_OFFSET + ADDR_AT),
    }
}

/// The thread id held in `image`.
pub open spec fn image_tid(image: Seq<u8>) -> i32 {
    i32_of_bits(read_u32(image, TID_OFFSET as int))
}

/// The saved registers held in `image`.
pub open spec fn image_context(image: Seq<u8>) -> Seq<u8> {
    image.subrange(0, CONTEXT_SIZE as int)
}

/// The saved floating-point registers held in `image`.
pub open spec fn image_float_state(image: Seq<u8>) -> Seq<u8> {
    image.subrange(FLOAT_STATE_OFFSET as int, SIGINFO_OFFSET as int)
}

/// `image` with the metadata's fields set to those of `siginfo`.
pub open spec fn with_siginfo(image: Seq<u8>, siginfo: SigInfo) -> Seq<u8> {
    let a = write_u32(image, SIGINFO_OFFSET + SIGNO_AT, siginfo.ssi_signo);
    let b = write_u32(a, SIGINFO_OFFSET + ERRNO_AT, bits_of_i32(siginfo.ssi_errno));
    let c = write_u32(b, SIGINFO_OFFSET + CODE_AT, bits_of_i32(siginfo.ssi_code));
    let d = write_u32(c, SIGINFO_OFFSET + PID_AT, siginfo.ssi_pid);
    let e = write_u32(d, SIGINFO_OFFSET + UID_AT, siginfo.ssi_uid);
    write_u64(e, SIGINFO_OFFSET + ADDR_AT, siginfo.ssi_addr)
}

/// The image of a crash context with the given parts: the registers, the
/// floating-point registers, then the metadata and the thread id written over
/// zeroes.
pub open spec fn assembled(context: Seq<u8>, float_state: Seq<u8>, siginfo: SigInfo, tid: i32) -> Seq<
    u8,
> {
    let blank = context + float_state + Seq::new(
        (CRASH_CONTEXT_SIZE - SIGINFO_OFFSET) as nat,
        |i: int| 0u8,
    );
    write_u32(with_siginfo(blank, siginfo), TID_OFFSET as int, bits_of_i32(tid))
}

/// The metadata of a signal that the process `pid` raised against itself.
pub open spec fn simulated_siginfo(signal: Signal, pid: u32) -> SigInfo {
    SigInfo {
        ssi_signo: signal.spec_number() as u32,
        ssi_errno: 0,
        ssi_code: 0,
        ssi_pid: pid,
        ssi_uid: 0,
        ssi_addr: 0,
    }
}

/// What parsing `bytes` gives: a context with exactly these bytes where the
/// length is that of a crash context, and nothing otherwise.
pub open spec fn parsed(bytes: Seq<u8>, outcome: Option<CrashContext>) -> bool {
    match outcome {
        Some(context) => bytes.len() == CRASH_CONTEXT_SIZE && context@ == bytes,
        None => bytes.len() != CRASH_CONTEXT_SIZE,
    }
}

impl View for CrashContext {
    type V = Seq<u8>;

    /// The bytes of the context, in order.
    closed spec fn view(&self) -> Seq<u8> {
        self.image@
    }
}

impl CrashContext {
    /// Builds the context of a signal from what the platform handed over.
    pub fn new(
        context: &[u8; CONTEXT_SIZE],
        float_state: &[u8; FLOAT_STATE_SIZE],
        siginfo: &SigInfo,
        tid: i32,
    ) -> (assembly: CrashContext)
        ensures
            assembly@ == assembled(context@, float_state@, *siginfo, tid),
    {
        let mut image = [0u8;1616];
        let mut i: usize = 0;
        while i < CONTEXT_SIZE
            invariant
                i <= CONTEXT_SIZE,
                forall|k: int| 0 <= k < i ==> image@[k] == context@[k],
                forall|k: int| i <= k < CRASH_CONTEXT_SIZE ==> image@[k] == 0,
            decreases CONTEXT_SIZE - i,
        {
            image[i] = context[i];
            i += 1;
        }
        let mut j: usize = 0;
        while j < FLOAT_STATE_SIZE
            invariant
                j <= FLOAT_STATE_SIZE,
                forall|k: int| 0 <= k < CONTEXT_SIZE ==> image@[k] == context@[k],
                forall|k: int| 0 <= k < j ==> image@[FLOAT_STATE_OFFSET + k] == float_state@[k],
                forall|k: int| FLOAT_STATE_OFFSET + j <= k < CRASH_CONTEXT_SIZE ==> image@[k] == 0,
            decreases FLOAT_STATE_SIZE - j,
        {
            image[FLOAT_STATE_OFFSET + j] = float_state[j];
            j += 1;
        }
        assert(image@ =~= context@ + float_state@ + Seq::new(
            (CRASH_CONTEXT_SIZE - SIGINFO_OFFSET) as nat,
            |i: int| 0u8,
        ));
        store_u32(&mut image, SIGINFO_OFFSET + SIGNO_AT, siginfo.ssi_signo);
        store_u32(&mut image, SIGINFO_OFFSET + ERRNO_AT, #[verifier::truncate] (siginfo.ssi_errno as u32));
        store_u32(&mut image, SIGINFO_OFFSET + CODE_AT, #[verifier::truncate] (siginfo.ssi_code as u32));
        store_u32(&mut image, SIGINFO_OFFSET + PID_AT, siginfo.ssi_pid);
        store_u32(&mut image, SIGINFO_OFFSET + UID_AT, siginfo.ssi_uid);
        store_u64(&mut image, SIGINFO_OFFSET + ADDR_AT, siginfo.ssi_addr);
        store_u32(&mut image, TID_OFFSET, #[verifier::truncate] (tid as u32));
        CrashContext { image }
    }

    /// Builds the context of a signal that the calling process raises against
    /// itself: the metadata names `signal` and `pid` and nothing else.
    pub fn simulated(
        signal: Signal,
        pid: u32,
        tid: i32,
        context: &[u8; CONTEXT_SIZE],
        float_state: &[u8; FLOAT_STATE_SIZE],
    ) -> (assembly: CrashContext)
        ensures
            assembly@ == assembled(context@, float_state@, simulated_siginfo(signal, pid), tid),
    {
        let siginfo = SigInfo {
            ssi_signo: signal.number() as u32,
            ssi_errno: 0,
            ssi_code: si_user(),
            ssi_pid: pid,
            ssi_uid: 0,
            ssi_addr: 0,
        };
        CrashContext::new(context, float_state, &siginfo, tid)
    }

    /// The bytes of this context: a view of its own memory.
    pub fn as_bytes(&self) -> (bytes: &[u8])
        ensures
            bytes@ == self@,
            bytes@.len() == CRASH_CONTEXT_SIZE,
    {
        self.image.as_slice()
    }

    /// Parses a context out of `bytes`, which must have exactly the length of
    /// a crash context.
    pub fn from_bytes(bytes: &[u8]) -> (outcome: Option<CrashContext>)
        ensures
            parsed(bytes@, outcome),
    {
        if bytes.len() != CRASH_CONTEXT_SIZE {
            return None;
        }
        let mut image = [0u8;1616];
        let mut i: usize = 0;
        while i < CRASH_CONTEXT_SIZE
            invariant
                i <= CRASH_CONTEXT_SIZE,
                bytes@.len() == CRASH_CONTEXT_SIZE,
                forall|k: int| 0 <= k < i ==> image@[k] == bytes@[k],
            decreases CRASH_CONTEXT_SIZE - i,
        {
            image[i] = bytes[i];
            i += 1;
        }
        assert(image@ =~= bytes@);
        Some(CrashContext { image })
    }

    /// The id of the thread that the signal reached.
    pub fn tid(&self) -> (tid: i32)
        ensures
            tid == image_tid(self@),
    {
        #[verifier::truncate]
        (load_u32(self.image.as_slice(), TID_OFFSET) as i32)
    }

    /// What is known of the signal.
    pub fn siginfo(&self) -> (siginfo: SigInfo)
        ensures
            siginfo == image_siginfo(self@),
    {
        let image = self.image.as_slice();
        SigInfo {
            ssi_signo: load_u32(image, SIGINFO_OFFSET + SIGNO_AT),
            ssi_errno: #[verifier::truncate] (load_u32(image, SIGINFO_OFFSET + ERRNO_AT) as i32),
            ssi_code: #[verifier::truncate] (load_u32(image, SIGINFO_OFFSET + CODE_AT) as i32),
            ssi_pid: load_u32(image, SIGINFO_OFFSET + PID_AT),
            ssi_uid: load_u32(image, SIGINFO_OFFSET + UID_AT),
            ssi_addr: load_u64(image, SIGINFO_OFFSET + ADDR_AT),
        }
    }

    /// The saved registers of the thread.
    pub fn context(&self) -> (context: &[u8])
        ensures
            context@ == image_context(self@),
    {
        vstd::slice::slice_subrange(self.image.as_slice(), 0, CONTEXT_SIZE)
    }

    /// The saved floating-point registers of the thread.
    pub fn float_state(&self) -> (float_state: &[u8])
        ensures
            float_state@ == image_float_state(self@),
    {
        vstd::slice::slice_subrange(self.image.as_slice(), FLOAT_STATE_OFFSET, SIGINFO_OFFSET)
    }
}

/// A crash context is its bytes: two contexts with the same bytes are the
/// same context.
pub proof fn same_bytes_same_context(a: CrashContext, b: CrashContext)
    requires
        a@ == b@,
    ensures
        a == b,
{
    assert(a.image =~= b.image);
}

/// Every crash context has exactly the length of a crash context.
pub proof fn length_is_fixed(context: CrashContext)
    ensures
        context@.len() == CRASH_CONTEXT_SIZE,
{
}

/// Parsing the bytes of a context gives that context back.
pub proof fn round_trip(source: CrashContext, outcome: Option<CrashContext>)
    requires
        parsed(source@, outcome),
    ensures
        outcome == Some(source),
{
    length_is_fixed(source);
    same_bytes_same_context(outcome.unwrap(), source);
}

/// Parsing gives nothing exactly when the length is not that of a crash
/// context.
pub proof fn length_guard(bytes: Seq<u8>, outcome: Option<CrashContext>)
    requires
        parsed(bytes, outcome),
    ensures
        outcome is None <==> bytes.len() != CRASH_CONTEXT_SIZE,
{
}

/// Whether byte `i` of an image belongs to one of the metadata's fields.
pub open spec fn in_a_siginfo_field(i: int) -> bool {
    ||| SIGINFO_OFFSET + SIGNO_AT <= i < SIGINFO_OFFSET + UID_AT + 4
    ||| SIGINFO_OFFSET + ADDR_AT <= i < SIGINFO_OFFSET + ADDR_AT + 8
}

/// Writing the metadata keeps the image's length and every byte outside the
/// metadata's fields, and the metadata then reads back as written.
pub proof fn siginfo_reads_back(image: Seq<u8>, siginfo: SigInfo)
    requires
        image.len() == CRASH_CONTEXT_SIZE,
    ensures
        with_siginfo(image, siginfo).len() == CRASH_CONTEXT_SIZE,
        image_siginfo(with_siginfo(image, siginfo)) == siginfo,
        forall|i: int|
            0 <= i < CRASH_CONTEXT_SIZE && !in_a_siginfo_field(i) ==> with_siginfo(image, siginfo)[i]
                == image[i],
{
    let a = write_u32(image, SIGINFO_OFFSET + SIGNO_AT, siginfo.ssi_signo);
    let b = write_u32(a, SIGINFO_OFFSET + ERRNO_AT, bits_of_i32(siginfo.ssi_errno));
    let c = write_u32(b, SIGINFO_OFFSET + CODE_AT, bits_of_i32(siginfo.ssi_code));
    let d = write_u32(c, SIGINFO_OFFSET + PID_AT, siginfo.ssi_pid);
    let e = write_u32(d, SIGINFO_OFFSET + UID_AT, siginfo.ssi_uid);
    let f = write_u64(e, SIGINFO_OFFSET + ADDR_AT, siginfo.ssi_addr);
    read_after_write_u32(image, SIGINFO_OFFSET + SIGNO_AT, siginfo.ssi_signo);
    read_after_write_u32(a, SIGINFO_OFFSET + ERRNO_AT, bits_of_i32(siginfo.ssi_errno));
    read_after_write_u32(b, SIGINFO_OFFSET + CODE_AT, bits_of_i32(siginfo.ssi_code));
    read_after_write_u32(c, SIGINFO_OFFSET + PID_AT, siginfo.ssi_pid);
    read_after_write_u32(d, SIGINFO_OFFSET + UID_AT, siginfo.ssi_uid);
    read_after_write_u64(e, SIGINFO_OFFSET + ADDR_AT, siginfo.ssi_addr);
    i32_bits_round_trip(siginfo.ssi_errno);
    i32_bits_round_trip(siginfo.ssi_code);
    assert(read_u32(f, SIGINFO_OFFSET + SIGNO_AT) == read_u32(a, SIGINFO_OFFSET + SIGNO_AT));
    assert(read_u32(f, SIGINFO_OFFSET + ERRNO_AT) == read_u32(b, SIGINFO_OFFSET + ERRNO_AT));
    assert(read_u32(f, SIGINFO_OFFSET + CODE_AT) == read_u32(c, SIGINFO_OFFSET + CODE_AT));
    assert(read_u32(f, SIGINFO_OFFSET + PID_AT) == read_u32(d, SIGINFO_OFFSET + PID_AT));
    assert(read_u32(f, SIGINFO_OFFSET + UID_AT) == read_u32(e, SIGINFO_OFFSET + UID_AT));
}

/// An assembled image has the length of a crash context, each part reads
/// back from it as it was given, and what no part covers is zero.
pub proof fn assembled_holds_its_parts(
    context: Seq<u8>,
    float_state: Seq<u8>,
    siginfo: SigInfo,
    tid: i32,
)
    requires
        context.len() == CONTEXT_SIZE,
        float_state.len() == FLOAT_STATE_SIZE,
    ensures
        assembled(context, float_state, siginfo, tid).len() == CRASH_CONTEXT_SIZE,
        image_context(assembled(context, float_state, siginfo, tid)) == context,
        image_float_state(assembled(context, float_state, siginfo, tid)) == float_state,
        image_siginfo(assembled(context, float_state, siginfo, tid)) == siginfo,
        image_tid(assembled(context, float_state, siginfo, tid)) == tid,
        forall|i: int|
            SIGINFO_OFFSET <= i < CRASH_CONTEXT_SIZE && !in_a_siginfo_field(i) && !(TID_OFFSET <= i
                < TID_OFFSET + 4) ==> assembled(context, float_state, siginfo, tid)[i] == 0,
{
    let blank = context + float_state + Seq::new(
        (CRASH_CONTEXT_SIZE - SIGINFO_OFFSET) as nat,
        |i: int| 0u8,
    );
    let filled = with_siginfo(blank, siginfo);
    let whole = write_u32(filled, TID_OFFSET as int, bits_of_i32(tid));
    siginfo_reads_back(blank, siginfo);
    read_after_write_u32(filled, TID_OFFSET as int, bits_of_i32(tid));
    i32_bits_round_trip(tid);
    assert(image_context(whole) =~= context);
    assert(image_float_state(whole) =~= float_state);
    assert(image_siginfo(whole) == image_siginfo(filled));
}

} // verus!
