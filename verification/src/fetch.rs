//! Fetching a repository file from the host into a caller's buffer.
//!
//! The host file interface is driven from outside: a [`Fetch`] names the
//! request the host must serve next, and is advanced with the host's reply,
//! until it finishes with the number of bytes that now fill the front of the
//! buffer, or with nothing.

use vstd::prelude::*;
use vstd::string::StringSliceAdditionalSpecFns;

use crate::path::{build_path, host_path, path_fits, PATH_BUF};

verus! {

/// Capacity of each buffer that receives a metadata file.
pub const META_BUF: usize = 4096;

/// Capacity of the buffer that receives the firmware image.
pub const FIRMWARE_BUF: usize = 2048;

/// Where a fetch stands.
#[derive(Clone, Copy, Debug, PartialEq, Eq, Structural)]
pub enum FetchPhase {
    /// Waiting for the host to open the path.
    Opening,
    /// The file is open as `fd`; waiting for its length.
    Measuring { fd: usize },
    /// Waiting for the host to read `len` bytes of `fd` into the buffer.
    Reading { fd: usize, len: usize },
    /// Waiting for the host to close `fd`; `fetched` is the result to hand
    /// back once it is closed.
    Closing { fd: usize, fetched: Option<usize> },
    /// Finished: `Some(len)` when the first `len` bytes of the buffer hold
    /// the file, `None` when the fetch failed.
    Done { fetched: Option<usize> },
}

/// What the host must do next.
#[derive(Clone, Copy, Debug, PartialEq, Eq, Structural)]
pub enum HostRequest {
    /// Open the fetch's path for reading.
    Open,
    /// Report the length of the open file `fd`.
    Measure { fd: usize },
    /// Read `len` bytes of `fd` into the front of the buffer.
    Read { fd: usize, len: usize },
    /// Close `fd`.
    Close { fd: usize },
    /// Nothing more: the fetch is over with this result.
    Finish { fetched: Option<usize> },
}

/// The host's answer to the request it was given.
#[derive(Clone, Copy, Debug, PartialEq, Eq, Structural)]
pub enum HostReply {
    /// The file was opened as `Some(fd)`, or could not be opened.
    Opened(Option<usize>),
    /// The file's length, or `None` when the host could not tell it.
    Measured(Option<usize>),
    /// Whether the read filled all the bytes that were asked for.
    ReadDone(bool),
    /// The file was closed.
    Closed,
}

/// The request that a fetch in `phase` waits on.
pub open spec fn pending_request(phase: FetchPhase) -> HostRequest {
    match phase {
        FetchPhase::Opening => HostRequest::Open,
        FetchPhase::Measuring { fd } => HostRequest::Measure { fd },
        FetchPhase::Reading { fd, len } => HostRequest::Read { fd, len },
        FetchPhase::Closing { fd, .. } => HostRequest::Close { fd },
        FetchPhase::Done { fetched } => HostRequest::Finish { fetched },
    }
}

/// Whether `reply` answers the request that a fetch in `phase` waits on.
pub open spec fn answers(phase: FetchPhase, reply: HostReply) -> bool {
    match (phase, reply) {
        (FetchPhase::Opening, HostReply::Opened(_)) => true,
        (FetchPhase::Measuring { .. }, HostReply::Measured(_)) => true,
        (FetchPhase::Reading { .. }, HostReply::ReadDone(_)) => true,
        (FetchPhase::Closing { .. }, HostReply::Closed) => true,
        _ => false,
    }
}

/// The phase a fetch into a buffer of `capacity` bytes moves to when `reply`
/// answers its pending request. A file whose length cannot be told is given
/// up without being closed; one longer than the buffer is closed unread.
pub open spec fn next_phase(phase: FetchPhase, capacity: usize, reply: HostReply) -> FetchPhase {
    match (phase, reply) {
        (FetchPhase::Opening, HostReply::Opened(None)) => FetchPhase::Done { fetched: None },
        (FetchPhase::Opening, HostReply::Opened(Some(fd))) => FetchPhase::Measuring { fd },
        (FetchPhase::Measuring { .. }, HostReply::Measured(None)) => FetchPhase::Done {
            fetched: None,
        },
        (FetchPhase::Measuring { fd }, HostReply::Measured(Some(len))) => if len > capacity {
            FetchPhase::Closing { fd, fetched: None }
        } else {
            FetchPhase::Reading { fd, len }
        },
        (FetchPhase::Reading { fd, len }, HostReply::ReadDone(ok)) => FetchPhase::Closing {
            fd,
            fetched: if ok {
                Some(len)
            } else {
                None
            },
        },
        (FetchPhase::Closing { fetched, .. }, HostReply::Closed) => FetchPhase::Done { fetched },
        _ => phase,
    }
}

/// No length held by a fetch in `phase` exceeds the buffer's `capacity`.
pub open spec fn within_capacity(phase: FetchPhase, capacity: usize) -> bool {
    match phase {
        FetchPhase::Reading { len, .. } => len <= capacity,
        FetchPhase::Closing { fetched: Some(len), .. } => len <= capacity,
        FetchPhase::Done { fetched: Some(len) } => len <= capacity,
        _ => true,
    }
}

/// A fetch of one repository file into a buffer of fixed capacity.
pub struct Fetch {
    path: [u8; PATH_BUF],
    path_len: usize,
    capacity: usize,
    phase: FetchPhase,
}

impl Fetch {
    /// The NUL-terminated host path that the fetch opens.
    pub closed spec fn path_bytes(&self) -> Seq<u8> {
        self.path@.take(self.path_len as int)
    }

    /// The capacity of the buffer that the file is read into.
    pub closed spec fn buffer_len(&self) -> usize {
        self.capacity
    }

    /// Where the fetch stands.
    pub closed spec fn phase_of(&self) -> FetchPhase {
        self.phase
    }

    /// The fetch holds no length beyond its buffer, and its path fits the
    /// path buffer.
    #[verifier::type_invariant]
    spec fn wf(&self) -> bool {
        &&& within_capacity(self.phase, self.capacity)
        &&& self.path_len <= PATH_BUF
    }

    /// The request the host must serve next.
    pub fn request(&self) -> (r: HostRequest)
        ensures
            r == pending_request(self.phase_of()),
    {
        match self.phase {
            FetchPhase::Opening => HostRequest::Open,
            FetchPhase::Measuring { fd } => HostRequest::Measure { fd },
            FetchPhase::Reading { fd, len } => HostRequest::Read { fd, len },
            FetchPhase::Closing { fd, .. } => HostRequest::Close { fd },
            FetchPhase::Done { fetched } => HostRequest::Finish { fetched },
        }
    }

    /// The NUL-terminated host path to open.
    pub fn path(&self) -> (p: &[u8])
        ensures
            p@ == self.path_bytes(),
    {
        proof {
            use_type_invariant(self);
        }
        vstd::slice::slice_subrange(self.path.as_slice(), 0, self.path_len)
    }

    /// Where the fetch stands.
    pub fn phase(&self) -> (p: FetchPhase)
        ensures
            p == self.phase_of(),
    {
        self.phase
    }

    /// Whether `reply` answers the request the fetch waits on.
    pub fn accepts(&self, reply: &HostReply) -> (b: bool)
        ensures
            b == answers(self.phase_of(), *reply),
    {
        match (self.phase, *reply) {
            (FetchPhase::Opening, HostReply::Opened(_)) => true,
            (FetchPhase::Measuring { .. }, HostReply::Measured(_)) => true,
            (FetchPhase::Reading { .. }, HostReply::ReadDone(_)) => true,
            (FetchPhase::Closing { .. }, HostReply::Closed) => true,
            _ => false,
        }
    }

    /// The bytes that the fetch left at the front of `buf`, the buffer the
    /// host read into: `Some` only once the fetch is over and succeeded.
    pub fn fetched<'a>(&self, buf: &'a [u8]) -> (r: Option<&'a [u8]>)
        requires
            buf@.len() == self.buffer_len(),
        ensures
            r is Some <==> self.phase_of() matches FetchPhase::Done { fetched: Some(_) },
            r matches Some(bytes) ==> self.phase_of() matches FetchPhase::Done {
                fetched: Some(len),
            } && bytes@ == buf@.take(len as int),
    {
        proof {
            use_type_invariant(self);
        }
        match self.phase {
            FetchPhase::Done { fetched: Some(len) } => Some(
                vstd::slice::slice_subrange(buf, 0, len),
            ),
            _ => None,
        }
    }

    /// Takes the host's reply to the pending request.
    pub fn advance(&mut self, reply: HostReply)
        requires
            answers(old(self).phase_of(), reply),
        ensures
            final(self).phase_of() == next_phase(old(self).phase_of(), old(self).buffer_len(), reply),
            final(self).buffer_len() == old(self).buffer_len(),
            final(self).path_bytes() == old(self).path_bytes(),
            within_capacity(final(self).phase_of(), final(self).buffer_len()),
    {
        proof {
            use_type_invariant(&*self);
        }
        let next = match (self.phase, reply) {
            (FetchPhase::Opening, HostReply::Opened(None)) => FetchPhase::Done { fetched: None },
            (FetchPhase::Opening, HostReply::Opened(Some(fd))) => FetchPhase::Measuring { fd },
            (FetchPhase::Measuring { .. }, HostReply::Measured(None)) => FetchPhase::Done {
                fetched: None,
            },
            (FetchPhase::Measuring { fd }, HostReply::Measured(Some(len))) => {
                if len > self.capacity {
                    FetchPhase::Closing { fd, fetched: None }
                } else {
                    FetchPhase::Reading { fd, len }
                }
            },
            (FetchPhase::Reading { fd, len }, HostReply::ReadDone(ok)) => FetchPhase::Closing {
                fd,
                fetched: if ok {
                    Some(len)
                } else {
                    None
                },
            },
            (FetchPhase::Closing { fetched, .. }, HostReply::Closed) => FetchPhase::Done {
                fetched,
            },
            _ => self.phase,
        };
        self.phase = next;
    }
}

/// Starts fetching the repository file `filename` into a buffer of
/// `capacity` bytes. When its host path does not fit a path buffer the fetch
/// is over at once, with nothing fetched; otherwise it first asks the host to
/// open that path.
pub fn fetch_to_buf(filename: &str, capacity: usize) -> (f: Fetch)
    ensures
        within_capacity(f.phase_of(), f.buffer_len()),
        f.buffer_len() == capacity,
        path_fits(filename.spec_bytes()) ==> {
            &&& f.phase_of() == FetchPhase::Opening
            &&& f.path_bytes() == host_path(filename.spec_bytes())
        },
        !path_fits(filename.spec_bytes()) ==> f.phase_of() == (FetchPhase::Done { fetched: None }),
{
    let mut path = [0u8; PATH_BUF];
    let path_len = build_path(filename, &mut path);
    if path_len == 0 {
        Fetch { path, path_len: 0, capacity, phase: FetchPhase::Done { fetched: None } }
    } else {
        Fetch { path, path_len, capacity, phase: FetchPhase::Opening }
    }
}

/// The replies of a host that opens the file as `opened`, tells its length
/// as `measured` and, when asked to read, reports `read_ok`; each reply
/// answers the request that the fetch is waiting on at that point.
pub open spec fn host_replies(
    capacity: usize,
    opened: Option<usize>,
    measured: Option<usize>,
    read_ok: bool,
) -> Seq<HostReply> {
    match opened {
        None => seq![HostReply::Opened(None)],
        Some(fd) => match measured {
            None => seq![HostReply::Opened(Some(fd)), HostReply::Measured(None)],
            Some(len) => if len > capacity {
                seq![HostReply::Opened(Some(fd)), HostReply::Measured(Some(len)), HostReply::Closed]
            } else {
                seq![
                    HostReply::Opened(Some(fd)),
                    HostReply::Measured(Some(len)),
                    HostReply::ReadDone(read_ok),
                    HostReply::Closed,
                ]
            },
        },
    }
}

/// The phase reached from `phase` by taking `replies` in order, stopping at
/// the first reply that does not answer the pending request.
pub open spec fn run(phase: FetchPhase, capacity: usize, replies: Seq<HostReply>) -> FetchPhase
    decreases replies.len(),
{
    if replies.len() == 0 || !answers(phase, replies[0]) {
        phase
    } else {
        run(next_phase(phase, capacity, replies[0]), capacity, replies.drop_first())
    }
}

/// The requests issued from `phase` while taking `replies` in order, the
/// last one being the request pending once they are taken.
pub open spec fn requests(phase: FetchPhase, capacity: usize, replies: Seq<HostReply>) -> Seq<
    HostRequest,
>
    decreases replies.len(),
{
    if replies.len() == 0 || !answers(phase, replies[0]) {
        seq![pending_request(phase)]
    } else {
        seq![pending_request(phase)] + requests(
            next_phase(phase, capacity, replies[0]),
            capacity,
            replies.drop_first(),
        )
    }
}

/// How many more replies a fetch in `phase` can take at most.
pub open spec fn replies_left(phase: FetchPhase) -> nat {
    match phase {
        FetchPhase::Opening => 4,
        FetchPhase::Measuring { .. } => 3,
        FetchPhase::Reading { .. } => 2,
        FetchPhase::Closing { .. } => 1,
        FetchPhase::Done { .. } => 0,
    }
}

/// A fetch answered by a host ends with the whole file in the buffer exactly
/// when the host opened it, told its length, the length fits the buffer and
/// the read succeeded; it asks the host to close every file whose length it
/// was told, once, and reads only when the file fits.
pub proof fn lemma_fetch_outcome(
    capacity: usize,
    opened: Option<usize>,
    measured: Option<usize>,
    read_ok: bool,
)
    ensures
        run(FetchPhase::Opening, capacity, host_replies(capacity, opened, measured, read_ok))
            == (FetchPhase::Done {
            fetched: match (opened, measured) {
                (Some(_), Some(len)) => if len <= capacity && read_ok {
                    Some(len)
                } else {
                    None
                },
                _ => None,
            },
        }),
        requests(FetchPhase::Opening, capacity, host_replies(capacity, opened, measured, read_ok))
            == match (opened, measured) {
            (None, _) => seq![HostRequest::Open, HostRequest::Finish { fetched: None }],
            (Some(fd), None) => seq![
                HostRequest::Open,
                HostRequest::Measure { fd },
                HostRequest::Finish { fetched: None },
            ],
            (Some(fd), Some(len)) => if len > capacity {
                seq![
                    HostRequest::Open,
                    HostRequest::Measure { fd },
                    HostRequest::Close { fd },
                    HostRequest::Finish { fetched: None },
                ]
            } else {
                seq![
                    HostRequest::Open,
                    HostRequest::Measure { fd },
                    HostRequest::Read { fd, len },
                    HostRequest::Close { fd },
                    HostRequest::Finish {
                        fetched: if read_ok {
                            Some(len)
                        } else {
                            None
                        },
                    },
                ]
            },
        },
{
    let replies = host_replies(capacity, opened, measured, read_ok);
    reveal_with_fuel(run, 5);
    reveal_with_fuel(requests, 5);
    match opened {
        None => {
            assert(replies.drop_first() =~= Seq::<HostReply>::empty());
        },
        Some(fd) => {
            let r1 = replies.drop_first();
            let r2 = r1.drop_first();
            let r3 = r2.drop_first();
            let r4 = r3.drop_first();
            match measured {
                None => {
                    assert(r2 =~= Seq::<HostReply>::empty());
                },
                Some(len) => {
                    if len > capacity {
                        assert(r3 =~= Seq::<HostReply>::empty());
                    } else {
                        assert(r4 =~= Seq::<HostReply>::empty());
                    }
                },
            }
        },
    }
}

/// No reply makes a fetch hold a length beyond its buffer.
pub proof fn lemma_reply_keeps_within_capacity(
    phase: FetchPhase,
    capacity: usize,
    reply: HostReply,
)
    requires
        within_capacity(phase, capacity),
    ensures
        within_capacity(next_phase(phase, capacity, reply), capacity),
{
}

/// Every reply that a fetch takes brings it closer to its end, and a
/// finished fetch takes none: a fetch ends after at most four replies.
pub proof fn lemma_reply_makes_progress(phase: FetchPhase, capacity: usize, reply: HostReply)
    ensures
        answers(phase, reply) ==> replies_left(next_phase(phase, capacity, reply)) < replies_left(
            phase,
        ),
        phase is Done ==> !answers(phase, reply),
        replies_left(phase) <= 4,
{
}

} // verus!
