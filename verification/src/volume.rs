use vstd::prelude::*;
use vstd::slice::slice_subrange;

verus! {

/// The size of a volume: `capacity` units of `unit`.
#[derive(Debug)]
pub struct Capacity {
    pub unit: String,
    pub capacity: u64,
}

/// A libvirt storage-volume definition.
#[derive(Debug)]
pub struct Volume {
    pub name: String,
    pub capacity: Capacity,
}

/// The definition of the volume `name`: 32 GiB.
pub open spec fn is_volume_definition(v: Volume, name: Seq<char>) -> bool {
    &&& v.name@ == name
    &&& v.capacity.unit@ == "G"@
    &&& v.capacity.capacity == 32
}

/// Builds the definition of the storage volume `name`.
pub fn volume_definition(name: &str) -> (v: Volume)
    ensures
        is_volume_definition(v, name@),
{
    Volume { name: name.to_string(), capacity: Capacity { unit: "G".to_string(), capacity: 32 } }
}

/// A call that creating a volume makes on the storage pool, in order.
#[derive(Debug)]
pub enum VolumeAction {
    /// Delete the volume of that name that is already in the pool.
    DeleteExisting,
    /// Create the volume from this definition.
    Create(Volume),
}

/// What creating the volume `name` does, given whether the pool already
/// holds a volume of that name: an existing one is deleted first, then the
/// volume is created afresh.
pub fn create_volume(name: &str, exists: bool) -> (plan: Vec<VolumeAction>)
    ensures
        exists ==> plan@.len() == 2 && plan@[0] is DeleteExisting,
        !exists ==> plan@.len() == 1,
        plan@.last() matches VolumeAction::Create(v) && is_volume_definition(v, name@),
{
    let mut plan: Vec<VolumeAction> = Vec::new();
    if exists {
        plan.push(VolumeAction::DeleteExisting);
    }
    plan.push(VolumeAction::Create(volume_definition(name)));
    plan
}

/// The most bytes read from the image and handed to the stream at once.
pub const CHUNK_SIZE: usize = 1048576;

/// The next thing to do while copying an image into a volume.
#[derive(Debug, Clone, Copy, PartialEq, Eq)]
pub enum UploadStep {
    /// Read up to this many bytes of the image (never zero).
    Read(usize),
    /// Hand `Upload::pending` to the stream.
    Send,
    /// Finish the stream: the copy is over.
    Finish,
}

/// The ways the copy can fail.
#[derive(Debug, Clone, Copy, PartialEq, Eq)]
pub enum UploadError {
    /// The stream accepted no byte of what it was handed.
    StreamClosed,
}

impl UploadError {
    /// The human-readable message of the error.
    pub fn message(&self) -> (s: String)
        ensures
            s@ == "stream closed unexpectedly"@,
    {
        match self {
            UploadError::StreamClosed => "stream closed unexpectedly".to_string(),
        }
    }
}

/// The abstract state of a copy.
pub struct UploadView {
    /// The image length announced to the volume.
    pub length: nat,
    /// Bytes still to read, counting the chunk in hand.
    pub remaining: nat,
    /// The chunk in hand.
    pub chunk: Seq<u8>,
    /// How much of the chunk the stream has taken.
    pub offset: nat,
    /// Whether the image ended before `length` bytes.
    pub ended: bool,
    /// Every byte read so far, in order.
    pub read: Seq<u8>,
    /// Every byte the stream has taken so far, in order.
    pub sent: Seq<u8>,
}

/// The part of the chunk in hand that the stream has not taken yet.
pub open spec fn pending_of(v: UploadView) -> Seq<u8> {
    v.chunk.subrange(v.offset as int, v.chunk.len() as int)
}

/// What holds of every state of a copy: the stream has taken exactly the
/// bytes read, in order, but for the untaken rest of the chunk in hand; no
/// more than `length` bytes are ever read.
pub open spec fn upload_consistent(v: UploadView) -> bool {
    &&& v.offset <= v.chunk.len() <= CHUNK_SIZE
    &&& v.chunk.len() > 0 ==> v.offset < v.chunk.len()
    &&& v.chunk.len() <= v.remaining
    &&& v.remaining + v.read.len() == v.length + v.chunk.len()
    &&& v.read == v.sent + pending_of(v)
    &&& v.ended ==> v.chunk.len() == 0
}

/// A bound on the steps a copy has left: every answered read or send
/// lowers it, so a copy of `length` bytes ends within `2 * length + 1`
/// answered steps.
pub open spec fn upload_measure(v: UploadView) -> int {
    (v.length - v.read.len()) + (v.length - v.sent.len()) + if v.ended {
        0int
    } else {
        1int
    }
}

/// The step that a state calls for.
pub open spec fn next_step_of(v: UploadView) -> UploadStep {
    if v.offset < v.chunk.len() {
        UploadStep::Send
    } else if v.ended || v.remaining == 0 {
        UploadStep::Finish
    } else if v.remaining < CHUNK_SIZE {
        UploadStep::Read(v.remaining as usize)
    } else {
        UploadStep::Read(CHUNK_SIZE)
    }
}

/// Copying an image of known length through a stream, a chunk at a time,
/// handing each chunk to the stream until it has taken all of it.
pub struct Upload {
    length: usize,
    remaining: usize,
    chunk: Vec<u8>,
    offset: usize,
    ended: bool,
    read: Ghost<Seq<u8>>,
    sent: Ghost<Seq<u8>>,
}

impl View for Upload {
    type V = UploadView;

    closed spec fn view(&self) -> UploadView {
        UploadView {
            length: self.length as nat,
            remaining: self.remaining as nat,
            chunk: self.chunk@,
            offset: self.offset as nat,
            ended: self.ended,
            read: self.read@,
            sent: self.sent@,
        }
    }
}

impl Upload {
    /// The internal well-formedness of a copy.
    pub closed spec fn wf(&self) -> bool {
        &&& upload_consistent(self@)
        &&& self.length as nat == self@.length
    }

    /// Starts copying an image of `length` bytes.
    pub fn new(length: usize) -> (u: Upload)
        ensures
            u.wf(),
            u@.length == length,
            u@.remaining == length,
            u@.chunk.len() == 0,
            u@.offset == 0,
            !u@.ended,
            u@.read.len() == 0,
            u@.sent.len() == 0,
    {
        let u = Upload {
            length,
            remaining: length,
            chunk: Vec::new(),
            offset: 0,
            ended: false,
            read: Ghost(Seq::empty()),
            sent: Ghost(Seq::empty()),
        };
        assert(u@.sent + pending_of(u@) =~= u@.read);
        u
    }

    /// What to do next.
    pub fn next_step(&self) -> (s: UploadStep)
        requires
            self.wf(),
        ensures
            s == next_step_of(self@),
            upload_consistent(self@),
    {
        if self.offset < self.chunk.len() {
            UploadStep::Send
        } else if self.ended || self.remaining == 0 {
            UploadStep::Finish
        } else if self.remaining < CHUNK_SIZE {
            UploadStep::Read(self.remaining)
        } else {
            UploadStep::Read(CHUNK_SIZE)
        }
    }

    /// The bytes to hand to the stream now.
    pub fn pending(&self) -> (p: &[u8])
        requires
            self.wf(),
        ensures
            p@ == pending_of(self@),
    {
        slice_subrange(self.chunk.as_slice(), self.offset, self.chunk.len())
    }

    /// Takes the bytes that a read returned: an empty read means the image
    /// has ended.
    pub fn on_read(&mut self, data: Vec<u8>)
        requires
            old(self).wf(),
            next_step_of(old(self)@) matches UploadStep::Read(k) && data@.len() <= k,
        ensures
            final(self).wf(),
            final(self)@.length == old(self)@.length,
            final(self)@.remaining == old(self)@.remaining,
            final(self)@.sent == old(self)@.sent,
            final(self)@.read == old(self)@.read + data@,
            data@.len() == 0 ==> final(self)@.ended && final(self)@.chunk.len() == 0,
            data@.len() > 0 ==> !final(self)@.ended && final(self)@.chunk == data@
                && final(self)@.offset == 0,
            0 <= upload_measure(final(self)@) < upload_measure(old(self)@),
    {
        if data.len() == 0 {
            self.ended = true;
            assert(old(self)@.read + data@ =~= old(self)@.read);
        } else {
            let ghost old_read = self.read@;
            let ghost old_sent = self.sent@;
            self.read = Ghost(old_read + data@);
            self.chunk = data;
            self.offset = 0;
            assert(pending_of(self@) =~= self.chunk@);
            assert(old(self)@.chunk.len() == 0);
            assert(pending_of(old(self)@) =~= Seq::<u8>::empty());
            assert(old_read =~= old_sent);
        }
    }

    /// Takes the number of bytes of `pending` that the stream accepted.
    /// A stream that accepts nothing has closed: the copy fails and the
    /// state stays as it was.
    pub fn on_sent(&mut self, accepted: usize) -> (r: Result<(), UploadError>)
        requires
            old(self).wf(),
            next_step_of(old(self)@) is Send,
            accepted <= pending_of(old(self)@).len(),
        ensures
            final(self).wf(),
            accepted == 0 <==> r is Err,
            r is Err ==> final(self)@ == old(self)@,
            r is Ok ==> {
                &&& final(self)@.length == old(self)@.length
                &&& final(self)@.read == old(self)@.read
                &&& final(self)@.ended == old(self)@.ended
                &&& 0 <= upload_measure(final(self)@) < upload_measure(old(self)@)
                &&& final(self)@.sent == old(self)@.sent + pending_of(old(self)@).subrange(
                    0,
                    accepted as int,
                )
                &&& old(self)@.offset + accepted == old(self)@.chunk.len() ==> {
                    &&& final(self)@.chunk.len() == 0
                    &&& final(self)@.remaining == old(self)@.remaining - old(self)@.chunk.len()
                }
                &&& old(self)@.offset + accepted < old(self)@.chunk.len() ==> {
                    &&& final(self)@.chunk == old(self)@.chunk
                    &&& final(self)@.offset == old(self)@.offset + accepted
                    &&& final(self)@.remaining == old(self)@.remaining
                }
            },
    {
        if accepted == 0 {
            return Err(UploadError::StreamClosed);
        }
        let ghost old_v = self@;
        let ghost taken = pending_of(old_v).subrange(0, accepted as int);
        self.sent = Ghost(self.sent@ + taken);
        if self.offset + accepted == self.chunk.len() {
            self.remaining = self.remaining - self.chunk.len();
            self.chunk = Vec::new();
            self.offset = 0;
            assert(taken =~= pending_of(old_v));
            assert(pending_of(self@) =~= Seq::<u8>::empty());
            assert(self@.sent + pending_of(self@) =~= self@.read);
        } else {
            self.offset = self.offset + accepted;
            assert(pending_of(old_v) =~= taken + pending_of(self@));
            assert(self@.sent + pending_of(self@) =~= old_v.sent + (taken + pending_of(self@)));
            assert(self@.sent + pending_of(self@) =~= self@.read);
        }
        Ok(())
    }
}

/// When a copy finishes, the stream has taken every byte read, in the order
/// read, and either the whole announced length was read or the image ended
/// early.
pub proof fn lemma_finished_upload_sent_everything(v: UploadView)
    requires
        upload_consistent(v),
        next_step_of(v) is Finish,
    ensures
        v.sent == v.read,
        v.read.len() == v.length || v.ended,
{
    assert(pending_of(v) =~= Seq::<u8>::empty());
    assert(v.read =~= v.sent);
}

/// The copy hands bytes to the stream exactly when it holds bytes the
/// stream has not taken, and finishes exactly when nothing is held and the
/// image has been read to its announced length or has ended; otherwise it
/// reads.
pub proof fn lemma_steps_follow_the_bytes(v: UploadView)
    requires
        upload_consistent(v),
    ensures
        next_step_of(v) is Send <==> pending_of(v).len() > 0,
        next_step_of(v) is Finish <==> pending_of(v).len() == 0 && (v.ended || v.read.len()
            == v.length),
        next_step_of(v) is Read <==> pending_of(v).len() == 0 && !v.ended && v.read.len()
            < v.length,
{
}

/// Once the stream has taken the whole announced length, the copy
/// finishes.
pub proof fn lemma_all_sent_finishes(v: UploadView)
    requires
        upload_consistent(v),
        v.sent.len() == v.length,
    ensures
        next_step_of(v) is Finish,
{
    assert(v.read.len() == v.sent.len() + pending_of(v).len());
}

/// A read never asks for more than a chunk, nor for more than is left of the
/// announced length, and never for nothing.
pub proof fn lemma_reads_stay_within_length(v: UploadView)
    requires
        upload_consistent(v),
        next_step_of(v) is Read,
    ensures
        next_step_of(v) matches UploadStep::Read(k) && 0 < k <= CHUNK_SIZE && v.read.len() + k
            <= v.length,
{
}

} // verus!
