//! The state controller: the single owner of the displayed state.
//!
//! The controller holds the pending-read bookkeeping, the one live decode
//! result, and the drag overlay flag. Messages arrive one at a time from the
//! event loop, so each `update` call is atomic; suspension happens only
//! inside the asynchronous reads, which report back as independent `Loaded`
//! messages. A completed read unconditionally overwrites the result, so the
//! visible result is decided by completion order, never submission order.

use vstd::prelude::*;

use crate::decode::decode_qr;
use crate::decode::decode_spec;
use crate::names::clipboard_name;
use crate::names::clipboard_name_spec;
use crate::registry::PendingReads;

verus! {

/// A message processed by the controller.
pub enum Msg {
    /// A submission of named blobs from the drop target or the file picker:
    /// the file names, in submission order.
    Files(Vec<String>),
    /// A submission of that many unnamed blobs from a paste event.
    Blobs(usize),
    /// An asynchronous read delivered its bytes. A failed read never sends
    /// this message: it is dropped silently, by design.
    Loaded(String, Vec<u8>),
    /// A drag moved over the drop target (`true`) or left it (`false`).
    DragOver(bool),
}

/// An order to start one asynchronous byte read: read the blob at `index` of
/// the submission just processed, and report its bytes under `name`.
pub struct ReadRequest {
    pub index: usize,
    pub name: String,
}

/// The controller state as the contracts see it.
#[verifier::ext_equal]
pub struct StateView {
    /// The names under which a read is tracked.
    pub pending: Set<Seq<char>>,
    /// The one live decode result, if any read has completed yet.
    pub result: Option<Result<Seq<char>, Seq<char>>>,
    /// Whether a drag is hovering over the drop target.
    pub overlay: bool,
}

/// The names a submission of files carries.
pub open spec fn submitted_names(names: Seq<String>) -> Set<Seq<char>> {
    Set::new(|q: Seq<char>| exists|i: int| 0 <= i < names.len() && names[i]@ == q)
}

/// The names synthesized for a paste of `n` blobs.
pub open spec fn clipboard_names(n: nat) -> Set<Seq<char>> {
    Set::new(|q: Seq<char>| exists|i: nat| i < n && q == clipboard_name_spec(i))
}

/// How one message transforms the controller state.
pub open spec fn step(s: StateView, msg: Msg) -> StateView {
    match msg {
        Msg::Files(names) => StateView { pending: s.pending + submitted_names(names@), ..s },
        Msg::Blobs(n) => StateView { pending: s.pending + clipboard_names(n as nat), ..s },
        Msg::Loaded(name, bytes) => StateView {
            pending: s.pending.remove(name@),
            result: Some(decode_spec(bytes@)),
            ..s
        },
        Msg::DragOver(over) => StateView { overlay: over, ..s },
    }
}

/// The state before any message: nothing pending, nothing decoded, no drag.
pub open spec fn initial_state() -> StateView {
    StateView { pending: Set::empty(), result: None, overlay: false }
}

/// The QR decoder component's state.
pub struct QrDecoder {
    readers: PendingReads,
    result: Option<Result<String, String>>,
    is_over: bool,
}

impl View for QrDecoder {
    type V = StateView;

    closed spec fn view(&self) -> StateView {
        StateView {
            pending: self.readers@,
            result: match self.result {
                None => None,
                Some(Ok(text)) => Some(Ok(text@)),
                Some(Err(message)) => Some(Err(message@)),
            },
            overlay: self.is_over,
        }
    }
}

impl QrDecoder {
    /// The bookkeeping invariant: each name is tracked at most once.
    pub closed spec fn wf(&self) -> bool {
        self.readers.wf()
    }

    /// A fresh controller, in the initial state.
    pub fn new() -> (r: Self)
        ensures
            r@ == initial_state(),
            r.wf(),
    {
        let r = QrDecoder { readers: PendingReads::new(), result: None, is_over: false };
        proof {
            assert(r@ =~= initial_state());
        }
        r
    }

    /// The decoded text to display, if the live result is a success.
    pub fn success_text(&self) -> (r: Option<&String>)
        ensures
            match r {
                Some(text) => self@.result == Some(Result::<Seq<char>, Seq<char>>::Ok(text@)),
                None => !(self@.result matches Some(res) && res is Ok),
            },
    {
        match &self.result {
            Some(Ok(text)) => Some(text),
            _ => None,
        }
    }

    /// The failure message to display, if the live result is a failure.
    pub fn failure_message(&self) -> (r: Option<&String>)
        ensures
            match r {
                Some(message) => self@.result == Some(
                    Result::<Seq<char>, Seq<char>>::Err(message@),
                ),
                None => !(self@.result matches Some(res) && res is Err),
            },
    {
        match &self.result {
            Some(Err(message)) => Some(message),
            _ => None,
        }
    }

    /// Whether the drag overlay is shown.
    pub fn overlay_shown(&self) -> (r: bool)
        ensures
            r == self@.overlay,
    {
        self.is_over
    }

    /// Processes one message. Returns the reads to start and whether the
    /// display changed: submissions only start reads, while a completed read
    /// and an overlay change redraw.
    pub fn update(&mut self, msg: Msg) -> (r: (Vec<ReadRequest>, bool))
        requires
            old(self).wf(),
        ensures
            final(self).wf(),
            final(self)@ == step(old(self)@, msg),
            r.1 == (msg matches Msg::Loaded(_, _) || msg matches Msg::DragOver(_)),
            match msg {
                Msg::Files(names) => r.0@.len() == names@.len() && forall|i: int|
                    0 <= i < r.0@.len() ==> (#[trigger] r.0@[i]).index == i && r.0@[i].name@
                        == names@[i]@,
                Msg::Blobs(n) => r.0@.len() == n && forall|i: int|
                    0 <= i < r.0@.len() ==> (#[trigger] r.0@[i]).index == i && r.0@[i].name@
                        == clipboard_name_spec(i as nat),
                _ => r.0@.len() == 0,
            },
    {
        match msg {
            Msg::Files(names) => {
                let ghost goal = step(old(self)@, Msg::Files(names));
                let mut requests: Vec<ReadRequest> = Vec::new();
                let count = names.len();
                let mut i: usize = 0;
                while i < count
                    invariant
                        i <= count,
                        count == names@.len(),
                        self.wf(),
                        self@.result == old(self)@.result,
                        self@.overlay == old(self)@.overlay,
                        self@.pending =~= old(self)@.pending + submitted_names(
                            names@.subrange(0, i as int),
                        ),
                        requests@.len() == i,
                        forall|k: int|
                            0 <= k < i ==> (#[trigger] requests@[k]).index == k
                                && requests@[k].name@ == names@[k]@,
                    decreases count - i,
                {
                    let name = names[i].clone();
                    self.readers.insert(name.clone());
                    requests.push(ReadRequest { index: i, name });
                    proof {
                        let prefix = names@.subrange(0, i as int);
                        let extended = names@.subrange(0, i + 1);
                        assert forall|q: Seq<char>| submitted_names(extended).contains(q)
                            implies (old(self)@.pending + submitted_names(prefix)).insert(
                            names@[i as int]@,
                        ).contains(q) by {
                            let k = choose|k: int| 0 <= k < extended.len() && extended[k]@ == q;
                            if k < i {
                                assert(prefix[k]@ == q);
                                assert(submitted_names(prefix).contains(q));
                            }
                        }
                        assert forall|q: Seq<char>| submitted_names(prefix).contains(q)
                            implies submitted_names(extended).contains(q) by {
                            let k = choose|k: int| 0 <= k < prefix.len() && prefix[k]@ == q;
                            assert(extended[k]@ == q);
                        }
                        assert(extended[i as int]@ == names@[i as int]@);
                        assert(self@.pending =~= old(self)@.pending + submitted_names(extended));
                    }
                    i += 1;
                }
                proof {
                    assert(names@.subrange(0, count as int) =~= names@);
                    assert(self@ =~= step(old(self)@, Msg::Files(names)));
                }
                (requests, false)
            },
            Msg::Blobs(n) => {
                let mut requests: Vec<ReadRequest> = Vec::new();
                let mut i: usize = 0;
                while i < n
                    invariant
                        i <= n,
                        self.wf(),
                        self@.result == old(self)@.result,
                        self@.overlay == old(self)@.overlay,
                        self@.pending =~= old(self)@.pending + clipboard_names(i as nat),
                        requests@.len() == i,
                        forall|k: int|
                            0 <= k < i ==> (#[trigger] requests@[k]).index == k
                                && requests@[k].name@ == clipboard_name_spec(k as nat),
                    decreases n - i,
                {
                    let name = clipboard_name(i);
                    self.readers.insert(name.clone());
                    requests.push(ReadRequest { index: i, name });
                    proof {
                        assert forall|q: Seq<char>| clipboard_names((i + 1) as nat).contains(q)
                            implies (old(self)@.pending + clipboard_names(i as nat)).insert(
                            clipboard_name_spec(i as nat),
                        ).contains(q) by {
                            let k = choose|k: nat| k < i + 1 && q == clipboard_name_spec(k);
                            if k < i {
                                assert(clipboard_names(i as nat).contains(q));
                            }
                        }
                        assert(self@.pending =~= old(self)@.pending + clipboard_names(
                            (i + 1) as nat,
                        ));
                    }
                    i += 1;
                }
                proof {
                    assert(self@ =~= step(old(self)@, Msg::Blobs(n)));
                }
                (requests, false)
            },
            Msg::Loaded(name, bytes) => {
                self.readers.remove(&name);
                self.result = Some(decode_qr(bytes.as_slice()));
                proof {
                    assert(self@ =~= step(old(self)@, Msg::Loaded(name, bytes)));
                }
                (Vec::new(), true)
            },
            Msg::DragOver(over) => {
                self.is_over = over;
                proof {
                    assert(self@ =~= step(old(self)@, Msg::DragOver(over)));
                }
                (Vec::new(), true)
            },
        }
    }
}

/// Completion order, not submission order, decides the visible result: when
/// submission `a` is made before submission `b` but `b`'s read completes
/// first, the result left behind is the decode of `a`'s bytes.
pub proof fn lemma_last_completed_wins(
    s: StateView,
    sub_a: Vec<String>,
    sub_b: Vec<String>,
    a_name: String,
    a_bytes: Vec<u8>,
    b_name: String,
    b_bytes: Vec<u8>,
)
    ensures
        step(
            step(
                step(step(s, Msg::Files(sub_a)), Msg::Files(sub_b)),
                Msg::Loaded(b_name, b_bytes),
            ),
            Msg::Loaded(a_name, a_bytes),
        ).result == Some(decode_spec(a_bytes@)),
{
}

/// Two blobs submitted under one name: the bookkeeping keeps a single entry,
/// yet both reads still complete and deliver. Whichever `Loaded` message is
/// processed last decides the result, and the shared entry is gone afterwards.
pub proof fn lemma_same_name_last_processed_wins(
    s: StateView,
    sub_a: Vec<String>,
    sub_b: Vec<String>,
    name_a: String,
    name_b: String,
    first_bytes: Vec<u8>,
    second_bytes: Vec<u8>,
)
    requires
        name_a@ == name_b@,
        sub_a@.len() == 1 && sub_a@[0]@ == name_a@,
        sub_b@.len() == 1 && sub_b@[0]@ == name_b@,
    ensures
        step(step(s, Msg::Files(sub_a)), Msg::Files(sub_b)).pending == s.pending
            + submitted_names(sub_a@),
        step(
            step(s, Msg::Loaded(name_a, first_bytes)),
            Msg::Loaded(name_b, second_bytes),
        ).result == Some(decode_spec(second_bytes@)),
        !step(
            step(s, Msg::Loaded(name_a, first_bytes)),
            Msg::Loaded(name_b, second_bytes),
        ).pending.contains(name_a@),
{
    assert(submitted_names(sub_a@) =~= submitted_names(sub_b@));
    assert((s.pending + submitted_names(sub_a@)) + submitted_names(sub_b@) =~= s.pending
        + submitted_names(sub_a@));
}

/// What may change what: only a completed read changes the displayed result
/// — submissions and drag changes leave it alone, and a failed read sends no
/// message at all, so it can never surface — and only a drag change moves the
/// overlay flag.
pub proof fn lemma_single_writer_per_field(s: StateView, msg: Msg)
    ensures
        !(msg matches Msg::Loaded(_, _)) ==> step(s, msg).result == s.result,
        msg matches Msg::Loaded(name, bytes) ==> step(s, msg).result == Some(decode_spec(bytes@)),
        !(msg matches Msg::DragOver(_)) ==> step(s, msg).overlay == s.overlay,
{
}

/// A drag that enters and then leaves the target lowers the overlay flag; a
/// drop (a file submission) never touches the flag, which therefore keeps its
/// last explicitly set value across the drop.
pub proof fn lemma_overlay_follows_drag(s: StateView, names: Vec<String>)
    ensures
        step(step(s, Msg::DragOver(true)), Msg::DragOver(false)).overlay == false,
        step(s, Msg::Files(names)).overlay == s.overlay,
        step(s, Msg::Files(names)).result == s.result,
{
}

} // verus!
