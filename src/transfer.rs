//! Decisions of the download executor: picking a temporary file name next
//! to the destination, and what to do on each outcome of the content stream.
use vstd::prelude::*;
use crate::jira::DownloadEvent;

verus! {

/// `path` followed by `n` copies of the `.part` suffix.
pub open spec fn part_name(path: Seq<char>, n: nat) -> Seq<char>
    decreases n,
{
    if n == 0 {
        path
    } else {
        part_name(path, (n - 1) as nat) + ".part"@
    }
}

/// `path` with one more `.part` suffix.
pub fn with_part_suffix(path: &str) -> (r: String)
    ensures
        r@ == path@ + ".part"@,
{
    let mut r = String::from_str(path);
    r.append(".part");
    r
}

/// What creating a file under a new name gave.
pub enum CreateOutcome {
    /// The file was created, and did not exist before.
    Created,
    /// A file of that name exists already.
    AlreadyExists,
    /// Creating failed for another reason.
    Failed { msg: String },
}

/// The next move while looking for an unused temporary name.
pub enum TempStep {
    /// Write into the file just created under `path`.
    Use { path: String },
    /// Try to create `path` next.
    Retry { path: String },
    /// Give up with this message.
    Fail { msg: String },
}

/// The message for a temporary file that could not be created.
pub open spec fn create_failure_text(path: Seq<char>, msg: Seq<char>) -> Seq<char> {
    "Failed to create file \""@ + path + "\": "@ + msg
}

/// Decides what follows an attempt to create the temporary file `candidate`:
/// keep it when it was created, try the name with one more `.part` suffix
/// when that name is taken, give up on any other failure.
pub fn temp_file_step(candidate: String, outcome: CreateOutcome) -> (r: TempStep)
    ensures
        outcome is Created ==> r == (TempStep::Use { path: candidate }),
        outcome is AlreadyExists ==> r is Retry && r->Retry_path@ == candidate@ + ".part"@,
        outcome matches CreateOutcome::Failed { msg } ==> r is Fail && r->Fail_msg@
            == create_failure_text(candidate@, msg@),
{
    match outcome {
        CreateOutcome::Created => TempStep::Use { path: candidate },
        CreateOutcome::AlreadyExists => TempStep::Retry { path: with_part_suffix(candidate.as_str()) },
        CreateOutcome::Failed { msg } => {
            let mut m = String::from_str("Failed to create file \"");
            m.append(candidate.as_str());
            m.append("\": ");
            m.append(msg.as_str());
            TempStep::Fail { msg: m }
        },
    }
}

/// Temporary names never coincide with the destination, nor with each other:
/// the `n`-th name tried differs from the `m`-th one, so a retry never
/// reuses a name that was found taken.
pub proof fn lemma_temp_names_distinct(dest: Seq<char>, m: nat, n: nat)
    requires
        m != n,
    ensures
        part_name(dest, m) != part_name(dest, n),
        n >= 1 ==> part_name(dest, n) != dest,
{
    lemma_part_name_len(dest, m);
    lemma_part_name_len(dest, n);
}

proof fn lemma_part_name_len(dest: Seq<char>, n: nat)
    ensures
        part_name(dest, n).len() == dest.len() + 5 * n,
    decreases n,
{
    reveal_strlit(".part");
    if n > 0 {
        lemma_part_name_len(dest, (n - 1) as nat);
    }
}

/// A retry after the `n`-th name was found taken tries the `n + 1`-th.
pub proof fn lemma_retry_name(dest: Seq<char>, n: nat)
    ensures
        part_name(dest, n) + ".part"@ == part_name(dest, n + 1),
{
}

/// A search for an unused temporary name next to a destination, as plain
/// values: the names already found taken, and the name to try next.
pub struct TempSearchView {
    pub dest: Seq<char>,
    /// How many `.part` suffixes the name to try next carries.
    pub tries: nat,
    pub candidate: Seq<char>,
    /// The names that creating found taken.
    pub taken: Set<Seq<char>>,
}

impl TempSearchView {
    /// The names with one to `tries - 1` suffixes were all found taken, and
    /// the candidate carries `tries` suffixes.
    pub open spec fn wf(self) -> bool {
        &&& self.tries >= 1
        &&& self.candidate == part_name(self.dest, self.tries)
        &&& self.taken == Set::new(|q: Seq<char>| exists|j: nat| 1 <= j < self.tries
            && q == part_name(self.dest, j))
    }
}

/// The search for the temporary file of one transfer: the destination name
/// with one `.part` suffix first, one more for each name found taken.
pub struct TempSearch {
    dest: String,
    candidate: String,
    tries: Ghost<nat>,
    taken: Ghost<Set<Seq<char>>>,
}

impl View for TempSearch {
    type V = TempSearchView;

    closed spec fn view(&self) -> TempSearchView {
        TempSearchView {
            dest: self.dest@,
            tries: self.tries@,
            candidate: self.candidate@,
            taken: self.taken@,
        }
    }
}

impl TempSearch {
    /// A search that tries `dest` with one `.part` suffix first.
    pub fn new(dest: &str) -> (r: TempSearch)
        ensures
            r@.wf(),
            r@.dest == dest@,
            r@.tries == 1,
            r@.candidate == dest@ + ".part"@,
            r@.taken == Set::<Seq<char>>::empty(),
    {
        assert(part_name(dest@, 0) == dest@);
        let r = TempSearch {
            dest: String::from_str(dest),
            candidate: with_part_suffix(dest),
            tries: Ghost(1),
            taken: Ghost(Set::empty()),
        };
        assert(r@.taken =~= Set::new(|q: Seq<char>| exists|j: nat| 1 <= j < 1nat
            && q == part_name(dest@, j)));
        r
    }

    /// The name to try next.
    pub fn candidate(&self) -> (r: &String)
        ensures
            r@ == self@.candidate,
    {
        &self.candidate
    }

    /// Takes in what creating the candidate gave: the candidate is used when
    /// it was created, the next name is tried when it was taken, and the
    /// search gives up on any other failure.
    pub fn step(&mut self, outcome: CreateOutcome) -> (r: TempStep)
        requires
            old(self)@.wf(),
        ensures
            final(self)@.wf(),
            final(self)@.dest == old(self)@.dest,
            outcome is Created ==> final(self)@ == old(self)@ && r is Use
                && r->Use_path@ == old(self)@.candidate,
            outcome is AlreadyExists ==> {
                &&& r is Retry
                &&& r->Retry_path@ == final(self)@.candidate
                &&& final(self)@.tries == old(self)@.tries + 1
                &&& final(self)@.taken == old(self)@.taken.insert(old(self)@.candidate)
            },
            outcome matches CreateOutcome::Failed { msg } ==> final(self)@ == old(self)@
                && r is Fail && r->Fail_msg@ == create_failure_text(old(self)@.candidate, msg@),
    {
        let taken_now = matches!(outcome, CreateOutcome::AlreadyExists);
        let r = temp_file_step(self.candidate.clone(), outcome);
        if taken_now {
            if let TempStep::Retry { path } = &r {
                let ghost n = self.tries@;
                let ghost d = self.dest@;
                let ghost c = self.candidate@;
                self.candidate = path.clone();
                self.tries = Ghost(n + 1);
                self.taken = Ghost(self.taken@.insert(c));
                proof {
                    lemma_retry_name(d, n);
                    assert(self.taken@ =~= Set::new(|q: Seq<char>| exists|j: nat| 1 <= j < n + 1
                        && q == part_name(d, j))) by {
                        assert forall|q: Seq<char>| (exists|j: nat| 1 <= j < n + 1
                            && q == part_name(d, j)) implies #[trigger] self.taken@.contains(q) by {
                            let j = choose|j: nat| 1 <= j < n + 1 && q == part_name(d, j);
                            if j < n {
                                assert(old(self)@.taken.contains(q));
                            }
                        }
                    }
                }
            }
        }
        r
    }
}

/// The name a search uses is the least one, by number of `.part` suffixes,
/// that was not found taken: every name with fewer suffixes was found taken,
/// the name itself was not, and it is never the destination itself.
pub proof fn lemma_least_untaken(v: TempSearchView)
    requires
        v.wf(),
    ensures
        v.candidate == part_name(v.dest, v.tries),
        v.tries >= 1,
        forall|j: nat| 1 <= j < v.tries ==> v.taken.contains(#[trigger] part_name(v.dest, j)),
        !v.taken.contains(v.candidate),
        v.candidate != v.dest,
{
    assert forall|j: nat| 1 <= j < v.tries implies v.taken.contains(#[trigger] part_name(v.dest, j)) by {
    }
    if v.taken.contains(v.candidate) {
        let j = choose|j: nat| 1 <= j < v.tries && v.candidate == part_name(v.dest, j);
        lemma_temp_names_distinct(v.dest, j, v.tries);
    }
    lemma_temp_names_distinct(v.dest, 0, v.tries);
}

/// What the content stream or the file system reported to the executor.
pub enum TransferInput {
    /// A chunk of `len` bytes arrived and is to be written.
    Chunk { len: u64 },
    /// The stream is exhausted.
    End,
    /// The temporary file now stands under the destination name.
    Renamed,
    /// The receiver of the progress events is gone: the transfer is cancelled.
    Closed,
    /// Reading, writing or renaming failed.
    Failed { msg: String },
}

/// The executor's next move.
pub enum TransferAction {
    /// Append the chunk to the temporary file, then publish `event`.
    Write { downloaded: u64, event: DownloadEvent },
    /// Rename the temporary file to the destination.
    Commit,
    /// Publish `event` and stop, leaving any temporary file in place.
    Stop { event: DownloadEvent },
}

/// The message given when the receiver of the progress events is gone.
pub open spec fn cancelled_text() -> Seq<char> {
    "Download cancelled"@
}

/// The executor's decision on one input, with `downloaded` bytes written so
/// far and `total` declared by the remote. Progress only grows, the rename
/// comes only after the stream is exhausted, and `Finished` is published
/// only once the rename succeeded.
pub fn transfer_step(downloaded: u64, total: Option<u64>, input: TransferInput) -> (r: TransferAction)
    requires
        input matches TransferInput::Chunk { len } ==> downloaded + len <= u64::MAX,
    ensures
        input matches TransferInput::Chunk { len } ==> r == (TransferAction::Write {
            downloaded: (downloaded + len) as u64,
            event: DownloadEvent::Progress { downloaded: (downloaded + len) as u64, total },
        }),
        input is End ==> r is Commit,
        input is Renamed ==> r == (TransferAction::Stop { event: DownloadEvent::Finished }),
        input is Closed ==> r is Stop && r->Stop_event is Error
            && r->Stop_event->Error_msg@ == cancelled_text(),
        input matches TransferInput::Failed { msg } ==> r == (TransferAction::Stop {
            event: DownloadEvent::Error { msg },
        }),
        r is Commit ==> input is End,
        r matches TransferAction::Stop { event } && event is Finished ==> input is Renamed,
{
    match input {
        TransferInput::Chunk { len } => {
            let d = downloaded + len;
            TransferAction::Write { downloaded: d, event: DownloadEvent::Progress { downloaded: d, total } }
        },
        TransferInput::End => TransferAction::Commit,
        TransferInput::Renamed => TransferAction::Stop { event: DownloadEvent::Finished },
        TransferInput::Closed => TransferAction::Stop {
            event: DownloadEvent::Error { msg: String::from_str("Download cancelled") },
        },
        TransferInput::Failed { msg } => TransferAction::Stop { event: DownloadEvent::Error { msg } },
    }
}

} // verus!
