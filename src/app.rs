//! The attachment catalog, the single-flight download queue and the key
//! dispatch of the interactive loop.
//!
//! Each attachment runs through this machine:
//! `NotDownloaded | Failed <-> Queued -> Downloading -> Downloaded | Failed`.
//! At most one attachment is `Downloading`: the one whose transfer is active.
use vstd::prelude::*;
use crate::jira;
use crate::jira::DownloadEvent;
use crate::text::{decimal, decimal_len, decimal_string, display_width, text_width};

verus! {

/// Where an attachment stands.
#[derive(Debug, Clone, PartialEq, Eq)]
pub enum AttachmentState {
    /// Not on disk, and not selected.
    NotDownloaded,
    /// Selected, waiting for its turn.
    Queued,
    /// Being transferred; `total` is absent when the remote gave no length.
    Downloading { downloaded: u64, total: Option<u64> },
    /// On disk under its own name.
    Downloaded,
    /// The probe or the transfer failed with this message.
    Failed { errmsg: String },
}

/// Whole percent of `total` that `downloaded` makes, rounded down; none when
/// the total is unknown (or zero, where no percentage exists).
pub open spec fn percent_of(downloaded: u64, total: Option<u64>) -> Option<u128> {
    match total {
        Some(t) => if t > 0 {
            Some(((downloaded * 100) / (t as int)) as u128)
        } else {
            None
        },
        None => None,
    }
}

/// The state that an event of the active transfer gives its attachment.
pub open spec fn state_after(e: DownloadEvent) -> AttachmentState {
    match e {
        DownloadEvent::Starting => AttachmentState::Downloading { downloaded: 0, total: None },
        DownloadEvent::Progress { downloaded, total } => AttachmentState::Downloading { downloaded, total },
        DownloadEvent::Finished => AttachmentState::Downloaded,
        DownloadEvent::Error { msg } => AttachmentState::Failed { errmsg: msg },
    }
}

impl AttachmentState {
    /// The state after the user toggles the selection.
    pub open spec fn toggled(self) -> AttachmentState {
        match self {
            AttachmentState::NotDownloaded => AttachmentState::Queued,
            AttachmentState::Failed { .. } => AttachmentState::Queued,
            AttachmentState::Queued => AttachmentState::NotDownloaded,
            _ => self,
        }
    }

    /// Whether `next` may follow this state: it stays, or it moves along
    /// one edge of the machine.
    pub open spec fn may_become(self, next: AttachmentState) -> bool {
        self == next
        || ((self is NotDownloaded || self is Failed) && next is Queued)
        || (self is Queued && (next is NotDownloaded || next is Downloading))
        || (self is Downloading && (next is Downloading || next is Downloaded || next is Failed))
    }

    /// The glyph shown for this state.
    pub open spec fn glyph_text(self) -> Seq<char> {
        match self {
            AttachmentState::NotDownloaded => "·"@,
            AttachmentState::Queued => ">"@,
            AttachmentState::Downloading { downloaded, total } => match percent_of(downloaded, total) {
                Some(p) => decimal(p as nat) + "%"@,
                None => "↓"@,
            },
            AttachmentState::Downloaded => "✓"@,
            AttachmentState::Failed { .. } => "/!\\"@,
        }
    }

    /// The state after the user toggles the selection: `NotDownloaded` and
    /// `Failed` become `Queued`, `Queued` becomes `NotDownloaded`, the others stay.
    pub fn toggle(&self) -> (r: AttachmentState)
        ensures
            r == self.toggled(),
    {
        match self {
            AttachmentState::NotDownloaded => AttachmentState::Queued,
            AttachmentState::Failed { .. } => AttachmentState::Queued,
            AttachmentState::Queued => AttachmentState::NotDownloaded,
            AttachmentState::Downloading { downloaded, total } => AttachmentState::Downloading {
                downloaded: *downloaded,
                total: *total,
            },
            AttachmentState::Downloaded => AttachmentState::Downloaded,
        }
    }

    /// The glyph shown for this state: a dot, `>`, the percentage or an arrow
    /// while downloading, a check mark, or a warning sign.
    pub fn glyph(&self) -> (r: String)
        ensures
            r@ == self.glyph_text(),
    {
        match self {
            AttachmentState::NotDownloaded => String::from_str("·"),
            AttachmentState::Queued => String::from_str(">"),
            AttachmentState::Downloading { downloaded, total } => match percent(*downloaded, *total) {
                Some(p) => {
                    let mut r = decimal_string(p);
                    r.append("%");
                    r
                },
                None => String::from_str("↓"),
            },
            AttachmentState::Downloaded => String::from_str("✓"),
            AttachmentState::Failed { .. } => String::from_str("/!\\"),
        }
    }
}

/// An attachment as the catalog holds it.
#[derive(Debug, Clone)]
pub struct Attachment {
    pub filename: String,
    pub size: u64,
    /// The creation time as displayed.
    pub created: String,
    pub state: AttachmentState,
    /// The locator from which the content is fetched.
    pub content: String,
}

/// Whether chrono's RFC 3339 parser accepts the text `s`.
pub uninterp spec fn rfc3339_parses(s: Seq<char>) -> bool;

/// Relies on chrono's `DateTime::parse_from_rfc3339`, `with_timezone(&Local)`
/// and `format`: the creation time in the machine's time zone, `None` exactly
/// where the parser rejects the text, which depends on the text alone. The
/// text given back depends on the machine, so nothing more is promised of it.
#[verifier::external_body]
fn local_time_text(created: &str) -> (r: Option<String>)
    ensures
        r is Some <==> rfc3339_parses(created@),
{
    chrono::DateTime::parse_from_rfc3339(created).ok().map(
        |dt| dt.with_timezone(&chrono::Local).format("%Y-%m-%d %H:%M").to_string(),
    )
}

/// The catalog entry for a listed attachment, with the creation time shown
/// as `local_created` where that is known and as listed otherwise.
pub open spec fn entry_of(att: jira::Attachment, local_created: Option<String>) -> Attachment {
    Attachment {
        filename: att.filename,
        size: att.size,
        created: match local_created {
            Some(c) => c,
            None => att.created,
        },
        state: AttachmentState::NotDownloaded,
        content: att.content,
    }
}

/// Whether `entry` holds what the tracker listed in `att`, not yet downloaded.
pub open spec fn lists(entry: Attachment, att: jira::Attachment) -> bool {
    &&& entry.filename == att.filename
    &&& entry.size == att.size
    &&& entry.content == att.content
    &&& entry.state is NotDownloaded
}

/// Whether `entry` is the catalog entry for `att`: its creation time
/// rendered anew where the listed text parses as RFC 3339, and kept as
/// listed where it does not.
pub open spec fn shown_from(entry: Attachment, att: jira::Attachment) -> bool {
    &&& rfc3339_parses(att.created@) ==> exists|c: String| entry == entry_of(att, Some(c))
    &&& !rfc3339_parses(att.created@) ==> entry == entry_of(att, None)
}

impl Attachment {
    /// The catalog entry for `att`, its creation time shown as
    /// `local_created` where that is known and as listed otherwise.
    pub fn from_listing(att: &jira::Attachment, local_created: Option<String>) -> (r: Attachment)
        ensures
            r == entry_of(*att, local_created),
    {
        Attachment {
            filename: att.filename.clone(),
            size: att.size,
            created: match local_created {
                Some(c) => c,
                None => att.created.clone(),
            },
            state: AttachmentState::NotDownloaded,
            content: att.content.clone(),
        }
    }

    /// The catalog entry for `att`, its creation time shown in the local time
    /// zone when it parses, and as listed otherwise.
    pub fn from_remote(att: &jira::Attachment) -> (r: Attachment)
        ensures
            lists(r, *att),
            shown_from(r, *att),
    {
        let c = local_time_text(att.created.as_str());
        let ghost shown = c;
        let r = Attachment::from_listing(att, c);
        proof {
            if let Some(t) = shown {
                assert(r == entry_of(*att, Some(t)));
            }
        }
        r
    }
}

/// `atts` with the state of entry `i` replaced by `st`.
pub open spec fn with_state(atts: Seq<Attachment>, i: int, st: AttachmentState) -> Seq<Attachment> {
    atts.update(i, Attachment { state: st, ..atts[i] })
}

/// Whether `i` is the lowest index of a queued entry.
pub open spec fn is_first_queued(atts: Seq<Attachment>, i: int) -> bool {
    &&& 0 <= i < atts.len()
    &&& atts[i].state is Queued
    &&& forall|j: int| 0 <= j < i ==> !(atts[j].state is Queued)
}

/// Whether no entry is queued.
pub open spec fn no_queued(atts: Seq<Attachment>) -> bool {
    forall|j: int| 0 <= j < atts.len() ==> !(atts[j].state is Queued)
}

/// Whether every entry of `after` is the entry of `before` at the same
/// index, its state moved at most one edge of the machine.
pub open spec fn valid_steps(before: Seq<Attachment>, after: Seq<Attachment>) -> bool {
    &&& before.len() == after.len()
    &&& forall|i: int| 0 <= i < before.len() ==> {
        &&& after[i].filename == before[i].filename
        &&& after[i].size == before[i].size
        &&& after[i].created == before[i].created
        &&& after[i].content == before[i].content
        &&& before[i].state.may_become(after[i].state)
    }
}

/// The widest of the file names.
pub open spec fn filename_width(atts: Seq<Attachment>) -> usize
    decreases atts.len(),
{
    if atts.len() == 0 {
        0
    } else {
        let w = display_width(atts.last().filename@);
        let rest = filename_width(atts.drop_last());
        if w > rest { w } else { rest }
    }
}

/// The most decimal digits of a size.
pub open spec fn size_width(atts: Seq<Attachment>) -> usize
    decreases atts.len(),
{
    if atts.len() == 0 {
        0
    } else {
        let w = decimal(atts.last().size as nat).len() as usize;
        let rest = size_width(atts.drop_last());
        if w > rest { w } else { rest }
    }
}

/// The widest of the creation times.
pub open spec fn created_width(atts: Seq<Attachment>) -> usize
    decreases atts.len(),
{
    if atts.len() == 0 {
        0
    } else {
        let w = display_width(atts.last().created@);
        let rest = created_width(atts.drop_last());
        if w > rest { w } else { rest }
    }
}

/// The state that a local probe gives: present, absent, or the probe's error.
pub open spec fn probe_state(p: Result<bool, String>) -> AttachmentState {
    match p {
        Ok(true) => AttachmentState::Downloaded,
        Ok(false) => AttachmentState::NotDownloaded,
        Err(e) => AttachmentState::Failed { errmsg: e },
    }
}

/// The status line for an entry.
pub open spec fn status_text(a: Attachment) -> Seq<char> {
    let f = a.filename@;
    match a.state {
        AttachmentState::NotDownloaded => "Attachment '"@ + f + "' is not downloaded."@,
        AttachmentState::Queued => "Attachment '"@ + f + "' is queued for download."@,
        AttachmentState::Downloading { downloaded, total } => match total {
            Some(t) => "Downloading '"@ + f + "'... "@ + decimal(downloaded as nat) + "/"@
                + decimal(t as nat) + " bytes"@,
            None => "Downloading '"@ + f + "'... "@ + decimal(downloaded as nat)
                + " bytes downloaded"@,
        },
        AttachmentState::Downloaded => "Attachment '"@ + f + "' has been downloaded."@,
        AttachmentState::Failed { errmsg } => "Attachment '"@ + f + "' failed to download: "@
            + errmsg@,
    }
}

/// The selection after moving down: the first row when none is selected,
/// the next row otherwise, never past the last one.
pub open spec fn selection_below(sel: Option<usize>, len: nat) -> Option<usize> {
    if len == 0 {
        sel
    } else {
        match sel {
            Some(i) => Some(if i + 1 < len { (i + 1) as usize } else { (len - 1) as usize }),
            None => Some(0),
        }
    }
}

/// The selection after moving up: the first row when none is selected, the
/// previous row otherwise, never before the first one.
pub open spec fn selection_above(sel: Option<usize>, len: nat) -> Option<usize> {
    if len == 0 {
        sel
    } else {
        match sel {
            Some(i) => Some(if i > 0 { (i - 1) as usize } else { 0 }),
            None => Some(0),
        }
    }
}

/// The selection after switching it: none when a row is selected, the
/// first row otherwise.
pub open spec fn selection_switched(sel: Option<usize>, len: nat) -> Option<usize> {
    match sel {
        Some(_) => None,
        None => if len == 0 { None } else { Some(0) },
    }
}

/// A key press that the interactive loop acts on.
pub enum Key {
    /// Leave the loop.
    Quit,
    /// Move the selection up.
    Up,
    /// Move the selection down.
    Down,
    /// Queue or unqueue the selected attachment.
    Toggle,
    /// Start the queue.
    Start,
    /// Clear the selection.
    Clear,
    /// Select the first row, or clear the selection.
    Switch,
}

/// What the catalog and the queue hold, as plain values.
pub struct AppView {
    pub issue: Seq<char>,
    pub entries: Seq<Attachment>,
    /// The widths of the state, name, size and creation columns.
    pub lengths: (usize, usize, usize, usize),
    pub exit: bool,
    /// The selected row.
    pub selected: Option<usize>,
    /// The entry whose transfer is in flight.
    pub active: Option<usize>,
    pub status: Option<Seq<char>>,
}

impl AppView {
    /// The selection is a row, the active transfer's entry is the one
    /// `Downloading` entry, and no entry is `Downloading` without it.
    pub open spec fn wf(self) -> bool {
        &&& (self.selected matches Some(s) ==> s < self.entries.len())
        &&& (self.active matches Some(a) ==> a < self.entries.len()
            && self.entries[a as int].state is Downloading)
        &&& forall|i: int| 0 <= i < self.entries.len() && (#[trigger] self.entries[i]).state is Downloading
            ==> (self.active matches Some(a) && a as int == i)
    }

    /// Whether `after` differs from this view at most in its entries and its
    /// active transfer.
    pub open spec fn same_but_queue(self, after: AppView) -> bool {
        &&& after.issue == self.issue
        &&& after.lengths == self.lengths
        &&& after.exit == self.exit
        &&& after.selected == self.selected
        &&& after.status == self.status
    }

    /// Whether `after` and `r` are what starting the queue gives: nothing
    /// while a transfer is active; otherwise the lowest queued entry becomes
    /// `Downloading` from zero and active, and with none queued nothing changes.
    pub open spec fn starts(self, after: AppView, r: Option<usize>) -> bool {
        &&& self.same_but_queue(after)
        &&& (self.active is Some ==> after == self && r is None)
        &&& (self.active is None ==> match r {
            Some(i) => {
                &&& is_first_queued(self.entries, i as int)
                &&& after.entries == with_state(self.entries, i as int,
                    AttachmentState::Downloading { downloaded: 0, total: None })
                &&& after.active == Some(i)
            },
            None => no_queued(self.entries) && after == self,
        })
    }
}

/// The catalog of one issue's attachments, with the selection, the status
/// line and the handle of the active transfer.
pub struct App {
    issue: String,
    attachments: Vec<Attachment>,
    lengths: (usize, usize, usize, usize),
    exit: bool,
    selected: Option<usize>,
    active: Option<usize>,
    status_message: Option<String>,
}

impl View for App {
    type V = AppView;

    closed spec fn view(&self) -> AppView {
        AppView {
            issue: self.issue@,
            entries: self.attachments@,
            lengths: self.lengths,
            exit: self.exit,
            selected: self.selected,
            active: self.active,
            status: match self.status_message {
                Some(m) => Some(m@),
                None => None,
            },
        }
    }
}

fn set_state(atts: &mut Vec<Attachment>, i: usize, st: AttachmentState)
    requires
        i < old(atts).len(),
    ensures
        final(atts)@ == with_state(old(atts)@, i as int, st),
{
    let a = &atts[i];
    let entry = Attachment {
        filename: a.filename.clone(),
        size: a.size,
        created: a.created.clone(),
        state: st,
        content: a.content.clone(),
    };
    atts.set(i, entry);
}

impl App {
    /// Whether the catalog is consistent; every method keeps it so.
    pub open spec fn wf(&self) -> bool {
        self@.wf()
    }

    /// A catalog of the listed attachments, none downloaded, none selected,
    /// no transfer active, its columns as wide as their widest text.
    pub fn new(issue: String, attachments: Vec<jira::Attachment>) -> (r: App)
        ensures
            r.wf(),
            r@.issue == issue@,
            r@.entries.len() == attachments@.len(),
            forall|i: int| 0 <= i < attachments@.len() ==> lists(#[trigger] r@.entries[i],
                attachments@[i]),
            forall|i: int| 0 <= i < attachments@.len() ==> shown_from(#[trigger] r@.entries[i],
                attachments@[i]),
            r@.lengths == (4usize, filename_width(r@.entries), size_width(r@.entries),
                created_width(r@.entries)),
            !r@.exit,
            r@.selected is None,
            r@.active is None,
            r@.status is None,
    {
        let mut entries: Vec<Attachment> = Vec::new();
        let mut wf: usize = 0;
        let mut ws: usize = 0;
        let mut wc: usize = 0;
        let mut k: usize = 0;
        while k < attachments.len()
            invariant
                k <= attachments@.len(),
                entries@.len() == k,
                forall|i: int| 0 <= i < k ==> lists(#[trigger] entries@[i], attachments@[i]),
                forall|i: int| 0 <= i < k ==> shown_from(#[trigger] entries@[i], attachments@[i]),
                wf == filename_width(entries@),
                ws == size_width(entries@),
                wc == created_width(entries@),
            decreases attachments@.len() - k,
        {
            let e = Attachment::from_remote(&attachments[k]);
            let w1 = text_width(e.filename.as_str());
            let w2 = decimal_len(e.size);
            let w3 = text_width(e.created.as_str());
            let ghost before = entries@;
            entries.push(e);
            proof {
                assert(entries@.drop_last() =~= before);
            }
            if w1 > wf {
                wf = w1;
            }
            if w2 > ws {
                ws = w2;
            }
            if w3 > wc {
                wc = w3;
            }
            k = k + 1;
        }
        App {
            issue,
            attachments: entries,
            lengths: (4, wf, ws, wc),
            exit: false,
            selected: None,
            active: None,
            status_message: None,
        }
    }

    /// Sets each entry's state from the probe of the destination folder at
    /// the same index: present, absent, or the probe's error.
    pub fn initialize(&mut self, probes: &Vec<Result<bool, String>>)
        requires
            old(self).wf(),
            old(self)@.active is None,
            probes@.len() == old(self)@.entries.len(),
        ensures
            final(self).wf(),
            final(self)@ == (AppView { entries: final(self)@.entries, ..old(self)@ }),
            final(self)@.entries.len() == old(self)@.entries.len(),
            forall|i: int| 0 <= i < probes@.len() ==> (#[trigger] final(self)@.entries[i])
                == (Attachment { state: probe_state(probes@[i]), ..old(self)@.entries[i] }),
    {
        let mut k: usize = 0;
        while k < probes.len()
            invariant
                k <= probes@.len(),
                probes@.len() == self.attachments@.len(),
                self.active is None,
                self.wf(),
                self@ == (AppView { entries: self@.entries, ..old(self)@ }),
                self.attachments@.len() == old(self)@.entries.len(),
                forall|i: int| 0 <= i < k ==> (#[trigger] self.attachments@[i])
                    == (Attachment { state: probe_state(probes@[i]), ..old(self)@.entries[i] }),
                forall|i: int| k <= i < probes@.len() ==> (#[trigger] self.attachments@[i])
                    == old(self)@.entries[i],
            decreases probes@.len() - k,
        {
            let st = match &probes[k] {
                Ok(true) => AttachmentState::Downloaded,
                Ok(false) => AttachmentState::NotDownloaded,
                Err(e) => AttachmentState::Failed { errmsg: e.clone() },
            };
            set_state(&mut self.attachments, k, st);
            k = k + 1;
        }
    }

    /// Moves the selection one row down, clamped to the last row.
    pub fn next_row(&mut self)
        requires
            old(self).wf(),
        ensures
            final(self).wf(),
            final(self)@ == (AppView {
                selected: selection_below(old(self)@.selected, old(self)@.entries.len()),
                ..old(self)@
            }),
    {
        let len = self.attachments.len();
        if len > 0 {
            self.selected = match self.selected {
                Some(i) => Some(if i + 1 < len { i + 1 } else { len - 1 }),
                None => Some(0),
            };
        }
    }

    /// Moves the selection one row up, clamped to the first row.
    pub fn previous_row(&mut self)
        requires
            old(self).wf(),
        ensures
            final(self).wf(),
            final(self)@ == (AppView {
                selected: selection_above(old(self)@.selected, old(self)@.entries.len()),
                ..old(self)@
            }),
    {
        if self.attachments.len() > 0 {
            self.selected = match self.selected {
                Some(i) => Some(if i > 0 { i - 1 } else { 0 }),
                None => Some(0),
            };
        }
    }

    /// Toggles the selected entry between queued and not queued; a
    /// downloading or downloaded entry stays as it is.
    pub fn toggle_selection(&mut self)
        requires
            old(self).wf(),
        ensures
            final(self).wf(),
            valid_steps(old(self)@.entries, final(self)@.entries),
            final(self)@ == (AppView {
                entries: match old(self)@.selected {
                    Some(i) => with_state(old(self)@.entries, i as int,
                        old(self)@.entries[i as int].state.toggled()),
                    None => old(self)@.entries,
                },
                ..old(self)@
            }),
    {
        if let Some(i) = self.selected {
            let st = self.attachments[i].state.toggle();
            set_state(&mut self.attachments, i, st);
            proof {
                assert(self@.entries[i as int].state is Downloading
                    ==> old(self)@.entries[i as int].state is Downloading);
            }
        }
    }

    /// Starts the queue: while no transfer is active, the lowest queued
    /// entry becomes `Downloading` from zero, its transfer becomes the
    /// active one, and its index is returned so that the caller spawns it.
    pub fn start_downloads(&mut self) -> (r: Option<usize>)
        requires
            old(self).wf(),
        ensures
            final(self).wf(),
            valid_steps(old(self)@.entries, final(self)@.entries),
            old(self)@.starts(final(self)@, r),
    {
        if self.active.is_some() {
            return None;
        }
        let mut i: usize = 0;
        while i < self.attachments.len()
            invariant
                i <= self.attachments@.len(),
                forall|j: int| 0 <= j < i ==> !(self.attachments@[j].state is Queued),
            ensures
                i <= self.attachments@.len(),
                forall|j: int| 0 <= j < i ==> !(self.attachments@[j].state is Queued),
                i < self.attachments@.len() ==> self.attachments@[i as int].state is Queued,
            decreases self.attachments@.len() - i,
        {
            if let AttachmentState::Queued = self.attachments[i].state {
                break;
            }
            i = i + 1;
        }
        if i == self.attachments.len() {
            return None;
        }
        set_state(&mut self.attachments, i, AttachmentState::Downloading { downloaded: 0, total: None });
        self.active = Some(i);
        Some(i)
    }

    /// Applies an event of the active transfer to its entry. `Finished` and
    /// `Error` end the transfer, and the queue goes on at once: the index of
    /// the transfer to spawn next, if any, is returned. Without an active
    /// transfer nothing changes.
    pub fn update_download(&mut self, evt: DownloadEvent) -> (r: Option<usize>)
        requires
            old(self).wf(),
        ensures
            final(self).wf(),
            valid_steps(old(self)@.entries, final(self)@.entries),
            old(self)@.active is None ==> final(self)@ == old(self)@ && r is None,
            old(self)@.active matches Some(a) ==> {
                let entries = with_state(old(self)@.entries, a as int, state_after(evt));
                &&& !evt.is_last() ==> r is None
                    && final(self)@ == (AppView { entries, ..old(self)@ })
                &&& evt.is_last() ==> (AppView { entries, active: None, ..old(self)@ }).starts(
                    final(self)@, r)
            },
    {
        match self.active {
            None => None,
            Some(a) => match evt {
                DownloadEvent::Starting => {
                    set_state(&mut self.attachments, a, AttachmentState::Downloading { downloaded: 0, total: None });
                    None
                },
                DownloadEvent::Progress { downloaded, total } => {
                    set_state(&mut self.attachments, a, AttachmentState::Downloading { downloaded, total });
                    None
                },
                DownloadEvent::Finished => {
                    set_state(&mut self.attachments, a, AttachmentState::Downloaded);
                    self.active = None;
                    proof {
                        assert forall|i: int| 0 <= i < self.attachments@.len()
                            implies !((#[trigger] self.attachments@[i]).state is Downloading) by {
                            if i != a {
                                assert(self.attachments@[i] == old(self).attachments@[i]);
                            }
                        }
                    }
                    self.start_downloads()
                },
                DownloadEvent::Error { msg } => {
                    set_state(&mut self.attachments, a, AttachmentState::Failed { errmsg: msg });
                    self.active = None;
                    proof {
                        assert forall|i: int| 0 <= i < self.attachments@.len()
                            implies !((#[trigger] self.attachments@[i]).state is Downloading) by {
                            if i != a {
                                assert(self.attachments@[i] == old(self).attachments@[i]);
                            }
                        }
                    }
                    self.start_downloads()
                },
            },
        }
    }

    /// Clears the selection.
    pub fn clear_selection(&mut self)
        requires
            old(self).wf(),
        ensures
            final(self).wf(),
            final(self)@ == (AppView { selected: None, ..old(self)@ }),
    {
        self.selected = None;
    }

    /// Clears the selection when there is one, and selects the first row
    /// otherwise.
    pub fn switch_selection(&mut self)
        requires
            old(self).wf(),
        ensures
            final(self).wf(),
            final(self)@ == (AppView {
                selected: selection_switched(old(self)@.selected, old(self)@.entries.len()),
                ..old(self)@
            }),
    {
        self.selected = match self.selected {
            Some(_) => None,
            None => if self.attachments.len() == 0 { None } else { Some(0) },
        };
    }

    /// Acts on a key press; returns the index of a transfer to spawn, which
    /// only `Start` can give.
    pub fn handle_key_press(&mut self, key: Key) -> (r: Option<usize>)
        requires
            old(self).wf(),
        ensures
            final(self).wf(),
            valid_steps(old(self)@.entries, final(self)@.entries),
            !(key is Start) ==> r is None,
            key is Quit ==> final(self)@ == (AppView { exit: true, ..old(self)@ }),
            key is Up ==> final(self)@ == (AppView {
                selected: selection_above(old(self)@.selected, old(self)@.entries.len()),
                ..old(self)@
            }),
            key is Down ==> final(self)@ == (AppView {
                selected: selection_below(old(self)@.selected, old(self)@.entries.len()),
                ..old(self)@
            }),
            key is Toggle ==> final(self)@ == (AppView {
                entries: match old(self)@.selected {
                    Some(i) => with_state(old(self)@.entries, i as int,
                        old(self)@.entries[i as int].state.toggled()),
                    None => old(self)@.entries,
                },
                ..old(self)@
            }),
            key is Start ==> old(self)@.starts(final(self)@, r),
            key is Clear ==> final(self)@ == (AppView { selected: None, ..old(self)@ }),
            key is Switch ==> final(self)@ == (AppView {
                selected: selection_switched(old(self)@.selected, old(self)@.entries.len()),
                ..old(self)@
            }),
    {
        match key {
            Key::Quit => {
                self.exit = true;
                None
            },
            Key::Up => {
                self.previous_row();
                None
            },
            Key::Down => {
                self.next_row();
                None
            },
            Key::Toggle => {
                self.toggle_selection();
                None
            },
            Key::Start => self.start_downloads(),
            Key::Clear => {
                self.clear_selection();
                None
            },
            Key::Switch => {
                self.switch_selection();
                None
            },
        }
    }

    /// Sets the status line to describe the selected entry; without a
    /// selection it stays as it was.
    pub fn update_status_message(&mut self)
        requires
            old(self).wf(),
        ensures
            final(self).wf(),
            final(self)@ == (AppView {
                status: match old(self)@.selected {
                    Some(i) => Some(status_text(old(self)@.entries[i as int])),
                    None => old(self)@.status,
                },
                ..old(self)@
            }),
    {
        if let Some(i) = self.selected {
            let att = &self.attachments[i];
            let mut m: String;
            match &att.state {
                AttachmentState::NotDownloaded => {
                    m = String::from_str("Attachment '");
                    m.append(att.filename.as_str());
                    m.append("' is not downloaded.");
                },
                AttachmentState::Queued => {
                    m = String::from_str("Attachment '");
                    m.append(att.filename.as_str());
                    m.append("' is queued for download.");
                },
                AttachmentState::Downloading { downloaded, total } => {
                    m = String::from_str("Downloading '");
                    m.append(att.filename.as_str());
                    m.append("'... ");
                    let d = decimal_string(*downloaded as u128);
                    m.append(d.as_str());
                    match total {
                        Some(t) => {
                            m.append("/");
                            let ts = decimal_string(*t as u128);
                            m.append(ts.as_str());
                            m.append(" bytes");
                        },
                        None => {
                            m.append(" bytes downloaded");
                        },
                    }
                },
                AttachmentState::Downloaded => {
                    m = String::from_str("Attachment '");
                    m.append(att.filename.as_str());
                    m.append("' has been downloaded.");
                },
                AttachmentState::Failed { errmsg } => {
                    m = String::from_str("Attachment '");
                    m.append(att.filename.as_str());
                    m.append("' failed to download: ");
                    m.append(errmsg.as_str());
                },
            }
            self.status_message = Some(m);
        }
    }

    /// The issue whose attachments these are.
    pub fn issue(&self) -> (r: &String)
        ensures
            r@ == self@.issue,
    {
        &self.issue
    }

    /// The entries, in listing order.
    pub fn attachments(&self) -> (r: &Vec<Attachment>)
        ensures
            r@ == self@.entries,
    {
        &self.attachments
    }

    /// The widths of the state, name, size and creation columns.
    pub fn lengths(&self) -> (r: (usize, usize, usize, usize))
        ensures
            r == self@.lengths,
    {
        self.lengths
    }

    /// Whether the user asked to leave.
    pub fn exiting(&self) -> (r: bool)
        ensures
            r == self@.exit,
    {
        self.exit
    }

    /// The selected row.
    pub fn selected(&self) -> (r: Option<usize>)
        ensures
            r == self@.selected,
    {
        self.selected
    }

    /// The entry whose transfer is in flight.
    pub fn active_transfer(&self) -> (r: Option<usize>)
        ensures
            r == self@.active,
    {
        self.active
    }

    /// The status line.
    pub fn status_message(&self) -> (r: &Option<String>)
        ensures
            r matches Some(m) ==> self@.status == Some(m@),
            r is None ==> self@.status is None,
    {
        &self.status_message
    }
}

/// In a consistent catalog at most one entry is `Downloading`, whatever
/// sequence of operations led to it.
pub proof fn lemma_single_flight(v: AppView, i: int, j: int)
    requires
        v.wf(),
        0 <= i < v.entries.len(),
        0 <= j < v.entries.len(),
        v.entries[i].state is Downloading,
        v.entries[j].state is Downloading,
    ensures
        i == j,
{
}

/// The queue starts the lowest queued index first: no queued entry stands
/// before the one that starts.
pub proof fn lemma_queue_order(before: AppView, after: AppView, i: usize, j: int)
    requires
        before.active is None,
        before.starts(after, Some(i)),
        0 <= j < before.entries.len(),
        before.entries[j].state is Queued,
    ensures
        i <= j,
        after.entries[j].state is Queued || i == j,
{
}

/// Toggling moves a state along an edge of the machine, or leaves it.
pub proof fn lemma_toggle_edge(st: AttachmentState)
    ensures
        st.may_become(st.toggled()),
{
}

/// An event of the active transfer moves its `Downloading` entry along an
/// edge of the machine.
pub proof fn lemma_event_edge(st: AttachmentState, e: DownloadEvent)
    requires
        st is Downloading,
    ensures
        st.may_become(state_after(e)),
{
}

/// Toggling twice gives back a state that is `NotDownloaded` or `Queued`.
pub proof fn lemma_toggle_twice(st: AttachmentState)
    requires
        st is NotDownloaded || st is Queued,
    ensures
        st.toggled().toggled() == st,
{
}

/// An entry that the probe found on disk is `Downloaded`, so the queue never
/// starts a transfer for it until its state changes.
pub proof fn lemma_present_not_started(before: AppView, after: AppView, i: usize)
    requires
        before.starts(after, Some(i)),
        before.active is None,
    ensures
        !(before.entries[i as int].state is Downloaded),
{
}

/// Whole percent of `total` that `downloaded` makes, rounded down; `None`
/// when the total is unknown or zero.
pub fn percent(downloaded: u64, total: Option<u64>) -> (r: Option<u128>)
    ensures
        r == percent_of(downloaded, total),
{
    match total {
        Some(t) => if t > 0 {
            Some((downloaded as u128) * 100 / (t as u128))
        } else {
            None
        },
        None => None,
    }
}

} // verus!
