//! Extracting the filesystems of several partitions of one disk image.
//!
//! The work is a sequence of steps that only the caller can carry out:
//! copy a partition into a temporary file, probe it, unpack it, report it,
//! remove the temporary file. Which step comes next is decided here. The
//! caller performs the `Action` it is given and hands back what came of it
//! as an `Event`; a step that fails ends the extraction on the caller's
//! side, with the caller's own error.

use vstd::pervasive::unreached;
use vstd::prelude::*;
use vstd::string::StringExecFns;

use crate::disk::{lemma_lookup, lookup, Partition, PartitionTable};
use crate::error::DiskError;
use crate::fs_type::{fs_debug_text, FsKind, FsType};
use crate::text::{decimal, decimal_string};

verus! {

/// Name of the temporary file that holds the raw bytes of a partition.
pub open spec fn temp_file_name(number: u8) -> Seq<char> {
    "partition-"@ + decimal(number as nat) + ".img"@
}

/// Message of the error for a request that names no partition of the table.
pub open spec fn not_found_message(number: u8) -> Seq<char> {
    "partition "@ + decimal(number as nat) + " not found in image"@
}

/// Message of the error for a partition whose filesystem cannot be unpacked.
pub open spec fn unsupported_message(number: u8, kind: FsKind) -> Seq<char> {
    "partition "@ + decimal(number as nat) + " has unsupported filesystem type: "@
        + fs_debug_text(kind)
}

/// Name of the temporary file for partition `number`, inside the
/// temporary directory: `partition-<number>.img`.
pub fn temp_name(number: u8) -> (name: String)
    ensures
        name@ == temp_file_name(number),
{
    let mut name = "partition-".to_owned();
    let digits = decimal_string(number);
    name.append(digits.as_str());
    name.append(".img");
    name
}

fn not_found(number: u8) -> (error: DiskError)
    ensures
        error@ == not_found_message(number),
{
    let mut message = "partition ".to_owned();
    let digits = decimal_string(number);
    message.append(digits.as_str());
    message.append(" not found in image");
    DiskError::new(message)
}

fn unsupported(number: u8, fs_type: &FsType) -> (error: DiskError)
    ensures
        error@ == unsupported_message(number, fs_type@),
{
    let mut message = "partition ".to_owned();
    let digits = decimal_string(number);
    message.append(digits.as_str());
    message.append(" has unsupported filesystem type: ");
    let shown = fs_type.debug_string();
    message.append(shown.as_str());
    DiskError::new(message)
}

/// What the caller is to do next.
#[derive(Debug, PartialEq, Eq)]
pub enum Action {
    /// Copy the raw bytes of `partition` out of the image into the
    /// temporary file `temp_name`, for the request at index `request`.
    CopyPartition { request: usize, partition: Partition, block_size: u64, temp_name: String },
    /// Probe the filesystem type of the temporary file.
    Probe { temp_name: String },
    /// Unpack the filesystem in the temporary file into the destination
    /// directory of the request at index `request`.
    Unpack { request: usize, temp_name: String, fs_type: FsType },
    /// Report that partition `number` has been extracted.
    Report { request: usize, number: u8, fs_type: FsType },
    /// Delete the temporary file; a failure to do so is ignored.
    RemoveTemp { temp_name: String },
    /// Give up with this error.
    Fail(DiskError),
    /// Every request has been served.
    Finish,
}

/// What an `Action` stands for.
pub enum ActionView {
    CopyPartition { request: nat, partition: Partition, block_size: u64, temp_name: Seq<char> },
    Probe { temp_name: Seq<char> },
    Unpack { request: nat, temp_name: Seq<char>, fs_type: FsKind },
    Report { request: nat, number: u8, fs_type: FsKind },
    RemoveTemp { temp_name: Seq<char> },
    Fail(Seq<char>),
    Finish,
}

impl View for Action {
    type V = ActionView;

    open spec fn view(&self) -> ActionView {
        match self {
            Action::CopyPartition { request, partition, block_size, temp_name } => {
                ActionView::CopyPartition {
                    request: *request as nat,
                    partition: *partition,
                    block_size: *block_size,
                    temp_name: temp_name@,
                }
            },
            Action::Probe { temp_name } => ActionView::Probe { temp_name: temp_name@ },
            Action::Unpack { request, temp_name, fs_type } => ActionView::Unpack {
                request: *request as nat,
                temp_name: temp_name@,
                fs_type: fs_type@,
            },
            Action::Report { request, number, fs_type } => ActionView::Report {
                request: *request as nat,
                number: *number,
                fs_type: fs_type@,
            },
            Action::RemoveTemp { temp_name } => ActionView::RemoveTemp { temp_name: temp_name@ },
            Action::Fail(error) => ActionView::Fail(error@),
            Action::Finish => ActionView::Finish,
        }
    }
}

/// What came of the action that the caller performed last.
#[derive(Debug, PartialEq, Eq)]
pub enum Event {
    /// The action has been carried out.
    Done,
    /// The probe found this filesystem type.
    Probed(FsType),
}

/// What an `Event` stands for.
pub enum EventView {
    Done,
    Probed(FsKind),
}

impl View for Event {
    type V = EventView;

    open spec fn view(&self) -> EventView {
        match self {
            Event::Done => EventView::Done,
            Event::Probed(fs_type) => EventView::Probed(fs_type@),
        }
    }
}

/// The step that the caller is carrying out.
#[derive(Debug)]
enum Stage {
    Copying,
    Probing,
    Unpacking(FsType),
    Reporting(FsType),
    Removing,
    Rejecting(FsType),
    Failed,
    Finished,
}

/// What the stage of an extraction stands for: the step that the caller
/// is carrying out for the current request, or how the extraction ended.
pub enum StageView {
    /// The partition is being copied into its temporary file.
    Copying,
    /// The temporary file is being probed.
    Probing,
    /// The filesystem is being unpacked.
    Unpacking(FsKind),
    /// The extracted partition is being reported.
    Reporting(FsKind),
    /// The temporary file of an extracted partition is being removed.
    Removing,
    /// The temporary file of a partition that cannot be unpacked is being removed.
    Rejecting(FsKind),
    /// The extraction has failed.
    Failed,
    /// The extraction has served every request.
    Finished,
}

impl View for Stage {
    type V = StageView;

    closed spec fn view(&self) -> StageView {
        match self {
            Stage::Copying => StageView::Copying,
            Stage::Probing => StageView::Probing,
            Stage::Unpacking(fs_type) => StageView::Unpacking(fs_type@),
            Stage::Reporting(fs_type) => StageView::Reporting(fs_type@),
            Stage::Removing => StageView::Removing,
            Stage::Rejecting(fs_type) => StageView::Rejecting(fs_type@),
            Stage::Failed => StageView::Failed,
            Stage::Finished => StageView::Finished,
        }
    }
}

/// An extraction under way: the table of the image, the partition numbers
/// that were requested, in order, and how far the work has come.
#[derive(Debug)]
pub struct Extraction {
    table: PartitionTable,
    requests: Vec<u8>,
    current: usize,
    stage: Stage,
}

/// What an `Extraction` stands for.
pub struct ExtractionView {
    /// The partitions of the image's table.
    pub partitions: Seq<Partition>,
    /// The block size of the image's table.
    pub block_size: u64,
    /// The partition numbers that were requested, in order.
    pub requests: Seq<u8>,
    /// Index of the request that is being served.
    pub current: nat,
    /// The step that the caller is carrying out for that request.
    pub stage: StageView,
}

/// Takes up the request at `index`: the extraction finishes if there is no
/// such request, fails if the table has no partition of the requested
/// number, and otherwise has that partition copied into its temporary file.
pub open spec fn begin(
    partitions: Seq<Partition>,
    block_size: u64,
    requests: Seq<u8>,
    index: nat,
) -> (ExtractionView, ActionView) {
    let at = |stage: StageView|
        ExtractionView { partitions, block_size, requests, current: index, stage };
    if index >= requests.len() {
        (at(StageView::Finished), ActionView::Finish)
    } else {
        match lookup(partitions, requests[index as int]) {
            None => (
                at(StageView::Failed),
                ActionView::Fail(not_found_message(requests[index as int])),
            ),
            Some(partition) => (
                at(StageView::Copying),
                ActionView::CopyPartition {
                    request: index,
                    partition,
                    block_size,
                    temp_name: temp_file_name(requests[index as int]),
                },
            ),
        }
    }
}

impl ExtractionView {
    /// The partition number of the request that is being served.
    pub open spec fn number(self) -> u8 {
        self.requests[self.current as int]
    }

    /// Whether the extraction is still under way.
    pub open spec fn active(self) -> bool {
        !(self.stage is Failed) && !(self.stage is Finished)
    }

    /// Whether `event` can be the outcome of the step that the caller is
    /// carrying out: a probe yields a filesystem type, every other step is
    /// just done, and an extraction that has ended takes no event.
    pub open spec fn accepts(self, event: EventView) -> bool {
        match self.stage {
            StageView::Probing => event is Probed,
            StageView::Failed | StageView::Finished => false,
            _ => event is Done,
        }
    }

    /// This extraction at another stage.
    pub open spec fn at(self, stage: StageView) -> ExtractionView {
        ExtractionView { stage, ..self }
    }

    /// The extraction after `event`, and the action that the caller is to
    /// perform next.
    ///
    /// A partition is copied, probed, unpacked and reported, and then its
    /// temporary file is removed and the next request taken up. A partition
    /// whose filesystem is not supported has its temporary file removed
    /// and then fails the extraction. Nothing is said of an event that the
    /// extraction does not accept.
    pub open spec fn step(self, event: EventView) -> (ExtractionView, ActionView) {
        let temp_name = temp_file_name(self.number());
        match self.stage {
            StageView::Copying => (self.at(StageView::Probing), ActionView::Probe { temp_name }),
            StageView::Probing => {
                let fs_type = event->Probed_0;
                if fs_type is Fat || fs_type is Ext {
                    (
                        self.at(StageView::Unpacking(fs_type)),
                        ActionView::Unpack { request: self.current, temp_name, fs_type },
                    )
                } else {
                    (
                        self.at(StageView::Rejecting(fs_type)),
                        ActionView::RemoveTemp { temp_name },
                    )
                }
            },
            StageView::Unpacking(fs_type) => (
                self.at(StageView::Reporting(fs_type)),
                ActionView::Report { request: self.current, number: self.number(), fs_type },
            ),
            StageView::Reporting(_) => (
                self.at(StageView::Removing),
                ActionView::RemoveTemp { temp_name },
            ),
            StageView::Removing => begin(
                self.partitions,
                self.block_size,
                self.requests,
                self.current + 1,
            ),
            StageView::Rejecting(fs_type) => (
                self.at(StageView::Failed),
                ActionView::Fail(unsupported_message(self.number(), fs_type)),
            ),
            StageView::Failed | StageView::Finished => arbitrary(),
        }
    }
}

impl View for Extraction {
    type V = ExtractionView;

    closed spec fn view(&self) -> ExtractionView {
        ExtractionView {
            partitions: self.table.partitions@,
            block_size: self.table.block_size,
            requests: self.requests@,
            current: self.current as nat,
            stage: self.stage@,
        }
    }
}

/// Takes up the request at `index`.
fn take_up(table: PartitionTable, requests: Vec<u8>, index: usize) -> (started: (
    Extraction,
    Action,
))
    requires
        index <= requests@.len(),
    ensures
        (started.0@, started.1@) == begin(
            table.partitions@,
            table.block_size,
            requests@,
            index as nat,
        ),
{
    if index >= requests.len() {
        (Extraction { table, requests, current: index, stage: Stage::Finished }, Action::Finish)
    } else {
        let number = requests[index];
        match table.find(number) {
            None => (
                Extraction { table, requests, current: index, stage: Stage::Failed },
                Action::Fail(not_found(number)),
            ),
            Some(partition) => {
                let block_size = table.block_size;
                (
                    Extraction { table, requests, current: index, stage: Stage::Copying },
                    Action::CopyPartition {
                        request: index,
                        partition,
                        block_size,
                        temp_name: temp_name(number),
                    },
                )
            },
        }
    }
}

/// Begins the extraction of the partitions numbered `requests`, in that
/// order, from an image with the partition table `table`, and says what the
/// caller is to do first.
pub fn extract_image_partitions(table: PartitionTable, requests: Vec<u8>) -> (started: (
    Extraction,
    Action,
))
    ensures
        (started.0@, started.1@) == begin(table.partitions@, table.block_size, requests@, 0),
{
    take_up(table, requests, 0)
}

impl Extraction {
    #[verifier::type_invariant]
    spec fn well_formed(self) -> bool {
        &&& self.current <= self.requests@.len()
        &&& self@.active() ==> self.current < self.requests@.len()
    }

    /// Whether the extraction is still under way.
    pub fn is_active(&self) -> (active: bool)
        ensures
            active == self@.active(),
    {
        match self.stage {
            Stage::Failed => false,
            Stage::Finished => false,
            _ => true,
        }
    }

    /// Whether `event` can be the outcome of the step that the caller is
    /// carrying out.
    pub fn accepts(&self, event: &Event) -> (accepted: bool)
        ensures
            accepted == self@.accepts(event@),
    {
        match self.stage {
            Stage::Probing => match event {
                Event::Probed(_) => true,
                Event::Done => false,
            },
            Stage::Failed => false,
            Stage::Finished => false,
            _ => match event {
                Event::Probed(_) => false,
                Event::Done => true,
            },
        }
    }

    /// Takes note of the outcome of the last action and says what the
    /// caller is to do next.
    pub fn advance(self, event: Event) -> (next: (Extraction, Action))
        requires
            self@.accepts(event@),
        ensures
            (next.0@, next.1@) == self@.step(event@),
    {
        proof {
            use_type_invariant(&self);
        }
        let Extraction { table, requests, current, stage } = self;
        let count = requests.len();
        let number = requests[current];
        match stage {
            Stage::Copying => (
                Extraction { table, requests, current, stage: Stage::Probing },
                Action::Probe { temp_name: temp_name(number) },
            ),
            Stage::Probing => {
                match event {
                    Event::Probed(fs_type) => {
                        if fs_type.is_supported() {
                            let shown = fs_type.clone();
                            (
                                Extraction {
                                    table,
                                    requests,
                                    current,
                                    stage: Stage::Unpacking(fs_type),
                                },
                                Action::Unpack {
                                    request: current,
                                    temp_name: temp_name(number),
                                    fs_type: shown,
                                },
                            )
                        } else {
                            (
                                Extraction {
                                    table,
                                    requests,
                                    current,
                                    stage: Stage::Rejecting(fs_type),
                                },
                                Action::RemoveTemp { temp_name: temp_name(number) },
                            )
                        }
                    },
                    Event::Done => unreached(),
                }
            },
            Stage::Unpacking(fs_type) => {
                let shown = fs_type.clone();
                (
                    Extraction { table, requests, current, stage: Stage::Reporting(fs_type) },
                    Action::Report { request: current, number, fs_type: shown },
                )
            },
            Stage::Reporting(_) => (
                Extraction { table, requests, current, stage: Stage::Removing },
                Action::RemoveTemp { temp_name: temp_name(number) },
            ),
            Stage::Removing => {
                assert(current < count);
                take_up(table, requests, current + 1)
            },
            Stage::Rejecting(fs_type) => {
                let error = unsupported(number, &fs_type);
                (
                    Extraction { table, requests, current, stage: Stage::Failed },
                    Action::Fail(error),
                )
            },
            Stage::Failed => unreached(),
            Stage::Finished => unreached(),
        }
    }

    /// The partition table of the image, given back when the work is over.
    pub fn into_table(self) -> (table: PartitionTable)
        ensures
            table.partitions@ == self@.partitions,
            table.block_size == self@.block_size,
    {
        self.table
    }
}

/// The extraction after the events of `events`, with every action that the
/// caller was given on the way, in order; `None` if one of the events was
/// not accepted when it came.
pub open spec fn run(
    partitions: Seq<Partition>,
    block_size: u64,
    requests: Seq<u8>,
    events: Seq<EventView>,
) -> Option<(ExtractionView, Seq<ActionView>)>
    decreases events.len(),
{
    if events.len() == 0 {
        let (start, first) = begin(partitions, block_size, requests, 0);
        Some((start, seq![first]))
    } else {
        match run(partitions, block_size, requests, events.drop_last()) {
            Some((state, actions)) => if state.accepts(events.last()) {
                let (next, action) = state.step(events.last());
                Some((next, actions.push(action)))
            } else {
                None
            },
            None => None,
        }
    }
}

/// The temporary files that exist after the caller has performed `actions`:
/// those that a copy has created and no removal has deleted since.
pub open spec fn temp_files(actions: Seq<ActionView>) -> Set<Seq<char>>
    decreases actions.len(),
{
    if actions.len() == 0 {
        Set::empty()
    } else {
        let before = temp_files(actions.drop_last());
        match actions.last() {
            ActionView::CopyPartition { temp_name, .. } => before.insert(temp_name),
            ActionView::RemoveTemp { temp_name } => before.remove(temp_name),
            _ => before,
        }
    }
}

/// The partition numbers that `actions` report as extracted, in order.
pub open spec fn reported(actions: Seq<ActionView>) -> Seq<u8>
    decreases actions.len(),
{
    if actions.len() == 0 {
        Seq::empty()
    } else {
        let before = reported(actions.drop_last());
        match actions.last() {
            ActionView::Report { number, .. } => before.push(number),
            _ => before,
        }
    }
}

/// Whether the temporary file of the current request exists at `stage`.
pub open spec fn holds_temp_file(stage: StageView) -> bool {
    stage is Copying || stage is Probing || stage is Unpacking || stage is Reporting
}

/// How many requests have been reported when the extraction is in `state`.
pub open spec fn served(state: ExtractionView) -> nat {
    if state.stage is Reporting || state.stage is Removing {
        state.current + 1
    } else {
        state.current
    }
}

/// What holds of an extraction in `state` that has handed out `actions`:
/// the only temporary file that can exist is that of the current request,
/// while it is being worked on, and the requests before the current one
/// have been reported, in their order.
pub open spec fn consistent(state: ExtractionView, actions: Seq<ActionView>) -> bool {
    &&& state.current <= state.requests.len()
    &&& state.active() ==> state.current < state.requests.len()
    &&& state.stage is Finished ==> state.current == state.requests.len()
    &&& temp_files(actions) == if holds_temp_file(state.stage) {
        set![temp_file_name(state.number())]
    } else {
        Set::empty()
    }
    &&& reported(actions) == state.requests.take(served(state) as int)
}

proof fn lemma_begin_consistent(
    partitions: Seq<Partition>,
    block_size: u64,
    requests: Seq<u8>,
    index: nat,
    actions: Seq<ActionView>,
)
    requires
        index <= requests.len(),
        temp_files(actions) == Set::<Seq<char>>::empty(),
        reported(actions) == requests.take(index as int),
    ensures
        consistent(
            begin(partitions, block_size, requests, index).0,
            actions.push(begin(partitions, block_size, requests, index).1),
        ),
{
    let (state, action) = begin(partitions, block_size, requests, index);
    let after = actions.push(action);
    assert(after.drop_last() =~= actions);
    if state.stage is Copying {
        assert(temp_files(after) =~= set![temp_file_name(state.number())]);
    }
}

proof fn lemma_step_consistent(state: ExtractionView, actions: Seq<ActionView>, event: EventView)
    requires
        consistent(state, actions),
        state.accepts(event),
    ensures
        consistent(state.step(event).0, actions.push(state.step(event).1)),
        state.step(event).0.requests == state.requests,
        state.step(event).0.partitions == state.partitions,
        state.step(event).0.block_size == state.block_size,
{
    let (next, action) = state.step(event);
    let after = actions.push(action);
    assert(after.drop_last() =~= actions);
    let temp = temp_file_name(state.number());
    match state.stage {
        StageView::Probing => {
            if !holds_temp_file(next.stage) {
                assert(temp_files(after) =~= Set::<Seq<char>>::empty());
            }
        },
        StageView::Unpacking(_) => {
            assert(state.requests.take(state.current as int).push(state.number())
                =~= state.requests.take((state.current + 1) as int));
        },
        StageView::Reporting(_) => {
            assert(temp_files(after) =~= Set::<Seq<char>>::empty());
        },
        StageView::Removing => {
            lemma_begin_consistent(
                state.partitions,
                state.block_size,
                state.requests,
                state.current + 1,
                actions,
            );
        },
        _ => {},
    }
}

/// Every run keeps the extraction `consistent`, and works on the table and
/// the requests that it was begun with.
pub proof fn lemma_run_consistent(
    partitions: Seq<Partition>,
    block_size: u64,
    requests: Seq<u8>,
    events: Seq<EventView>,
)
    ensures
        match run(partitions, block_size, requests, events) {
            Some((state, actions)) => {
                &&& consistent(state, actions)
                &&& state.partitions == partitions
                &&& state.block_size == block_size
                &&& state.requests == requests
            },
            None => true,
        },
    decreases events.len(),
{
    if events.len() == 0 {
        let none = Seq::<ActionView>::empty();
        assert(requests.take(0) =~= Seq::<u8>::empty());
        lemma_begin_consistent(partitions, block_size, requests, 0, none);
        assert(none.push(begin(partitions, block_size, requests, 0).1) =~= seq![
            begin(partitions, block_size, requests, 0).1,
        ]);
    } else {
        lemma_run_consistent(partitions, block_size, requests, events.drop_last());
        match run(partitions, block_size, requests, events.drop_last()) {
            Some((state, actions)) => {
                if state.accepts(events.last()) {
                    lemma_step_consistent(state, actions, events.last());
                }
            },
            None => {},
        }
    }
}

/// No temporary file is left behind: once an extraction has ended, be it
/// with every request served or with a failure that was decided here, each
/// temporary file that was created has been removed. Before that, no
/// temporary file exists but that of the request being worked on.
pub proof fn lemma_no_temp_file_left(
    partitions: Seq<Partition>,
    block_size: u64,
    requests: Seq<u8>,
    events: Seq<EventView>,
)
    ensures
        match run(partitions, block_size, requests, events) {
            Some((state, actions)) => {
                &&& !state.active() ==> temp_files(actions) == Set::<Seq<char>>::empty()
                &&& state.active() ==> temp_files(actions).subset_of(
                    set![temp_file_name(state.number())],
                )
            },
            None => true,
        },
{
    lemma_run_consistent(partitions, block_size, requests, events);
}

/// An extraction that has served every request has reported each of them,
/// in the order of the requests.
pub proof fn lemma_finished_reports_all(
    partitions: Seq<Partition>,
    block_size: u64,
    requests: Seq<u8>,
    events: Seq<EventView>,
)
    ensures
        match run(partitions, block_size, requests, events) {
            Some((state, actions)) => state.stage is Finished ==> reported(actions) == requests,
            None => true,
        },
{
    lemma_run_consistent(partitions, block_size, requests, events);
    match run(partitions, block_size, requests, events) {
        Some((state, actions)) => {
            if state.stage is Finished {
                assert(requests.take(requests.len() as int) =~= requests);
            }
        },
        None => {},
    }
}

/// Whether `action` is in order for an extraction of `requests` from the
/// partitions of a table: an action that names a request names one that
/// was made, works on the partition that the table holds under the
/// requested number and on the temporary file of that number, and only a
/// supported filesystem is ever to be unpacked.
pub open spec fn in_order(
    action: ActionView,
    partitions: Seq<Partition>,
    block_size: u64,
    requests: Seq<u8>,
) -> bool {
    match action {
        ActionView::CopyPartition { request, partition, block_size: size, temp_name } => {
            &&& request < requests.len()
            &&& lookup(partitions, requests[request as int]) == Some(partition)
            &&& partition.number == requests[request as int]
            &&& size == block_size
            &&& temp_name == temp_file_name(requests[request as int])
        },
        ActionView::Unpack { request, temp_name, fs_type } => {
            &&& request < requests.len()
            &&& temp_name == temp_file_name(requests[request as int])
            &&& (fs_type is Fat || fs_type is Ext)
        },
        ActionView::Report { request, number, fs_type } => {
            &&& request < requests.len()
            &&& number == requests[request as int]
            &&& (fs_type is Fat || fs_type is Ext)
        },
        _ => true,
    }
}

/// Whether the filesystem type that a stage carries with it is one that
/// the stage is reached with.
spec fn carries_right_type(stage: StageView) -> bool {
    match stage {
        StageView::Unpacking(fs_type) => fs_type is Fat || fs_type is Ext,
        StageView::Reporting(fs_type) => fs_type is Fat || fs_type is Ext,
        StageView::Rejecting(fs_type) => fs_type is Unknown,
        _ => true,
    }
}

proof fn lemma_run_in_order(
    partitions: Seq<Partition>,
    block_size: u64,
    requests: Seq<u8>,
    events: Seq<EventView>,
)
    ensures
        match run(partitions, block_size, requests, events) {
            Some((state, actions)) => {
                &&& carries_right_type(state.stage)
                &&& forall|i: int|
                    0 <= i < actions.len() ==> in_order(
                        #[trigger] actions[i],
                        partitions,
                        block_size,
                        requests,
                    )
            },
            None => true,
        },
    decreases events.len(),
{
    lemma_run_consistent(partitions, block_size, requests, events);
    if events.len() == 0 {
        if requests.len() > 0 {
            lemma_lookup(partitions, requests[0]);
        }
    } else {
        lemma_run_in_order(partitions, block_size, requests, events.drop_last());
        lemma_run_consistent(partitions, block_size, requests, events.drop_last());
        match run(partitions, block_size, requests, events.drop_last()) {
            Some((state, actions)) => {
                if state.accepts(events.last()) {
                    let (next, action) = state.step(events.last());
                    if state.stage is Removing && state.current + 1 < requests.len() {
                        lemma_lookup(partitions, requests[(state.current + 1) as int]);
                    }
                    assert(in_order(action, partitions, block_size, requests));
                    let after = actions.push(action);
                    assert forall|i: int| 0 <= i < after.len() implies in_order(
                        #[trigger] after[i],
                        partitions,
                        block_size,
                        requests,
                    ) by {
                        if i < actions.len() {
                            assert(after[i] == actions[i]);
                        }
                    }
                }
            },
            None => {},
        }
    }
}

/// Every action of every run is `in_order`.
pub proof fn lemma_actions_in_order(
    partitions: Seq<Partition>,
    block_size: u64,
    requests: Seq<u8>,
    events: Seq<EventView>,
)
    ensures
        match run(partitions, block_size, requests, events) {
            Some((_, actions)) => forall|i: int|
                0 <= i < actions.len() ==> in_order(
                    #[trigger] actions[i],
                    partitions,
                    block_size,
                    requests,
                ),
            None => true,
        },
{
    lemma_run_in_order(partitions, block_size, requests, events);
}

/// A probe that finds a filesystem that is not supported has the temporary
/// file removed first, and only then fails the extraction, with an error
/// that names the partition and what the probe found.
pub proof fn lemma_unsupported_is_cleaned_up(state: ExtractionView, found: FsKind)
    requires
        state.stage is Probing,
        found is Unknown,
    ensures
        state.accepts(EventView::Probed(found)),
        state.step(EventView::Probed(found)).1 == (ActionView::RemoveTemp {
            temp_name: temp_file_name(state.number()),
        }),
        state.step(EventView::Probed(found)).0.accepts(EventView::Done),
        state.step(EventView::Probed(found)).0.step(EventView::Done).1 == ActionView::Fail(
            unsupported_message(state.number(), found),
        ),
        state.step(EventView::Probed(found)).0.step(EventView::Done).0.stage is Failed,
{
}

} // verus!
