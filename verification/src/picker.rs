//! The disk picker: a list of the block devices found, from which one is
//! chosen with `Enter` or none with `Escape`.

use crate::screen::{texts, Screen, ScreenModel, ViewportShape};
use crate::selection::{cursor_after, Key, ListOutcome, SelectableList};
use vstd::prelude::*;

verus! {

/// How a visit to the disk picker ended.
#[derive(PartialEq, Eq, Debug)]
pub enum FlowResult {
    /// The device that was chosen.
    Selected(String),
    /// The picker was left without a choice.
    Cancelled,
    /// No device was there to choose from.
    NotFound,
}

/// What a [`FlowResult`] stands for.
pub enum FlowOutcome {
    Selected(Seq<char>),
    Cancelled,
    NotFound,
}

impl View for FlowResult {
    type V = FlowOutcome;

    open spec fn view(&self) -> FlowOutcome {
        match self {
            FlowResult::Selected(device) => FlowOutcome::Selected(device@),
            FlowResult::Cancelled => FlowOutcome::Cancelled,
            FlowResult::NotFound => FlowOutcome::NotFound,
        }
    }
}

impl FlowOutcome {
    /// The line that tells the user how the visit ended.
    pub open spec fn report(self) -> Seq<char> {
        match self {
            FlowOutcome::Selected(device) => "Selected disk: "@ + device,
            FlowOutcome::Cancelled => "Disk selection canceled"@,
            FlowOutcome::NotFound => "No disks found"@,
        }
    }
}

impl Clone for FlowResult {
    fn clone(&self) -> (copy: FlowResult)
        ensures
            copy@ == self@,
    {
        match self {
            FlowResult::Selected(device) => FlowResult::Selected(device.clone()),
            FlowResult::Cancelled => FlowResult::Cancelled,
            FlowResult::NotFound => FlowResult::NotFound,
        }
    }
}

impl FlowResult {
    /// The line that tells the user how the visit ended.
    pub fn report(&self) -> (line: String)
        ensures
            line@ == self@.report(),
    {
        match self {
            FlowResult::Selected(device) => {
                let mut line = "Selected disk: ".to_owned();
                line.append(device.as_str());
                line
            },
            FlowResult::Cancelled => "Disk selection canceled".to_owned(),
            FlowResult::NotFound => "No disks found".to_owned(),
        }
    }
}

/// What a [`DiskPicker`] stands for: the devices on offer, in the order in
/// which they were found, and the index of the one under the cursor.
pub struct PickerModel {
    pub devices: Seq<Seq<char>>,
    pub cursor: nat,
}

/// What a [`PickerStep`] stands for.
pub enum StepModel {
    Continue(PickerModel),
    Finished(FlowOutcome),
}

impl PickerModel {
    /// The cursor stands on a device, so there is at least one.
    pub open spec fn wf(self) -> bool {
        self.cursor < self.devices.len()
    }

    /// Opening the picker over `devices`: with none it is over at once, else
    /// it starts with the cursor on the first.
    pub open spec fn open(devices: Seq<Seq<char>>) -> StepModel {
        if devices.len() == 0 {
            StepModel::Finished(FlowOutcome::NotFound)
        } else {
            StepModel::Continue(PickerModel { devices, cursor: 0 })
        }
    }

    /// The device under the cursor.
    pub open spec fn current(self) -> Seq<char> {
        self.devices[self.cursor as int]
    }

    /// The picker after one key press.
    pub open spec fn after_key(self, key: Key) -> StepModel {
        match key {
            Key::Enter => StepModel::Finished(FlowOutcome::Selected(self.current())),
            Key::Escape => StepModel::Finished(FlowOutcome::Cancelled),
            _ => StepModel::Continue(
                PickerModel {
                    devices: self.devices,
                    cursor: cursor_after(self.cursor, self.devices.len(), key),
                },
            ),
        }
    }

    /// What the picker asks to have drawn: the devices as rows, the one
    /// under the cursor highlighted, over the whole terminal.
    pub open spec fn screen(self) -> ScreenModel {
        ScreenModel {
            title: "Select a disk"@,
            labels: self.devices,
            highlighted: self.cursor,
            shape: ViewportShape::Full,
        }
    }
}

impl StepModel {
    /// The step is an open picker whose cursor stands on a device, or it is
    /// a result.
    pub open spec fn wf(self) -> bool {
        self matches StepModel::Continue(picker) ==> picker.wf()
    }

    /// What the visit asks to have drawn before the next key: the open
    /// picker, or nothing once the visit is over.
    pub open spec fn screen(self) -> Option<ScreenModel> {
        match self {
            StepModel::Continue(picker) => Some(picker.screen()),
            StepModel::Finished(_) => None,
        }
    }

    /// One more key press: an open picker takes it, a finished visit stays
    /// as it ended.
    pub open spec fn after_key(self, key: Key) -> StepModel {
        match self {
            StepModel::Continue(picker) => picker.after_key(key),
            StepModel::Finished(outcome) => StepModel::Finished(outcome),
        }
    }

    /// A run of key presses, first key first.
    pub open spec fn after_keys(self, keys: Seq<Key>) -> StepModel
        decreases keys.len(),
    {
        if keys.len() == 0 {
            self
        } else {
            self.after_key(keys[0]).after_keys(keys.drop_first())
        }
    }
}

/// `n` presses of `Down`.
pub open spec fn downs(n: nat) -> Seq<Key> {
    Seq::new(n, |i: int| Key::Down)
}

/// An open picker stays well formed under any key.
pub proof fn lemma_step_stays_well_formed(step: StepModel, key: Key)
    requires
        step.wf(),
    ensures
        step.after_key(key).wf(),
{
}

/// Over no devices the picker never opens: the visit ends at once with
/// `NotFound`, and nothing is asked to be drawn. Over one device or more it
/// opens.
pub proof fn lemma_no_devices_is_not_found(devices: Seq<Seq<char>>)
    ensures
        devices.len() == 0 <==> PickerModel::open(devices) == StepModel::Finished(
            FlowOutcome::NotFound,
        ),
        devices.len() == 0 ==> PickerModel::open(devices).screen() is None,
        devices.len() > 0 <==> PickerModel::open(devices) is Continue,
        PickerModel::open(devices).wf(),
{
}

/// `Down` pressed `i` times on a fresh picker puts the cursor on device `i`.
pub proof fn lemma_downs_reach_row(devices: Seq<Seq<char>>, start: nat, i: nat)
    requires
        start + i < devices.len(),
    ensures
        StepModel::Continue(PickerModel { devices, cursor: start }).after_keys(downs(i))
            == StepModel::Continue(PickerModel { devices, cursor: start + i }),
    decreases i,
{
    if i > 0 {
        let keys = downs(i);
        assert(keys[0] == Key::Down);
        assert(keys.drop_first() =~= downs((i - 1) as nat));
        lemma_downs_reach_row(devices, start + 1, (i - 1) as nat);
    }
}

/// Moving to device `i` and pressing `Enter` selects exactly the `i`-th
/// device of those the picker was opened over, in the order in which they
/// were handed in.
pub proof fn lemma_enter_selects_the_row_reached(devices: Seq<Seq<char>>, i: nat)
    requires
        i < devices.len(),
    ensures
        PickerModel::open(devices).after_keys(downs(i)) == StepModel::Continue(
            PickerModel { devices, cursor: i },
        ),
        PickerModel::open(devices).after_keys(downs(i)).after_key(Key::Enter)
            == StepModel::Finished(FlowOutcome::Selected(devices[i as int])),
{
    lemma_downs_reach_row(devices, 0, i);
}

/// `Enter` ends an open picker with the device under the cursor, and no key
/// changes the devices on offer or their order.
pub proof fn lemma_enter_selects_under_the_cursor(picker: PickerModel, key: Key)
    requires
        picker.wf(),
    ensures
        picker.after_key(Key::Enter) == StepModel::Finished(
            FlowOutcome::Selected(picker.devices[picker.cursor as int]),
        ),
        picker.after_key(key) matches StepModel::Continue(next) ==> next.devices
            == picker.devices,
{
}

/// `Escape` ends an open picker with `Cancelled`, wherever the cursor is.
pub proof fn lemma_escape_cancels(picker: PickerModel)
    ensures
        picker.after_key(Key::Escape) == StepModel::Finished(FlowOutcome::Cancelled),
{
}

/// An open disk picker: one device or more, and a cursor on one of them.
#[derive(Debug)]
pub struct DiskPicker {
    list: SelectableList<String>,
}

impl View for DiskPicker {
    type V = PickerModel;

    closed spec fn view(&self) -> PickerModel {
        PickerModel { devices: texts(self.list@.items), cursor: self.list@.cursor }
    }
}

/// Where a visit to the picker stands after it was opened or took a key.
#[derive(Debug)]
pub enum PickerStep {
    /// The picker is open and waits for the next key.
    Continue(DiskPicker),
    /// The visit is over.
    Finished(FlowResult),
}

impl View for PickerStep {
    type V = StepModel;

    open spec fn view(&self) -> StepModel {
        match self {
            PickerStep::Continue(picker) => StepModel::Continue(picker@),
            PickerStep::Finished(result) => StepModel::Finished(result@),
        }
    }
}

impl DiskPicker {
    #[verifier::type_invariant]
    spec fn has_a_device(self) -> bool {
        self.list@.cursor < self.list@.items.len()
    }

    /// Opens the picker over the devices found, in their order, the cursor
    /// on the first. With no device the visit is over before it began.
    pub fn open(devices: Vec<String>) -> (step: PickerStep)
        ensures
            step@ == PickerModel::open(texts(devices@)),
            step@.wf(),
    {
        if devices.len() == 0 {
            PickerStep::Finished(FlowResult::NotFound)
        } else {
            PickerStep::Continue(DiskPicker { list: SelectableList::new(devices) })
        }
    }

    /// Opens the picker over what the device query gave. A query that could
    /// not be run is not a listing without devices: its failure is handed
    /// back as it is, and no visit begins.
    pub fn open_query<E>(query: Result<Vec<String>, E>) -> (opened: Result<PickerStep, E>)
        ensures
            query matches Ok(devices) ==> opened matches Ok(step) && step@ == PickerModel::open(
                texts(devices@),
            ) && step@.wf(),
            query matches Err(failure) ==> opened matches Err(handed) && handed == failure,
    {
        match query {
            Ok(devices) => Ok(DiskPicker::open(devices)),
            Err(failure) => Err(failure),
        }
    }

    /// The devices on offer, in order.
    pub fn devices(&self) -> (devices: &Vec<String>)
        ensures
            texts(devices@) == self@.devices,
            devices@.len() > 0,
    {
        proof {
            use_type_invariant(self);
        }
        self.list.items()
    }

    /// The index of the device under the cursor.
    pub fn cursor(&self) -> (cursor: usize)
        ensures
            cursor == self@.cursor,
            self@.wf(),
    {
        proof {
            use_type_invariant(self);
        }
        self.list.cursor()
    }

    /// The device under the cursor.
    pub fn current(&self) -> (device: &String)
        ensures
            device@ == self@.current(),
    {
        proof {
            use_type_invariant(self);
        }
        let cursor = self.list.cursor();
        &self.list.items()[cursor]
    }

    /// Takes one key press: `Up` and `Down` move the cursor, `Enter` ends
    /// the visit with the device under the cursor, `Escape` ends it without
    /// one, any other key changes nothing.
    pub fn on_key(self, key: Key) -> (step: PickerStep)
        ensures
            step@ == self@.after_key(key),
            step@.wf(),
    {
        proof {
            use_type_invariant(&self);
        }
        let mut list = self.list;
        match list.handle_key(key) {
            ListOutcome::Continue => PickerStep::Continue(DiskPicker { list }),
            ListOutcome::Chosen(row) => {
                let device = list.items()[row].clone();
                PickerStep::Finished(FlowResult::Selected(device))
            },
            ListOutcome::Dismissed => PickerStep::Finished(FlowResult::Cancelled),
        }
    }

    /// What to draw while the picker is open.
    pub fn screen(&self) -> (screen: Screen)
        ensures
            screen@ == self@.screen(),
            screen@.wf(),
    {
        proof {
            use_type_invariant(self);
        }
        let devices = self.list.items();
        let mut labels: Vec<String> = Vec::new();
        let mut i: usize = 0;
        while i < devices.len()
            invariant
                i <= devices.len(),
                labels@.len() == i,
                forall|j: int| 0 <= j < i ==> labels@[j]@ == devices@[j]@,
            decreases devices.len() - i,
        {
            labels.push(devices[i].clone());
            i = i + 1;
        }
        assert(texts(labels@) =~= texts(devices@));
        Screen {
            title: "Select a disk".to_owned(),
            labels,
            highlighted: self.list.cursor(),
            shape: ViewportShape::Full,
        }
    }
}

impl PickerStep {
    /// What to draw before the next key: the open picker, or nothing once
    /// the visit is over.
    pub fn screen(&self) -> (screen: Option<Screen>)
        ensures
            screen is Some <==> self@ is Continue,
            screen matches Some(s) ==> Some(s@) == self@.screen() && s@.wf(),
    {
        match self {
            PickerStep::Continue(picker) => Some(picker.screen()),
            PickerStep::Finished(_) => None,
        }
    }

    /// Hands one key press to the picker if it is still open; a finished
    /// visit stays as it ended.
    pub fn on_key(self, key: Key) -> (step: PickerStep)
        ensures
            step@ == self@.after_key(key),
            step@.wf(),
    {
        match self {
            PickerStep::Continue(picker) => picker.on_key(key),
            PickerStep::Finished(result) => PickerStep::Finished(result),
        }
    }
}

} // verus!
