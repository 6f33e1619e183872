//! The main menu: a fixed list of actions, a cursor over it, and the state
//! that says whether the menu runs, has handed over to the disk picker, or
//! has been left.

use crate::picker::FlowResult;
use crate::screen::{Screen, ScreenModel, ViewportShape};
use crate::selection::{cursor_after, Key, ListOutcome, SelectableList};
use vstd::prelude::*;

verus! {

/// An entry of the main menu.
#[derive(Clone, Copy, PartialEq, Eq, Debug, Structural)]
pub enum MenuAction {
    /// Go on to choose the disk to install to.
    Install,
    /// Leave the program.
    Exit,
}

impl MenuAction {
    /// The text of the entry's row.
    pub open spec fn label_text(self) -> Seq<char> {
        match self {
            MenuAction::Install => "Install Arch Linux"@,
            MenuAction::Exit => "Exit"@,
        }
    }

    /// The text of the entry's row.
    pub fn label(self) -> (label: &'static str)
        ensures
            label@ == self.label_text(),
    {
        match self {
            MenuAction::Install => "Install Arch Linux",
            MenuAction::Exit => "Exit",
        }
    }
}

/// The entries of the main menu, from top to bottom.
pub open spec fn menu_actions() -> Seq<MenuAction> {
    seq![MenuAction::Install, MenuAction::Exit]
}

/// Whether the main menu runs, waits for the disk picker, or is over.
#[derive(Clone, Copy, PartialEq, Eq, Debug, Structural)]
pub enum MenuState {
    /// The menu is shown and takes keys.
    Running,
    /// `Install` was confirmed: the disk picker has the keyboard, and the
    /// menu waits for its result.
    TransferringToSubflow,
    /// The menu was left. No key changes this.
    Exited,
}

/// What the main menu asks of its caller next.
#[derive(PartialEq, Eq, Debug)]
pub enum MenuRequest {
    /// Draw this screen, wait for a key and hand it to
    /// [`MenuController::on_key`].
    Draw(Screen),
    /// Run the disk picker to its end and hand its result to
    /// [`MenuController::resume`].
    RunPicker,
    /// Stop: the menu is over.
    Stop,
}

/// What a [`MenuRequest`] stands for.
pub enum RequestModel {
    Draw(ScreenModel),
    RunPicker,
    Stop,
}

impl View for MenuRequest {
    type V = RequestModel;

    open spec fn view(&self) -> RequestModel {
        match self {
            MenuRequest::Draw(screen) => RequestModel::Draw(screen@),
            MenuRequest::RunPicker => RequestModel::RunPicker,
            MenuRequest::Stop => RequestModel::Stop,
        }
    }
}

/// What a [`MenuController`] stands for: the index of the entry under the
/// cursor, and the state.
pub struct MenuModel {
    pub cursor: nat,
    pub state: MenuState,
}

impl MenuModel {
    /// The cursor stands on an entry.
    pub open spec fn wf(self) -> bool {
        self.cursor < menu_actions().len()
    }

    /// The menu as it starts: running, the cursor on the first entry.
    pub open spec fn initial() -> MenuModel {
        MenuModel { cursor: 0, state: MenuState::Running }
    }

    /// The entry under the cursor.
    pub open spec fn action(self) -> MenuAction {
        menu_actions()[self.cursor as int]
    }

    /// The menu after one key press. Only a running menu takes keys: `Up`
    /// and `Down` move the cursor, `Enter` hands over to the disk picker on
    /// `Install` and leaves on `Exit`, `Escape` leaves, any other key
    /// changes nothing.
    pub open spec fn after_key(self, key: Key) -> MenuModel {
        if self.state != MenuState::Running {
            self
        } else {
            match key {
                Key::Enter => match self.action() {
                    MenuAction::Install => MenuModel {
                        cursor: self.cursor,
                        state: MenuState::TransferringToSubflow,
                    },
                    MenuAction::Exit => MenuModel { cursor: self.cursor, state: MenuState::Exited },
                },
                Key::Escape => MenuModel { cursor: self.cursor, state: MenuState::Exited },
                _ => MenuModel {
                    cursor: cursor_after(self.cursor, menu_actions().len(), key),
                    state: MenuState::Running,
                },
            }
        }
    }

    /// A run of key presses, first key first.
    pub open spec fn after_keys(self, keys: Seq<Key>) -> MenuModel
        decreases keys.len(),
    {
        if keys.len() == 0 {
            self
        } else {
            self.after_key(keys[0]).after_keys(keys.drop_first())
        }
    }

    /// The menu after the disk picker has returned: a waiting menu runs
    /// again, with the cursor where it was; any other menu is unchanged.
    pub open spec fn after_subflow(self) -> MenuModel {
        if self.state == MenuState::TransferringToSubflow {
            MenuModel { cursor: self.cursor, state: MenuState::Running }
        } else {
            self
        }
    }

    /// What the menu asks to have drawn: its entries as rows, the one under
    /// the cursor highlighted, in the upper part of the terminal.
    pub open spec fn screen(self) -> ScreenModel {
        ScreenModel {
            title: "Main Menu"@,
            labels: menu_actions().map_values(|action: MenuAction| action.label_text()),
            highlighted: self.cursor,
            shape: ViewportShape::UpperPart,
        }
    }

    /// What the menu asks of its caller next: a running menu is drawn before
    /// every key, a waiting menu has the disk picker run, a menu that was
    /// left has the caller stop.
    pub open spec fn request(self) -> RequestModel {
        match self.state {
            MenuState::Running => RequestModel::Draw(self.screen()),
            MenuState::TransferringToSubflow => RequestModel::RunPicker,
            MenuState::Exited => RequestModel::Stop,
        }
    }
}

/// The cursor of the menu stands on an entry after any run of key presses,
/// and a menu that was left stays left.
pub proof fn lemma_menu_stays_well_formed(menu: MenuModel, keys: Seq<Key>)
    requires
        menu.wf(),
    ensures
        menu.after_keys(keys).wf(),
        menu.state == MenuState::Exited ==> menu.after_keys(keys) == menu,
    decreases keys.len(),
{
    if keys.len() > 0 {
        lemma_menu_stays_well_formed(menu.after_key(keys[0]), keys.drop_first());
    }
}

/// `Escape` leaves a running menu whatever entry the cursor is on.
pub proof fn lemma_escape_leaves_the_menu(menu: MenuModel)
    requires
        menu.state == MenuState::Running,
    ensures
        menu.after_key(Key::Escape).state == MenuState::Exited,
{
}

/// The return from the disk picker leaves the menu's own cursor where it
/// was, however the visit ended: a menu that waited runs again, any other
/// menu is unchanged.
pub proof fn lemma_picker_leaves_menu_cursor(menu: MenuModel)
    ensures
        menu.after_subflow().cursor == menu.cursor,
        menu.state == MenuState::TransferringToSubflow ==> menu.after_subflow().state
            == MenuState::Running,
        menu.state != MenuState::TransferringToSubflow ==> menu.after_subflow() == menu,
{
}

/// A visit to the disk picker and back leaves a running menu as it was:
/// `Enter` on `Install` makes the menu wait, and the return from the picker
/// makes it run again with the cursor still on `Install`.
pub proof fn lemma_install_and_back(menu: MenuModel)
    requires
        menu.wf(),
        menu.state == MenuState::Running,
        menu.action() == MenuAction::Install,
    ensures
        menu.after_key(Key::Enter).state == MenuState::TransferringToSubflow,
        menu.after_key(Key::Enter).after_subflow() == menu,
{
}

/// The main menu.
#[derive(Debug)]
pub struct MenuController {
    list: SelectableList<MenuAction>,
    state: MenuState,
}

impl View for MenuController {
    type V = MenuModel;

    closed spec fn view(&self) -> MenuModel {
        MenuModel { cursor: self.list@.cursor, state: self.state }
    }
}

impl MenuController {
    #[verifier::type_invariant]
    spec fn over_the_actions(self) -> bool {
        &&& self.list@.items == menu_actions()
        &&& self.list@.cursor < menu_actions().len()
    }

    /// The menu as it starts: running, the cursor on the first entry.
    pub fn new() -> (menu: MenuController)
        ensures
            menu@ == MenuModel::initial(),
    {
        let mut actions: Vec<MenuAction> = Vec::new();
        actions.push(MenuAction::Install);
        actions.push(MenuAction::Exit);
        assert(actions@ =~= menu_actions());
        MenuController { list: SelectableList::new(actions), state: MenuState::Running }
    }

    pub fn state(&self) -> (state: MenuState)
        ensures
            state == self@.state,
    {
        self.state
    }

    /// The index of the entry under the cursor.
    pub fn cursor(&self) -> (cursor: usize)
        ensures
            cursor == self@.cursor,
            self@.wf(),
    {
        proof {
            use_type_invariant(self);
        }
        self.list.cursor()
    }

    /// The entry under the cursor.
    pub fn selected_action(&self) -> (action: MenuAction)
        ensures
            action == self@.action(),
    {
        proof {
            use_type_invariant(self);
        }
        let cursor = self.list.cursor();
        self.list.items()[cursor]
    }

    /// Takes one key press. A menu that waits for the disk picker or that
    /// was left ignores it.
    pub fn on_key(&mut self, key: Key)
        ensures
            final(self)@ == old(self)@.after_key(key),
            final(self)@.wf(),
    {
        proof {
            use_type_invariant(&*self);
        }
        match self.state {
            MenuState::Running => {
                match self.list.handle_key(key) {
                    ListOutcome::Continue => {},
                    ListOutcome::Chosen(row) => {
                        match self.list.items()[row] {
                            MenuAction::Install => {
                                self.state = MenuState::TransferringToSubflow;
                            },
                            MenuAction::Exit => {
                                self.state = MenuState::Exited;
                            },
                        }
                    },
                    ListOutcome::Dismissed => {
                        self.state = MenuState::Exited;
                    },
                }
            },
            _ => {},
        }
    }

    /// Takes the disk picker's result and goes on running. Every result is
    /// taken alike: the menu does not end on any of them, and its cursor
    /// stays where it was. Returns the line that tells the user how the
    /// visit ended.
    pub fn resume(&mut self, result: FlowResult) -> (report: String)
        ensures
            final(self)@ == old(self)@.after_subflow(),
            final(self)@.wf(),
            report@ == result@.report(),
    {
        proof {
            use_type_invariant(&*self);
        }
        match self.state {
            MenuState::TransferringToSubflow => {
                self.state = MenuState::Running;
            },
            _ => {},
        }
        result.report()
    }

    /// What the caller is to do next.
    pub fn request(&self) -> (request: MenuRequest)
        ensures
            request@ == self@.request(),
    {
        match self.state {
            MenuState::Running => MenuRequest::Draw(self.screen()),
            MenuState::TransferringToSubflow => MenuRequest::RunPicker,
            MenuState::Exited => MenuRequest::Stop,
        }
    }

    /// What to draw while the menu runs.
    pub fn screen(&self) -> (screen: Screen)
        ensures
            screen@ == self@.screen(),
            screen@.wf(),
    {
        proof {
            use_type_invariant(self);
        }
        let mut labels: Vec<String> = Vec::new();
        labels.push(MenuAction::Install.label().to_owned());
        labels.push(MenuAction::Exit.label().to_owned());
        let screen = Screen {
            title: "Main Menu".to_owned(),
            labels,
            highlighted: self.list.cursor(),
            shape: ViewportShape::UpperPart,
        };
        assert(screen@.labels =~= self@.screen().labels);
        screen
    }
}

} // verus!
