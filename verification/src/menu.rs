//! Menu navigation: a list of labelled items, a selection cursor moved
//! up and down within bounds, and selection of the current item. The
//! presentation layer renders the labels and maps raw key events to
//! `MenuInput` values.

use vstd::prelude::*;
use vstd::string::StringExecFns;

use crate::scene::{scene_result_of_menu, MenuResult, SceneResult};

verus! {

/// An abstract navigation command for a menu.
#[derive(Copy, Clone, PartialEq, Eq, Structural, Debug)]
pub enum MenuInput {
    Up,
    Down,
    Select,
}

/// One selectable entry: its label text and the result selecting it asks
/// for.
pub struct MenuItem {
    pub result: MenuResult,
    pub label: String,
}

impl MenuItem {
    fn new(text: String, result: MenuResult) -> (item: MenuItem)
        ensures
            item.result == result,
            item.label == text,
    {
        MenuItem { result, label: text }
    }
}

pub struct Menu {
    pub menu_items: Vec<MenuItem>,
    pub selected_index: usize,
}

impl Menu {
    /// The cursor always rests on an item (or on 0 while the menu is
    /// still empty).
    pub open spec fn wf(self) -> bool {
        if self.menu_items@.len() == 0 {
            self.selected_index == 0
        } else {
            (self.selected_index as int) < self.menu_items@.len()
        }
    }

    pub fn new() -> (m: Menu)
        ensures
            m.wf(),
            m.menu_items@.len() == 0,
            m.selected_index == 0,
    {
        Menu { menu_items: Vec::new(), selected_index: 0 }
    }

    /// Appends an entry at the bottom of the menu.
    pub fn add_item(&mut self, text: String, result: MenuResult)
        requires
            old(self).wf(),
        ensures
            final(self).wf(),
            final(self).menu_items@.len() == old(self).menu_items@.len() + 1,
            final(self).menu_items@.last().result == result,
            final(self).menu_items@.last().label == text,
            forall|i: int| 0 <= i < old(self).menu_items@.len()
                ==> final(self).menu_items@[i] == old(self).menu_items@[i],
            final(self).selected_index == old(self).selected_index,
    {
        self.menu_items.push(MenuItem::new(text, result));
    }

    /// Moves the cursor one entry up, stopping at the top.
    fn up(&mut self) -> (r: MenuResult)
        requires
            old(self).wf(),
        ensures
            final(self).wf(),
            final(self).menu_items == old(self).menu_items,
            final(self).selected_index as int == if old(self).selected_index > 0 {
                old(self).selected_index - 1
            } else {
                0
            },
            r == MenuResult::Idle,
    {
        if self.selected_index > 0 {
            self.selected_index = self.selected_index - 1;
        }
        MenuResult::Idle
    }

    /// Moves the cursor one entry down, stopping at the bottom.
    fn down(&mut self) -> (r: MenuResult)
        requires
            old(self).wf(),
            old(self).menu_items@.len() > 0,
        ensures
            final(self).wf(),
            final(self).menu_items == old(self).menu_items,
            final(self).selected_index as int == if old(self).selected_index + 1 < old(
                self,
            ).menu_items@.len() {
                old(self).selected_index + 1
            } else {
                old(self).selected_index as int
            },
            r == MenuResult::Idle,
    {
        if self.selected_index < self.menu_items.len() - 1 {
            self.selected_index = self.selected_index + 1;
        }
        MenuResult::Idle
    }

    /// Handles one navigation command: `Up` and `Down` move the cursor
    /// and stay in the menu; `Select` reports the selected item's result
    /// as a scene result, leaving the menu unchanged.
    pub fn process(&mut self, input: MenuInput) -> (r: SceneResult)
        requires
            old(self).wf(),
            old(self).menu_items@.len() > 0,
        ensures
            final(self).wf(),
            final(self).menu_items == old(self).menu_items,
            match input {
                MenuInput::Up => final(self).selected_index as int == if old(
                    self,
                ).selected_index > 0 {
                    old(self).selected_index - 1
                } else {
                    0
                } && r == SceneResult::Idle,
                MenuInput::Down => final(self).selected_index as int == if old(
                    self,
                ).selected_index + 1 < old(self).menu_items@.len() {
                    old(self).selected_index + 1
                } else {
                    old(self).selected_index as int
                } && r == SceneResult::Idle,
                MenuInput::Select => final(self).selected_index == old(self).selected_index && r
                    == scene_result_of_menu(
                    old(self).menu_items@[old(self).selected_index as int].result,
                ),
            },
    {
        match input {
            MenuInput::Up => {
                let m = self.up();
                SceneResult::from(m)
            },
            MenuInput::Down => {
                let m = self.down();
                SceneResult::from(m)
            },
            MenuInput::Select => {
                let result = self.menu_items[self.selected_index].result;
                SceneResult::from(result)
            },
        }
    }
}

/// The top-level menu: start a new game or quit.
pub fn create_main_menu() -> (m: Menu)
    ensures
        m.wf(),
        m.menu_items@.len() == 2,
        m.selected_index == 0,
        m.menu_items@[0].result == MenuResult::NewGame,
        m.menu_items@[1].result == MenuResult::Quit,
{
    let mut menu = Menu::new();
    menu.add_item(String::from_str("New Game"), MenuResult::NewGame);
    menu.add_item(String::from_str("Quit"), MenuResult::Quit);
    menu
}

/// The in-game pause menu: resume, restart, or back to the main menu.
pub fn create_pause_menu() -> (m: Menu)
    ensures
        m.wf(),
        m.menu_items@.len() == 3,
        m.selected_index == 0,
        m.menu_items@[0].result == MenuResult::ResumeGame,
        m.menu_items@[1].result == MenuResult::NewGame,
        m.menu_items@[2].result == MenuResult::MainMenu,
{
    let mut menu = Menu::new();
    menu.add_item(String::from_str("Resume"), MenuResult::ResumeGame);
    menu.add_item(String::from_str("New Game"), MenuResult::NewGame);
    menu.add_item(String::from_str("Main Menu"), MenuResult::MainMenu);
    menu
}

} // verus!
