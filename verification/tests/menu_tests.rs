use purple_box::menu::{Menu, MenuOption};

#[test]
fn menu_starts_on_the_start_entry() {
    let menu = Menu::new();
    assert_eq!(*menu.get_selected_option(), MenuOption::Start);
}

#[test]
fn select_next_goes_round() {
    let mut menu = Menu::new();
    menu.select_next();
    assert_eq!(*menu.get_selected_option(), MenuOption::Quit);
    menu.select_next();
    assert_eq!(*menu.get_selected_option(), MenuOption::Start);
}

#[test]
fn select_previous_goes_round() {
    let mut menu = Menu::new();
    menu.select_previous();
    assert_eq!(*menu.get_selected_option(), MenuOption::Quit);
    menu.select_previous();
    assert_eq!(*menu.get_selected_option(), MenuOption::Start);
}

#[test]
fn next_and_previous_undo_each_other() {
    let mut menu = Menu::new();
    menu.select_next();
    menu.select_previous();
    assert_eq!(menu, Menu::new());
}
