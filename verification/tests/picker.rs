use install_menu::picker::{DiskPicker, FlowResult, PickerStep};
use install_menu::screen::ViewportShape;
use install_menu::selection::Key;

fn devices(names: &[&str]) -> Vec<String> {
    names.iter().map(|name| name.to_string()).collect()
}

fn press(step: PickerStep, keys: &[Key]) -> PickerStep {
    let mut step = step;
    for key in keys {
        step = step.on_key(*key);
    }
    step
}

fn result_of(step: PickerStep) -> Option<FlowResult> {
    match step {
        PickerStep::Finished(result) => Some(result),
        PickerStep::Continue(_) => None,
    }
}

#[test]
fn down_then_enter_selects_the_second_disk() {
    let step = DiskPicker::open(devices(&["/dev/sda", "/dev/sdb"]));
    let step = press(step, &[Key::Down, Key::Enter]);
    assert_eq!(result_of(step), Some(FlowResult::Selected("/dev/sdb".to_string())));
}

#[test]
fn no_devices_is_not_found_without_a_picker() {
    let step = DiskPicker::open(Vec::new());
    assert_eq!(result_of(step), Some(FlowResult::NotFound));
}

#[test]
fn picker_opens_on_the_first_device() {
    match DiskPicker::open(devices(&["/dev/sda", "/dev/sdb", "/dev/sdc"])) {
        PickerStep::Continue(picker) => {
            assert_eq!(picker.cursor(), 0);
            assert_eq!(picker.current(), "/dev/sda");
            assert_eq!(picker.devices(), &devices(&["/dev/sda", "/dev/sdb", "/dev/sdc"]));
        }
        PickerStep::Finished(_) => panic!("the picker should be open"),
    }
}

#[test]
fn enter_on_row_i_selects_device_i() {
    let names = ["/dev/sda", "/dev/nvme0n1", "/dev/vda", "/dev/sdb"];
    for i in 0..names.len() {
        let mut keys = vec![Key::Down; i];
        keys.push(Key::Enter);
        let step = press(DiskPicker::open(devices(&names)), &keys);
        assert_eq!(result_of(step), Some(FlowResult::Selected(names[i].to_string())));
    }
}

#[test]
fn enter_at_once_selects_the_first_device() {
    let step = press(DiskPicker::open(devices(&["/dev/sda", "/dev/sdb"])), &[Key::Enter]);
    assert_eq!(result_of(step), Some(FlowResult::Selected("/dev/sda".to_string())));
}

#[test]
fn escape_cancels_from_every_row() {
    let names = ["/dev/sda", "/dev/sdb", "/dev/sdc"];
    for i in 0..names.len() {
        let mut keys = vec![Key::Down; i];
        keys.push(Key::Escape);
        let step = press(DiskPicker::open(devices(&names)), &keys);
        assert_eq!(result_of(step), Some(FlowResult::Cancelled));
    }
}

#[test]
fn picker_cursor_stops_at_the_ends() {
    let step = DiskPicker::open(devices(&["/dev/sda", "/dev/sdb"]));
    let step = press(step, &[Key::Up, Key::Up]);
    match &step {
        PickerStep::Continue(picker) => assert_eq!(picker.cursor(), 0),
        PickerStep::Finished(_) => panic!("the picker should be open"),
    }
    let step = press(step, &[Key::Down, Key::Down, Key::Down]);
    match &step {
        PickerStep::Continue(picker) => {
            assert_eq!(picker.cursor(), 1);
            assert_eq!(picker.current(), "/dev/sdb");
        }
        PickerStep::Finished(_) => panic!("the picker should be open"),
    }
    let step = press(step, &[Key::Enter]);
    assert_eq!(result_of(step), Some(FlowResult::Selected("/dev/sdb".to_string())));
}

#[test]
fn other_keys_are_ignored_by_the_picker() {
    let step = DiskPicker::open(devices(&["/dev/sda", "/dev/sdb"]));
    let step = press(step, &[Key::Down, Key::Other, Key::Other]);
    match step {
        PickerStep::Continue(picker) => {
            assert_eq!(picker.cursor(), 1);
            assert_eq!(picker.devices().len(), 2);
        }
        PickerStep::Finished(_) => panic!("the picker should be open"),
    }
}

#[test]
fn a_finished_visit_takes_no_more_keys() {
    let step = press(DiskPicker::open(devices(&["/dev/sda", "/dev/sdb"])), &[Key::Escape]);
    let step = press(step, &[Key::Down, Key::Enter]);
    assert_eq!(result_of(step), Some(FlowResult::Cancelled));
    let step = press(DiskPicker::open(Vec::new()), &[Key::Enter]);
    assert_eq!(result_of(step), Some(FlowResult::NotFound));
}

#[test]
fn picker_screen_lists_the_devices_over_the_full_viewport() {
    let step = press(DiskPicker::open(devices(&["/dev/sda", "/dev/sdb"])), &[Key::Down]);
    match step {
        PickerStep::Continue(picker) => {
            let screen = picker.screen();
            assert_eq!(screen.title, "Select a disk");
            assert_eq!(screen.labels, devices(&["/dev/sda", "/dev/sdb"]));
            assert_eq!(screen.highlighted, 1);
            assert_eq!(screen.shape, ViewportShape::Full);
        }
        PickerStep::Finished(_) => panic!("the picker should be open"),
    }
}

#[test]
fn each_result_has_its_report() {
    assert_eq!(
        FlowResult::Selected("/dev/sda".to_string()).report(),
        "Selected disk: /dev/sda"
    );
    assert_eq!(FlowResult::Cancelled.report(), "Disk selection canceled");
    assert_eq!(FlowResult::NotFound.report(), "No disks found");
}

#[test]
fn a_result_clones_to_an_equal_result() {
    let selected = FlowResult::Selected("/dev/vda".to_string());
    assert_eq!(selected.clone(), selected);
    assert_eq!(FlowResult::Cancelled.clone(), FlowResult::Cancelled);
    assert_eq!(FlowResult::NotFound.clone(), FlowResult::NotFound);
    assert_ne!(FlowResult::NotFound, FlowResult::Cancelled);
}

#[test]
fn nothing_is_drawn_over_no_devices() {
    let step = DiskPicker::open(Vec::new());
    assert!(step.screen().is_none());
}

#[test]
fn an_open_picker_is_drawn_and_a_finished_visit_is_not() {
    let step = DiskPicker::open(devices(&["/dev/sda"]));
    let screen = step.screen().unwrap();
    assert_eq!(screen.labels, devices(&["/dev/sda"]));
    assert_eq!(screen.highlighted, 0);
    let step = step.on_key(Key::Enter);
    assert!(step.screen().is_none());
}

#[test]
fn a_failed_query_is_not_an_empty_listing() {
    let failed: Result<Vec<String>, String> = Err("lsblk: command not found".to_string());
    match DiskPicker::open_query(failed) {
        Err(failure) => assert_eq!(failure, "lsblk: command not found"),
        Ok(_) => panic!("a failed query must not open the picker"),
    }

    let empty: Result<Vec<String>, String> = Ok(Vec::new());
    match DiskPicker::open_query(empty) {
        Ok(step) => assert_eq!(result_of(step), Some(FlowResult::NotFound)),
        Err(_) => panic!("an empty listing is no failure"),
    }

    let found: Result<Vec<String>, String> = Ok(devices(&["/dev/sda"]));
    match DiskPicker::open_query(found) {
        Ok(PickerStep::Continue(picker)) => assert_eq!(picker.current(), "/dev/sda"),
        _ => panic!("the picker should be open"),
    }
}
