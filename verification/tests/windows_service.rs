use focus_service::service::hook_driver::StartupFatal;
use focus_service::service::windows_service::WindowsService;
use focus_service::service::windows_service::MAX_PATH;
use focus_service::service::ResolutionFailure;

fn units(text: &str) -> Vec<u16> {
    text.encode_utf16().collect()
}

#[test]
fn messaging_window_is_passed_on_unless_it_is_null() {
    assert_eq!(WindowsService::create_messaging_window(0x900, 0), Ok(0x900));
    assert_eq!(WindowsService::create_messaging_window(-3, 87), Ok(-3));
    assert_eq!(
        WindowsService::create_messaging_window(0, 1407),
        Err(StartupFatal::MessagingWindow { code: 1407 })
    );
}

#[test]
fn title_buffer_has_room_for_the_terminator() {
    assert_eq!(WindowsService::window_title_capacity(1), Ok(2));
    assert_eq!(WindowsService::window_title_capacity(17), Ok(18));
    assert_eq!(WindowsService::window_title_capacity(i32::MAX), Ok(2_147_483_648));
}

#[test]
fn window_without_title_length_fails() {
    assert_eq!(
        WindowsService::window_title_capacity(0),
        Err(ResolutionFailure::WindowTitleLength)
    );
    assert_eq!(
        WindowsService::window_title_capacity(-1),
        Err(ResolutionFailure::WindowTitleLength)
    );
}

#[test]
fn window_title_is_the_buffer_without_its_terminator() {
    let mut buffer = units("Inbox - Mail");
    buffer.push(0);
    assert_eq!(WindowsService::get_window_title(buffer, 12), Ok("Inbox - Mail".to_string()));
    assert_eq!(WindowsService::get_window_title(vec![72, 105, 0], 2), Ok("Hi".to_string()));
    assert_eq!(WindowsService::get_window_title(units("Größe ✓ 😀!"), 3), Ok("Größe ✓ 😀".to_string()));
}

#[test]
fn window_title_keeps_what_lies_behind_the_copied_part() {
    assert_eq!(
        WindowsService::get_window_title(vec![65, 0, 0, 0], 1),
        Ok("A\0\0".to_string())
    );
    assert_eq!(WindowsService::get_window_title(vec![], 4), Ok(String::new()));
}

#[test]
fn window_title_not_copied_fails() {
    assert_eq!(
        WindowsService::get_window_title(vec![72, 105, 0], 0),
        Err(ResolutionFailure::WindowTitle)
    );
}

#[test]
fn undecodable_units_are_replaced() {
    assert_eq!(
        WindowsService::get_window_title(vec![0xD800, 65, 0xDC00, 0], 3),
        Ok("\u{FFFD}A\u{FFFD}".to_string())
    );
}

#[test]
fn process_id_needs_a_thread() {
    assert_eq!(WindowsService::get_process_id(4, 918), Ok(918));
    assert_eq!(WindowsService::get_process_id(4, 0), Ok(0));
    assert_eq!(WindowsService::get_process_id(0, 918), Err(ResolutionFailure::ProcessId));
}

#[test]
fn process_handle_needs_an_open_process() {
    assert_eq!(WindowsService::get_process_handle(Some(0x2C4)), Ok(0x2C4));
    assert_eq!(WindowsService::get_process_handle(None), Err(ResolutionFailure::ProcessHandle));
}

#[test]
fn executable_path_is_the_reported_part_of_the_buffer() {
    let mut buffer = units("C:\\Program Files\\Editor\\editor.exe");
    let length = buffer.len() as u32;
    buffer.resize(MAX_PATH, 0);
    assert_eq!(
        WindowsService::get_process_executable_path(buffer.clone(), length),
        Ok("C:\\Program Files\\Editor\\editor.exe".to_string())
    );
    assert_eq!(WindowsService::get_process_executable_path(buffer.clone(), 2), Ok("C:".to_string()));
    let whole = WindowsService::get_process_executable_path(buffer, MAX_PATH as u32).unwrap();
    assert_eq!(whole.chars().count(), 260);
    assert!(whole.starts_with("C:\\Program Files\\Editor\\editor.exe\0"));
}

#[test]
fn executable_path_of_no_length_fails() {
    assert_eq!(
        WindowsService::get_process_executable_path(vec![0; MAX_PATH], 0),
        Err(ResolutionFailure::ExecutablePath)
    );
    assert_eq!(
        WindowsService::get_process_executable_path(Vec::new(), 0),
        Err(ResolutionFailure::ExecutablePath)
    );
}

#[test]
fn path_buffer_has_the_length_of_the_longest_path() {
    assert_eq!(MAX_PATH, 260);
    assert_eq!(MAX_PATH as u32, windows::Win32::Foundation::MAX_PATH);
}

#[test]
fn version_info_needs_a_size() {
    assert_eq!(WindowsService::version_info_capacity(1), Ok(1));
    assert_eq!(WindowsService::version_info_capacity(2_048), Ok(2_048));
    assert_eq!(
        WindowsService::version_info_capacity(0),
        Err(ResolutionFailure::VersionInfoSize)
    );
}

#[test]
fn version_info_needs_to_be_read() {
    assert_eq!(WindowsService::version_info_read(true), Ok(()));
    assert_eq!(WindowsService::version_info_read(false), Err(ResolutionFailure::VersionInfo));
}

#[test]
fn app_title_is_the_description_without_its_terminator() {
    let mut description = units("Text Editor");
    description.push(0);
    assert_eq!(WindowsService::get_app_title(Some(description)), Ok("Text Editor".to_string()));
    assert_eq!(WindowsService::get_app_title(Some(units("Mail😀"))), Ok("Mail".to_string()));
    assert_eq!(WindowsService::get_app_title(Some(vec![0])), Ok(String::new()));
    assert_eq!(WindowsService::get_app_title(Some(Vec::new())), Ok(String::new()));
    assert_eq!(
        WindowsService::get_app_title(Some(vec![66, 0xD800])),
        Ok("B".to_string())
    );
}

#[test]
fn app_title_without_description_fails() {
    assert_eq!(WindowsService::get_app_title(None), Err(ResolutionFailure::AppTitle));
}

#[test]
fn terminator_is_the_last_character() {
    assert_eq!(WindowsService::without_terminator("Notepad\0".to_string()), "Notepad");
    assert_eq!(WindowsService::without_terminator("Notepad".to_string()), "Notepa");
    assert_eq!(WindowsService::without_terminator("é".to_string()), "");
    assert_eq!(WindowsService::without_terminator(String::new()), "");
}
