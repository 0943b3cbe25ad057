use kontroll::api::Keyboard;
use kontroll::cli::{confirmation, invocation, keyboard_line, Commands, Invocation, FAILURE_EXIT_CODE};

#[test]
fn set_rgb_converts_the_color_first() {
    let cmd = Commands::SetRGB { led: 4, color: "#3edece".to_string(), sustain: 10 };
    assert_eq!(
        invocation(&cmd).unwrap(),
        Invocation::SetRgbLed { index: 4, r: 62, g: 222, b: 206, sustain: 10 }
    );
    let cmd = Commands::SetRGBAll { color: "ff0000".to_string(), sustain: 0 };
    assert_eq!(invocation(&cmd).unwrap(), Invocation::SetRgbAll { r: 255, g: 0, b: 0, sustain: 0 });
}

#[test]
fn invalid_color_stops_before_any_call() {
    let cmd = Commands::SetRGB { led: 4, color: "#zz0000".to_string(), sustain: 0 };
    assert_eq!(invocation(&cmd).unwrap_err(), "#zz0000 is not a valid hex color");
    let cmd = Commands::SetRGBAll { color: "fff".to_string(), sustain: 0 };
    assert_eq!(invocation(&cmd).unwrap_err(), "fff is not a valid hex color");
}

#[test]
fn commands_map_to_calls() {
    assert_eq!(invocation(&Commands::Status { json: true }).unwrap(), Invocation::GetStatus);
    assert_eq!(invocation(&Commands::List).unwrap(), Invocation::ListKeyboards);
    assert_eq!(invocation(&Commands::Connect { index: 2 }).unwrap(), Invocation::Connect { index: 2 });
    assert_eq!(invocation(&Commands::ConnectAny).unwrap(), Invocation::ConnectAny);
    assert_eq!(invocation(&Commands::SetLayer { index: 1 }).unwrap(), Invocation::SetLayer { index: 1 });
    assert_eq!(invocation(&Commands::RestoreRGBLeds).unwrap(), Invocation::RestoreRgbLeds);
    assert_eq!(
        invocation(&Commands::SetStatusLed { led: 2, off: true, sustain: 3 }).unwrap(),
        Invocation::SetStatusLed { led: 2, on: false, sustain: 3 }
    );
    assert_eq!(invocation(&Commands::RestoreStatusLeds).unwrap(), Invocation::RestoreStatusLeds);
    assert_eq!(
        invocation(&Commands::IncreaseBrightness { steps: 3 }).unwrap(),
        Invocation::UpdateBrightness { increase: true, steps: 3 }
    );
    assert_eq!(
        invocation(&Commands::DecreaseBrightness { steps: 0 }).unwrap(),
        Invocation::UpdateBrightness { increase: false, steps: 0 }
    );
    assert_eq!(invocation(&Commands::Disconnect).unwrap(), Invocation::Disconnect);
}

#[test]
fn confirmation_lines() {
    let line = |cmd: Commands| confirmation(&cmd);
    assert_eq!(line(Commands::Status { json: false }), None);
    assert_eq!(line(Commands::List), None);
    assert_eq!(line(Commands::Connect { index: 3 }).unwrap(), "Connected to keyboard 3");
    assert_eq!(
        line(Commands::ConnectAny).unwrap(),
        "Connected to the first keyboard detected by keymapp"
    );
    assert_eq!(line(Commands::SetLayer { index: 10 }).unwrap(), "Layer set to 10");
    assert_eq!(
        line(Commands::SetRGB { led: 0, color: "#ff0000".to_string(), sustain: 0 }).unwrap(),
        "LED 0 set to color #ff0000"
    );
    assert_eq!(
        line(Commands::SetRGBAll { color: "3edece".to_string(), sustain: 0 }).unwrap(),
        "All LEDs set to color 3edece"
    );
    assert_eq!(line(Commands::RestoreRGBLeds).unwrap(), "All LEDs restored to their default color");
    assert_eq!(
        line(Commands::SetStatusLed { led: 1, off: false, sustain: 0 }).unwrap(),
        "Status LED 1 turned on"
    );
    assert_eq!(
        line(Commands::SetStatusLed { led: 2, off: true, sustain: 0 }).unwrap(),
        "Status LED 2 turned off"
    );
    assert_eq!(
        line(Commands::RestoreStatusLeds).unwrap(),
        "All status LEDs restored to their default state"
    );
    assert_eq!(line(Commands::IncreaseBrightness { steps: 1 }).unwrap(), "Brightness increased");
    assert_eq!(line(Commands::DecreaseBrightness { steps: 1 }).unwrap(), "Brightness decreased");
    assert_eq!(
        line(Commands::Disconnect).unwrap(),
        "Disconnected from the currently connected keyboard"
    );
}

#[test]
fn large_index_in_confirmation() {
    let line = confirmation(&Commands::Connect { index: 18446744073709551615 }).unwrap();
    assert_eq!(line, "Connected to keyboard 18446744073709551615");
}

#[test]
fn keyboard_listing_lines() {
    let k = Keyboard { id: 1, friendly_name: "Voyager".to_string(), is_connected: true };
    assert_eq!(keyboard_line(&k), "1: Voyager (connected)");
    let k = Keyboard { id: -4, friendly_name: "Moonlander".to_string(), is_connected: false };
    assert_eq!(keyboard_line(&k), "-4: Moonlander ");
}

#[test]
fn failure_exit_code_is_one() {
    assert_eq!(FAILURE_EXIT_CODE, 1);
}
